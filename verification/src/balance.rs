use vstd::prelude::*;

use crate::decimal::{decimal_int, push_decimal_i64};
use crate::starknet::{be_value, token_unit};

verus! {

proof fn lemma_be_value_step(b: Seq<u8>, i: int)
    requires
        0 <= i < b.len(),
    ensures
        be_value(b.take(i + 1)) == be_value(b.take(i)) * 256 + b[i],
{
    assert(b.take(i + 1).drop_last() =~= b.take(i));
}

proof fn lemma_be_value_prefix_le(b: Seq<u8>, i: int, j: int)
    requires
        0 <= i <= j <= b.len(),
    ensures
        be_value(b.take(i)) <= be_value(b.take(j)),
    decreases j - i,
{
    if i < j {
        lemma_be_value_prefix_le(b, i, j - 1);
        lemma_be_value_step(b, j - 1);
    }
}

proof fn lemma_long_division_step(v: int, q: int, r: int, byte: int, d: int, m: int, u: int)
    requires
        u > 0,
        v == q * u + r,
        0 <= r < u,
        r * 256 + byte == d * u + m,
        0 <= m < u,
    ensures
        (v * 256 + byte) / u == q * 256 + d,
        (v * 256 + byte) % u == m,
{
    assert(v * 256 + byte == (q * 256 + d) * u + m) by (nonlinear_arith)
        requires
            v == q * u + r,
            r * 256 + byte == d * u + m,
    ;
    vstd::arithmetic::div_mod::lemma_fundamental_div_mod_converse(v * 256 + byte, u, q * 256 + d, m);
}

/// The whole tokens in a raw ERC-20 balance (a field element, as 32
/// big-endian bytes): the balance divided by 10^18, rounded down, or `None`
/// when that does not fit in an `i64`.
pub fn tokens_from_raw(raw: &[u8; 32]) -> (r: Option<i64>)
    ensures
        r == if be_value(raw@) / token_unit() <= i64::MAX {
            Some((be_value(raw@) / token_unit()) as i64)
        } else {
            None::<i64>
        },
{
    let unit: u128 = 1_000_000_000_000_000_000;
    let mut q: u128 = 0;
    let mut rem: u128 = 0;
    let mut i: usize = 0;
    proof {
        assert(raw@.take(0) =~= Seq::<u8>::empty());
    }
    while i < 32
        invariant
            0 <= i <= 32,
            raw@.len() == 32,
            unit == token_unit(),
            q as nat == be_value(raw@.take(i as int)) / token_unit(),
            rem as nat == be_value(raw@.take(i as int)) % token_unit(),
            q <= i64::MAX,
        decreases 32 - i,
    {
        let byte: u8 = raw[i];
        let cur: u128 = rem * 256 + byte as u128;
        let d: u128 = cur / unit;
        let m: u128 = cur % unit;
        proof {
            let v = be_value(raw@.take(i as int)) as int;
            lemma_long_division_step(v, q as int, rem as int, byte as int, d as int, m as int, unit as int);
            lemma_be_value_step(raw@, i as int);
            assert(d < 256) by (nonlinear_arith)
                requires
                    cur == d * unit + m,
                    0 <= m,
                    cur < 256 * unit,
                    unit > 0,
            ;
        }
        let nq: u128 = q * 256 + d;
        if nq > 0x7fff_ffff_ffff_ffff {
            proof {
                lemma_be_value_prefix_le(raw@, i + 1, 32);
                assert(raw@.take(32) =~= raw@);
                vstd::arithmetic::div_mod::lemma_div_is_ordered(
                    be_value(raw@.take(i + 1)) as int,
                    be_value(raw@) as int,
                    unit as int,
                );
            }
            return None;
        }
        q = nq;
        rem = m;
        i = i + 1;
    }
    proof {
        assert(raw@.take(32) =~= raw@);
    }
    Some(q as i64)
}

/// The reply to `/balance`: "Balance of brother = {balance}$".
pub fn balance_reply(balance: i64) -> (s: String)
    ensures
        s@ == "Balance of brother = "@ + decimal_int(balance as int) + "$"@,
{
    let mut s = String::from_str("Balance of brother = ");
    push_decimal_i64(&mut s, balance);
    s.append("$");
    s
}

} // verus!
