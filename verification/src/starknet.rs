use vstd::prelude::*;

verus! {

/// The prime of the Starknet field: 2^251 + 17 * 2^192 + 1.
pub open spec fn stark_prime() -> nat {
    0x800000000000011000000000000000000000000000000000000000000000001nat
}

/// How many of the smallest units make one token (18 decimals).
pub open spec fn token_unit() -> nat {
    1_000_000_000_000_000_000nat
}

pub open spec fn is_hex_digit(c: char) -> bool {
    ('0' <= c && c <= '9') || ('a' <= c && c <= 'f') || ('A' <= c && c <= 'F')
}

pub open spec fn hex_digit_value(c: char) -> nat {
    if '0' <= c && c <= '9' {
        (c as int - '0' as int) as nat
    } else if 'a' <= c && c <= 'f' {
        (c as int - 'a' as int + 10) as nat
    } else {
        (c as int - 'A' as int + 10) as nat
    }
}

/// The number that a string of hex digits writes, most significant first.
pub open spec fn hex_value(s: Seq<char>) -> nat
    decreases s.len(),
{
    if s.len() == 0 {
        0
    } else {
        hex_value(s.drop_last()) * 16 + hex_digit_value(s.last())
    }
}

/// The digits of a hex string: a leading "0x" is dropped when more follows.
pub open spec fn hex_body(s: Seq<char>) -> Seq<char> {
    if s.len() > 2 && s[0] == '0' && s[1] == 'x' {
        s.skip(2)
    } else {
        s
    }
}

/// Whether a string names a field element in hex: 1 to 64 hex digits after an
/// optional "0x", for a number no larger than the prime.
pub open spec fn felt_hex_accepted(s: Seq<char>) -> bool {
    let body = hex_body(s);
    &&& 0 < body.len() <= 64
    &&& forall|i: int| 0 <= i < body.len() ==> is_hex_digit(#[trigger] body[i])
    &&& hex_value(body) <= stark_prime()
}

/// The number that bytes write in big-endian order.
pub open spec fn be_value(b: Seq<u8>) -> nat
    decreases b.len(),
{
    if b.len() == 0 {
        0
    } else {
        be_value(b.drop_last()) * 256 + (b.last() as nat)
    }
}

/// Parses a field element written in hex and gives its 32 big-endian bytes.
/// It calls `starknet::core::types::Felt::from_hex` and then `Felt::to_bytes_be`.
/// Claimed: the parse succeeds exactly on the strings of `felt_hex_accepted`
/// (lambdaworks' `UnsignedInteger::from_hex`, then the check against the
/// modulus), and the bytes hold the number modulo the prime.
#[verifier::external_body]
fn felt_from_hex(s: &str) -> (r: Option<[u8; 32]>)
    ensures
        r is Some <==> felt_hex_accepted(s@),
        r matches Some(b) ==> be_value(b@) == felt_of_hex(s@),
{
    match starknet::core::types::Felt::from_hex(s) {
        Ok(f) => Some(f.to_bytes_be()),
        Err(_) => None,
    }
}

/// The contract entry points the bot calls.
#[derive(Clone, Copy, Debug, PartialEq, Eq, Structural)]
pub enum EntryPoint {
    /// ERC-20 `balanceOf(account)`.
    BalanceOf,
    /// The account contract's `get_public_key()`.
    GetPublicKey,
}

/// A read-only call to a contract, with field elements as big-endian bytes.
#[derive(Clone, Debug, PartialEq, Eq)]
pub struct ContractCall {
    pub contract_address: [u8; 32],
    pub entry_point: EntryPoint,
    pub calldata: Vec<[u8; 32]>,
}

/// The field element that an accepted hex string names, as a number.
pub open spec fn felt_of_hex(s: Seq<char>) -> nat {
    hex_value(hex_body(s)) % stark_prime()
}

/// `c` calls `balanceOf(account)` on the token contract, both addresses as
/// written in hex.
pub open spec fn is_balance_of_call(c: ContractCall, token: Seq<char>, account: Seq<char>) -> bool {
    &&& c.entry_point == EntryPoint::BalanceOf
    &&& be_value(c.contract_address@) == felt_of_hex(token)
    &&& c.calldata@.len() == 1
    &&& be_value(c.calldata@[0]@) == felt_of_hex(account)
}

/// `c` calls `get_public_key()` on the contract at `account`.
pub open spec fn is_public_key_call(c: ContractCall, account: Seq<char>) -> bool {
    &&& c.entry_point == EntryPoint::GetPublicKey
    &&& be_value(c.contract_address@) == felt_of_hex(account)
    &&& c.calldata@.len() == 0
}

/// The call that reads the token balance of `account_addr` on the ERC-20
/// contract `token_addr`; `None` when either address is not a field element
/// in hex.
pub fn balance_of_call(token_addr: &str, account_addr: &str) -> (r: Option<ContractCall>)
    ensures
        r is Some <==> felt_hex_accepted(token_addr@) && felt_hex_accepted(account_addr@),
        r matches Some(c) ==> is_balance_of_call(c, token_addr@, account_addr@),
{
    let token = felt_from_hex(token_addr);
    let account = felt_from_hex(account_addr);
    match (token, account) {
        (Some(t), Some(a)) => {
            let mut calldata: Vec<[u8; 32]> = Vec::new();
            calldata.push(a);
            Some(ContractCall { contract_address: t, entry_point: EntryPoint::BalanceOf, calldata })
        },
        _ => None,
    }
}

/// The call that asks the contract at `account_addr` for its public key,
/// which only an account contract answers; `None` when the address is not a
/// field element in hex.
pub fn public_key_call(account_addr: &str) -> (r: Option<ContractCall>)
    ensures
        r is Some <==> felt_hex_accepted(account_addr@),
        r matches Some(c) ==> is_public_key_call(c, account_addr@),
{
    match felt_from_hex(account_addr) {
        Some(a) => Some(ContractCall {
            contract_address: a,
            entry_point: EntryPoint::GetPublicKey,
            calldata: Vec::new(),
        }),
        None => None,
    }
}

} // verus!
