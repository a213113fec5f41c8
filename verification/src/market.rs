use vstd::prelude::*;

verus! {

/// The DexScreener API address of a Starknet pair.
pub fn dexscreener_url(pair: &str) -> (s: String)
    ensures
        s@ == "https://api.dexscreener.com/latest/dex/pairs/starknet/"@ + pair@,
{
    let mut s = String::from_str("https://api.dexscreener.com/latest/dex/pairs/starknet/");
    s.append(pair);
    s
}

/// The reply to `/mc`, with the market cap as already written out.
pub fn market_cap_reply(market_cap: &str) -> (s: String)
    ensures
        s@ == "The market cap of the BROTHER is "@ + market_cap@,
{
    let mut s = String::from_str("The market cap of the BROTHER is ");
    s.append(market_cap);
    s
}

/// The notification sent to subscribers when the market cap moved, with the
/// new market cap as already written out.
pub fn market_cap_alert(went_down: bool, market_cap: &str) -> (s: String)
    ensures
        went_down ==> s@ == "The market cap of the BROTHER going down: "@ + market_cap@,
        !went_down ==> s@ == "The market cap of the BROTHER going up: "@ + market_cap@,
{
    let mut s = if went_down {
        String::from_str("The market cap of the BROTHER going down: ")
    } else {
        String::from_str("The market cap of the BROTHER going up: ")
    };
    s.append(market_cap);
    s
}

} // verus!
