//! Exchange pair naming: matching pair codes, listing EUR pairs, and the
//! asset classes the engine treats specially.
use vstd::prelude::*;
use vstd::utf8::{encode_scalar, encode_utf8};
use crate::text::{chars_eq, chars_of, contains_chars, contains_text, ends_with_chars, has_suffix, slice_chars, str_eq, string_from_chars, to_uppercase, uppercase_of, is_upper_ascii_text};
use vstd::string::StringExecFns;

verus! {

/// The text with a trailing "ZEUR" or, failing that, "EUR" removed.
pub open spec fn strip_eur_quote(u: Seq<char>) -> Seq<char> {
    if has_suffix(u, "ZEUR"@) {
        u.take(u.len() - 4)
    } else if has_suffix(u, "EUR"@) {
        u.take(u.len() - 3)
    } else {
        u
    }
}

/// The text with a leading 'X' removed, provided at least three bytes of
/// UTF-8 remain after it.
pub open spec fn strip_x_prefix(b: Seq<char>) -> Seq<char> {
    if b.len() > 0 && b[0] == 'X' && encode_utf8(b.drop_first()).len() >= 3 {
        b.drop_first()
    } else {
        b
    }
}

/// The base-asset code a pair name reduces to: upper-cased, EUR quote
/// removed, legacy 'X' prefix removed.
pub open spec fn pair_base(p: Seq<char>) -> Seq<char> {
    strip_x_prefix(strip_eur_quote(uppercase_of(p)))
}

/// Two pair codes name the same market.
pub open spec fn pairs_match_spec(a: Seq<char>, b: Seq<char>) -> bool {
    a == b || pair_base(a) == pair_base(b)
}

fn pair_base_chars(p: &str) -> (r: Vec<char>)
    ensures
        r@ == pair_base(p@),
        is_upper_ascii_text(p@) ==> r@ == strip_x_prefix(strip_eur_quote(p@)),
{
    let upper = to_uppercase(p);
    let u = chars_of(upper.as_str());
    let zeur = chars_of("ZEUR");
    let eur = chars_of("EUR");
    proof {
        reveal_strlit("ZEUR");
        reveal_strlit("EUR");
    }
    let b: Vec<char> = if ends_with_chars(u.as_slice(), zeur.as_slice()) {
        slice_chars(u.as_slice(), 0, u.len() - zeur.len())
    } else if ends_with_chars(u.as_slice(), eur.as_slice()) {
        slice_chars(u.as_slice(), 0, u.len() - eur.len())
    } else {
        u
    };
    assert(b@ == strip_eur_quote(uppercase_of(p@)));
    if b.len() > 0 && b[0] == 'X' {
        let rest = slice_chars(b.as_slice(), 1, b.len());
        assert(rest@ =~= b@.drop_first());
        if utf8_len_at_least_3(rest.as_slice()) {
            return rest;
        }
    }
    b
}

proof fn lemma_utf8_len_lower_bound(s: Seq<char>)
    ensures
        encode_utf8(s).len() >= s.len(),
    decreases s.len(),
{
    if s.len() > 0 {
        lemma_utf8_len_lower_bound(s.drop_first());
    }
}

fn char_utf8_width(c: char) -> (w: usize)
    ensures
        w == encode_scalar(c as u32).len(),
{
    let u = c as u32;
    if u <= 0x7F {
        1
    } else if u <= 0x7FF {
        2
    } else if u <= 0xFFFF {
        assert(!(0xD800 <= u <= 0xDFFF)) by {
            vstd::utf8::char_is_scalar(c);
        }
        3
    } else {
        4
    }
}

/// Whether the UTF-8 encoding of `s` takes at least three bytes.
fn utf8_len_at_least_3(s: &[char]) -> (r: bool)
    ensures
        r == (encode_utf8(s@).len() >= 3),
{
    proof {
        lemma_utf8_len_lower_bound(s@);
    }
    if s.len() >= 3 {
        return true;
    }
    if s.len() == 0 {
        return false;
    }
    let w0 = char_utf8_width(s[0]);
    proof {
        assert(encode_utf8(s@) == encode_scalar(s@[0] as u32) + encode_utf8(s@.drop_first()));
    }
    if s.len() == 1 {
        assert(encode_utf8(s@.drop_first()) =~= Seq::<u8>::empty());
        return w0 >= 3;
    }
    let w1 = char_utf8_width(s[1]);
    proof {
        let t = s@.drop_first();
        assert(encode_utf8(t) == encode_scalar(t[0] as u32) + encode_utf8(t.drop_first()));
        assert(encode_utf8(t.drop_first()) =~= Seq::<u8>::empty());
    }
    w0 + w1 >= 3
}

/// Whether two exchange pair codes denote the same market, tolerating the
/// exchange's legacy spellings ("XXBTZEUR" and "XBTEUR" both reduce to "XBT").
pub fn pairs_match(a: &str, b: &str) -> (r: bool)
    ensures
        r == pairs_match_spec(a@, b@),
        is_upper_ascii_text(a@) && is_upper_ascii_text(b@) ==> r == (a@ == b@ || strip_x_prefix(
            strip_eur_quote(a@),
        ) == strip_x_prefix(strip_eur_quote(b@))),
{
    if str_eq(a, b) {
        return true;
    }
    let x = pair_base_chars(a);
    let y = pair_base_chars(b);
    chars_eq(x.as_slice(), y.as_slice())
}

/// Matching pair codes is an equivalence: it holds exactly when the codes
/// reduce to the same base.
pub proof fn lemma_pairs_match_is_base_equality(a: Seq<char>, b: Seq<char>)
    ensures
        pairs_match_spec(a, b) == (pair_base(a) == pair_base(b)),
{
}

/// Every pair code matches itself.
pub proof fn lemma_pairs_match_reflexive(a: Seq<char>)
    ensures
        pairs_match_spec(a, a),
{
}

/// Matching does not depend on the order of the two codes.
pub proof fn lemma_pairs_match_symmetric(a: Seq<char>, b: Seq<char>)
    ensures
        pairs_match_spec(a, b) == pairs_match_spec(b, a),
{
}

/// Codes that match a common code match each other.
pub proof fn lemma_pairs_match_transitive(a: Seq<char>, b: Seq<char>, c: Seq<char>)
    requires
        pairs_match_spec(a, b),
        pairs_match_spec(b, c),
    ensures
        pairs_match_spec(a, c),
{
}

/// Only a EUR quote is removed: a code that upper-casing leaves unchanged
/// and that is not quoted in EUR reduces to itself, or to itself without a
/// leading legacy 'X'. So its quote (e.g. "ZUSD") stays part of its base.
pub proof fn lemma_non_eur_quote_kept(a: Seq<char>)
    requires
        uppercase_of(a) == a,
        !has_suffix(a, "EUR"@),
    ensures
        pair_base(a) == a || (a.len() > 0 && a[0] == 'X' && pair_base(a) == a.drop_first()),
{
    reveal_strlit("ZEUR");
    reveal_strlit("EUR");
    if has_suffix(a, "ZEUR"@) {
        assert(a.subrange(a.len() - 3, a.len() as int) =~= a.subrange(a.len() - 4, a.len() as int).subrange(1, 4));
        assert("ZEUR"@.subrange(1, 4) =~= "EUR"@);
    }
}

/// A EUR-quoted code reduces to what precedes its quote, without a
/// leading legacy 'X' when at least three bytes remain.
pub proof fn lemma_eur_quote_removed(a: Seq<char>)
    requires
        uppercase_of(a) == a,
        has_suffix(a, "EUR"@),
    ensures
        has_suffix(a, "ZEUR"@) ==> pair_base(a) == strip_x_prefix(a.take(a.len() - 4)),
        !has_suffix(a, "ZEUR"@) ==> pair_base(a) == strip_x_prefix(a.take(a.len() - 3)),
{
    reveal_strlit("ZEUR");
    reveal_strlit("EUR");
}

/// The bitcoin/dollar market does not match the bitcoin/euro market.
pub proof fn lemma_usd_code_does_not_match_eur_code()
    requires
        uppercase_of("XXBTZUSD"@) == "XXBTZUSD"@,
        uppercase_of("XXBTZEUR"@) == "XXBTZEUR"@,
    ensures
        !pairs_match_spec("XXBTZUSD"@, "XXBTZEUR"@),
{
    reveal_strlit("XXBTZUSD");
    reveal_strlit("XXBTZEUR");
    reveal_strlit("ZEUR");
    reveal_strlit("EUR");
    let a = "XXBTZUSD"@;
    let b = "XXBTZEUR"@;
    assert(a != b) by {
        assert(a[5] != b[5]);
    }
    assert(!has_suffix(a, "EUR"@)) by {
        assert(a.subrange(5, 8)[0] != "EUR"@[0]);
    }
    lemma_non_eur_quote_kept(a);
    assert(has_suffix(b, "ZEUR"@)) by {
        assert(b.subrange(4, 8) =~= "ZEUR"@);
    }
    assert(has_suffix(b, "EUR"@)) by {
        assert(b.subrange(5, 8) =~= "EUR"@);
    }
    lemma_eur_quote_removed(b);
    let t = b.take(4);
    assert(strip_x_prefix(t).len() <= 4);
    assert(pair_base(a).len() >= 7);
}

/// A EUR-quoted pair as the exchange lists it.
pub struct EurPairListing {
    /// The websocket name of the pair (e.g. "BTC/EUR").
    pub ws_name: String,
    /// The REST pair code (e.g. "XXBTZEUR").
    pub kraken_pair: String,
    /// Price precision in decimals.
    pub decimals: u8,
}

/// Whether a quote currency code is the euro.
pub open spec fn is_eur_quote(q: Seq<char>) -> bool {
    q == "ZEUR"@ || q == "EUR"@
}

/// Whether a pair code is a dark-pool pair (its code contains ".d").
pub open spec fn is_dark_pool(code: Seq<char>) -> bool {
    contains_text(code, ".d"@)
}

/// The precision recorded for a listing: the raw value truncated to a
/// byte, or 8 when the pair table gives none.
pub open spec fn listed_decimals(raw: Option<u64>) -> u8 {
    match raw {
        Some(d) => d as u8,
        None => 8u8,
    }
}

/// Whether an asset-pair entry of the exchange's pair table is listed, and
/// how: only EUR-quoted pairs that are not dark-pool pairs are; the
/// websocket name defaults to the pair code and the precision to 8
/// decimals (the raw precision is truncated to a byte).
pub fn eur_pair_listing(
    kraken_pair: &str,
    quote: Option<&str>,
    wsname: Option<&str>,
    pair_decimals: Option<u64>,
) -> (r: Option<EurPairListing>)
    ensures
        r is Some <==> (quote is Some && is_eur_quote(quote->0@) && !is_dark_pool(kraken_pair@)),
        r is Some ==> {
            &&& r->0.kraken_pair@ == kraken_pair@
            &&& r->0.ws_name@ == (match wsname {
                Some(w) => w@,
                None => kraken_pair@,
            })
            &&& r->0.decimals == listed_decimals(pair_decimals)
        },
{
    let q = match quote {
        Some(q) => q,
        None => return None,
    };
    let eur_quote = str_eq(q, "ZEUR") || str_eq(q, "EUR");
    if !eur_quote {
        return None;
    }
    let code = chars_of(kraken_pair);
    let dark = chars_of(".d");
    if contains_chars(code.as_slice(), dark.as_slice()) {
        return None;
    }
    let ws_name = match wsname {
        Some(w) => String::from_str(w),
        None => String::from_str(kraken_pair),
    };
    let decimals: u8 = match pair_decimals {
        Some(d) => d as u8,
        None => 8,
    };
    Some(EurPairListing { ws_name, kraken_pair: String::from_str(kraken_pair), decimals })
}

/// Balance codes of fiat currencies, which are never positions.
pub open spec fn fiat_assets() -> Seq<Seq<char>> {
    seq!["ZEUR"@, "EUR"@, "ZUSD"@, "USD"@]
}

/// Whether a balance code is a fiat currency rather than a crypto asset.
pub fn is_fiat_asset(asset: &str) -> (r: bool)
    ensures
        r == fiat_assets().contains(asset@),
{
    let r = str_eq(asset, "ZEUR") || str_eq(asset, "EUR") || str_eq(asset, "ZUSD") || str_eq(
        asset,
        "USD",
    );
    proof {
        let f = fiat_assets();
        if r {
            if asset@ == "ZEUR"@ {
                assert(f[0] == asset@);
            } else if asset@ == "EUR"@ {
                assert(f[1] == asset@);
            } else if asset@ == "ZUSD"@ {
                assert(f[2] == asset@);
            } else {
                assert(f[3] == asset@);
            }
        } else {
            assert forall|i: int| 0 <= i < f.len() implies f[i] != asset@ by {
            }
        }
    }
    r
}

/// EUR pairs of stablecoins, which the engine never trades and sells off
/// when it finds them held.
pub open spec fn stablecoin_pairs() -> Seq<Seq<char>> {
    seq![
        "USDT/EUR"@, "USDC/EUR"@, "DAI/EUR"@, "PYUSD/EUR"@, "FDUSD/EUR"@, "TUSD/EUR"@,
        "BUSD/EUR"@, "GUSD/EUR"@, "USDP/EUR"@, "EURT/EUR"@, "EUROC/EUR"@, "STBL/EUR"@,
    ]
}

/// Whether a pair is one of the stablecoin pairs.
pub fn is_stablecoin(pair: &str) -> (r: bool)
    ensures
        r == stablecoin_pairs().contains(pair@),
{
    let list: [&str; 12] = [
        "USDT/EUR", "USDC/EUR", "DAI/EUR", "PYUSD/EUR", "FDUSD/EUR", "TUSD/EUR",
        "BUSD/EUR", "GUSD/EUR", "USDP/EUR", "EURT/EUR", "EUROC/EUR", "STBL/EUR",
    ];
    let ghost spec_list = stablecoin_pairs();
    assert(forall|k: int| 0 <= k < 12 ==> (#[trigger] list@[k])@ == spec_list[k]);
    for i in 0..12
        invariant
            spec_list == stablecoin_pairs(),
            forall|k: int| 0 <= k < 12 ==> (#[trigger] list@[k])@ == spec_list[k],
            forall|k: int| 0 <= k < i ==> spec_list[k] != pair@,
    {
        if str_eq(pair, list[i]) {
            assert(spec_list[i as int] == pair@);
            return true;
        }
    }
    assert forall|k: int| 0 <= k < spec_list.len() implies spec_list[k] != pair@ by {
    }
    false
}

/// The asset part of a pair name: the text before the first '/', or the
/// whole name when it has none ("ADA/EUR" gives "ADA").
pub fn asset_of_pair(pair: &str) -> (r: String)
    ensures
        r@.len() <= pair@.len(),
        r@ == pair@.take(r@.len() as int),
        forall|i: int| 0 <= i < r@.len() ==> pair@[i] != '/',
        r@.len() == pair@.len() || pair@[r@.len() as int] == '/',
{
    let cs = chars_of(pair);
    let mut k: usize = 0;
    while k < cs.len() && cs[k] != '/'
        invariant
            k <= cs@.len(),
            cs@ == pair@,
            forall|i: int| 0 <= i < k ==> pair@[i] != '/',
        decreases cs@.len() - k,
    {
        k = k + 1;
    }
    let prefix = slice_chars(cs.as_slice(), 0, k);
    assert(prefix@ =~= pair@.take(k as int));
    string_from_chars(prefix.as_slice())
}

/// Whether an open order is a sell stop-loss on the given market.
pub fn is_pair_stop_order(order_pair: &str, kraken_pair: &str, order_type: &str, direction: &str) -> (r: bool)
    ensures
        r == (pairs_match_spec(order_pair@, kraken_pair@) && order_type@ == "stop-loss"@
            && direction@ == "sell"@),
{
    pairs_match(order_pair, kraken_pair) && str_eq(order_type, "stop-loss") && str_eq(direction, "sell")
}

} // verus!
