//! Splitting a trading-pair symbol such as `BTCUSDT` into its base and quote
//! assets, the way the paper-trading engine finds which balances an order
//! moves.
use vstd::prelude::*;
use vstd::string::StringSliceAdditionalSpecFns;
use vstd::utf8::{encode_utf8, is_char_boundary};
use crate::text::{bytes_end_with, has_suffix};

verus! {

/// The quote assets recognised by suffix, in the order they are tried.
pub open spec fn spec_quote_assets() -> Seq<Seq<u8>> {
    seq![
        seq![0x55u8, 0x53, 0x44, 0x54],  // USDT
        seq![0x55u8, 0x53, 0x44, 0x43],  // USDC
        seq![0x42u8, 0x55, 0x53, 0x44],  // BUSD
        seq![0x42u8, 0x54, 0x43],  // BTC
        seq![0x45u8, 0x54, 0x48],  // ETH
        seq![0x42u8, 0x4e, 0x42],  // BNB
    ]
}

/// Index of the first quote asset, from position `from` of the list on,
/// that `bytes` ends with.
pub open spec fn spec_first_quote_from(bytes: Seq<u8>, from: nat) -> Option<nat>
    decreases spec_quote_assets().len() - from,
{
    if from >= spec_quote_assets().len() {
        None
    } else if has_suffix(bytes, spec_quote_assets()[from as int]) {
        Some(from)
    } else {
        spec_first_quote_from(bytes, from + 1)
    }
}

/// Byte position at which a symbol splits into base and quote: before the
/// first recognised quote suffix, else before the last four bytes of a
/// symbol longer than four bytes; `None` when neither applies.
pub open spec fn spec_symbol_split(bytes: Seq<u8>) -> Option<int> {
    match spec_first_quote_from(bytes, 0) {
        Some(q) => Some(bytes.len() - spec_quote_assets()[q as int].len()),
        None => if bytes.len() > 4 {
            Some(bytes.len() - 4)
        } else {
            None
        },
    }
}

/// A symbol that has no recognised quote suffix and at most four bytes.
#[derive(Debug, Clone, PartialEq, Eq)]
pub struct SymbolParseError {
    /// The symbol that could not be split.
    pub symbol: String,
}

impl SymbolParseError {
    /// The explanation text of the error.
    pub open spec fn spec_message(self) -> Seq<char> {
        "Cannot parse symbol: "@ + self.symbol@
    }

    /// The explanation text of the error.
    pub fn message(&self) -> (s: String)
        ensures
            s@ == self.spec_message(),
    {
        let mut s = String::from_str("Cannot parse symbol: ");
        s.append(self.symbol.as_str());
        s
    }
}

/// The quote assets as byte vectors, in the order they are tried.
fn quote_assets() -> (v: Vec<Vec<u8>>)
    ensures
        v@.len() == spec_quote_assets().len(),
        forall|i: int| 0 <= i < v@.len() ==> #[trigger] v@[i]@ == spec_quote_assets()[i],
{
    let v = vec![
        vec![0x55u8, 0x53, 0x44, 0x54],
        vec![0x55u8, 0x53, 0x44, 0x43],
        vec![0x42u8, 0x55, 0x53, 0x44],
        vec![0x42u8, 0x54, 0x43],
        vec![0x45u8, 0x54, 0x48],
        vec![0x42u8, 0x4e, 0x42],
    ];
    assert(v@[0]@ =~= spec_quote_assets()[0]);
    assert(v@[1]@ =~= spec_quote_assets()[1]);
    assert(v@[2]@ =~= spec_quote_assets()[2]);
    assert(v@[3]@ =~= spec_quote_assets()[3]);
    assert(v@[4]@ =~= spec_quote_assets()[4]);
    assert(v@[5]@ =~= spec_quote_assets()[5]);
    v
}

/// Splits a symbol into `(base, quote)`: before the first of `USDT`,
/// `USDC`, `BUSD`, `BTC`, `ETH`, `BNB` that it ends with, else before its
/// last four bytes when it has more than four.
pub fn parse_symbol(symbol: &str) -> (r: Result<(String, String), SymbolParseError>)
    requires
        spec_first_quote_from(symbol.spec_bytes(), 0) is None && symbol.spec_bytes().len() > 4
            ==> is_char_boundary(symbol.spec_bytes(), symbol.spec_bytes().len() - 4),
    ensures
        match r {
            Ok((base, quote)) => spec_symbol_split(symbol.spec_bytes()) matches Some(k)
                && encode_utf8(base@) == symbol.spec_bytes().subrange(0, k)
                && encode_utf8(quote@) == symbol.spec_bytes().subrange(
                k,
                symbol.spec_bytes().len() as int,
            ),
            Err(e) => spec_symbol_split(symbol.spec_bytes()) is None && e.symbol@ == symbol@,
        },
{
    let bytes = symbol.as_bytes_vec();
    let quotes = quote_assets();
    let ghost b = symbol.spec_bytes();
    proof {
        vstd::utf8::encode_utf8_valid_utf8(symbol@);
    }
    let mut i: usize = 0;
    while i < quotes.len()
        invariant
            bytes@ == b,
            b == symbol.spec_bytes(),
            vstd::utf8::valid_utf8(b),
            quotes@.len() == spec_quote_assets().len(),
            forall|j: int| 0 <= j < quotes@.len() ==> #[trigger] quotes@[j]@ == spec_quote_assets()[j],
            i <= quotes.len(),
            spec_first_quote_from(b, 0) == spec_first_quote_from(b, i as nat),
        decreases quotes.len() - i,
    {
        if bytes_end_with(&bytes, &quotes[i]) {
            let k = bytes.len() - quotes[i].len();
            proof {
                assert(spec_first_quote_from(b, i as nat) == Some(i as nat));
                let q = spec_quote_assets()[i as int];
                assert(b.subrange(k as int, b.len() as int) == q);
                assert(b[k as int] == q[0]);
                assert(q[0] < 0x80);
                vstd::utf8::is_char_boundary_iff_not_is_continuation_byte(b, k as int);
            }
            let (head, tail) = symbol.split_at(k);
            let base = head.to_owned();
            let quote = tail.to_owned();
            return Ok((base, quote));
        }
        i = i + 1;
    }
    if bytes.len() > 4 {
        let k = bytes.len() - 4;
        let (head, tail) = symbol.split_at(k);
        Ok((head.to_owned(), tail.to_owned()))
    } else {
        Err(SymbolParseError { symbol: symbol.to_owned() })
    }
}

} // verus!
