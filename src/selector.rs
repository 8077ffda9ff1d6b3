//! The 4-byte function selector and its "0x"-prefixed hex text.
use vstd::prelude::*;
use vstd::string::{StrSliceExecFns, StringExecFns};
use crate::hex_text::{decode_hex, encode_hex, hex_decoded, hex_of, lemma_hex_round_trip};

verus! {

/// The first four bytes of a call's encoded signature.
#[derive(Clone, Copy, Debug, PartialEq, Eq, Hash)]
pub struct FunctionSelector(pub [u8; 4]);

/// Why a text is no function selector.
#[derive(Debug, Clone, Copy, PartialEq, Eq, Structural)]
pub enum SelectorError {
    /// Not exactly eight characters after an optional "0x".
    WrongLength,
    /// Eight characters, but not all of them hex digits.
    InvalidHex,
}

/// The text without one leading "0x", if it has one.
pub open spec fn strip_0x(s: Seq<char>) -> Seq<char> {
    if s.len() >= 2 && s[0] == '0' && s[1] == 'x' {
        s.subrange(2, s.len() as int)
    } else {
        s
    }
}

/// What parsing a selector text gives: its four bytes, or the reason it fails.
pub open spec fn parse_selector(s: Seq<char>) -> Result<Seq<u8>, SelectorError> {
    let d = strip_0x(s);
    if d.len() != 8 {
        Err(SelectorError::WrongLength)
    } else if hex_decoded(d) is None {
        Err(SelectorError::InvalidHex)
    } else {
        Ok(hex_decoded(d)->Some_0)
    }
}

/// The canonical text of selector bytes: "0x" and eight lowercase hex digits.
pub open spec fn selector_text(b: Seq<u8>) -> Seq<char> {
    seq!['0', 'x'] + hex_of(b)
}

impl FunctionSelector {
    /// Wraps four raw bytes.
    pub fn from_bytes(src: [u8; 4]) -> (r: FunctionSelector)
        ensures
            r.0@ == src@,
    {
        FunctionSelector(src)
    }

    /// The selector held by a slice of exactly four bytes.
    pub fn from_slice(value: &[u8]) -> (r: Option<FunctionSelector>)
        ensures
            r is Some <==> value@.len() == 4,
            r is Some ==> r->Some_0.0@ == value@,
    {
        if value.len() != 4 {
            return None;
        }
        let sel = [value[0], value[1], value[2], value[3]];
        assert(sel@ =~= value@);
        Some(FunctionSelector(sel))
    }

    /// The four raw bytes.
    pub fn as_bytes(&self) -> (r: [u8; 4])
        ensures
            r@ == self.0@,
    {
        self.0
    }

    /// Lowercase hex digits of the bytes, without prefix.
    pub fn hex_encode(&self) -> (r: String)
        ensures
            r@ == hex_of(self.0@),
    {
        encode_hex(self.0.as_slice())
    }

    /// The canonical text, e.g. "0xa9059cbb".
    pub fn to_string(&self) -> (r: String)
        ensures
            r@ == selector_text(self.0@),
    {
        let prefix = String::from_str("0x");
        proof {
            reveal_strlit("0x");
        }
        let r = prefix.concat(self.hex_encode().as_str());
        assert(r@ =~= selector_text(self.0@));
        r
    }

    /// Parses eight hex digits, either case, after an optional "0x".
    pub fn parse(s: &str) -> (r: Result<FunctionSelector, SelectorError>)
        ensures
            r is Ok <==> parse_selector(s@) is Ok,
            r is Ok ==> r->Ok_0.0@ == parse_selector(s@)->Ok_0,
            r is Err ==> parse_selector(s@) == Err::<Seq<u8>, SelectorError>(r->Err_0),
    {
        let n = s.unicode_len();
        let digits = if n >= 2 && s.get_char(0) == '0' && s.get_char(1) == 'x' {
            s.substring_char(2, n)
        } else {
            s
        };
        assert(digits@ =~= strip_0x(s@));
        if digits.unicode_len() != 8 {
            return Err(SelectorError::WrongLength);
        }
        match decode_hex(digits) {
            None => Err(SelectorError::InvalidHex),
            Some(bytes) => {
                let sel = [bytes[0], bytes[1], bytes[2], bytes[3]];
                assert(sel@ =~= bytes@);
                Ok(FunctionSelector(sel))
            },
        }
    }

    /// Whether the selector holds exactly these bytes.
    pub fn eq_bytes(&self, other: &[u8; 4]) -> (r: bool)
        ensures
            r == (self.0@ == other@),
    {
        let r = self.0[0] == other[0] && self.0[1] == other[1] && self.0[2] == other[2]
            && self.0[3] == other[3];
        if r {
            assert(self.0@ =~= other@);
        }
        r
    }
}

/// Parsing the canonical text of a selector gives the selector back.
pub proof fn lemma_selector_text_round_trip(b: Seq<u8>)
    requires
        b.len() == 4,
    ensures
        parse_selector(selector_text(b)) == Ok::<Seq<u8>, SelectorError>(b),
{
    let t = selector_text(b);
    assert(strip_0x(t) =~= hex_of(b));
    lemma_hex_round_trip(b);
}

} // verus!
