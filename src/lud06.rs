//! LNURL identifiers: an endpoint URL, bech32-encoded under the `lnurl` prefix.
use bech32::{Bech32, Hrp};
use vstd::prelude::*;
use vstd::utf8::*;

use crate::error::Error;
use crate::text::{
    ascii_lower, ascii_upper, equals_ignore_case, equals_lower, lemma_match_ignores_case,
    lower_letters, starts_with_ignore_case, starts_with_lower,
};

verus! {

/// What `bech32::encode::<Bech32>` makes of a human-readable part and data bytes.
pub uninterp spec fn bech32_encoding(hrp: Seq<char>, data: Seq<u8>) -> Seq<char>;

/// What `bech32::decode` makes of a string: the human-readable part as written
/// and the data bytes, or nothing when the string is malformed or its checksum
/// is wrong.
pub uninterp spec fn bech32_decoding(s: Seq<char>) -> Option<(Seq<char>, Seq<u8>)>;

/// The human-readable part of every LNURL.
pub open spec fn lnurl_prefix() -> Seq<char> {
    seq!['l', 'n', 'u', 'r', 'l']
}

/// A lower-case human-readable part that bech32 accepts: 1 to 83 printable
/// ASCII characters.
pub open spec fn valid_lower_hrp(h: Seq<char>) -> bool {
    1 <= h.len() <= 83 && forall|i: int|
        0 <= i < h.len() ==> 33 <= #[trigger] (h[i] as u32) <= 126 && !('A' <= h[i] && h[i]
            <= 'Z')
}

/// The encoded string, separator and checksum included, stays within the
/// 1023 characters of the bech32 code.
pub open spec fn bech32_fits(hrp_len: nat, data_len: nat) -> bool {
    hrp_len + 1 + (8 * data_len + 4) / 5 + 6 <= 1023
}

/// The URL that a textual LNURL stands for, if it is one: it must start with
/// the prefix in any case, decode under a prefix equal to it up to case, and
/// carry valid UTF-8.
pub open spec fn lnurl_decoding(s: Seq<char>) -> Option<Seq<char>> {
    if !starts_with_lower(s, lnurl_prefix()) {
        None
    } else {
        match bech32_decoding(s) {
            Some((h, d)) => if equals_lower(h, lnurl_prefix()) && valid_utf8(d) {
                Some(decode_utf8(d))
            } else {
                None
            },
            None => None,
        }
    }
}

/// A text that does not start with `lnurl`, in any case, is no LNURL,
/// whatever its checksum.
pub proof fn lemma_foreign_prefix_rejected(s: Seq<char>)
    requires
        !starts_with_lower(s, lnurl_prefix()),
    ensures
        lnurl_decoding(s) is None,
{
}

/// Relies on `bech32::encode::<Bech32>`: it fails only when the encoded
/// string would exceed the 1023 characters of the code; its result starts
/// with the human-readable part, and `bech32::decode` gives back that part and
/// the data. `Hrp::parse_unchecked` keeps a part of at most 83 printable ASCII
/// characters as it is.
#[verifier::external_body]
fn bech32_encode(hrp: &str, data: &[u8]) -> (r: Result<String, bech32::EncodeError>)
    requires
        valid_lower_hrp(hrp@),
    ensures
        r is Ok <==> bech32_fits(hrp@.len(), data@.len()),
        r is Ok ==> r->Ok_0@ == bech32_encoding(hrp@, data@),
        r is Ok ==> hrp@.len() <= r->Ok_0@.len() && r->Ok_0@.subrange(0, hrp@.len() as int)
            == hrp@,
        r is Ok ==> bech32_decoding(r->Ok_0@) == Some((hrp@, data@)),
{
    bech32::encode::<Bech32>(Hrp::parse_unchecked(hrp), data)
}

/// Relies on `bech32::decode`: the human-readable part as written in `s` and
/// the data bytes without the checksum, or an error. A string that decodes is
/// ASCII and of one case; the checksum covers the human-readable part in lower
/// case and reads data characters in either case, so the same string in lower
/// or in upper case decodes to the same data.
#[verifier::external_body]
fn bech32_decode(s: &str) -> (r: Result<(String, Vec<u8>), bech32::DecodeError>)
    ensures
        match r {
            Ok((h, d)) => {
                &&& bech32_decoding(s@) == Some((h@, d@))
                &&& bech32_decoding(ascii_lower(s@)) == Some((ascii_lower(h@), d@))
                &&& bech32_decoding(ascii_upper(s@)) == Some((ascii_upper(h@), d@))
            },
            Err(_) => bech32_decoding(s@) is None,
        },
{
    match bech32::decode(s) {
        Ok((hrp, data)) => Ok((hrp.to_string(), data)),
        Err(e) => Err(e),
    }
}

/// Relies on `String::from_utf8`: it succeeds exactly on valid UTF-8, with the
/// characters that the bytes encode.
#[verifier::external_body]
fn string_from_utf8(bytes: Vec<u8>) -> (r: Option<String>)
    ensures
        r is Some <==> valid_utf8(bytes@),
        r is Some ==> r->Some_0@ == decode_utf8(bytes@),
{
    String::from_utf8(bytes).ok()
}

fn prefix() -> (r: &'static str)
    ensures
        r@ == lnurl_prefix(),
{
    proof {
        reveal_strlit("lnurl");
    }
    "lnurl"
}

/// An LNURL: the endpoint URL that its textual form encodes.
#[derive(Debug, Clone, PartialEq, Eq, PartialOrd, Ord, Hash)]
pub struct LnUrl {
    url: String,
}

impl View for LnUrl {
    type V = Seq<char>;

    closed spec fn view(&self) -> Seq<char> {
        self.url@
    }
}

impl LnUrl {
    /// The LNURL of an endpoint URL.
    pub fn new(url: String) -> (r: LnUrl)
        ensures
            r@ == url@,
    {
        LnUrl { url }
    }

    /// Reads a textual LNURL, in lower, upper or mixed case.
    /// The same text in lower or in upper case gives the same LNURL.
    pub fn decode(lnurl: &str) -> (r: Result<LnUrl, Error>)
        ensures
            match lnurl_decoding(lnurl@) {
                Some(u) => r is Ok && r->Ok_0@ == u,
                None => r == Err::<LnUrl, Error>(Error::InvalidLnUrl),
            },
            r is Ok ==> lnurl_decoding(ascii_lower(lnurl@)) == Some(r->Ok_0@),
            r is Ok ==> lnurl_decoding(ascii_upper(lnurl@)) == Some(r->Ok_0@),
    {
        if !starts_with_ignore_case(lnurl, prefix()) {
            return Err(Error::InvalidLnUrl);
        }
        let (hrp, bytes) = match bech32_decode(lnurl) {
            Ok(v) => v,
            Err(_) => return Err(Error::InvalidLnUrl),
        };
        if !equals_ignore_case(hrp.as_str(), prefix()) {
            return Err(Error::InvalidLnUrl);
        }
        proof {
            assert(lower_letters(lnurl_prefix()));
            lemma_match_ignores_case(lnurl@, lnurl_prefix());
            lemma_match_ignores_case(hrp@, lnurl_prefix());
        }
        match string_from_utf8(bytes) {
            Some(url) => Ok(LnUrl { url }),
            None => Err(Error::InvalidLnUrl),
        }
    }

    /// The textual form, in lower case; decoding it gives back this LNURL.
    pub fn encode(&self) -> (r: Result<String, Error>)
        ensures
            r is Ok <==> bech32_fits(lnurl_prefix().len(), encode_utf8(self@).len()),
            r is Ok ==> r->Ok_0@ == bech32_encoding(lnurl_prefix(), encode_utf8(self@)),
            r is Ok ==> lnurl_decoding(r->Ok_0@) == Some(self@),
            r is Ok ==> 5 <= r->Ok_0@.len() && r->Ok_0@.subrange(0, 5) == lnurl_prefix(),
            r is Err ==> r->Err_0 is Bech32Encode,
    {
        let bytes = self.url.as_str().as_bytes();
        let p = prefix();
        proof {
            assert(valid_lower_hrp(p@));
        }
        match bech32_encode(p, bytes) {
            Ok(s) => {
                proof {
                    let t = s@;
                    assert(t.subrange(0, 5) == lnurl_prefix());
                    assert forall|i: int| 0 <= i < 5 implies #[trigger] crate::text::matches_lower(
                        t[i],
                        lnurl_prefix()[i],
                    ) by {
                        assert(t[i] == t.subrange(0, 5)[i]);
                    }
                    assert(starts_with_lower(t, lnurl_prefix()));
                    assert(equals_lower(lnurl_prefix(), lnurl_prefix()));
                    encode_utf8_valid_utf8(self@);
                    encode_utf8_decode_utf8(self@);
                }
                Ok(s)
            },
            Err(e) => Err(Error::Bech32Encode(e)),
        }
    }

    /// The endpoint URL.
    pub fn endpoint(&self) -> (r: String)
        ensures
            r@ == self@,
    {
        self.url.clone()
    }
}

impl std::str::FromStr for LnUrl {
    type Err = Error;

    fn from_str(s: &str) -> (r: Result<LnUrl, Error>)
        ensures
            match lnurl_decoding(s@) {
                Some(u) => r is Ok && r->Ok_0@ == u,
                None => r == Err::<LnUrl, Error>(Error::InvalidLnUrl),
            },
            r is Ok ==> lnurl_decoding(ascii_lower(s@)) == Some(r->Ok_0@),
            r is Ok ==> lnurl_decoding(ascii_upper(s@)) == Some(r->Ok_0@),
    {
        LnUrl::decode(s)
    }
}

} // verus!
