//! Lightning Addresses: `name@domain`, resolved to a well-known endpoint.
use vstd::prelude::*;

use crate::error::Error;
use crate::lud06::LnUrl;
use crate::text::{find_char, index_of};

verus! {

/// The name and domain of an address text: the segments before the first `@`
/// and between it and the next `@` (or the end). None without an `@`.
pub open spec fn address_parts(s: Seq<char>) -> Option<(Seq<char>, Seq<char>)> {
    let i = index_of(s, '@') as int;
    if i == s.len() {
        None
    } else {
        let rest = s.subrange(i + 1, s.len() as int);
        Some((s.subrange(0, i), rest.subrange(0, index_of(rest, '@') as int)))
    }
}

/// The well-known LNURL-pay endpoint of `name` at `domain`.
pub open spec fn endpoint_of(name: Seq<char>, domain: Seq<char>) -> Seq<char> {
    "https://"@ + domain + "/.well-known/lnurlp/"@ + name
}

/// A Lightning Address, `name@domain`.
#[derive(Debug, Clone, PartialEq, Eq, PartialOrd, Ord, Hash)]
pub struct LightningAddress {
    name: String,
    domain: String,
}

impl View for LightningAddress {
    /// The name and the domain.
    type V = (Seq<char>, Seq<char>);

    closed spec fn view(&self) -> (Seq<char>, Seq<char>) {
        (self.name@, self.domain@)
    }
}

impl LightningAddress {
    /// Splits the text on `@`: the first segment is the name, the second the
    /// domain, and any further segment is ignored.
    pub fn parse(ln_addr: &str) -> (r: Result<LightningAddress, Error>)
        ensures
            match address_parts(ln_addr@) {
                Some(p) => r is Ok && r->Ok_0@ == p,
                None => r == Err::<LightningAddress, Error>(Error::InvalidLightningAddress),
            },
    {
        let n = ln_addr.unicode_len();
        let i = find_char(ln_addr, '@');
        if i == n {
            return Err(Error::InvalidLightningAddress);
        }
        let rest = ln_addr.substring_char(i + 1, n);
        let j = find_char(rest, '@');
        let name = ln_addr.substring_char(0, i);
        let domain = rest.substring_char(0, j);
        Ok(LightningAddress { name: name.to_owned(), domain: domain.to_owned() })
    }

    /// The well-known endpoint: `https://{domain}/.well-known/lnurlp/{name}`.
    pub fn endpoint(&self) -> (r: String)
        ensures
            r@ == endpoint_of(self@.0, self@.1),
    {
        let mut s = String::from_str("https://");
        s.append(self.domain.as_str());
        s.append("/.well-known/lnurlp/");
        s.append(self.name.as_str());
        s
    }

    /// The LNURL of the endpoint, not bech32-encoded.
    pub fn lnurl(&self) -> (r: LnUrl)
        ensures
            r@ == endpoint_of(self@.0, self@.1),
    {
        LnUrl::new(self.endpoint())
    }

    /// The address text, `name@domain`.
    pub fn to_string(&self) -> (r: String)
        ensures
            r@ == self@.0 + seq!['@'] + self@.1,
    {
        proof {
            reveal_strlit("@");
        }
        let mut s = self.name.clone();
        s.append("@");
        s.append(self.domain.as_str());
        s
    }
}

impl std::str::FromStr for LightningAddress {
    type Err = Error;

    fn from_str(s: &str) -> (r: Result<LightningAddress, Error>)
        ensures
            match address_parts(s@) {
                Some(p) => r is Ok && r->Ok_0@ == p,
                None => r == Err::<LightningAddress, Error>(Error::InvalidLightningAddress),
            },
    {
        LightningAddress::parse(s)
    }
}

/// An address written `name@domain`, where neither part holds `@`, parses
/// back into that name and domain.
pub proof fn lemma_parse_name_at_domain(name: Seq<char>, domain: Seq<char>)
    requires
        !name.contains('@'),
        !domain.contains('@'),
    ensures
        address_parts(name + seq!['@'] + domain) == Some((name, domain)),
{
    let s = name + seq!['@'] + domain;
    crate::text::lemma_index_of(s, '@', name.len() as int);
    let rest = s.subrange(name.len() as int + 1, s.len() as int);
    assert(rest =~= domain);
    crate::text::lemma_index_of(domain, '@', domain.len() as int);
    assert(s.subrange(0, name.len() as int) =~= name);
    assert(domain.subrange(0, domain.len() as int) =~= domain);
}

/// A text without `@`, the empty text among them, is no address.
pub proof fn lemma_parse_needs_at(s: Seq<char>)
    requires
        !s.contains('@'),
    ensures
        address_parts(s) is None,
{
    assert forall|j: int| 0 <= j < s.len() implies s[j] != '@' by {
        if s[j] == '@' {
            assert(s.contains('@'));
        }
    }
    crate::text::lemma_index_of(s, '@', s.len() as int);
}

} // verus!
