//! The decisions of the LNURL-pay exchange. The caller performs the two HTTP
//! requests; each step here takes what the previous request returned and says
//! what to request next, or how the exchange ends.
use vstd::prelude::*;

use crate::error::Error;
use crate::lud06::LnUrl;
use crate::lud16::{endpoint_of, LightningAddress};
use crate::text::{contains_char, decimal, push_decimal};

verus! {

/// The kind of request that a negotiation response announces.
#[derive(Debug, Clone, Copy, PartialEq, Eq, Structural)]
pub enum TagRequest {
    Pay,
    Withdraw,
    Channel,
}

/// The tag that a `tag` field names, if it is one of the three recognised.
pub open spec fn tag_of(s: Seq<char>) -> Option<TagRequest> {
    if s == "payRequest"@ {
        Some(TagRequest::Pay)
    } else if s == "withdrawRequest"@ {
        Some(TagRequest::Withdraw)
    } else if s == "channelRequest"@ {
        Some(TagRequest::Channel)
    } else {
        None
    }
}

impl TagRequest {
    /// Reads the `tag` field of a negotiation response.
    pub fn parse(tag: &str) -> (r: Result<TagRequest, Error>)
        ensures
            match tag_of(tag@) {
                Some(t) => r == Ok::<TagRequest, Error>(t),
                None => r == Err::<TagRequest, Error>(Error::UnknownTag),
            },
    {
        let t = tag.to_owned();
        if t == String::from_str("payRequest") {
            Ok(TagRequest::Pay)
        } else if t == String::from_str("withdrawRequest") {
            Ok(TagRequest::Withdraw)
        } else if t == String::from_str("channelRequest") {
            Ok(TagRequest::Channel)
        } else {
            Err(Error::UnknownTag)
        }
    }
}

/// The parameters that the resolved endpoint advertises.
pub struct PayResponse {
    /// The second-level URL that gives an invoice for an amount.
    pub callback: String,
    /// The largest amount accepted, in millisatoshi.
    pub max_sendable: u64,
    /// The smallest amount accepted, in millisatoshi.
    pub min_sendable: u64,
    /// The kind of request.
    pub tag: TagRequest,
    /// Metadata as a raw JSON string, kept for signature checks by the caller.
    pub metadata: String,
    /// Whether the service accepts nostr zaps, when it says.
    pub allows_nostr: Option<bool>,
}

/// The answer of the callback.
pub struct LnURLPayInvoice {
    /// The bolt11 invoice.
    pub pr: Option<String>,
    pub status: Option<String>,
    pub reason: Option<String>,
}

/// An LNURL or a Lightning Address: either resolves to an endpoint.
#[derive(Debug, Clone, PartialEq, Eq)]
pub enum Lud06OrLud16 {
    Lud06(LnUrl),
    Lud16(LightningAddress),
}

impl Lud06OrLud16 {
    /// The endpoint that the first request goes to.
    pub open spec fn endpoint_spec(&self) -> Seq<char> {
        match self {
            Lud06OrLud16::Lud06(v) => v@,
            Lud06OrLud16::Lud16(v) => endpoint_of(v@.0, v@.1),
        }
    }

    pub fn endpoint(&self) -> (r: String)
        ensures
            r@ == self.endpoint_spec(),
    {
        match self {
            Lud06OrLud16::Lud06(v) => v.endpoint(),
            Lud06OrLud16::Lud16(v) => v.endpoint(),
        }
    }
}

impl From<LnUrl> for Lud06OrLud16 {
    fn from(value: LnUrl) -> (r: Lud06OrLud16)
        ensures
            r == Lud06OrLud16::Lud06(value),
    {
        Lud06OrLud16::Lud06(value)
    }
}

impl vstd::std_specs::convert::FromSpecImpl<LnUrl> for Lud06OrLud16 {
    open spec fn obeys_from_spec() -> bool {
        true
    }

    open spec fn from_spec(v: LnUrl) -> Lud06OrLud16 {
        Lud06OrLud16::Lud06(v)
    }
}

impl From<LightningAddress> for Lud06OrLud16 {
    fn from(value: LightningAddress) -> (r: Lud06OrLud16)
        ensures
            r == Lud06OrLud16::Lud16(value),
    {
        Lud06OrLud16::Lud16(value)
    }
}

impl vstd::std_specs::convert::FromSpecImpl<LightningAddress> for Lud06OrLud16 {
    open spec fn obeys_from_spec() -> bool {
        true
    }

    open spec fn from_spec(v: LightningAddress) -> Lud06OrLud16 {
        Lud06OrLud16::Lud16(v)
    }
}

/// The characters of an optional string.
pub open spec fn opt_view(o: Option<String>) -> Option<Seq<char>> {
    match o {
        Some(s) => Some(s@),
        None => None,
    }
}

/// The URL that asks the callback for an invoice: `amount`, then `nostr`,
/// then `comment`, joined to the callback with `&` when it already has a
/// query and with `?` otherwise.
pub open spec fn invoice_url_of(
    callback: Seq<char>,
    msats: u64,
    zap_request: Option<Seq<char>>,
    comment: Option<Seq<char>>,
) -> Seq<char> {
    let sep = if callback.contains('?') {
        "&"@
    } else {
        "?"@
    };
    let base = callback + sep + "amount="@ + decimal(msats as nat);
    let with_zap = match zap_request {
        Some(z) => base + "&nostr="@ + z,
        None => base,
    };
    match comment {
        Some(c) => with_zap + "&comment="@ + c,
        None => with_zap,
    }
}

/// The first step, before any network access: the endpoint to fetch the
/// negotiation parameters from, or the refusal of a zero amount.
pub fn pay_request_url(lud: &Lud06OrLud16, msats: u64) -> (r: Result<String, Error>)
    ensures
        msats == 0 ==> r == Err::<String, Error>(Error::AmountTooLow { msats: 0, min: 1 }),
        msats != 0 ==> r is Ok && r->Ok_0@ == lud.endpoint_spec(),
{
    if msats == 0 {
        return Err(Error::AmountTooLow { msats, min: 1 });
    }
    Ok(lud.endpoint())
}

/// The second step, on the negotiation parameters: the callback URL to fetch
/// the invoice from, or the refusal of an amount outside the advertised
/// bounds.
pub fn invoice_request_url(
    pay: &PayResponse,
    msats: u64,
    comment: Option<String>,
    zap_request: Option<String>,
) -> (r: Result<String, Error>)
    ensures
        msats < pay.min_sendable ==> r == Err::<String, Error>(
            Error::AmountTooLow { msats: msats, min: pay.min_sendable },
        ),
        pay.min_sendable <= msats && msats > pay.max_sendable ==> r == Err::<String, Error>(
            Error::AmountTooHigh { msats: msats, max: pay.max_sendable },
        ),
        pay.min_sendable <= msats <= pay.max_sendable ==> r is Ok && r->Ok_0@ == invoice_url_of(
            pay.callback@,
            msats,
            opt_view(zap_request),
            opt_view(comment),
        ),
{
    if msats < pay.min_sendable {
        return Err(Error::AmountTooLow { msats, min: pay.min_sendable });
    }
    if msats > pay.max_sendable {
        return Err(Error::AmountTooHigh { msats, max: pay.max_sendable });
    }
    let mut url = pay.callback.clone();
    if contains_char(pay.callback.as_str(), '?') {
        url.append("&");
    } else {
        url.append("?");
    }
    url.append("amount=");
    push_decimal(&mut url, msats);
    match zap_request {
        Some(z) => {
            url.append("&nostr=");
            url.append(z.as_str());
        },
        None => {},
    }
    match comment {
        Some(c) => {
            url.append("&comment=");
            url.append(c.as_str());
        },
        None => {},
    }
    Ok(url)
}

/// The last step, on the callback's answer: the invoice, or the server's
/// reason for giving none.
pub fn invoice_result(invoice: LnURLPayInvoice) -> (r: Result<String, Error>)
    ensures
        match invoice.pr {
            Some(pr) => r == Ok::<String, Error>(pr),
            None => r == Err::<String, Error>(Error::CantGetInvoice(invoice.reason)),
        },
{
    match invoice.pr {
        Some(pr) => Ok(pr),
        None => Err(Error::CantGetInvoice(invoice.reason)),
    }
}

} // verus!
