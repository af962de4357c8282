use vstd::prelude::*;

use crate::text::{decimal, push_decimal};

verus! {

/// The error of an encoding attempt, as reported by the bech32 codec.
#[verifier::external_type_specification]
#[verifier::external_body]
pub struct ExEncodeError(bech32::EncodeError);

/// The error of a bech32 decoding attempt.
#[verifier::external_type_specification]
#[verifier::external_body]
pub struct ExDecodeError(bech32::DecodeError);

/// Every way in which resolving or negotiating a payment can fail.
#[derive(Debug)]
pub enum Error {
    /// The codec refused to encode the URL (it is too long).
    Bech32Encode(bech32::EncodeError),
    /// The text is not a valid `lnurl` identifier.
    InvalidLnUrl,
    /// The text is not of the form `name@domain`.
    InvalidLightningAddress,
    /// The negotiation response carries a tag that is not recognised.
    UnknownTag,
    /// The amount is zero or below the advertised minimum.
    AmountTooLow { msats: u64, min: u64 },
    /// The amount is above the advertised maximum.
    AmountTooHigh { msats: u64, max: u64 },
    /// The second stage gave no invoice; the server's reason, if any.
    CantGetInvoice(Option<String>),
}

/// Relies on the `Display` of `bech32::EncodeError`, for its text.
#[verifier::external_body]
fn encode_error_text(e: &bech32::EncodeError) -> String {
    e.to_string()
}

/// The text of an amount refusal: `{head}{msats} msats ({bound}{limit} msats)`.
pub open spec fn amount_text(head: Seq<char>, msats: u64, bound: Seq<char>, limit: u64) -> Seq<char> {
    head + decimal(msats as nat) + " msats ("@ + bound + decimal(limit as nat) + " msats)"@
}

fn amount_message(head: &str, msats: u64, bound: &str, limit: u64) -> (r: String)
    ensures
        r@ == amount_text(head@, msats, bound@, limit),
{
    let mut s = String::from_str(head);
    push_decimal(&mut s, msats);
    s.append(" msats (");
    s.append(bound);
    push_decimal(&mut s, limit);
    s.append(" msats)");
    s
}

impl Error {
    /// A message for people.
    pub fn message(&self) -> (r: String)
        ensures
            match self {
                Error::Bech32Encode(_) => true,
                Error::InvalidLnUrl => r@ == "Invalid LNURL"@,
                Error::InvalidLightningAddress => r@ == "Invalid Lightning Address"@,
                Error::UnknownTag => r@ == "Unknown tag"@,
                Error::AmountTooLow { msats, min } => r@ == amount_text(
                    "Amount too low: "@,
                    *msats,
                    "min. "@,
                    *min,
                ),
                Error::AmountTooHigh { msats, max } => r@ == amount_text(
                    "Amount too high: "@,
                    *msats,
                    "max. "@,
                    *max,
                ),
                Error::CantGetInvoice(Some(reason)) => r@ == "Can't get invoice: "@ + reason@,
                Error::CantGetInvoice(None) => r@ == "Can't get invoice: unknown"@,
            },
    {
        match self {
            Error::Bech32Encode(e) => encode_error_text(e),
            Error::InvalidLnUrl => String::from_str("Invalid LNURL"),
            Error::InvalidLightningAddress => String::from_str("Invalid Lightning Address"),
            Error::UnknownTag => String::from_str("Unknown tag"),
            Error::AmountTooLow { msats, min } => amount_message(
                "Amount too low: ",
                *msats,
                "min. ",
                *min,
            ),
            Error::AmountTooHigh { msats, max } => amount_message(
                "Amount too high: ",
                *msats,
                "max. ",
                *max,
            ),
            Error::CantGetInvoice(Some(reason)) => {
                let mut s = String::from_str("Can't get invoice: ");
                s.append(reason.as_str());
                s
            },
            Error::CantGetInvoice(None) => String::from_str("Can't get invoice: unknown"),
        }
    }
}

} // verus!
