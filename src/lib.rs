//! Resolution of LNURL identifiers and Lightning Addresses, and the decisions
//! of the LNURL-pay exchange that turns an amount into an invoice request.

pub mod api;
pub mod error;
pub mod lud06;
pub mod lud16;
pub mod text;

pub use self::error::Error;
pub use self::lud06::LnUrl;
pub use self::lud16::LightningAddress;
