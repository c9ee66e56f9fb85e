//! Credentials for a TLS stack that reads addresses, lengths and C strings.
//!
//! A caller describes a certificate by an [`X509`] and a pre-shared key by
//! a [`Psk`]; both only borrow the caller's buffers. A certificate goes to
//! the stack as it is, for the length of one call. A pre-shared key has to
//! stay readable for longer, so it is first turned into a [`TlsPsk`], which
//! owns the C string of the hint in a [`CstrPool`] and keeps the borrow of
//! the key bytes.

pub mod cstr;
pub mod error;
pub mod nul;
pub mod psk;
pub mod x509;

pub use crate::cstr::CstrPool;
pub use crate::error::{ConfigurationError, ConversionError};
pub use crate::psk::{Psk, PskHintKey, TlsPsk};
pub use crate::x509::X509;
