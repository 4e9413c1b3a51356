//! The callback-to-poll bridge of an HTTP transfer, and the form encoding of
//! spaces in a percent-encoded payload.
//!
//! A transport pushes events (headers, body chunks, completion) into a
//! [`TransferState`]; a consumer polls it. Every operation is described by a
//! transition of the mathematical [`TransferModel`], and the laws that relate
//! several operations are proved over that model.

pub mod form_encoding;
pub mod laws;
pub mod model;
pub mod slot;
pub mod state;

pub use form_encoding::{curl_escape, plus_for_spaces};
pub use model::{
    ErrorKind, Reaction, ReceivedResponse, ResponseMetadata, Step, TransferModel, TransportCommand,
};
pub use state::TransferState;
