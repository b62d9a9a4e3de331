//! Wire-protocol layer of a gateway that exposes a peer-to-peer
//! encrypted-messaging daemon to external clients over a JSON-shaped
//! message channel.
//!
//! The crate defines the versioned request/response/event schema
//! ([`schema`]), a verified JSON serializer and parser it rides on
//! ([`json`], [`json_exec`], [`json_rt`]), the binary-safe base64
//! discipline for arbitrary-length payloads ([`b64`]), the codec that
//! ties schema values to wire text ([`codec_req`], [`codec_resp`],
//! [`codec_event`], [`codec_msg`]), and the translation layer between
//! the daemon's internal surface and the wire ([`tox`]).
//!
//! Every encoder is proved inverse to its decoder: for any value the
//! schema can hold, decoding its rendered text yields exactly that value.

pub mod b64;
pub mod codec;
pub mod codec_enums;
pub mod codec_event;
pub mod codec_msg;
pub mod codec_rec;
pub mod codec_req;
pub mod codec_resp;
pub mod json;
pub mod json_exec;
pub mod json_rt;
pub mod schema;
pub mod text;
pub mod tox;
