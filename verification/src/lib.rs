//! Decoder for a framed binary message protocol: each unit is one
//! self-describing DAG-CBOR header value followed, with no length prefix,
//! by opaque body bytes.  The split point between the two is discovered by
//! decoding the header and observing how many bytes that decode consumed.

pub mod cbor;
pub mod frame;
