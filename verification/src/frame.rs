//! The frame decoder: splits a buffer into a DAG-CBOR header and opaque body
//! bytes, interprets the header, and assembles the typed frame.

use crate::cbor;
use crate::cbor::{cbor_doc, enc_of, int_field, split_point, text_field};
use core::convert::Infallible;
use ipld_core::ipld::Ipld;
use serde_ipld_dagcbor::DecodeError;
use vstd::prelude::*;
use vstd::slice::{slice_subrange, slice_to_vec};

verus! {

/// Why a buffer failed to decode as a frame.
#[derive(Debug)]
pub enum Error {
    /// No split point: the buffer does not begin with a complete value that
    /// leaves body bytes behind it.  Carries the whole buffer.
    InvalidFrameData(Vec<u8>),
    /// The header decoded, but not to a map with `op` equal to 1 or -1.
    /// Carries the offending decoded value.
    InvalidFrameType(Ipld),
    /// The header segment itself is not decodable DAG-CBOR.
    CborDecode(DecodeError<Infallible>),
}

/// The mathematical content of an [`Error`].
pub enum ErrorView {
    InvalidFrameData(Seq<u8>),
    InvalidFrameType(Ipld),
    CborDecode(DecodeError<Infallible>),
}

impl View for Error {
    type V = ErrorView;

    open spec fn view(&self) -> ErrorView {
        match self {
            Error::InvalidFrameData(buf) => ErrorView::InvalidFrameData(buf@),
            Error::InvalidFrameType(v) => ErrorView::InvalidFrameType(*v),
            Error::CborDecode(e) => ErrorView::CborDecode(*e),
        }
    }
}

/// The interpreted header of a frame: a message with its optional type tag,
/// or an error signal.
#[derive(Debug, Clone, PartialEq, Eq)]
pub enum FrameHeader {
    Message(Option<String>),
    Error,
}

/// The mathematical content of a [`FrameHeader`].
pub enum FrameHeaderView {
    Message(Option<Seq<char>>),
    Error,
}

impl View for FrameHeader {
    type V = FrameHeaderView;

    open spec fn view(&self) -> FrameHeaderView {
        match self {
            FrameHeader::Message(t) => FrameHeaderView::Message(match t {
                Some(s) => Some(s@),
                None => None,
            }),
            FrameHeader::Error => FrameHeaderView::Error,
        }
    }
}

/// How a decoded header value is interpreted: a map whose `op` entry is the
/// integer 1 is a message header, whose optional type tag is whatever text
/// sits at `t`; a map whose `op` entry is -1 is an error header; anything
/// else is no header at all.
pub open spec fn header_of(v: Ipld) -> Option<FrameHeaderView> {
    match int_field(v, "op"@) {
        Some(op) => if op == 1 {
            Some(FrameHeaderView::Message(text_field(v, "t"@)))
        } else if op == -1 {
            Some(FrameHeaderView::Error)
        } else {
            None
        },
        None => None,
    }
}

impl FrameHeader {
    /// Interprets a decoded header value, or rejects it, carrying the value
    /// back for diagnostics.
    pub fn from_ipld(value: Ipld) -> (r: Result<FrameHeader, Error>)
        ensures
            header_of(value) is Some ==> r is Ok && r->Ok_0@ == header_of(value)->0,
            header_of(value) is None ==> r is Err && r->Err_0@ == ErrorView::InvalidFrameType(
                value,
            ),
    {
        match cbor::get_int_field(&value, "op") {
            Some(1) => Ok(FrameHeader::Message(cbor::get_text_field(&value, "t"))),
            Some(-1) => Ok(FrameHeader::Error),
            _ => Err(Error::InvalidFrameType(value)),
        }
    }
}

/// A normal message frame: the raw, still-undecoded body bytes.
#[derive(Debug, Clone, PartialEq, Eq)]
pub struct MessageFrame {
    pub body: Vec<u8>,
}

impl View for MessageFrame {
    type V = Seq<u8>;

    open spec fn view(&self) -> Seq<u8> {
        self.body@
    }
}

/// An error-signal frame.  It carries nothing yet: the body bytes of an error
/// frame are discarded, pending an upstream payload definition.
#[derive(Debug, Clone, PartialEq, Eq)]
pub struct ErrorFrame {}

/// One decoded protocol unit.
#[derive(Debug, Clone, PartialEq, Eq)]
pub enum Frame {
    Message(Option<String>, MessageFrame),
    Error(ErrorFrame),
}

/// The mathematical content of a [`Frame`].
pub enum FrameView {
    Message(Option<Seq<char>>, Seq<u8>),
    Error,
}

impl View for Frame {
    type V = FrameView;

    open spec fn view(&self) -> FrameView {
        match self {
            Frame::Message(t, m) => FrameView::Message(match t {
                Some(s) => Some(s@),
                None => None,
            }, m@),
            Frame::Error(_) => FrameView::Error,
        }
    }
}

/// What decoding a buffer yields: no split point is invalid frame data; a
/// header segment that is not decodable CBOR is a codec error; a header value
/// with no interpretation is an invalid frame type; otherwise the interpreted
/// header together with the body bytes after the split.
pub open spec fn decode_spec(s: Seq<u8>) -> Result<FrameView, ErrorView> {
    match split_point(s) {
        None => Err(ErrorView::InvalidFrameData(s)),
        Some(p) => {
            let head = s.subrange(0, p);
            let body = s.subrange(p, s.len() as int);
            match cbor_doc(head) {
                Err(e) => Err(ErrorView::CborDecode(e)),
                Ok(v) => match header_of(v) {
                    None => Err(ErrorView::InvalidFrameType(v)),
                    Some(FrameHeaderView::Message(t)) => Ok(FrameView::Message(t, body)),
                    Some(FrameHeaderView::Error) => Ok(FrameView::Error),
                },
            }
        },
    }
}

impl Frame {
    /// Decodes one frame from a buffer: finds the split point between the
    /// self-describing header and the body, interprets the header, and hands
    /// back the typed frame or the error `decode_spec` assigns to the buffer.
    pub fn decode(buf: &[u8]) -> (r: Result<Frame, Error>)
        ensures
            r is Ok <==> decode_spec(buf@) is Ok,
            r is Ok ==> r->Ok_0@ == decode_spec(buf@)->Ok_0,
            r is Err ==> r->Err_0@ == decode_spec(buf@)->Err_0,
    {
        match cbor::find_split(buf) {
            None => Err(Error::InvalidFrameData(slice_to_vec(buf))),
            Some(p) => {
                let head = slice_subrange(buf, 0, p);
                let body = slice_subrange(buf, p, buf.len());
                match cbor::decode_ipld(head) {
                    Err(e) => Err(Error::CborDecode(e)),
                    Ok(v) => match FrameHeader::from_ipld(v) {
                        Err(e) => Err(e),
                        Ok(FrameHeader::Message(t)) => Ok(Frame::Message(t, MessageFrame {
                            body: slice_to_vec(body),
                        })),
                        Ok(FrameHeader::Error) => Ok(Frame::Error(ErrorFrame {})),
                    },
                }
            },
        }
    }
}

/// Law: a header whose `op` integer is anything other than 1 or -1 has no
/// interpretation — it is never silently taken for a message or an error.
pub proof fn lemma_unknown_op_rejected(v: Ipld, op: int)
    ensures
        int_field(v, "op"@) == Some(op) && op != 1 && op != -1 ==> header_of(v) is None,
{
}

/// Law: the type tag of a message header is best effort.  Whenever `op` is 1
/// the header is a message, and its tag is exactly the text at `t` — which is
/// absent both when the key is missing and when its entry is not text.
pub proof fn lemma_type_tag_tolerance(v: Ipld)
    ensures
        int_field(v, "op"@) == Some(1int) ==> header_of(v) == Some(
            FrameHeaderView::Message(text_field(v, "t"@)),
        ),
{
}

/// Law: a buffer with no split point — one that cannot be parsed as a leading
/// value, or whose leading value consumes it exactly — fails as invalid frame
/// data carrying that buffer, never as an invalid frame type.
pub proof fn lemma_no_split_is_frame_data_error(s: Seq<u8>)
    ensures
        split_point(s) is None ==> decode_spec(s) == Err::<FrameView, ErrorView>(
            ErrorView::InvalidFrameData(s),
        ),
{
}

/// Law (round-trip split): encoding a header value and appending a non-empty
/// body yields a buffer that decodes back to exactly that header's
/// interpretation and exactly that body; with an empty body the buffer is
/// rejected as invalid frame data, since a frame needs a body after its
/// header.  `None` exactly when the codec cannot encode the value, or cannot
/// decode its own encoding again (it refuses nesting past a fixed depth that
/// its encoder does not enforce).
pub fn decode_of_encoded(header: &Ipld, body: &[u8]) -> (r: Option<Result<Frame, Error>>)
    ensures
        r is Some <==> enc_of(*header) is Some && cbor_doc(enc_of(*header)->0) is Ok,
        r is Some && body@.len() == 0 ==> r->0 is Err && (r->0->Err_0@ matches
        ErrorView::InvalidFrameData(_)),
        r is Some && body@.len() > 0 && header_of(*header) is Some ==> r->0 is Ok
            && r->0->Ok_0@ == (match header_of(*header)->0 {
            FrameHeaderView::Message(t) => FrameView::Message(t, body@),
            FrameHeaderView::Error => FrameView::Error,
        }),
        r is Some && body@.len() > 0 && header_of(*header) is None ==> r->0 is Err && (
        r->0->Err_0@ matches ErrorView::InvalidFrameType(v) && header_of(v) is None),
{
    match cbor::encode_ipld(header) {
        None => None,
        Some(enc) => {
            match cbor::decode_ipld(enc.as_slice()) {
                Err(_) => None,
                Ok(_) => {
                    let ghost enc0: Seq<u8> = enc@;
                    let mut buf = enc;
                    let mut tail = slice_to_vec(body);
                    buf.append(&mut tail);
                    proof {
                        if body@.len() == 0 {
                            assert(buf@ =~= enc0);
                        } else {
                            assert(buf@ == enc0 + body@);
                            assert(buf@.subrange(0, enc0.len() as int) =~= enc0);
                            assert(buf@.subrange(enc0.len() as int, buf@.len() as int) =~= body@);
                            let v2 = cbor_doc(enc0)->Ok_0;
                            assert(int_field(v2, "op"@) == int_field(*header, "op"@));
                            assert(text_field(v2, "t"@) == text_field(*header, "t"@));
                        }
                    }
                    Some(Frame::decode(buf.as_slice()))
                },
            }
        },
    }
}

} // verus!
