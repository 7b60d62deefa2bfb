//! Client messages: the type tag names the message; a simple query carries
//! its text, NUL-terminated.
use vstd::prelude::*;
use vstd::slice::{slice_subrange, slice_to_vec};

verus! {

/// Tag of a simple query (`Q`).
pub const TAG_QUERY: u8 = 0x51;

/// Tag of a termination (`X`).
pub const TAG_TERMINATE: u8 = 0x58;

/// Tag of a Parse (`P`).
pub const TAG_PARSE: u8 = 0x50;

/// Tag of a Describe (`D`).
pub const TAG_DESCRIBE: u8 = 0x44;

/// Tag of a Sync (`S`).
pub const TAG_SYNC: u8 = 0x53;

/// Tag of a Bind (`B`).
pub const TAG_BIND: u8 = 0x42;

/// Tag of an Execute (`E`).
pub const TAG_EXECUTE: u8 = 0x45;

/// Tag of a Close (`C`).
pub const TAG_CLOSE: u8 = 0x43;

/// A decoded client message.
#[derive(Debug)]
pub enum RequestMessage {
    /// The query text, without its terminator.
    SimpleQuery(Vec<u8>),
    Termination,
    Parse,
    Describe,
    Sync,
    Bind,
    Execute,
    Close,
}

/// What a client message says, with the query text as a sequence of bytes.
pub enum RequestView {
    SimpleQuery(Seq<u8>),
    Termination,
    Parse,
    Describe,
    Sync,
    Bind,
    Execute,
    Close,
}

impl View for RequestMessage {
    type V = RequestView;

    open spec fn view(&self) -> RequestView {
        match self {
            RequestMessage::SimpleQuery(q) => RequestView::SimpleQuery(q@),
            RequestMessage::Termination => RequestView::Termination,
            RequestMessage::Parse => RequestView::Parse,
            RequestMessage::Describe => RequestView::Describe,
            RequestMessage::Sync => RequestView::Sync,
            RequestMessage::Bind => RequestView::Bind,
            RequestMessage::Execute => RequestView::Execute,
            RequestMessage::Close => RequestView::Close,
        }
    }
}

/// Why a message is not one this server knows.
#[derive(Clone, Copy, Debug, PartialEq, Eq, Structural)]
pub enum RequestError {
    /// The type tag is not one of the eight handled.
    Unsupported(u8),
}

/// The text of a simple query body: the body without its last byte, the
/// terminator.
pub open spec fn query_text(body: Seq<u8>) -> Seq<u8> {
    if body.len() == 0 {
        body
    } else {
        body.drop_last()
    }
}

/// The request that a tag and body hold.
pub open spec fn decode_request(tag: u8, body: Seq<u8>) -> Result<RequestView, RequestError> {
    if tag == TAG_QUERY {
        Ok(RequestView::SimpleQuery(query_text(body)))
    } else if tag == TAG_TERMINATE {
        Ok(RequestView::Termination)
    } else if tag == TAG_PARSE {
        Ok(RequestView::Parse)
    } else if tag == TAG_DESCRIBE {
        Ok(RequestView::Describe)
    } else if tag == TAG_SYNC {
        Ok(RequestView::Sync)
    } else if tag == TAG_BIND {
        Ok(RequestView::Bind)
    } else if tag == TAG_EXECUTE {
        Ok(RequestView::Execute)
    } else if tag == TAG_CLOSE {
        Ok(RequestView::Close)
    } else {
        Err(RequestError::Unsupported(tag))
    }
}

/// A decoded request, or why there is none, as a value of the model.
pub open spec fn request_event(r: Result<RequestMessage, RequestError>) -> Result<
    RequestView,
    RequestError,
> {
    match r {
        Ok(m) => Ok(m@),
        Err(e) => Err(e),
    }
}

impl RequestMessage {
    /// Decodes a client message from its tag and body.
    pub fn decode(tag: u8, body: &[u8]) -> (r: Result<RequestMessage, RequestError>)
        ensures
            request_event(r) == decode_request(tag, body@),
    {
        if tag == TAG_QUERY {
            let end = if body.len() == 0 {
                0
            } else {
                body.len() - 1
            };
            let text = slice_to_vec(slice_subrange(body, 0, end));
            assert(text@ =~= query_text(body@));
            Ok(RequestMessage::SimpleQuery(text))
        } else if tag == TAG_TERMINATE {
            Ok(RequestMessage::Termination)
        } else if tag == TAG_PARSE {
            Ok(RequestMessage::Parse)
        } else if tag == TAG_DESCRIBE {
            Ok(RequestMessage::Describe)
        } else if tag == TAG_SYNC {
            Ok(RequestMessage::Sync)
        } else if tag == TAG_BIND {
            Ok(RequestMessage::Bind)
        } else if tag == TAG_EXECUTE {
            Ok(RequestMessage::Execute)
        } else if tag == TAG_CLOSE {
            Ok(RequestMessage::Close)
        } else {
            Err(RequestError::Unsupported(tag))
        }
    }
}

} // verus!
