//! The uniform envelope that every command hands back to the caller.

use vstd::prelude::*;

verus! {

/// Outcome class of a command, carried as a numeric code on the wire.
#[derive(Debug, Copy, Clone, PartialEq, Eq, Structural)]
pub enum StatusCode {
    Success,
    BadRequest,
    Unauthorized,
    NotFound,
    InternalServerError,
}

impl StatusCode {
    /// The numeric code of a status.
    pub open spec fn spec_code(self) -> u16 {
        match self {
            StatusCode::Success => 200u16,
            StatusCode::BadRequest => 400u16,
            StatusCode::Unauthorized => 401u16,
            StatusCode::NotFound => 404u16,
            StatusCode::InternalServerError => 500u16,
        }
    }

    /// The status that a numeric code stands for, if any.
    pub open spec fn spec_from_code(code: u16) -> Option<StatusCode> {
        if code == 200 {
            Some(StatusCode::Success)
        } else if code == 400 {
            Some(StatusCode::BadRequest)
        } else if code == 401 {
            Some(StatusCode::Unauthorized)
        } else if code == 404 {
            Some(StatusCode::NotFound)
        } else if code == 500 {
            Some(StatusCode::InternalServerError)
        } else {
            None
        }
    }

    /// The status reported for the answer of a remote service that carried
    /// the HTTP status `http`: success for 2xx, a bad request for 4xx, an
    /// internal error for everything else.
    pub open spec fn spec_from_http(http: u16) -> StatusCode {
        if 200 <= http <= 299 {
            StatusCode::Success
        } else if 400 <= http <= 499 {
            StatusCode::BadRequest
        } else {
            StatusCode::InternalServerError
        }
    }

    #[verifier::when_used_as_spec(spec_code)]
    pub fn code(self) -> (c: u16)
        ensures
            c == self.spec_code(),
    {
        match self {
            StatusCode::Success => 200,
            StatusCode::BadRequest => 400,
            StatusCode::Unauthorized => 401,
            StatusCode::NotFound => 404,
            StatusCode::InternalServerError => 500,
        }
    }

    pub fn from_code(code: u16) -> (r: Option<StatusCode>)
        ensures
            r == Self::spec_from_code(code),
    {
        if code == 200 {
            Some(StatusCode::Success)
        } else if code == 400 {
            Some(StatusCode::BadRequest)
        } else if code == 401 {
            Some(StatusCode::Unauthorized)
        } else if code == 404 {
            Some(StatusCode::NotFound)
        } else if code == 500 {
            Some(StatusCode::InternalServerError)
        } else {
            None
        }
    }

    pub fn from_http(http: u16) -> (s: StatusCode)
        ensures
            s == Self::spec_from_http(http),
    {
        if 200 <= http && http <= 299 {
            StatusCode::Success
        } else if 400 <= http && http <= 499 {
            StatusCode::BadRequest
        } else {
            StatusCode::InternalServerError
        }
    }

    /// Reading a status back from its own code gives the status again, a
    /// code that is read successfully is the code of what was read, and the
    /// codes are 200, 400, 401, 404 and 500.
    pub proof fn code_round_trip(s: StatusCode, code: u16)
        ensures
            s.spec_code() == 200 || s.spec_code() == 400 || s.spec_code() == 401 || s.spec_code()
                == 404 || s.spec_code() == 500,
            Self::spec_from_code(s.spec_code()) == Some(s),
            Self::spec_from_code(code) is Some ==> Self::spec_from_code(code).unwrap().spec_code()
                == code,
    {
    }
}

/// The envelope: a status, and either a payload or an error message.
#[derive(Debug)]
pub struct Response<T> {
    pub status: StatusCode,
    pub data: Option<T>,
    pub error: Option<String>,
}

impl<T> Response<T> {
    /// An envelope never carries a payload and an error at once.
    pub open spec fn well_formed(&self) -> bool {
        !(self.data is Some && self.error is Some)
    }

    /// The error message as text, where there is one.
    pub open spec fn error_text(&self) -> Option<Seq<char>> {
        match self.error {
            Some(e) => Some(e@),
            None => None,
        }
    }

    /// A success that carries `data`.
    pub fn ok(data: T) -> (r: Self)
        ensures
            r.status == StatusCode::Success,
            r.data == Some(data),
            r.error is None,
            r.well_formed(),
    {
        Response { status: StatusCode::Success, data: Some(data), error: None }
    }

    /// A success with nothing to report.
    pub fn empty() -> (r: Self)
        ensures
            r.status == StatusCode::Success,
            r.data is None,
            r.error is None,
            r.well_formed(),
    {
        Response { status: StatusCode::Success, data: None, error: None }
    }

    /// An outcome with the given status that carries only a message.
    pub fn failure(status: StatusCode, message: String) -> (r: Self)
        ensures
            r.status == status,
            r.data is None,
            r.error == Some(message),
            r.error_text() == Some(message@),
            r.well_formed(),
    {
        Response { status, data: None, error: Some(message) }
    }

    /// An internal error that carries the message of a failed transport.
    pub fn transport_failure(message: String) -> (r: Self)
        ensures
            r.status == StatusCode::InternalServerError,
            r.data is None,
            r.error == Some(message),
            r.error_text() == Some(message@),
            r.well_formed(),
    {
        Response { status: StatusCode::InternalServerError, data: None, error: Some(message) }
    }
}

/// The content of an envelope whose payload is text.
pub struct EnvelopeView {
    pub status: StatusCode,
    pub data: Option<Seq<char>>,
    pub error: Option<Seq<char>>,
}

/// An envelope with a textual payload, taken by the views of its texts.
pub open spec fn text_envelope(r: Response<String>) -> EnvelopeView {
    EnvelopeView {
        status: r.status,
        data: match r.data {
            Some(d) => Some(d@),
            None => None,
        },
        error: r.error_text(),
    }
}

/// The content of a success that carries `data`.
pub open spec fn success_view(data: Seq<char>) -> EnvelopeView {
    EnvelopeView { status: StatusCode::Success, data: Some(data), error: None }
}

/// The content of an outcome that carries only a message.
pub open spec fn failure_view(status: StatusCode, message: Seq<char>) -> EnvelopeView {
    EnvelopeView { status, data: None, error: Some(message) }
}

} // verus!
