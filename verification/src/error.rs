//! What can go wrong.

use vstd::prelude::*;
use vstd::string::*;

verus! {

/// Why an operation failed.
#[derive(Debug)]
pub enum VaultClientErr {
    /// A request could not be sent, or its reply could not be read: the
    /// message of the HTTP client.
    Http(String),
    /// A reply is no JSON: the message of the parser.
    Json(String),
    /// A socket address could not be parsed: the message of the parser.
    AddrParse(String),
    /// A file or a socket failed: the message of the system.
    Io(String),
    /// A reply or a callback lacks a field.
    MissingField(&'static str),
    /// There is no usable token, or none could be had.
    InvalidToken(String),
    /// A secret does not have the shape that was asked for.
    InvalidSecret(&'static str),
}

/// What an error says.
pub enum ErrView {
    /// See [`VaultClientErr::Http`].
    Http(Seq<char>),
    /// See [`VaultClientErr::Json`].
    Json(Seq<char>),
    /// See [`VaultClientErr::AddrParse`].
    AddrParse(Seq<char>),
    /// See [`VaultClientErr::Io`].
    Io(Seq<char>),
    /// See [`VaultClientErr::MissingField`].
    MissingField(Seq<char>),
    /// See [`VaultClientErr::InvalidToken`].
    InvalidToken(Seq<char>),
    /// See [`VaultClientErr::InvalidSecret`].
    InvalidSecret(Seq<char>),
}

impl View for VaultClientErr {
    type V = ErrView;

    open spec fn view(&self) -> ErrView {
        match self {
            VaultClientErr::Http(m) => ErrView::Http(m@),
            VaultClientErr::Json(m) => ErrView::Json(m@),
            VaultClientErr::AddrParse(m) => ErrView::AddrParse(m@),
            VaultClientErr::Io(m) => ErrView::Io(m@),
            VaultClientErr::MissingField(m) => ErrView::MissingField(m@),
            VaultClientErr::InvalidToken(m) => ErrView::InvalidToken(m@),
            VaultClientErr::InvalidSecret(m) => ErrView::InvalidSecret(m@),
        }
    }
}

impl ErrView {
    /// The text that is shown for the error.
    pub open spec fn message(self) -> Seq<char> {
        match self {
            ErrView::Http(m) => "http error: "@ + m,
            ErrView::Json(m) => "json error: "@ + m,
            ErrView::AddrParse(m) => "json error: "@ + m,
            ErrView::Io(m) => "io error: "@ + m,
            ErrView::MissingField(m) => "missing callback field: "@ + m,
            ErrView::InvalidToken(m) => "invalid token: "@ + m,
            ErrView::InvalidSecret(m) => "invalid secret: "@ + m,
        }
    }
}

impl VaultClientErr {
    /// The text that is shown for the error.
    pub fn message(&self) -> (text: String)
        ensures
            text@ == self@.message(),
    {
        let (label, detail): (&str, &str) = match self {
            VaultClientErr::Http(m) => ("http error: ", m.as_str()),
            VaultClientErr::Json(m) => ("json error: ", m.as_str()),
            VaultClientErr::AddrParse(m) => ("json error: ", m.as_str()),
            VaultClientErr::Io(m) => ("io error: ", m.as_str()),
            VaultClientErr::MissingField(m) => ("missing callback field: ", *m),
            VaultClientErr::InvalidToken(m) => ("invalid token: ", m.as_str()),
            VaultClientErr::InvalidSecret(m) => ("invalid secret: ", *m),
        };
        label.to_owned().concat(detail)
    }
}

/// The text of an error says what kind it is and then gives the whole message
/// that came with it.
pub proof fn law_text_ends_with_the_message(m: Seq<char>)
    ensures
        ErrView::Http(m).message() == "http error: "@ + m,
        ErrView::Json(m).message() == "json error: "@ + m,
        ErrView::AddrParse(m).message() == "json error: "@ + m,
        ErrView::Io(m).message() == "io error: "@ + m,
        ErrView::MissingField(m).message() == "missing callback field: "@ + m,
        ErrView::InvalidToken(m).message() == "invalid token: "@ + m,
        ErrView::InvalidSecret(m).message() == "invalid secret: "@ + m,
{
}

/// An error is told by its kind and by the whole message that it holds.
pub proof fn law_errors_keep_kind_and_message(e: VaultClientErr)
    ensures
        e matches VaultClientErr::Http(m) ==> e@ == ErrView::Http(m@),
        e matches VaultClientErr::Json(m) ==> e@ == ErrView::Json(m@),
        e matches VaultClientErr::AddrParse(m) ==> e@ == ErrView::AddrParse(m@),
        e matches VaultClientErr::Io(m) ==> e@ == ErrView::Io(m@),
        e matches VaultClientErr::MissingField(m) ==> e@ == ErrView::MissingField(m@),
        e matches VaultClientErr::InvalidToken(m) ==> e@ == ErrView::InvalidToken(m@),
        e matches VaultClientErr::InvalidSecret(m) ==> e@ == ErrView::InvalidSecret(m@),
{
}

} // verus!
