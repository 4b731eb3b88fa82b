//! The error kinds of the crate.
//!
//! Failures that come from the filesystem, the asset cache, the transport to
//! the container engine, the engine itself or a decoder are carried as the
//! text that describes them.

use vstd::prelude::*;
use vstd::string::StringExecFns;
use crate::text::{debug_quoted, decimal, decimal_text, quoted};

verus! {

/// All possible errors.
#[derive(Debug)]
pub enum Error {
    /// The task description is malformed, or an asset source is not
    /// recognised.
    SpecError(String),
    /// Building an image reported a failure.
    BuildError(String),
    /// The host filesystem failed; holds the description of the failure.
    IOError(String),
    /// A permission check failed.
    PermissionDeniedError(String),
    /// The asset cache failed; holds the description of the failure.
    CacheError(String),
    /// The stage's script exited with this non-zero code.
    ErrorCode(u64),
    /// The transport to the container engine failed; holds the description
    /// of the failure.
    ConnectionError(String),
    /// The container engine reported a failure; holds its description.
    DockerError(String),
    /// Log bytes were not UTF-8; holds the description of the failure.
    EncodingError(String),
    /// Unknown error occurred.
    UnknownError(String),
}

/// What an [`Error`] is, with texts as sequences of characters.
pub enum ErrorView {
    Spec(Seq<char>),
    Build(Seq<char>),
    IO(Seq<char>),
    PermissionDenied(Seq<char>),
    Cache(Seq<char>),
    Code(u64),
    Connection(Seq<char>),
    Docker(Seq<char>),
    Encoding(Seq<char>),
    Unknown(Seq<char>),
}

impl View for Error {
    type V = ErrorView;

    open spec fn view(&self) -> ErrorView {
        match self {
            Error::SpecError(m) => ErrorView::Spec(m@),
            Error::BuildError(m) => ErrorView::Build(m@),
            Error::IOError(m) => ErrorView::IO(m@),
            Error::PermissionDeniedError(m) => ErrorView::PermissionDenied(m@),
            Error::CacheError(m) => ErrorView::Cache(m@),
            Error::ErrorCode(c) => ErrorView::Code(*c),
            Error::ConnectionError(m) => ErrorView::Connection(m@),
            Error::DockerError(m) => ErrorView::Docker(m@),
            Error::EncodingError(m) => ErrorView::Encoding(m@),
            Error::UnknownError(m) => ErrorView::Unknown(m@),
        }
    }
}

impl ErrorView {
    /// The name of the variant.
    pub open spec fn name(self) -> Seq<char> {
        match self {
            ErrorView::Spec(_) => "SpecError"@,
            ErrorView::Build(_) => "BuildError"@,
            ErrorView::IO(_) => "IOError"@,
            ErrorView::PermissionDenied(_) => "PermissionDeniedError"@,
            ErrorView::Cache(_) => "CacheError"@,
            ErrorView::Code(_) => "ErrorCode"@,
            ErrorView::Connection(_) => "ConnectionError"@,
            ErrorView::Docker(_) => "DockerError"@,
            ErrorView::Encoding(_) => "EncodingError"@,
            ErrorView::Unknown(_) => "UnknownError"@,
        }
    }

    /// What the variant holds, as it is written when the error is
    /// described for a developer: a message between quotes, a code in base
    /// ten, the description of a foreign failure as it stands.
    pub open spec fn detail(self) -> Seq<char> {
        match self {
            ErrorView::Spec(m) => debug_quoted(m),
            ErrorView::Build(m) => debug_quoted(m),
            ErrorView::IO(m) => m,
            ErrorView::PermissionDenied(m) => debug_quoted(m),
            ErrorView::Cache(m) => m,
            ErrorView::Code(c) => decimal_text(c as nat),
            ErrorView::Connection(m) => m,
            ErrorView::Docker(m) => m,
            ErrorView::Encoding(m) => m,
            ErrorView::Unknown(m) => debug_quoted(m),
        }
    }

    /// The description for a developer: the variant's name, then what it
    /// holds between round brackets.
    pub open spec fn debug_text(self) -> Seq<char> {
        self.name() + "("@ + self.detail() + ")"@
    }

    /// The words that open the message for a user.
    pub open spec fn heading(self) -> Seq<char> {
        match self {
            ErrorView::Spec(_) => "Error in task specification: "@,
            ErrorView::Build(_) => "Error while building image: "@,
            ErrorView::IO(_) => "Error while accessing filesystem: "@,
            ErrorView::PermissionDenied(_) => "Permission denied: "@,
            ErrorView::Cache(_) => "Error in cache system: "@,
            ErrorView::Code(_) => "Script exited with code "@,
            ErrorView::Connection(_) => "Error while connecting to docker service: "@,
            ErrorView::Docker(_) => "Error while communicating with docker: "@,
            ErrorView::Encoding(_) => "Decoding error with docker logs: "@,
            ErrorView::Unknown(_) => "Unknown error: "@,
        }
    }

    /// What the variant holds, as it is written in the message for a user.
    pub open spec fn subject(self) -> Seq<char> {
        match self {
            ErrorView::Spec(m) => m,
            ErrorView::Build(m) => m,
            ErrorView::IO(m) => m,
            ErrorView::PermissionDenied(m) => m,
            ErrorView::Cache(m) => m,
            ErrorView::Code(c) => decimal_text(c as nat),
            ErrorView::Connection(m) => m,
            ErrorView::Docker(m) => m,
            ErrorView::Encoding(m) => m,
            ErrorView::Unknown(m) => m,
        }
    }

    /// The message for a user: the heading, what the variant holds, and a
    /// full stop.
    pub open spec fn message(self) -> Seq<char> {
        self.heading() + self.subject() + "."@
    }
}

impl Error {
    fn name(&self) -> (r: &'static str)
        ensures
            r@ == self@.name(),
    {
        match self {
            Error::SpecError(_) => "SpecError",
            Error::BuildError(_) => "BuildError",
            Error::IOError(_) => "IOError",
            Error::PermissionDeniedError(_) => "PermissionDeniedError",
            Error::CacheError(_) => "CacheError",
            Error::ErrorCode(_) => "ErrorCode",
            Error::ConnectionError(_) => "ConnectionError",
            Error::DockerError(_) => "DockerError",
            Error::EncodingError(_) => "EncodingError",
            Error::UnknownError(_) => "UnknownError",
        }
    }

    fn detail(&self) -> (r: String)
        ensures
            r@ == self@.detail(),
    {
        match self {
            Error::SpecError(m) => quoted(m.as_str()),
            Error::BuildError(m) => quoted(m.as_str()),
            Error::IOError(m) => m.clone(),
            Error::PermissionDeniedError(m) => quoted(m.as_str()),
            Error::CacheError(m) => m.clone(),
            Error::ErrorCode(c) => decimal(*c),
            Error::ConnectionError(m) => m.clone(),
            Error::DockerError(m) => m.clone(),
            Error::EncodingError(m) => m.clone(),
            Error::UnknownError(m) => quoted(m.as_str()),
        }
    }

    fn heading(&self) -> (r: &'static str)
        ensures
            r@ == self@.heading(),
    {
        match self {
            Error::SpecError(_) => "Error in task specification: ",
            Error::BuildError(_) => "Error while building image: ",
            Error::IOError(_) => "Error while accessing filesystem: ",
            Error::PermissionDeniedError(_) => "Permission denied: ",
            Error::CacheError(_) => "Error in cache system: ",
            Error::ErrorCode(_) => "Script exited with code ",
            Error::ConnectionError(_) => "Error while connecting to docker service: ",
            Error::DockerError(_) => "Error while communicating with docker: ",
            Error::EncodingError(_) => "Decoding error with docker logs: ",
            Error::UnknownError(_) => "Unknown error: ",
        }
    }

    fn subject(&self) -> (r: String)
        ensures
            r@ == self@.subject(),
    {
        match self {
            Error::SpecError(m) => m.clone(),
            Error::BuildError(m) => m.clone(),
            Error::IOError(m) => m.clone(),
            Error::PermissionDeniedError(m) => m.clone(),
            Error::CacheError(m) => m.clone(),
            Error::ErrorCode(c) => decimal(*c),
            Error::ConnectionError(m) => m.clone(),
            Error::DockerError(m) => m.clone(),
            Error::EncodingError(m) => m.clone(),
            Error::UnknownError(m) => m.clone(),
        }
    }

    /// The description of the error for a developer, such as
    /// `ErrorCode(7)` or `SpecError("no stages")`.
    pub fn debug_text(&self) -> (r: String)
        ensures
            r@ == self@.debug_text(),
    {
        let mut out = String::from_str(self.name());
        out.append("(");
        let detail = self.detail();
        out.append(detail.as_str());
        out.append(")");
        out
    }

    /// The message of the error for a user, such as
    /// `Script exited with code 7.`
    pub fn to_string(&self) -> (r: String)
        ensures
            r@ == self@.message(),
    {
        let mut out = String::from_str(self.heading());
        let subject = self.subject();
        out.append(subject.as_str());
        out.append(".");
        out
    }
}

} // verus!
