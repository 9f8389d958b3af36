//! The error kinds a command can end with. Every kind carries plain data, so
//! contracts can say exactly which error an input produces.
use vstd::prelude::*;

verus! {

use vstd::string::StringExecFns;
use crate::strutil::dec_str;
use crate::strutil::u64_to_string;

#[derive(Debug, Clone, PartialEq, Eq)]
pub enum CommandError {
    /// The authentication collaborator could not produce a client.
    Authentication,
    /// The transport failed; the carried text describes the failure.
    Request(String),
    /// A response body was not the JSON the caller expected.
    Parse,
    /// A manifest document could not be read or written.
    YamlParse,
    /// The backend answered with a status code the verb does not accept.
    WrongResponseStatus(u16),
    /// A field the caller relies on is missing from the response.
    MissingField,
    /// A file the edge-app directory must hold is missing.
    MissingRequiredFile(String),
    /// A local read or write failed.
    Io(String),
    /// A request header could not be constructed.
    InvalidHeaderValue,
    /// Nothing differs from the uploaded version; the carried text says so.
    NoChangesToUpload(String),
    /// A local path did not start with the expected prefix.
    StripPrefixError,
    /// The local working set is laid out wrongly.
    FileSystemError(String),
    /// The backend did not finish processing an asset in time.
    AssetProcessingTimeout,
}

/// The text a [`CommandError`] reports itself with.
pub open spec fn spec_message(e: CommandError) -> Seq<char> {
    match e {
        CommandError::Authentication => "auth error"@,
        CommandError::Request(s) => "request error: "@ + s@,
        CommandError::Parse => "parse error"@,
        CommandError::YamlParse => "parse error"@,
        CommandError::WrongResponseStatus(code) => "unknown error: "@ + dec_str(code as nat),
        CommandError::MissingField => "Required field is missing in the response"@,
        CommandError::MissingRequiredFile(s) => "Required file is missing in the edge app directory: "@
            + s@,
        CommandError::Io(s) => "I/O error: "@ + s@,
        CommandError::InvalidHeaderValue => "Invalid header value"@,
        CommandError::NoChangesToUpload(s) => "Cannot upload a new version: "@ + s@,
        CommandError::StripPrefixError => "Strip prefix error"@,
        CommandError::FileSystemError(s) => "Filesystem error: "@ + s@,
        CommandError::AssetProcessingTimeout => "Asset processing timeout"@,
    }
}

impl CommandError {
    /// How the error describes itself to the user.
    pub fn message(&self) -> (r: String)
        ensures
            r@ == spec_message(*self),
    {
        let mut out = String::new();
        match self {
            CommandError::Authentication => {
                out.append("auth error");
            },
            CommandError::Request(s) => {
                out.append("request error: ");
                out.append(s.as_str());
            },
            CommandError::Parse => {
                out.append("parse error");
            },
            CommandError::YamlParse => {
                out.append("parse error");
            },
            CommandError::WrongResponseStatus(code) => {
                out.append("unknown error: ");
                let digits = u64_to_string(*code as u64);
                out.append(digits.as_str());
            },
            CommandError::MissingField => {
                out.append("Required field is missing in the response");
            },
            CommandError::MissingRequiredFile(s) => {
                out.append("Required file is missing in the edge app directory: ");
                out.append(s.as_str());
            },
            CommandError::Io(s) => {
                out.append("I/O error: ");
                out.append(s.as_str());
            },
            CommandError::InvalidHeaderValue => {
                out.append("Invalid header value");
            },
            CommandError::NoChangesToUpload(s) => {
                out.append("Cannot upload a new version: ");
                out.append(s.as_str());
            },
            CommandError::StripPrefixError => {
                out.append("Strip prefix error");
            },
            CommandError::FileSystemError(s) => {
                out.append("Filesystem error: ");
                out.append(s.as_str());
            },
            CommandError::AssetProcessingTimeout => {
                out.append("Asset processing timeout");
            },
        }
        proof {
            assert(out@ =~= spec_message(*self));
        }
        out
    }
}

} // verus!
