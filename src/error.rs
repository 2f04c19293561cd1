use vstd::prelude::*;
use vstd::string::*;

verus! {

/// Failures the HTTP layer can name.
pub enum ApiError {
    Disconnect,
    Redaction(String),
    InvalidHeader { expected: String, found: String },
    Unknown,
    InternalError,
}

/// The `Debug` rendering of a string: quoted, with its special characters
/// escaped.
pub uninterp spec fn debug_of(s: Seq<char>) -> Seq<char>;

/// Relies on the `Debug` formatting of `str`: the quoted, escaped form of `s`,
/// which depends on the characters alone.
#[verifier::external_body]
fn debug_quoted(s: &str) -> (r: String)
    ensures
        r@ == debug_of(s@),
{
    format!("{:?}", s)
}

impl ApiError {
    /// The human-readable description of the error.
    pub open spec fn text(&self) -> Seq<char> {
        match self {
            ApiError::Disconnect => "data store disconnected"@,
            ApiError::Redaction(k) => "the data for key `"@ + k@ + "` is not available"@,
            ApiError::InvalidHeader { expected, found } => "invalid header (expected "@ + debug_of(
                expected@,
            ) + ", found "@ + debug_of(found@) + ")"@,
            ApiError::Unknown => "unknown error"@,
            ApiError::InternalError => "internal error"@,
        }
    }

    pub fn message(&self) -> (r: String)
        ensures
            r@ == self.text(),
    {
        match self {
            ApiError::Disconnect => {
                proof {
                    reveal_strlit("data store disconnected");
                }
                String::from_str("data store disconnected")
            },
            ApiError::Redaction(k) => {
                proof {
                    reveal_strlit("the data for key `");
                    reveal_strlit("` is not available");
                }
                let mut s = String::from_str("the data for key `");
                s.append(k.as_str());
                s.append("` is not available");
                s
            },
            ApiError::InvalidHeader { expected, found } => {
                proof {
                    reveal_strlit("invalid header (expected ");
                    reveal_strlit(", found ");
                    reveal_strlit(")");
                }
                let mut s = String::from_str("invalid header (expected ");
                let e = debug_quoted(expected.as_str());
                s.append(e.as_str());
                s.append(", found ");
                let f = debug_quoted(found.as_str());
                s.append(f.as_str());
                s.append(")");
                s
            },
            ApiError::Unknown => {
                proof {
                    reveal_strlit("unknown error");
                }
                String::from_str("unknown error")
            },
            ApiError::InternalError => {
                proof {
                    reveal_strlit("internal error");
                }
                String::from_str("internal error")
            },
        }
    }
}

} // verus!
