use vstd::prelude::*;
use vstd::string::StringExecFns;

verus! {

/// Every way in which a command on the user store can fail.
#[derive(Clone, Debug, PartialEq, Eq)]
pub enum UserError {
    /// The store's file exists but could not be read.
    ReadError { path: String, cause: String },
    /// The store's file could not be written.
    WriteError { path: String, cause: String },
    /// The store's file does not hold a JSON array of users.
    DecodeError { path: String, cause: String },
    /// The collection could not be turned into JSON.
    EncodeError { path: String, cause: String },
    /// A user with the same first and last name is already stored.
    AlreadyExists,
    /// No stored user matches the given key.
    NotFound,
}

/// The text of `prefix` followed by the path and the cause.
pub open spec fn context_message(prefix: Seq<char>, path: Seq<char>, cause: Seq<char>) -> Seq<char> {
    prefix + path + ": "@ + cause
}

/// The one-line message shown for an error.
pub open spec fn error_message(e: UserError) -> Seq<char> {
    match e {
        UserError::ReadError { path, cause } => context_message("Failed to read file "@, path@, cause@),
        UserError::WriteError { path, cause } => context_message("Failed to write file "@, path@, cause@),
        UserError::DecodeError { path, cause } => context_message("Failed to parse JSON in "@, path@, cause@),
        UserError::EncodeError { path, cause } => context_message("Failed to serialize users for "@, path@, cause@),
        UserError::AlreadyExists => "User already exists"@,
        UserError::NotFound => "User not found"@,
    }
}

fn with_context(prefix: &str, path: &String, cause: &String) -> (r: String)
    ensures
        r@ == context_message(prefix@, path@, cause@),
{
    String::from_str(prefix).concat(path.as_str()).concat(": ").concat(cause.as_str())
}

impl UserError {
    /// The one-line message shown for this error.
    pub fn message(&self) -> (r: String)
        ensures
            r@ == error_message(*self),
    {
        match self {
            UserError::ReadError { path, cause } => with_context("Failed to read file ", path, cause),
            UserError::WriteError { path, cause } => with_context("Failed to write file ", path, cause),
            UserError::DecodeError { path, cause } => with_context("Failed to parse JSON in ", path, cause),
            UserError::EncodeError { path, cause } => with_context("Failed to serialize users for ", path, cause),
            UserError::AlreadyExists => String::from_str("User already exists"),
            UserError::NotFound => String::from_str("User not found"),
        }
    }
}

} // verus!
