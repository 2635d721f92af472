use vstd::prelude::*;
use vstd::string::StringExecFns;

verus! {

/// Everything that can go wrong while serving a request.
///
/// `MissingField` carries the name of the required form field; `InvalidQueryParam`
/// carries the query parameter's name and the raw text that failed to parse.
#[derive(Debug)]
pub enum Error {
    MissingField(String),
    InvalidQueryParam(String, String),
    StorageConnectFailure,
    StorageReadFailure,
    StorageWriteFailure,
    RouteNotFound,
}

impl Error {
    /// The client-facing text for this error. Storage and connection errors stay
    /// generic; query-parse errors echo the offending field and raw value.
    pub open spec fn message_spec(&self) -> Seq<char> {
        match self {
            Error::MissingField(field) => "Missing field "@ + field@,
            Error::InvalidQueryParam(field, raw) => "Error parsing '"@ + field@ + "': invalid value '"@ + raw@ + "'"@,
            Error::StorageConnectFailure => "Error connecting to the database"@,
            Error::StorageReadFailure => "Error reading from the database"@,
            Error::StorageWriteFailure => "Error writing to the database"@,
            Error::RouteNotFound => "No route matches the request"@,
        }
    }

    pub fn message(&self) -> (m: String)
        ensures
            m@ == self.message_spec(),
    {
        match self {
            Error::MissingField(field) => {
                let mut m = String::from_str("Missing field ");
                m.append(field.as_str());
                m
            },
            Error::InvalidQueryParam(field, raw) => {
                let mut m = String::from_str("Error parsing '");
                m.append(field.as_str());
                m.append("': invalid value '");
                m.append(raw.as_str());
                m.append("'");
                m
            },
            Error::StorageConnectFailure => String::from_str("Error connecting to the database"),
            Error::StorageReadFailure => String::from_str("Error reading from the database"),
            Error::StorageWriteFailure => String::from_str("Error writing to the database"),
            Error::RouteNotFound => String::from_str("No route matches the request"),
        }
    }
}

} // verus!
