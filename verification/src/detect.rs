use vstd::prelude::*;

verus! {

/// Why locating the user from the network failed.
#[derive(Debug, Clone)]
pub enum DetectError {
    /// The request could not be sent or answered.
    Network(String),
    /// The answer could not be read.
    Parse(String),
    /// The service answered with an error.
    Api(String),
    /// The lookup was interrupted.
    Internal(String),
}

/// The message shown for a failed location lookup.
pub open spec fn detect_error_text(e: DetectError) -> Seq<char> {
    match e {
        DetectError::Network(s) => "HTTP request failed: "@ + s@,
        DetectError::Parse(s) => "Failed to parse response: "@ + s@,
        DetectError::Api(s) => "API error: "@ + s@,
        DetectError::Internal(s) => s@,
    }
}

impl DetectError {
    /// The message shown for this failure.
    pub fn message(&self) -> (s: String)
        ensures
            s@ == detect_error_text(*self),
    {
        match self {
            DetectError::Network(detail) => {
                let mut out = String::from_str("HTTP request failed: ");
                out.append(detail.as_str());
                out
            },
            DetectError::Parse(detail) => {
                let mut out = String::from_str("Failed to parse response: ");
                out.append(detail.as_str());
                out
            },
            DetectError::Api(detail) => {
                let mut out = String::from_str("API error: ");
                out.append(detail.as_str());
                out
            },
            DetectError::Internal(detail) => detail.clone(),
        }
    }
}

/// The place name that a location lookup's answer gives: `None` stands
/// for a field the answer left out.
pub open spec fn place_name_of(city: Option<String>) -> Seq<char> {
    match city {
        Some(c) => c@,
        None => "Unknown"@,
    }
}

/// The error message that a failed lookup's answer gives.
pub open spec fn lookup_error_of(message: Option<String>) -> Seq<char> {
    match message {
        Some(m) => m@,
        None => "Unknown error"@,
    }
}

/// Reads the verdict of a location lookup's answer: when the service
/// reports success, the place name (the city, or `Unknown` when it names
/// none); otherwise the service's error (its message, or `Unknown error`).
pub fn lookup_place_name(success: bool, message: Option<String>, city: Option<String>) -> (r: Result<
    String,
    DetectError,
>)
    ensures
        success ==> (r matches Ok(name) && name@ == place_name_of(city)),
        !success ==> (r matches Err(DetectError::Api(m)) && m@ == lookup_error_of(message)),
{
    if !success {
        let m = match message {
            Some(m) => m,
            None => String::from_str("Unknown error"),
        };
        return Err(DetectError::Api(m));
    }
    match city {
        Some(c) => Ok(c),
        None => Ok(String::from_str("Unknown")),
    }
}

} // verus!
