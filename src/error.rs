use vstd::prelude::*;

verus! {

/// What the bridge reports when it rejects an operation.
#[derive(Debug, Clone, PartialEq, Eq)]
pub struct ErrorDetail {
    /// The bridge's numeric error type.
    pub code: i64,
    /// The resource the error refers to.
    pub address: String,
    /// A human-readable description.
    pub description: String,
}

/// The error type of every operation of the library.
#[derive(Debug, Clone, PartialEq, Eq)]
pub enum HueError {
    /// The network or I/O failed.
    Transport(String),
    /// The response body matched no expected JSON shape.
    Decode(String),
    /// A payload could not be encoded, or a body was not UTF-8 text.
    Encoding(String),
    /// The bridge itself rejected the operation.
    Bridge(ErrorDetail),
    /// A list of outcomes that should have held one was empty.
    Empty,
}

impl ErrorDetail {
    pub fn new(code: i64, address: String, description: String) -> (r: ErrorDetail)
        ensures
            r.code == code,
            r.address == address,
            r.description == description,
    {
        ErrorDetail { code, address, description }
    }
}

impl HueError {
    /// Whether the bridge itself reported this error.
    pub fn is_bridge_error(&self) -> (r: bool)
        ensures
            r == (*self is Bridge),
    {
        match self {
            HueError::Bridge(_) => true,
            _ => false,
        }
    }

    /// The bridge's own diagnostic, for an error that the bridge reported.
    pub fn bridge_detail(&self) -> (r: Option<&ErrorDetail>)
        ensures
            match *self {
                HueError::Bridge(d) => r == Some(&d),
                _ => r is None,
            },
    {
        match self {
            HueError::Bridge(d) => Some(d),
            _ => None,
        }
    }
}

} // verus!
