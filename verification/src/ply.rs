//! Errors of the point-cloud loading path.
//!
//! Parsing the point-cloud file format, and the floating-point unpacking
//! of its records, live in the application; the error taxonomy it reports
//! through is shared here, carrying each failure's detail as plain text.

use vstd::prelude::*;
use vstd::string::*;

verus! {

/// Why loading a point-cloud file failed.
#[derive(Debug)]
pub enum PlyError {
    /// The file could not be read.
    Io(String),
    /// The file is not well-formed.
    Parse(String),
    /// A record lacks a required property, named here.
    MissingProperty(String),
}

impl PlyError {
    /// The failure as one line of text: a fixed phrase for the kind,
    /// then the detail.
    pub fn message(&self) -> (r: String)
        ensures
            match self {
                PlyError::Io(s) => r@ == "IO error: "@ + s@,
                PlyError::Parse(s) => r@ == "Parse error: "@ + s@,
                PlyError::MissingProperty(s) => r@ == "Missing property: "@ + s@,
            },
    {
        match self {
            PlyError::Io(s) => "IO error: ".to_owned().concat(s.as_str()),
            PlyError::Parse(s) => "Parse error: ".to_owned().concat(s.as_str()),
            PlyError::MissingProperty(s) => "Missing property: ".to_owned().concat(s.as_str()),
        }
    }
}

} // verus!
