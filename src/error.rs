use vstd::prelude::*;
use vstd::string::*;
use crate::text::{decimal, decimal_string};

verus! {

/// The errors of the library's operations.
#[derive(Debug, Clone)]
pub enum AppError {
    NotFound(String),
    InvalidInput { field: String, value: String },
    DatabaseError(String),
    NetworkError { code: u32, message: String },
}

impl AppError {
    /// The human-readable text of an error.
    pub open spec fn message_spec(&self) -> Seq<char> {
        match self {
            AppError::NotFound(item) => "Not found: "@ + item@,
            AppError::InvalidInput { field, value } => "Invalid input for "@ + field@ + ": "@
                + value@,
            AppError::DatabaseError(msg) => "Database error: "@ + msg@,
            AppError::NetworkError { code, message } => "Network error "@ + decimal(
                *code as nat,
            ) + ": "@ + message@,
        }
    }

    /// The human-readable text of this error, as `Display` would print it.
    pub fn message(&self) -> (r: String)
        ensures
            r@ == self.message_spec(),
    {
        match self {
            AppError::NotFound(item) => {
                let mut s = String::from_str("Not found: ");
                s.append(item.as_str());
                s
            },
            AppError::InvalidInput { field, value } => {
                let mut s = String::from_str("Invalid input for ");
                s.append(field.as_str());
                s.append(": ");
                s.append(value.as_str());
                s
            },
            AppError::DatabaseError(msg) => {
                let mut s = String::from_str("Database error: ");
                s.append(msg.as_str());
                s
            },
            AppError::NetworkError { code, message } => {
                let mut s = String::from_str("Network error ");
                let digits = decimal_string(*code as u64);
                s.append(digits.as_str());
                s.append(": ");
                s.append(message.as_str());
                s
            },
        }
    }
}

} // verus!
