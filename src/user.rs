use vstd::prelude::*;
use vstd::string::*;
use crate::error::AppError;

verus! {

/// The pattern that an email address must match.
pub const EMAIL_PATTERN: &'static str = r"^[a-zA-Z0-9._%+-]+@[a-zA-Z0-9.-]+\.[a-zA-Z]{2,}$";

pub open spec fn is_ascii_letter(c: char) -> bool {
    ('a' <= c && c <= 'z') || ('A' <= c && c <= 'Z')
}

pub open spec fn is_ascii_alphanumeric(c: char) -> bool {
    is_ascii_letter(c) || ('0' <= c && c <= '9')
}

/// A character allowed before the `@` of an email address.
pub open spec fn is_local_char(c: char) -> bool {
    is_ascii_alphanumeric(c) || c == '.' || c == '_' || c == '%' || c == '+' || c == '-'
}

/// A character allowed in the domain of an email address, before its last label.
pub open spec fn is_domain_char(c: char) -> bool {
    is_ascii_alphanumeric(c) || c == '.' || c == '-'
}

/// `s` has the shape `local@domain.tld`: a non-empty local part of
/// `is_local_char`, an `@`, a non-empty domain of `is_domain_char`, a dot,
/// and at least two ASCII letters up to the end.
pub open spec fn is_email(s: Seq<char>) -> bool {
    exists|at: int, dot: int|
        #![trigger s[at], s[dot]]
        {
            &&& 0 < at && at + 1 < dot && dot + 2 < s.len()
            &&& s[at] == '@' && s[dot] == '.'
            &&& forall|i: int| 0 <= i < at ==> is_local_char(#[trigger] s[i])
            &&& forall|i: int| at < i < dot ==> is_domain_char(#[trigger] s[i])
            &&& forall|i: int| dot < i < s.len() ==> is_ascii_letter(#[trigger] s[i])
        }
}

/// `e` is an invalid-input error naming `field` and holding `value`.
pub open spec fn is_invalid_input(e: AppError, field: Seq<char>, value: Seq<char>) -> bool {
    match e {
        AppError::InvalidInput { field: f, value: v } => f@ == field && v@ == value,
        _ => false,
    }
}

/// Relies on regex::Regex::new and regex::Regex::is_match: the email pattern
/// compiles, and it matches exactly the texts of the shape `is_email`
/// describes (`^` and `$` anchor at the ends of the text).
#[verifier::external_body]
fn email_regex_matches(pattern: &str, text: &str) -> (r: bool)
    requires
        pattern@ == EMAIL_PATTERN@,
    ensures
        r == is_email(text@),
{
    regex::Regex::new(pattern).expect("Invalid regex").is_match(text)
}

/// Relies on std::time::SystemTime::now and chrono's conversion
/// `DateTime<Utc>::from(SystemTime)` with DateTime::timestamp: the current
/// time in whole seconds since the Unix epoch, negative for a clock set
/// before it. Nothing is promised of its value.
#[verifier::external_body]
fn now_timestamp() -> (r: i64) {
    chrono::DateTime::<chrono::Utc>::from(std::time::SystemTime::now()).timestamp()
}

/// A user record. `created_at` counts seconds since the Unix epoch.
#[derive(Debug)]
pub struct User {
    pub id: u64,
    pub username: String,
    pub email: String,
    pub full_name: Option<String>,
    pub active: bool,
    pub created_at: i64,
}

impl Clone for User {
    fn clone(&self) -> (r: Self)
        ensures
            r == *self,
    {
        let full_name = match &self.full_name {
            Some(name) => Some(name.clone()),
            None => None,
        };
        User {
            id: self.id,
            username: self.username.clone(),
            email: self.email.clone(),
            full_name,
            active: self.active,
            created_at: self.created_at,
        }
    }
}

impl User {
    /// The username is not empty and the email has the shape of an address.
    pub open spec fn is_valid(&self) -> bool {
        self.username@.len() > 0 && is_email(self.email@)
    }

    /// The error that validation reports for an invalid user: the username
    /// is checked first, then the email.
    pub open spec fn is_validation_error(&self, e: AppError) -> bool {
        if self.username@.len() == 0 {
            is_invalid_input(e, "username"@, self.username@)
        } else {
            is_invalid_input(e, "email"@, self.email@)
        }
    }

    /// Creates an active user with id 0, no full name, created at
    /// `created_at` (seconds since the Unix epoch).
    pub fn with_created_at(username: String, email: String, created_at: i64) -> (r: Self)
        ensures
            r == (User { id: 0, username, email, full_name: None, active: true, created_at }),
    {
        User { id: 0, username, email, full_name: None, active: true, created_at }
    }

    /// Creates an active user with id 0, no full name, created now.
    pub fn new(username: String, email: String) -> (r: Self)
        ensures
            r.id == 0,
            r.username == username,
            r.email == email,
            r.full_name is None,
            r.active,
    {
        User::with_created_at(username, email, now_timestamp())
    }

    /// Checks the username and then the email; the first that fails is
    /// reported as invalid input.
    pub fn validate(&self) -> (r: Result<(), AppError>)
        ensures
            r is Ok <==> self.is_valid(),
            r matches Err(e) ==> self.is_validation_error(e),
    {
        if self.username.as_str().unicode_len() == 0 {
            return Err(
                AppError::InvalidInput {
                    field: String::from_str("username"),
                    value: self.username.clone(),
                },
            );
        }
        if !email_regex_matches(EMAIL_PATTERN, self.email.as_str()) {
            return Err(
                AppError::InvalidInput {
                    field: String::from_str("email"),
                    value: self.email.clone(),
                },
            );
        }
        Ok(())
    }
}

} // verus!
