//! A small collection of verified building blocks: an error type with its
//! messages, a user record with its validation rules, an in-memory user
//! repository, a string-keyed cache, and a few standalone helpers over
//! numbers, maps and HTTP responses.

use vstd::prelude::*;

mod text;
mod error;
mod user;
mod repository;
mod numbers;
mod maps;
mod cache;
mod http;
mod internal;

pub use error::AppError;
pub use cache::Cache;
pub use http::{check_response_status, is_success_status, user_data_url, user_url_spec};
pub use internal::{InternalData, helper_function};
pub use maps::{
    lemma_merge_associative, lemma_merge_disjoint_commutes, lemma_merge_empty,
    lemma_merge_idempotent, lemma_merged_entries, merge_maps, merged,
};
pub use numbers::{doubled_small_positives, process_numbers};
pub use repository::{Repository, UserRepository, is_database_error, lemma_repository_finite};
pub use user::{EMAIL_PATTERN, User, is_email, is_invalid_input};
pub use text::{decimal, decimal_string, digit_char};

verus! {

/// The largest buffer the library works with, in bytes.
pub const MAX_BUFFER_SIZE: usize = 1024 * 1024;

/// The version of the API this library speaks.
pub const API_VERSION: &'static str = "2.0.0";

} // verus!
