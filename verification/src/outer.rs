//! Types of outside crates that the library carries without looking inside.
use vstd::prelude::*;

use reqwest::Error as ReqwestError;
use serde_json::Error as JsonError;

verus! {

/// `serde_json::Error`, the error of a JSON text that does not parse.
#[verifier::external_type_specification]
#[verifier::external_body]
pub struct ExJsonError(JsonError);

/// `reqwest::Error`, the error of an HTTP exchange that failed.
#[verifier::external_type_specification]
#[verifier::external_body]
pub struct ExReqwestError(ReqwestError);

} // verus!
