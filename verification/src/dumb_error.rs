//! The one error type of the bot: whatever went wrong underneath, kept as
//! the error that the layer underneath reported.

use vstd::prelude::*;
use vstd::std_specs::convert::FromSpecImpl;

verus! {

/// `serenity::Error`, an error of the chat service.
#[verifier::external_type_specification]
#[verifier::external_body]
pub struct ExSerenityError(serenity::Error);

/// `std::io::Error`, an error of reading or writing.
#[verifier::external_type_specification]
#[verifier::external_body]
pub struct ExIoError(std::io::Error);

/// `reqwest::Error`, an error of fetching from the web.
#[verifier::external_type_specification]
#[verifier::external_body]
pub struct ExReqwestError(reqwest::Error);

/// `csv::Error`, an error of reading comma-separated values.
#[verifier::external_type_specification]
#[verifier::external_body]
pub struct ExCsvError(csv::Error);

/// An error of one of the layers that the bot stands on.
#[derive(Debug)]
pub enum DumbError {
    SerenityError(serenity::Error),
    IOError(std::io::Error),
    SerdeError(serde_json::Error),
    ReqwestError(reqwest::Error),
    CsvError(csv::Error),
}

impl From<serenity::Error> for DumbError {
    fn from(error: serenity::Error) -> (wrapped: Self) {
        DumbError::SerenityError(error)
    }
}

impl FromSpecImpl<serenity::Error> for DumbError {
    open spec fn obeys_from_spec() -> bool {
        true
    }

    open spec fn from_spec(error: serenity::Error) -> Self {
        DumbError::SerenityError(error)
    }
}

impl From<std::io::Error> for DumbError {
    fn from(error: std::io::Error) -> (wrapped: Self) {
        DumbError::IOError(error)
    }
}

impl FromSpecImpl<std::io::Error> for DumbError {
    open spec fn obeys_from_spec() -> bool {
        true
    }

    open spec fn from_spec(error: std::io::Error) -> Self {
        DumbError::IOError(error)
    }
}

impl From<serde_json::Error> for DumbError {
    fn from(error: serde_json::Error) -> (wrapped: Self) {
        DumbError::SerdeError(error)
    }
}

impl FromSpecImpl<serde_json::Error> for DumbError {
    open spec fn obeys_from_spec() -> bool {
        true
    }

    open spec fn from_spec(error: serde_json::Error) -> Self {
        DumbError::SerdeError(error)
    }
}

impl From<reqwest::Error> for DumbError {
    fn from(error: reqwest::Error) -> (wrapped: Self) {
        DumbError::ReqwestError(error)
    }
}

impl FromSpecImpl<reqwest::Error> for DumbError {
    open spec fn obeys_from_spec() -> bool {
        true
    }

    open spec fn from_spec(error: reqwest::Error) -> Self {
        DumbError::ReqwestError(error)
    }
}

impl From<csv::Error> for DumbError {
    fn from(error: csv::Error) -> (wrapped: Self) {
        DumbError::CsvError(error)
    }
}

impl FromSpecImpl<csv::Error> for DumbError {
    open spec fn obeys_from_spec() -> bool {
        true
    }

    open spec fn from_spec(error: csv::Error) -> Self {
        DumbError::CsvError(error)
    }
}

/// What an operation returns that yields nothing but may fail.
pub type MaybeError = Result<(), DumbError>;

} // verus!
