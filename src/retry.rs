use vstd::prelude::*;

use crate::service::{AzureMonitorLogsDceResponse, AzureMonitorLogsDceResponseError};
use crate::status::{
    is_server_error_code, is_success_code, is_valid_status_code, status_display_of,
    status_display_text,
};

verus! {

/// What the driver does with the outcome of a delivery.
#[derive(Clone, Debug, PartialEq, Eq)]
pub enum RetryAction {
    Successful,
    Retry(String),
    DontRetry(String),
}

/// The mathematical value of a `RetryAction`.
pub enum RetryDecision {
    Successful,
    Retry(Seq<char>),
    DontRetry(Seq<char>),
}

impl View for RetryAction {
    type V = RetryDecision;

    open spec fn view(&self) -> RetryDecision {
        match self {
            RetryAction::Successful => RetryDecision::Successful,
            RetryAction::Retry(s) => RetryDecision::Retry(s@),
            RetryAction::DontRetry(s) => RetryDecision::DontRetry(s@),
        }
    }
}

/// The decision for a response status, given the text that the status
/// displays as.
pub open spec fn status_decision(code: u16, display: Seq<char>) -> RetryDecision {
    if code == 429 {
        RetryDecision::Retry("too many requests"@)
    } else if code == 501 {
        RetryDecision::DontRetry("endpoint not implemented"@)
    } else if is_server_error_code(code) {
        RetryDecision::Retry(display)
    } else if is_success_code(code) {
        RetryDecision::Successful
    } else {
        RetryDecision::DontRetry("response status: "@ + display)
    }
}

/// The decision for a failed delivery.
pub open spec fn error_decision(error: AzureMonitorLogsDceResponseError) -> RetryDecision {
    match error {
        AzureMonitorLogsDceResponseError::ServerError { code } => status_decision(
            code,
            status_display_of(code),
        ),
        AzureMonitorLogsDceResponseError::HttpError { error } => RetryDecision::Retry(error@),
    }
}

/// Every status from 100 to 599 gets exactly one decision: success for
/// 2xx, a retry for 429 and for 5xx but 501, no retry for the rest; a
/// transport failure is always retried.
pub proof fn lemma_classification_total(code: u16, display: Seq<char>, error: String)
    requires
        100 <= code <= 599,
    ensures
        (status_decision(code, display) is Successful) == is_success_code(code),
        (status_decision(code, display) is Retry) == (code == 429 || (is_server_error_code(code)
            && code != 501)),
        (status_decision(code, display) is DontRetry) == (code != 429 && (code == 501 || (
        !is_server_error_code(code) && !is_success_code(code)))),
        error_decision(AzureMonitorLogsDceResponseError::HttpError { error }) is Retry,
{
}

/// Decides on a response status, given the text it displays as.
pub fn classify_status(code: u16, display: &str) -> (r: RetryAction)
    ensures
        r@ == status_decision(code, display@),
{
    if code == 429 {
        RetryAction::Retry("too many requests".to_owned())
    } else if code == 501 {
        RetryAction::DontRetry("endpoint not implemented".to_owned())
    } else if 500 <= code && code < 600 {
        RetryAction::Retry(display.to_owned())
    } else if 200 <= code && code < 300 {
        RetryAction::Successful
    } else {
        let mut reason = "response status: ".to_owned();
        reason.append(display);
        RetryAction::DontRetry(reason)
    }
}

/// Retry policy of the delivery path.
#[derive(Clone, Copy, Debug)]
pub struct AzureMonitorLogsDceRetryLogic;

impl AzureMonitorLogsDceRetryLogic {
    /// Transport failures are always worth another try.
    pub fn is_retriable_error(&self, error: &AzureMonitorLogsDceResponseError) -> (r: bool)
        ensures
            (error is HttpError) ==> r,
            r == (error_decision(*error) is Retry),
    {
        match error {
            AzureMonitorLogsDceResponseError::HttpError { .. } => true,
            AzureMonitorLogsDceResponseError::ServerError { code } => {
                *code == 429 || (*code != 501 && 500 <= *code && *code < 600)
            },
        }
    }

    /// Decides on a response by its status code.
    pub fn should_retry_response(&self, response: &AzureMonitorLogsDceResponse) -> (r:
        RetryAction)
        requires
            is_valid_status_code(response.status),
        ensures
            r@ == status_decision(response.status, status_display_of(response.status)),
    {
        let display = status_display_text(response.status);
        classify_status(response.status, display.as_str())
    }

    /// Decides on a failed delivery: transport failures are retried with
    /// their description, error statuses are decided as responses are.
    pub fn should_retry_error(&self, error: &AzureMonitorLogsDceResponseError) -> (r:
        RetryAction)
        requires
            (error matches AzureMonitorLogsDceResponseError::ServerError { code }
                ==> is_valid_status_code(*code)),
        ensures
            r@ == error_decision(*error),
    {
        match error {
            AzureMonitorLogsDceResponseError::HttpError { error } => RetryAction::Retry(
                error.clone(),
            ),
            AzureMonitorLogsDceResponseError::ServerError { code } => {
                let display = status_display_text(*code);
                classify_status(*code, display.as_str())
            },
        }
    }
}

} // verus!
