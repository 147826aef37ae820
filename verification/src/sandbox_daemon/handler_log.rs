//! What is logged of every handled call.

use crate::sandbox_daemon::errors::SandboxError;
use crate::text::opt_str;
use vstd::prelude::*;

verus! {

/// The fields logged of a handled call.
#[derive(Debug, Clone, PartialEq, Eq)]
pub struct HandlerRecord {
    /// The function called.
    pub function_id: String,
    /// The sandbox called on, empty where there is none.
    pub sandbox_id: String,
    pub success: bool,
    /// The failure's code, empty on success.
    pub error_code: String,
    /// The category of the failure's code, empty on success.
    pub error_type: String,
    /// Whether the failure suggests another try; said of failures only.
    pub retryable: Option<bool>,
    pub duration_ms: u64,
    /// What is logged.
    pub message: String,
}

/// The fields to log of a handled call. `error_type` and `retryable` are what
/// the failure's code says; of a success they say nothing.
pub fn log_handler_result<T>(
    function_id: &str,
    sandbox_id: Option<&str>,
    result: &Result<T, SandboxError>,
    duration_ms: u64,
    error_type: &str,
    retryable: bool,
) -> (r: HandlerRecord)
    ensures
        r.function_id@ == function_id@,
        r.sandbox_id@ == (match opt_str(sandbox_id) {
            Some(s) => s,
            None => Seq::empty(),
        }),
        r.duration_ms == duration_ms,
        match *result {
            Ok(_) => {
                &&& r.success
                &&& r.error_code@ == Seq::<char>::empty()
                &&& r.error_type@ == Seq::<char>::empty()
                &&& r.retryable is None
                &&& r.message@ == "sandbox::* handler completed"@
            },
            Err(e) => {
                &&& !r.success
                &&& r.error_code@ == e.code_spec().text()
                &&& r.error_type@ == error_type@
                &&& r.retryable == Some(retryable)
                &&& r.message@ == "sandbox::* handler returned error"@
            },
        },
{
    let sandbox_id = match sandbox_id {
        Some(s) => s.to_owned(),
        None => String::new(),
    };
    match result {
        Ok(_) => HandlerRecord {
            function_id: function_id.to_owned(),
            sandbox_id,
            success: true,
            error_code: String::new(),
            error_type: String::new(),
            retryable: None,
            duration_ms,
            message: "sandbox::* handler completed".to_owned(),
        },
        Err(e) => HandlerRecord {
            function_id: function_id.to_owned(),
            sandbox_id,
            success: false,
            error_code: e.code().as_str().to_owned(),
            error_type: error_type.to_owned(),
            retryable: Some(retryable),
            duration_ms,
            message: "sandbox::* handler returned error".to_owned(),
        },
    }
}

} // verus!
