//! Bridge between a closure-style integrand and a native adaptive cubature
//! engine that only understands a flat callback plus an opaque context.
//!
//! The crate holds the rules of that bridge: the status-code taxonomy, the
//! termination criteria and their builder, the per-call context with its
//! evaluation counter, the decision the callback trampoline takes on every
//! invocation, and the validation and result packaging around a native call.

pub mod cubature;
pub mod error;
pub mod termination_info;

pub use crate::cubature::{
    begin, cubature, evaluation_status, finish, trampoline, Algorithm, CallbackContext, NativeCall,
    ResultInfo,
};
pub use crate::error::{status_to_result, CubatureError, STATUS_OK};
pub use crate::termination_info::{
    ErrorNorm, TerminationInfo, TerminationInfoBuilder, Tolerance, DEFAULT_MAX_EVAL,
    DEFAULT_TOLERANCE_BITS,
};
