//! The bridge proper: the context that lives for one integration call, the
//! decision the callback takes each time the native engine asks for an
//! evaluation, and the validation and packaging around the native call.
//!
//! The native engine is driven from outside this crate. A call runs in three
//! steps: [`begin`] validates the request and hands out the context together
//! with the arguments of the native call, [`trampoline`] serves every
//! evaluation the engine asks for, and [`finish`] turns the engine's status
//! code and the context into the caller's result.

use vstd::prelude::*;
use crate::error::{spec_from_code, status_to_result, CubatureError, STATUS_OK};
use crate::termination_info::{ErrorNorm, TerminationInfo, Tolerance};

verus! {

/// What a successful integration reports besides the values themselves.
#[derive(Debug, Clone, Copy, PartialEq, Eq, Structural)]
pub struct ResultInfo {
    /// How many times the integrand was evaluated.
    pub num_evals: usize,
}

/// The adaptive strategy of the native engine.
#[derive(Debug, Clone, Copy, PartialEq, Eq, Structural)]
pub enum Algorithm {
    /// Recursive subdivision of the region where the error is largest.
    HAdaptive,
    /// Raising the degree of the rule over the whole region.
    PAdaptive,
}

/// The count of evaluations together with the record of their outcomes. The
/// two change in one step, so that the count never departs from the record.
struct Tally {
    num_evals: usize,
    served: Ghost<Seq<bool>>,
}

/// The integrand of one integration call together with the count of its
/// evaluations. Its address is what crosses the boundary as the opaque
/// context, so it is created once per call and only ever borrowed.
///
/// Every context counts exactly the evaluations it has served: the count is
/// the length of the record of outcomes, see [`CallbackContext::num_evals`].
pub struct CallbackContext<I> {
    integrand: I,
    tally: Tally,
}

/// The arguments of the native call that do not depend on where the buffers
/// live.
#[derive(Debug, Clone, Copy, PartialEq, Eq, Structural)]
pub struct NativeCall {
    /// Which of the two native entry points to invoke.
    pub algorithm: Algorithm,
    /// Number of outputs per evaluation: the length of the value buffer.
    pub codimension: usize,
    /// Number of inputs per evaluation: the common length of the bounds.
    pub dimension: usize,
    /// Budget of integrand evaluations.
    pub max_eval: usize,
    /// Absolute error at which the engine may stop.
    pub req_abs_error: Tolerance,
    /// Relative error at which the engine may stop.
    pub req_rel_error: Tolerance,
    /// Norm by which the component errors are judged.
    pub norm: ErrorNorm,
}

/// The status the callback reports for an evaluation: success is the zero
/// status, failure the code reserved for a failed evaluation.
pub open spec fn spec_evaluation_status(succeeded: bool) -> int {
    if succeeded {
        STATUS_OK as int
    } else {
        CubatureError::IntegrandEvalFailed.spec_code()
    }
}

/// The arguments handed to the native engine for a request with bounds of
/// length `dimension` and a value buffer of length `codimension`.
pub open spec fn spec_native_call(
    algorithm: Algorithm,
    dimension: usize,
    termination_info: TerminationInfo,
    codimension: usize,
) -> NativeCall {
    NativeCall {
        algorithm,
        codimension,
        dimension,
        max_eval: termination_info.max_eval,
        req_abs_error: termination_info.req_abs_error,
        req_rel_error: termination_info.req_rel_error,
        norm: termination_info.norm,
    }
}

/// What a call that ended with `status` after `num_evals` evaluations returns.
pub open spec fn spec_outcome(status: int, num_evals: usize) -> Result<ResultInfo, CubatureError> {
    if status == STATUS_OK {
        Ok(ResultInfo { num_evals })
    } else {
        Err(spec_from_code(status))
    }
}

impl<I> CallbackContext<I> {
    /// The integrand this context owns.
    pub closed spec fn spec_integrand(&self) -> I {
        self.integrand
    }

    /// The number of evaluations counted so far.
    pub closed spec fn spec_num_evals(&self) -> usize {
        self.tally.num_evals
    }

    /// The outcomes of the evaluations served so far, oldest first: one entry
    /// for every time the integrand was run through this context.
    pub closed spec fn spec_evaluations(&self) -> Seq<bool> {
        self.tally.served@
    }

    #[verifier::type_invariant]
    closed spec fn counts_every_evaluation(&self) -> bool {
        self.tally.num_evals == self.tally.served@.len()
    }

    /// A context that owns `integrand` and has served no evaluation yet.
    pub fn new(integrand: I) -> (context: CallbackContext<I>)
        ensures
            context.spec_integrand() == integrand,
            context.spec_num_evals() == 0,
            context.spec_evaluations() == Seq::<bool>::empty(),
    {
        CallbackContext { integrand, tally: Tally { num_evals: 0, served: Ghost(Seq::empty()) } }
    }

    /// Returns the number of evaluations counted so far, which is the number
    /// of times the integrand was run through this context.
    pub fn num_evals(&self) -> (count: usize)
        ensures
            count == self.spec_num_evals(),
            count == self.spec_evaluations().len(),
    {
        proof {
            use_type_invariant(self);
        }
        self.tally.num_evals
    }

    /// Borrows the integrand.
    pub fn integrand(&self) -> (integrand: &I)
        ensures
            *integrand == self.spec_integrand(),
    {
        &self.integrand
    }
}

/// Encodes the outcome of one evaluation as the status handed back to the
/// native engine.
pub fn evaluation_status(succeeded: bool) -> (status: i32)
    ensures
        status == spec_evaluation_status(succeeded),
{
    if succeeded {
        STATUS_OK
    } else {
        CubatureError::IntegrandEvalFailed.code()
    }
}

/// Serves one callback of the native engine.
///
/// `context` is what the opaque pointer turned out to be: `None` for a null
/// pointer. Without a context nothing is evaluated and the status is the code
/// of `Unknown`. With one, `evaluate` is run on the integrand exactly once,
/// the evaluation is counted and its outcome recorded, and the outcome is
/// encoded as the status.
pub fn trampoline<I, F: FnOnce(&I) -> bool>(
    context: Option<&mut CallbackContext<I>>,
    evaluate: F,
) -> (status: i32)
    requires
        context matches Some(c) ==> c.spec_num_evals() < usize::MAX && call_requires(
            evaluate,
            (&c.spec_integrand(),),
        ),
    ensures
        context is None ==> status == CubatureError::Unknown.spec_code(),
        context matches Some(c) ==> {
            &&& final(c).spec_num_evals() == c.spec_num_evals() + 1
            &&& final(c).spec_num_evals() == final(c).spec_evaluations().len()
            &&& final(c).spec_integrand() == c.spec_integrand()
            &&& exists|succeeded: bool|
                {
                    &&& call_ensures(evaluate, (&c.spec_integrand(),), succeeded)
                    &&& status == spec_evaluation_status(succeeded)
                    &&& final(c).spec_evaluations() == c.spec_evaluations().push(succeeded)
                }
        },
{
    match context {
        None => CubatureError::Unknown.code(),
        Some(c) => {
            proof {
                use_type_invariant(&*c);
            }
            let succeeded = evaluate(&c.integrand);
            c.tally = Tally {
                num_evals: c.tally.num_evals + 1,
                served: Ghost(c.tally.served@.push(succeeded)),
            };
            evaluation_status(succeeded)
        },
    }
}

/// Validates a request and prepares the native call.
///
/// The request is refused with `BoundsInconsistent` exactly when the two
/// bounds differ in length, and then the integrand is dropped unevaluated.
/// Otherwise the result is a fresh context that owns the integrand and has
/// served nothing, and the arguments for the native engine.
pub fn begin<I>(
    algorithm: Algorithm,
    integrand: I,
    xmin_len: usize,
    xmax_len: usize,
    termination_info: &TerminationInfo,
    val_len: usize,
) -> (result: Result<(CallbackContext<I>, NativeCall), CubatureError>)
    ensures
        xmin_len != xmax_len ==> result is Err && result->Err_0 == CubatureError::BoundsInconsistent,
        xmin_len == xmax_len ==> {
            &&& result is Ok
            &&& result->Ok_0.0.spec_integrand() == integrand
            &&& result->Ok_0.0.spec_num_evals() == 0
            &&& result->Ok_0.0.spec_evaluations() == Seq::<bool>::empty()
            &&& result->Ok_0.1 == spec_native_call(algorithm, xmin_len, *termination_info, val_len)
        },
{
    if xmin_len != xmax_len {
        return Err(CubatureError::BoundsInconsistent);
    }
    let context = CallbackContext::new(integrand);
    let call = NativeCall {
        algorithm,
        codimension: val_len,
        dimension: xmin_len,
        max_eval: termination_info.max_eval,
        req_abs_error: termination_info.req_abs_error,
        req_rel_error: termination_info.req_rel_error,
        norm: termination_info.norm,
    };
    Ok((context, call))
}

/// Packages the end of a native call: on the zero status the count of
/// evaluations the context has served, which is the number of times the
/// integrand was run, on any other status the error the code stands for and
/// nothing else.
pub fn finish<I>(context: CallbackContext<I>, status: i32) -> (result: Result<
    ResultInfo,
    CubatureError,
>)
    ensures
        result == spec_outcome(status as int, context.spec_num_evals()),
        context.spec_num_evals() == context.spec_evaluations().len(),
{
    proof {
        use_type_invariant(&context);
    }
    match status_to_result(status) {
        Ok(()) => Ok(ResultInfo { num_evals: context.tally.num_evals }),
        Err(error) => Err(error),
    }
}

/// Runs one integration: validates the request, lends a fresh context and the
/// call's arguments to `engine`, and packages what the engine hands back.
///
/// `engine` stands for the native call: it is given the context whose address
/// serves as the opaque pointer and returns the engine's status code. With
/// bounds of different lengths the engine is never reached and the result is
/// `BoundsInconsistent`. Otherwise the result is decided by the status the
/// engine returned and by the count the context held when the engine was done,
/// and a successful result reports exactly as many evaluations as the
/// integrand was run through that context.
pub fn cubature<I, E: FnOnce(&mut CallbackContext<I>, &NativeCall) -> i32>(
    algorithm: Algorithm,
    integrand: I,
    xmin_len: usize,
    xmax_len: usize,
    termination_info: &TerminationInfo,
    val_len: usize,
    engine: E,
) -> (result: Result<ResultInfo, CubatureError>)
    requires
        xmin_len == xmax_len ==> forall|context: &mut CallbackContext<I>|
            context.spec_integrand() == integrand && context.spec_num_evals() == 0
                && context.spec_evaluations() == Seq::<bool>::empty() ==> call_requires(
                engine,
                (context, &spec_native_call(algorithm, xmin_len, *termination_info, val_len)),
            ),
    ensures
        xmin_len != xmax_len ==> result == Err::<ResultInfo, CubatureError>(
            CubatureError::BoundsInconsistent,
        ),
        xmin_len == xmax_len ==> exists|context: &mut CallbackContext<I>, status: i32|
            {
                &&& context.spec_integrand() == integrand
                &&& context.spec_num_evals() == 0
                &&& context.spec_evaluations() == Seq::<bool>::empty()
                &&& call_ensures(
                    engine,
                    (context, &spec_native_call(algorithm, xmin_len, *termination_info, val_len)),
                    status,
                )
                &&& result == spec_outcome(status as int, final(context).spec_num_evals())
                &&& result matches Ok(info) ==> info.num_evals
                    == final(context).spec_evaluations().len()
            },
{
    match begin(algorithm, integrand, xmin_len, xmax_len, termination_info, val_len) {
        Err(error) => Err(error),
        Ok((mut context, call)) => {
            let status = engine(&mut context, &call);
            finish(context, status)
        },
    }
}

/// The status of an evaluation is the zero status exactly when the evaluation
/// succeeded, and a call that ends with the status of a failed evaluation
/// fails with `IntegrandEvalFailed`, whatever was counted.
pub proof fn lemma_failed_evaluation_reported(succeeded: bool, num_evals: usize)
    ensures
        spec_evaluation_status(succeeded) == STATUS_OK <==> succeeded,
        spec_outcome(spec_evaluation_status(false), num_evals) == Err::<ResultInfo, CubatureError>(
            CubatureError::IntegrandEvalFailed,
        ),
{
}

/// A call that ends with the status the callback gives for a missing context
/// fails with `Unknown`.
pub proof fn lemma_missing_context_reported(num_evals: usize)
    ensures
        spec_outcome(CubatureError::Unknown.spec_code(), num_evals) == Err::<
            ResultInfo,
            CubatureError,
        >(CubatureError::Unknown),
{
}

} // verus!
