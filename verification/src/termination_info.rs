//! When an integration stops: the evaluation budget, the two error tolerances
//! and the norm by which component errors are judged, with a builder that
//! starts from the documented defaults.

use vstd::prelude::*;
use crate::error::CubatureError;

verus! {

/// How the error estimates of the output components are combined into one
/// convergence decision.
#[derive(Debug, Clone, Copy, PartialEq, Eq, Structural)]
pub enum ErrorNorm {
    /// Every component has to converge on its own.
    Individual,
    /// Components are judged in consecutive pairs.
    Paired,
    /// Euclidean norm over all components.
    L2,
    /// Sum of absolute values over all components.
    L1,
    /// Largest absolute value over all components.
    LInf,
}

/// An error tolerance, held as the bit pattern of an IEEE 754 double so that it
/// can be carried and compared exactly.
#[derive(Debug, Clone, Copy, PartialEq, Eq, Structural)]
pub struct Tolerance {
    pub bits: u64,
}

/// Bit pattern of the double nearest to one millionth, the default tolerance.
pub const DEFAULT_TOLERANCE_BITS: u64 = 0x3EB0_C6F7_A0B5_ED8D;

/// Default budget of integrand evaluations.
pub const DEFAULT_MAX_EVAL: usize = 100_000;

impl Tolerance {
    /// The tolerance whose double has the bit pattern `bits`.
    pub fn from_bits(bits: u64) -> (tolerance: Tolerance)
        ensures
            tolerance.bits == bits,
    {
        Tolerance { bits }
    }

    /// The bit pattern of this tolerance's double.
    pub fn to_bits(self) -> (bits: u64)
        ensures
            bits == self.bits,
    {
        self.bits
    }
}

/// The criteria under which one integration call terminates.
#[derive(Debug, Clone, Copy, PartialEq, Eq, Structural)]
pub struct TerminationInfo {
    /// Budget of integrand evaluations.
    pub max_eval: usize,
    /// Absolute error at which the integration may stop.
    pub req_abs_error: Tolerance,
    /// Relative error at which the integration may stop.
    pub req_rel_error: Tolerance,
    /// Norm by which the component errors are judged.
    pub norm: ErrorNorm,
}

/// The criteria a fresh builder starts from.
pub open spec fn default_termination_info() -> TerminationInfo {
    TerminationInfo {
        max_eval: DEFAULT_MAX_EVAL,
        req_abs_error: Tolerance { bits: DEFAULT_TOLERANCE_BITS },
        req_rel_error: Tolerance { bits: DEFAULT_TOLERANCE_BITS },
        norm: ErrorNorm::Individual,
    }
}

impl TerminationInfo {
    /// Starts a builder that holds the defaults.
    pub fn new_builder() -> (builder: TerminationInfoBuilder)
        ensures
            builder@ == default_termination_info(),
    {
        TerminationInfoBuilder::default()
    }
}

/// Collects overrides of the default termination criteria. Every setter takes
/// the builder by value and hands back the updated one.
#[derive(Debug, Clone, Copy)]
pub struct TerminationInfoBuilder {
    max_eval: usize,
    req_abs_error: Tolerance,
    req_rel_error: Tolerance,
    norm: ErrorNorm,
}

impl View for TerminationInfoBuilder {
    type V = TerminationInfo;

    /// The criteria that `build` would produce from this builder.
    closed spec fn view(&self) -> TerminationInfo {
        TerminationInfo {
            max_eval: self.max_eval,
            req_abs_error: self.req_abs_error,
            req_rel_error: self.req_rel_error,
            norm: self.norm,
        }
    }
}

impl Default for TerminationInfoBuilder {
    fn default() -> (builder: TerminationInfoBuilder)
        ensures
            builder@ == default_termination_info(),
    {
        TerminationInfoBuilder {
            max_eval: DEFAULT_MAX_EVAL,
            req_abs_error: Tolerance { bits: DEFAULT_TOLERANCE_BITS },
            req_rel_error: Tolerance { bits: DEFAULT_TOLERANCE_BITS },
            norm: ErrorNorm::Individual,
        }
    }
}

impl TerminationInfoBuilder {
    /// A builder that holds the defaults.
    pub fn new() -> (builder: TerminationInfoBuilder)
        ensures
            builder@ == default_termination_info(),
    {
        TerminationInfoBuilder::default()
    }

    /// Sets the budget of integrand evaluations and keeps everything else.
    pub fn max_eval(self, max_eval: usize) -> (builder: TerminationInfoBuilder)
        ensures
            builder@ == (TerminationInfo { max_eval, ..self@ }),
    {
        let mut builder = self;
        builder.max_eval = max_eval;
        builder
    }

    /// Sets the absolute tolerance and keeps everything else.
    pub fn req_abs_error(self, req_abs_error: Tolerance) -> (builder: TerminationInfoBuilder)
        ensures
            builder@ == (TerminationInfo { req_abs_error, ..self@ }),
    {
        let mut builder = self;
        builder.req_abs_error = req_abs_error;
        builder
    }

    /// Sets the relative tolerance and keeps everything else.
    pub fn req_rel_error(self, req_rel_error: Tolerance) -> (builder: TerminationInfoBuilder)
        ensures
            builder@ == (TerminationInfo { req_rel_error, ..self@ }),
    {
        let mut builder = self;
        builder.req_rel_error = req_rel_error;
        builder
    }

    /// Sets the error norm and keeps everything else.
    pub fn norm(self, norm: ErrorNorm) -> (builder: TerminationInfoBuilder)
        ensures
            builder@ == (TerminationInfo { norm, ..self@ }),
    {
        let mut builder = self;
        builder.norm = norm;
        builder
    }

    /// Produces the criteria collected so far. Every configuration is accepted,
    /// so the result is always `Ok`.
    pub fn build(self) -> (result: Result<TerminationInfo, CubatureError>)
        ensures
            result == Ok::<TerminationInfo, CubatureError>(self@),
    {
        Ok(
            TerminationInfo {
                max_eval: self.max_eval,
                req_abs_error: self.req_abs_error,
                req_rel_error: self.req_rel_error,
                norm: self.norm,
            },
        )
    }
}

} // verus!
