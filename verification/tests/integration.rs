use std::cell::Cell;

use cubature::cubature::{
    cubature, trampoline, Algorithm, CallbackContext, NativeCall, ResultInfo,
};
use cubature::error::CubatureError;
use cubature::termination_info::TerminationInfoBuilder;

/// Stands in for the native engine on two-dimensional boxes: a composite
/// Gauss-Legendre rule on a uniform grid of `cells` per axis. The three-point
/// rule gives the values, its distance to the two-point rule the error
/// estimates. Every evaluation goes through the callback, and the first
/// non-zero status ends the run and is handed back.
fn gauss_engine<I: Fn(&[f64], &mut [f64]) -> bool>(
    context: &mut CallbackContext<I>,
    call: &NativeCall,
    xmin: &[f64],
    xmax: &[f64],
    cells: usize,
    val: &mut [f64],
    err: &mut [f64],
) -> i32 {
    assert_eq!(call.dimension, 2);
    assert_eq!(call.codimension, val.len());
    let fine = [
        (-(0.6_f64.sqrt()), 5.0 / 9.0),
        (0.0, 8.0 / 9.0),
        (0.6_f64.sqrt(), 5.0 / 9.0),
    ];
    let coarse = [(-(1.0 / 3.0_f64.sqrt()), 1.0), (1.0 / 3.0_f64.sqrt(), 1.0)];
    let hx = (xmax[0] - xmin[0]) / cells as f64;
    let hy = (xmax[1] - xmin[1]) / cells as f64;
    let mut sums = [vec![0.0; val.len()], vec![0.0; val.len()]];
    for (which, rule) in [&fine[..], &coarse[..]].iter().enumerate() {
        for i in 0..cells {
            for j in 0..cells {
                for (a, wa) in rule.iter() {
                    for (b, wb) in rule.iter() {
                        let point = [
                            xmin[0] + (i as f64 + 0.5 + 0.5 * a) * hx,
                            xmin[1] + (j as f64 + 0.5 + 0.5 * b) * hy,
                        ];
                        let mut out = vec![0.0; call.codimension];
                        let status = trampoline(Some(&mut *context), |integrand: &I| {
                            integrand(&point, &mut out)
                        });
                        if status != 0 {
                            return status;
                        }
                        for (sum, value) in sums[which].iter_mut().zip(out.iter()) {
                            *sum += value * wa * wb * hx * hy / 4.0;
                        }
                    }
                }
            }
        }
    }
    for k in 0..val.len() {
        val[k] = sums[0][k];
        err[k] = (sums[0][k] - sums[1][k]).abs();
    }
    0
}

#[test]
fn test_hcubature() {
    let xmin = [0.0, 0.0];
    let xmax = [1.5, 1.5];
    let termination_info = TerminationInfoBuilder::new().build().unwrap();
    let mut val: [f64; 3] = Default::default();
    let mut err: [f64; 3] = Default::default();

    let info = cubature(
        Algorithm::HAdaptive,
        |x: &[f64], fval: &mut [f64]| {
            fval[0] = x[0] - x[0].floor();
            fval[1] = x[1] - x[1].floor();
            fval[2] = (x[0] - x[0].floor()) * (x[1] - x[1].floor());
            true
        },
        xmin.len(),
        xmax.len(),
        &termination_info,
        val.len(),
        |context, call| {
            gauss_engine(
                context,
                call,
                xmin.as_slice(),
                xmax.as_slice(),
                3,
                val.as_mut_slice(),
                err.as_mut_slice(),
            )
        },
    )
    .unwrap();

    let req_abs_error = f64::from_bits(termination_info.req_abs_error.to_bits());
    assert!(info.num_evals < termination_info.max_eval);
    let expected_vals = [0.9375, 0.9375, 0.390625];
    for ((&val, &err), &expected_val) in val.iter().zip(err.iter()).zip(expected_vals.iter()) {
        assert!((val - expected_val).abs() < req_abs_error);
        assert!(err < req_abs_error);
    }
}

#[test]
fn test_pcubature() {
    let xmin = [0.0, 0.0];
    let xmax = [1.0, 1.0];
    let termination_info = TerminationInfoBuilder::new().build().unwrap();
    let mut val: [f64; 2] = Default::default();
    let mut err: [f64; 2] = Default::default();

    let c = (1.0 + 10.0_f64.sqrt()) / 9.0;
    let info = cubature(
        Algorithm::PAdaptive,
        |x: &[f64], fval: &mut [f64]| {
            fval[0] = x
                .iter()
                .map(|v| c / (c + 1.0) * ((c + 1.0) / (c + v)).powf(2.0))
                .product();
            fval[1] = fval[0];
            true
        },
        xmin.len(),
        xmax.len(),
        &termination_info,
        val.len(),
        |context, call| {
            gauss_engine(
                context,
                call,
                xmin.as_slice(),
                xmax.as_slice(),
                48,
                val.as_mut_slice(),
                err.as_mut_slice(),
            )
        },
    )
    .unwrap();

    let req_abs_error = f64::from_bits(termination_info.req_abs_error.to_bits());
    assert!(info.num_evals < termination_info.max_eval);
    for (&val, &err) in val.iter().zip(err.iter()) {
        assert!((val - 1.0).abs() < req_abs_error);
        assert!(err < req_abs_error);
    }
}

#[test]
fn mismatched_bounds_never_reach_the_engine() {
    let evaluated = Cell::new(0_usize);
    let engine_ran = Cell::new(false);
    let termination_info = TerminationInfoBuilder::new().build().unwrap();
    for (d, e) in [(0_usize, 1_usize), (1, 0), (2, 3), (3, 2), (7, 100)] {
        let result = cubature(
            Algorithm::HAdaptive,
            |_x: &[f64], _f: &mut [f64]| {
                evaluated.set(evaluated.get() + 1);
                true
            },
            d,
            e,
            &termination_info,
            1,
            |_context, _call| {
                engine_ran.set(true);
                0
            },
        );
        assert_eq!(result, Err(CubatureError::BoundsInconsistent));
    }
    assert!(!engine_ran.get());
    assert_eq!(evaluated.get(), 0);
}

#[test]
fn reported_count_equals_independent_count() {
    let calls = Cell::new(0_usize);
    let xmin = [-1.0, 0.0];
    let xmax = [1.0, 3.0];
    let termination_info = TerminationInfoBuilder::new().build().unwrap();
    let mut val = [0.0; 1];
    let mut err = [0.0; 1];
    let info = cubature(
        Algorithm::PAdaptive,
        |x: &[f64], f: &mut [f64]| {
            calls.set(calls.get() + 1);
            f[0] = x[0] * x[0] + x[1];
            true
        },
        2,
        2,
        &termination_info,
        1,
        |context, call| gauss_engine(context, call, &xmin, &xmax, 5, &mut val, &mut err),
    )
    .unwrap();
    assert_eq!(info.num_evals, 5 * 5 * 9 + 5 * 5 * 4);
    assert_eq!(info.num_evals, calls.get());
    assert!((val[0] - 11.0).abs() < 1.0e-12);
}

#[test]
fn always_failing_integrand_ends_after_one_evaluation() {
    let calls = Cell::new(0_usize);
    let xmin = [0.0, 0.0];
    let xmax = [1.0, 1.0];
    let termination_info = TerminationInfoBuilder::new().build().unwrap();
    let mut val = [0.0; 2];
    let mut err = [0.0; 2];
    let result = cubature(
        Algorithm::HAdaptive,
        |_x: &[f64], _f: &mut [f64]| {
            calls.set(calls.get() + 1);
            false
        },
        2,
        2,
        &termination_info,
        2,
        |context, call| gauss_engine(context, call, &xmin, &xmax, 4, &mut val, &mut err),
    );
    assert_eq!(result, Err(CubatureError::IntegrandEvalFailed));
    assert_eq!(calls.get(), 1);
}

#[test]
fn engine_status_decides_the_result() {
    let termination_info = TerminationInfoBuilder::new().build().unwrap();
    let ok = cubature(Algorithm::HAdaptive, (), 3, 3, &termination_info, 1, |_c, _n| 0);
    assert_eq!(ok, Ok(ResultInfo { num_evals: 0 }));
    let budget = cubature(Algorithm::HAdaptive, (), 3, 3, &termination_info, 1, |_c, _n| 1);
    assert_eq!(budget, Err(CubatureError::FailedToConverge));
    let odd = cubature(Algorithm::PAdaptive, (), 3, 3, &termination_info, 1, |_c, _n| -7);
    assert_eq!(odd, Err(CubatureError::Unknown));
    let missing = cubature(Algorithm::PAdaptive, (), 3, 3, &termination_info, 1, |_c, _n| {
        trampoline::<(), _>(None, |_| true)
    });
    assert_eq!(missing, Err(CubatureError::Unknown));
}

#[test]
fn engine_receives_the_prepared_call() {
    let termination_info = TerminationInfoBuilder::new().max_eval(99).build().unwrap();
    let seen = Cell::new(None);
    let result = cubature(
        Algorithm::PAdaptive,
        (),
        4,
        4,
        &termination_info,
        6,
        |context, call| {
            assert_eq!(context.num_evals(), 0);
            seen.set(Some(*call));
            0
        },
    );
    assert_eq!(result, Ok(ResultInfo { num_evals: 0 }));
    let call = seen.get().unwrap();
    assert_eq!(call.algorithm, Algorithm::PAdaptive);
    assert_eq!(call.dimension, 4);
    assert_eq!(call.codimension, 6);
    assert_eq!(call.max_eval, 99);
    assert_eq!(call.req_abs_error, termination_info.req_abs_error);
    assert_eq!(call.req_rel_error, termination_info.req_rel_error);
    assert_eq!(call.norm, termination_info.norm);
}
