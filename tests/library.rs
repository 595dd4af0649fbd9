use quantum_fractal::effect::{resolve_effect, Effect, EffectError};
use quantum_fractal::escape::EscapeCounter;
use quantum_fractal::gate::{pauli_x, pauli_y, ComplexBits};
use quantum_fractal::grid::{PixelGrid, RowBuilder};
use quantum_fractal::progress::ProgressReporter;

fn run_counter(max_iter: u32, within: &[bool]) -> u32 {
    let mut counter = EscapeCounter::new(max_iter);
    let mut i = 0;
    while counter.observe(within[i]) {
        i += 1;
    }
    counter.count()
}

fn reports_over_call(total: usize) -> Vec<usize> {
    let mut reporter = ProgressReporter::new(total);
    let mut seen = Vec::new();
    while reporter.processed() < reporter.total() {
        if let Some(v) = reporter.record() {
            seen.push(v);
        }
    }
    seen
}

#[test]
fn resolves_known_names() {
    assert_eq!(resolve_effect("phase_kickback", None), Ok(Effect::PhaseKickback));
    assert_eq!(resolve_effect("quantum_tunneling", None), Ok(Effect::QuantumTunneling));
    assert_eq!(resolve_effect("superposition", None), Ok(Effect::Superposition));
    assert_eq!(resolve_effect("pauli_x", None), Ok(Effect::PauliX));
    assert_eq!(resolve_effect("pauli_y", Some(7)), Ok(Effect::PauliY));
    assert_eq!(resolve_effect("hadamard", None), Ok(Effect::Hadamard));
    let phase = 0.5f64.to_bits();
    assert_eq!(resolve_effect("phase_shift", Some(phase)), Ok(Effect::PhaseShift(phase)));
}

#[test]
fn unknown_and_differently_cased_names_fall_back_to_quadratic() {
    assert_eq!(resolve_effect("unknown_name", None), Ok(Effect::QuadraticDefault));
    assert_eq!(resolve_effect("", None), Ok(Effect::QuadraticDefault));
    assert_eq!(resolve_effect("Pauli_X", None), Ok(Effect::QuadraticDefault));
    assert_eq!(resolve_effect("phase_shift ", None), Ok(Effect::QuadraticDefault));
}

#[test]
fn phase_shift_without_phase_is_missing_parameter() {
    assert_eq!(
        resolve_effect("phase_shift", None),
        Err(EffectError::MissingParameter("phase_shift".to_string()))
    );
}

#[test]
fn orbit_that_never_escapes_counts_max_iter() {
    assert_eq!(run_counter(10, &[true; 11]), 10);
    assert_eq!(run_counter(1, &[true; 2]), 1);
}

#[test]
fn zero_cap_counts_zero() {
    assert_eq!(run_counter(0, &[true]), 0);
}

#[test]
fn counter_stops_at_first_point_outside_bound() {
    assert_eq!(run_counter(10, &[true, true, true, false, true]), 3);
    assert_eq!(run_counter(10, &[false]), 0);
}

#[test]
fn degenerate_viewport_single_pixel_grid() {
    // The one pixel sits at the origin; with constant zero its orbit stays there.
    let effect = resolve_effect("unknown_name", None).unwrap();
    assert_eq!(effect, Effect::QuadraticDefault);
    let count = run_counter(10, &[true; 11]);
    assert_eq!(count, 10);
    let grid = PixelGrid::from_rows(1, 1, 10, vec![vec![count]]).unwrap();
    assert_eq!(grid.into_rows(), vec![vec![10]]);
}

#[test]
fn grid_accepts_well_shaped_rows() {
    let rows = vec![vec![0, 1, 2], vec![3, 4, 5]];
    let grid = PixelGrid::from_rows(3, 2, 5, rows.clone()).unwrap();
    assert_eq!(grid.into_rows(), rows);
}

#[test]
fn grid_rejects_wrong_shape_or_range() {
    assert!(PixelGrid::from_rows(3, 3, 5, vec![vec![0, 1, 2], vec![3, 4, 5]]).is_none());
    assert!(PixelGrid::from_rows(3, 2, 5, vec![vec![0, 1], vec![3, 4, 5]]).is_none());
    assert!(PixelGrid::from_rows(3, 2, 4, vec![vec![0, 1, 2], vec![3, 4, 5]]).is_none());
}

#[test]
fn progress_reports_each_tenth() {
    assert_eq!(reports_over_call(100), vec![10, 20, 30, 40, 50, 60, 70, 80, 90, 100]);
}

#[test]
fn progress_last_report_within_a_tenth() {
    let seen = reports_over_call(95);
    assert_eq!(seen, vec![9, 18, 27, 36, 45, 54, 63, 72, 81, 90]);
    assert!(95 - seen[seen.len() - 1] <= 95 / 10);
    for total in [10usize, 11, 19, 37, 1000, 1009] {
        let seen = reports_over_call(total);
        assert!(!seen.is_empty());
        assert!(seen.windows(2).all(|w| w[0] <= w[1]));
        assert!(seen.iter().all(|&v| v <= total));
        assert!(total - seen[seen.len() - 1] <= total / 10);
    }
}

#[test]
fn progress_on_small_grid_reports_every_pixel() {
    assert_eq!(reports_over_call(4), vec![1, 2, 3, 4]);
    assert_eq!(reports_over_call(1), vec![1]);
}

#[test]
fn progress_record_counts_pixels() {
    let mut reporter = ProgressReporter::new(20);
    assert_eq!(reporter.record(), None);
    assert_eq!(reporter.record(), Some(2));
    assert_eq!(reporter.processed(), 2);
    assert_eq!(reporter.total(), 20);
}

#[test]
fn repeated_runs_give_identical_results() {
    let within = [true, true, false];
    assert_eq!(run_counter(50, &within), run_counter(50, &within));
    assert_eq!(reports_over_call(250), reports_over_call(250));
}

#[test]
fn pauli_x_swaps_parts() {
    let z = ComplexBits { re: 1.5f64.to_bits(), im: (-2.25f64).to_bits() };
    let r = pauli_x(z);
    assert_eq!(f64::from_bits(r.re), -2.25);
    assert_eq!(f64::from_bits(r.im), 1.5);
}

#[test]
fn pauli_y_swaps_and_negates() {
    let z = ComplexBits { re: 1.5f64.to_bits(), im: (-2.25f64).to_bits() };
    let r = pauli_y(z);
    assert_eq!(f64::from_bits(r.re), 2.25);
    assert_eq!(f64::from_bits(r.im), 1.5);
    let w = pauli_y(ComplexBits { re: 0.0f64.to_bits(), im: 3.0f64.to_bits() });
    assert_eq!(f64::from_bits(w.re), -3.0);
    assert_eq!(f64::from_bits(w.im), 0.0);
}

fn stopped_counter(max_iter: u32, within: &[bool]) -> EscapeCounter {
    let mut counter = EscapeCounter::new(max_iter);
    let mut i = 0;
    while counter.observe(within[i]) {
        i += 1;
    }
    counter
}

#[test]
fn row_builder_fills_columns_in_order() {
    let mut row = RowBuilder::new(3, 5);
    assert_eq!(row.next_column(), 0);
    assert!(!row.is_complete());
    row.push(&stopped_counter(5, &[true, true, false]));
    row.push(&stopped_counter(5, &[true; 6]));
    assert_eq!(row.next_column(), 2);
    row.push(&stopped_counter(5, &[false]));
    assert!(row.is_complete());
    assert_eq!(row.max_iter(), 5);
    assert_eq!(row.finish(), vec![2, 5, 0]);
}

#[test]
fn rows_from_builders_form_grid() {
    let mut rows = Vec::new();
    for y in 0..2usize {
        let mut row = RowBuilder::new(2, 4);
        while !row.is_complete() {
            let x = row.next_column();
            let within: Vec<bool> = (0..5).map(|k| k < x + y).collect();
            row.push(&stopped_counter(4, &within));
        }
        rows.push(row.finish());
    }
    let grid = PixelGrid::from_rows(2, 2, 4, rows).unwrap();
    assert_eq!(grid.into_rows(), vec![vec![0, 1], vec![1, 2]]);
}
