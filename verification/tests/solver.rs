use satview::solver::{latitude_solve_step, LatitudeStep, LATITUDE_ITERATION_CAP};

#[test]
fn convergence_stops_the_solve() {
    assert_eq!(latitude_solve_step(0, true), LatitudeStep::Converged);
    assert_eq!(latitude_solve_step(3, true), LatitudeStep::Converged);
    // Convergence wins even at the cap.
    assert_eq!(latitude_solve_step(LATITUDE_ITERATION_CAP, true), LatitudeStep::Converged);
}

#[test]
fn unconverged_solve_continues_below_the_cap() {
    assert_eq!(latitude_solve_step(0, false), LatitudeStep::Continue);
    assert_eq!(latitude_solve_step(LATITUDE_ITERATION_CAP - 1, false), LatitudeStep::Continue);
}

#[test]
fn iteration_cap_stops_a_degenerate_solve() {
    // A degenerate input (a position at the Earth's center, say) never
    // meets the tolerance; the cap still ends the solve.
    assert_eq!(latitude_solve_step(LATITUDE_ITERATION_CAP, false), LatitudeStep::CapReached);
    assert_eq!(latitude_solve_step(LATITUDE_ITERATION_CAP + 1, false), LatitudeStep::CapReached);
    let mut count: i32 = 0;
    let mut steps: u32 = 0;
    loop {
        steps += 1;
        match latitude_solve_step(count, false) {
            LatitudeStep::Continue => count += 1,
            outcome => {
                assert_eq!(outcome, LatitudeStep::CapReached);
                break;
            }
        }
    }
    assert_eq!(steps, LATITUDE_ITERATION_CAP as u32 + 1);
}
