use dynlock::auth::{AuthState, Verdict};

#[test]
fn a_new_check_is_idle() {
    let state = AuthState::new();
    assert_eq!(state, AuthState::Idle);
    assert!(!state.is_running());
    assert!(!state.is_authenticated());
}

#[test]
fn submit_moves_idle_to_running() {
    let mut state = AuthState::new();
    assert!(state.submit());
    assert_eq!(state, AuthState::Running);
    assert!(state.is_running());
    assert!(!state.is_authenticated());
}

#[test]
fn submit_while_running_starts_no_second_worker() {
    let mut state = AuthState::new();
    assert!(state.submit());
    assert!(!state.submit());
    assert_eq!(state, AuthState::Running);
    assert!(!state.submit());
    assert_eq!(state, AuthState::Running);
}

#[test]
fn completion_moves_running_to_result() {
    let mut state = AuthState::Running;
    state.complete(true);
    assert_eq!(state, AuthState::Result(true));
    assert!(state.is_authenticated());

    let mut state = AuthState::Running;
    state.complete(false);
    assert_eq!(state, AuthState::Result(false));
    assert!(!state.is_authenticated());
}

#[test]
fn completion_without_a_worker_changes_nothing() {
    let mut state = AuthState::Idle;
    state.complete(true);
    assert_eq!(state, AuthState::Idle);
    assert!(!state.is_authenticated());

    let mut state = AuthState::Result(false);
    state.complete(true);
    assert_eq!(state, AuthState::Result(false));
}

#[test]
fn a_failed_check_can_be_tried_again() {
    let mut state = AuthState::new();
    assert!(state.submit());
    state.complete(false);
    assert!(state.submit());
    assert_eq!(state, AuthState::Running);
    state.complete(true);
    assert!(state.is_authenticated());
}

#[test]
fn workers_in_flight_never_exceed_one() {
    // every sequence of six events over submit, verdict in favour, verdict against
    for code in 0..729u32 {
        let mut state = AuthState::new();
        let mut in_flight = 0i32;
        let mut rest = code;
        for _ in 0..6 {
            match rest % 3 {
                0 => {
                    if state.submit() {
                        in_flight += 1;
                    }
                }
                1 => {
                    if state.is_running() {
                        in_flight -= 1;
                    }
                    state.complete(true);
                }
                _ => {
                    if state.is_running() {
                        in_flight -= 1;
                    }
                    state.complete(false);
                }
            }
            rest /= 3;
            assert!(in_flight == 0 || in_flight == 1);
            assert_eq!(in_flight == 1, state.is_running());
        }
    }
}

#[test]
fn only_an_accepted_verdict_is_in_favour() {
    assert!(Verdict::Accepted.passes());
    assert!(!Verdict::Rejected.passes());
    assert!(!Verdict::InitFailed.passes());
    assert_eq!(Verdict::from_service(Some(true)), Verdict::Accepted);
    assert_eq!(Verdict::from_service(Some(false)), Verdict::Rejected);
    assert_eq!(Verdict::from_service(None), Verdict::InitFailed);
}

#[test]
fn a_service_that_could_not_be_asked_fails_one_attempt() {
    let mut state = AuthState::new();
    assert!(state.submit());
    state.complete(Verdict::InitFailed.passes());
    assert_eq!(state, AuthState::Result(false));
    assert!(!state.is_authenticated());
    // the session goes on and the user may try again
    assert!(state.submit());
}
