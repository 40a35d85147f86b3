use app_shell::logout::{
    check_logout_required, clear_logout_flag, mark_logout_required, AppState,
};

#[test]
fn fresh_state_needs_no_logout() {
    let state = AppState::new();
    assert!(!check_logout_required(&state));
}

#[test]
fn mark_then_check_reads_true() {
    let mut state = AppState::new();
    mark_logout_required(&mut state);
    assert!(check_logout_required(&state));
}

#[test]
fn mark_then_clear_then_check_reads_false() {
    let mut state = AppState::new();
    mark_logout_required(&mut state);
    clear_logout_flag(&mut state);
    assert!(!check_logout_required(&state));
}

#[test]
fn clear_on_fresh_state_keeps_it_unset() {
    let mut state = AppState::new();
    clear_logout_flag(&mut state);
    assert!(!check_logout_required(&state));
}

#[test]
fn mark_twice_leaves_flag_set() {
    let mut state = AppState::new();
    mark_logout_required(&mut state);
    mark_logout_required(&mut state);
    assert!(check_logout_required(&state));
}

#[test]
fn clear_twice_leaves_flag_unset() {
    let mut state = AppState::new();
    mark_logout_required(&mut state);
    clear_logout_flag(&mut state);
    clear_logout_flag(&mut state);
    assert!(!check_logout_required(&state));
}

#[test]
fn check_does_not_change_the_flag() {
    let mut state = AppState::new();
    assert!(!check_logout_required(&state));
    assert!(!check_logout_required(&state));
    mark_logout_required(&mut state);
    assert!(check_logout_required(&state));
    assert!(check_logout_required(&state));
    assert!(check_logout_required(&state));
}

#[test]
fn last_call_wins() {
    let runs: Vec<Vec<bool>> = vec![
        vec![true],
        vec![false],
        vec![true, false],
        vec![false, true],
        vec![true, true, false],
        vec![false, false, true],
        vec![true, false, true, false, true],
        vec![true, false, true, false, true, false],
        vec![false, true, true, true, false, false, true],
    ];
    for run in runs.iter() {
        let mut state = AppState::new();
        for &mark in run.iter() {
            if mark {
                mark_logout_required(&mut state);
            } else {
                clear_logout_flag(&mut state);
            }
        }
        assert_eq!(check_logout_required(&state), *run.last().unwrap());
    }
}

#[test]
fn every_read_sees_the_latest_write() {
    let calls = [true, true, false, true, false, false, true];
    let mut state = AppState::new();
    let mut seen = vec![check_logout_required(&state)];
    for &mark in calls.iter() {
        if mark {
            mark_logout_required(&mut state);
        } else {
            clear_logout_flag(&mut state);
        }
        seen.push(check_logout_required(&state));
    }
    assert_eq!(seen, vec![false, true, true, false, true, false, false, true]);
}

#[test]
fn calls_made_in_two_parts_give_the_same_flag() {
    let first = [true, false, true];
    let second = [false, true];
    let mut split = AppState::new();
    for &mark in first.iter() {
        if mark {
            mark_logout_required(&mut split);
        } else {
            clear_logout_flag(&mut split);
        }
    }
    assert!(check_logout_required(&split));
    for &mark in second.iter() {
        if mark {
            mark_logout_required(&mut split);
        } else {
            clear_logout_flag(&mut split);
        }
    }
    let mut whole = AppState::new();
    for &mark in first.iter().chain(second.iter()) {
        if mark {
            mark_logout_required(&mut whole);
        } else {
            clear_logout_flag(&mut whole);
        }
    }
    assert_eq!(check_logout_required(&split), check_logout_required(&whole));
    assert!(check_logout_required(&whole));
}

#[test]
fn two_states_do_not_share_a_flag() {
    let mut first = AppState::new();
    let second = AppState::new();
    mark_logout_required(&mut first);
    assert!(check_logout_required(&first));
    assert!(!check_logout_required(&second));
}

#[test]
fn flag_behind_a_lock_reads_as_written() {
    let shared = std::sync::Mutex::new(AppState::new());
    assert!(!check_logout_required(&shared.lock().unwrap()));
    mark_logout_required(&mut shared.lock().unwrap());
    assert!(check_logout_required(&shared.lock().unwrap()));
    clear_logout_flag(&mut shared.lock().unwrap());
    assert!(!check_logout_required(&shared.lock().unwrap()));
}
