//! Decision-layer tests: the status policy an engine driver feeds native
//! replies into.

use font_face::policy::{
    files_count_outcome, rendering_mode_outcome, status_outcome, table_outcome, FatalError,
    RENDERING_MODE_DEFAULT, RENDERING_MODE_NATURAL_SYMMETRIC, STATUS_SUCCESS,
};

#[test]
fn rendering_mode_outcome_returns_native_value_on_success() {
    assert_eq!(rendering_mode_outcome(STATUS_SUCCESS, 2), 2);
    assert_eq!(
        rendering_mode_outcome(STATUS_SUCCESS, RENDERING_MODE_DEFAULT),
        RENDERING_MODE_DEFAULT
    );
}

#[test]
fn rendering_mode_outcome_substitutes_fallback_on_any_failure() {
    assert_eq!(rendering_mode_outcome(-1, 2), RENDERING_MODE_NATURAL_SYMMETRIC);
    assert_eq!(
        rendering_mode_outcome(-2147024809, 6),
        RENDERING_MODE_NATURAL_SYMMETRIC
    );
    assert_eq!(rendering_mode_outcome(1, 6), RENDERING_MODE_NATURAL_SYMMETRIC);
}

#[test]
fn table_outcome_present_hands_bytes_through() {
    let r = table_outcome(STATUS_SUCCESS, true, vec![9, 8, 7]);
    assert_eq!(r, Ok(Some(vec![9, 8, 7])));
}

#[test]
fn table_outcome_absent_is_a_value_not_an_error() {
    let r = table_outcome(STATUS_SUCCESS, false, Vec::new());
    assert_eq!(r, Ok(None));
}

#[test]
fn table_outcome_failed_call_is_fatal() {
    let r = table_outcome(-5, true, vec![1]);
    assert_eq!(r, Err(FatalError::NativeCallFailed { status: -5 }));
}

#[test]
fn files_count_agreement_is_accepted() {
    assert_eq!(files_count_outcome(0, 0), Ok(()));
    assert_eq!(files_count_outcome(3, 3), Ok(()));
}

#[test]
fn files_count_disagreement_is_fatal() {
    assert_eq!(
        files_count_outcome(3, 2),
        Err(FatalError::FileCountMismatch { reported: 3, filled: 2 })
    );
    assert_eq!(
        files_count_outcome(1, 4),
        Err(FatalError::FileCountMismatch { reported: 1, filled: 4 })
    );
}

#[test]
fn status_outcome_accepts_only_success() {
    assert_eq!(status_outcome(STATUS_SUCCESS), Ok(()));
    assert_eq!(
        status_outcome(-2003283964),
        Err(FatalError::NativeCallFailed { status: -2003283964 })
    );
}
