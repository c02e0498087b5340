use ai_client::liveness::{check_backend_alive, is_alive, ExitStatus, Liveness, QueryFailure};

#[test]
fn a_process_that_has_not_exited_is_alive() {
    assert_eq!(is_alive(Ok(None)), Liveness::Alive);
    assert!(check_backend_alive(Ok(None)));
    assert!(Liveness::Alive.is_running());
}

#[test]
fn an_exit_is_reported_with_its_status() {
    let status = ExitStatus { code: Some(3) };
    assert_eq!(is_alive(Ok(Some(status))), Liveness::Exited(status));
    assert!(!check_backend_alive(Ok(Some(status))));
    assert!(!Liveness::Exited(status).is_running());
}

#[test]
fn a_clean_exit_is_still_an_exit() {
    let status = ExitStatus { code: Some(0) };
    assert_eq!(is_alive(Ok(Some(status))), Liveness::Exited(status));
    assert!(!check_backend_alive(Ok(Some(status))));
}

#[test]
fn an_exit_by_signal_has_no_code() {
    let status = ExitStatus { code: None };
    assert_eq!(is_alive(Ok(Some(status))), Liveness::Exited(status));
    assert!(!check_backend_alive(Ok(Some(status))));
}

#[test]
fn a_failed_query_counts_as_not_alive() {
    let failure = QueryFailure { os_code: Some(10) };
    assert_eq!(is_alive(Err(failure)), Liveness::QueryError);
    assert!(!check_backend_alive(Err(failure)));
    assert!(!check_backend_alive(Err(QueryFailure { os_code: None })));
    assert!(!Liveness::QueryError.is_running());
}
