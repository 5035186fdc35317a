use oci_push::publish::{
    advance, failure_note, resolve_auth, run_schedule, success_note, AuthChoice, PushState,
    RetryPolicy,
};

#[test]
fn retry_succeeds_on_third_attempt() {
    let policy = RetryPolicy::standard();
    let outcomes = vec![false, false, true];
    assert_eq!(run_schedule(&policy, &outcomes), PushState::Succeeded(3));
}

#[test]
fn retry_fails_after_three_attempts() {
    let policy = RetryPolicy::standard();
    let outcomes = vec![false, false, false];
    assert_eq!(run_schedule(&policy, &outcomes), PushState::Failed(3));
    let note = failure_note(3);
    assert!(note.contains('3'));
    assert_eq!(note, "Failed after 3 attempts");
}

#[test]
fn retry_stops_at_first_success() {
    let policy = RetryPolicy::standard();
    let outcomes = vec![true, false, false];
    assert_eq!(run_schedule(&policy, &outcomes), PushState::Succeeded(1));
    let outcomes = vec![false, true, false];
    assert_eq!(run_schedule(&policy, &outcomes), PushState::Succeeded(2));
}

#[test]
fn retry_ceiling_is_configurable() {
    let policy = RetryPolicy::with_max_attempts(1);
    assert_eq!(run_schedule(&policy, &vec![false]), PushState::Failed(1));
    assert_eq!(run_schedule(&policy, &vec![true]), PushState::Succeeded(1));
    assert_eq!(failure_note(1), "Failed after 1 attempts");
}

#[test]
fn outcomes_past_the_ceiling_are_never_consulted() {
    let policy = RetryPolicy::standard();
    let outcomes = vec![false, false, false, true];
    assert_eq!(run_schedule(&policy, &outcomes), PushState::Failed(3));
}

#[test]
fn advance_follows_the_state_machine() {
    let policy = RetryPolicy::standard();
    assert_eq!(advance(&policy, &PushState::Attempting(1), true), PushState::Succeeded(1));
    assert_eq!(advance(&policy, &PushState::Attempting(1), false), PushState::Attempting(2));
    assert_eq!(advance(&policy, &PushState::Attempting(3), false), PushState::Failed(3));
}

#[test]
fn success_note_cites_the_target() {
    assert_eq!(
        success_note("localhost:5000/fake:latest"),
        "Successfully pushed image to localhost:5000/fake:latest"
    );
}

#[test]
fn failure_note_renders_large_counts() {
    assert_eq!(failure_note(250), "Failed after 250 attempts");
    assert_eq!(failure_note(10), "Failed after 10 attempts");
}

#[test]
fn auth_requires_both_credentials() {
    assert_eq!(
        resolve_auth(Some("user".to_string()), Some("pass".to_string())),
        AuthChoice::Basic("user".to_string(), "pass".to_string())
    );
    assert_eq!(resolve_auth(Some("user".to_string()), None), AuthChoice::Anonymous);
    assert_eq!(resolve_auth(None, Some("pass".to_string())), AuthChoice::Anonymous);
    assert_eq!(resolve_auth(None, None), AuthChoice::Anonymous);
}
