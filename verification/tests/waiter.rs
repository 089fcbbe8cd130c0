use http::StatusCode;
use passivized_test_support::constant::ConstantBackoff;
use passivized_test_support::http_errors::HttpError;
use passivized_test_support::http_status_tests::{equals, is_success};
use passivized_test_support::response::parse_response;
use passivized_test_support::retry::{BackoffPolicy, Limit};
use passivized_test_support::waiter::{
    default_http_backoff, default_https_backoff, default_tcp_backoff, initial_delay,
    RetryExecutor, RetryOutcome, Step,
};
use std::time::Duration;

struct Wait<T, E> {
    outcome: RetryOutcome<T, E>,
    attempts: usize,
    notified: Vec<(E, Duration)>,
}

// Runs the loop as a caller would, with a probe that is tried at most
// `budget` times and without sleeping.
fn wait<T, E, P: BackoffPolicy>(
    policy: P,
    mut probe: impl FnMut(usize) -> Result<T, E>,
    budget: usize,
) -> Wait<T, E> {
    let mut executor = RetryExecutor::new(policy);
    let mut notified = Vec::new();
    let mut attempts = 0;
    loop {
        assert!(attempts < budget, "the wait did not end");
        let result = probe(attempts);
        attempts += 1;
        match executor.after_attempt(result) {
            Step::Finish(outcome) => return Wait { outcome, attempts, notified },
            Step::Retry { error, delay } => notified.push((error, delay)),
        }
    }
}

fn two_seconds() -> ConstantBackoff {
    ConstantBackoff::new(Duration::from_secs(2))
}

#[test]
fn waits_for_expected_failure() {
    let wait = wait(
        default_http_backoff(),
        |_| parse_response(StatusCode::NOT_FOUND, "xyz".as_bytes().to_vec(), &equals(StatusCode::NOT_FOUND)),
        100,
    );

    let actual = wait.outcome.into_result().unwrap();

    assert_eq!("xyz", actual);
    assert_eq!(1, wait.attempts);
    assert!(wait.notified.is_empty());
}

#[test]
fn waits_for_success() {
    let wait = wait(
        default_http_backoff(),
        |_| parse_response(StatusCode::OK, "buzz".as_bytes().to_vec(), &is_success()),
        100,
    );

    let actual = wait.outcome.into_result().unwrap();

    assert_eq!("buzz", actual);
    assert_eq!(1, wait.attempts);
}

#[test]
fn fails_when_server_not_present() {
    let wait = wait(
        Limit::new(2, two_seconds()),
        |_| Err::<String, HttpError>(HttpError::Other(String::from("connection refused"))),
        100,
    );

    assert_eq!(3, wait.attempts);
    assert!(matches!(wait.outcome.into_result(), Err(HttpError::Other(text)) if text == "connection refused"));
}

#[test]
fn success_on_the_first_attempt_never_asks_the_policy() {
    let mut executor = RetryExecutor::new(Limit::new(1, two_seconds()));

    assert_eq!(
        Step::Finish(RetryOutcome::Succeeded(5u8)),
        executor.after_attempt::<u8, &str>(Ok(5))
    );
    // The one retry is still there.
    assert_eq!(
        Step::Retry { error: "down", delay: Duration::from_secs(2) },
        executor.after_attempt::<u8, &str>(Err("down"))
    );
    assert_eq!(
        Step::Finish(RetryOutcome::GaveUp("down again")),
        executor.after_attempt::<u8, &str>(Err("down again"))
    );
}

#[test]
fn always_failing_probe_is_tried_once_more_than_the_limit() {
    for n in 0..6usize {
        let wait = wait(Limit::new(n, two_seconds()), |attempt| Err::<(), usize>(attempt), 100);

        assert_eq!(n + 1, wait.attempts);
        assert_eq!(n, wait.notified.len());
        assert_eq!(RetryOutcome::GaveUp(n), wait.outcome);
        for (k, (error, delay)) in wait.notified.iter().enumerate() {
            assert_eq!(k, *error);
            assert_eq!(Duration::from_secs(2), *delay);
        }
    }
}

#[test]
fn gives_up_at_once_without_retries() {
    let wait = wait(Limit::new(0, two_seconds()), |_| Err::<(), &str>("refused"), 100);

    assert_eq!(1, wait.attempts);
    assert!(wait.notified.is_empty());
    assert_eq!(Err("refused"), wait.outcome.into_result());
}

#[test]
fn stops_at_the_first_success() {
    let wait = wait(
        Limit::new(7, two_seconds()),
        |attempt| if attempt < 3 { Err(attempt) } else { Ok("up") },
        100,
    );

    assert_eq!(4, wait.attempts);
    assert_eq!(RetryOutcome::Succeeded("up"), wait.outcome);
    assert_eq!(
        vec![
            (0, Duration::from_secs(2)),
            (1, Duration::from_secs(2)),
            (2, Duration::from_secs(2)),
        ],
        wait.notified
    );
}

#[test]
fn success_on_the_last_allowed_attempt_counts() {
    let wait = wait(
        Limit::new(2, two_seconds()),
        |attempt| if attempt < 2 { Err("not yet") } else { Ok(attempt) },
        100,
    );

    assert_eq!(3, wait.attempts);
    assert_eq!(Ok(2), wait.outcome.into_result());
}

#[test]
fn tcp_wait_gives_up_when_nothing_listens() {
    let wait = wait(default_tcp_backoff(), |attempt| Err::<(), usize>(attempt), 100);

    // Four retries are allowed and reported; the failure after the last of
    // them ends the wait.
    assert_eq!(4, wait.notified.len());
    assert_eq!(5, wait.attempts);
    assert_eq!(Err(4), wait.outcome.into_result());
}

#[test]
fn executor_resets_the_policy_it_is_given() {
    let mut used = Limit::new(2, two_seconds());
    assert!(used.next_backoff().is_some());
    assert!(used.next_backoff().is_some());
    assert_eq!(None, used.next_backoff());

    let wait = wait(used, |_| Err::<(), &str>("refused"), 100);

    assert_eq!(3, wait.attempts);
    assert_eq!(2, wait.notified.len());
}

#[test]
fn an_unbounded_policy_retries_for_as_long_as_the_probe_fails() {
    let wait = wait(
        two_seconds(),
        |attempt| if attempt < 50 { Err(()) } else { Ok(()) },
        100,
    );

    assert_eq!(51, wait.attempts);
    assert_eq!(50, wait.notified.len());
    assert_eq!(RetryOutcome::Succeeded(()), wait.outcome);
}

#[test]
fn default_backoffs_have_their_limits_and_interval() {
    let two = Some(Duration::from_secs(2));

    let mut http = default_http_backoff();
    for _ in 0..7 {
        assert_eq!(two, http.next_backoff());
    }
    assert_eq!(None, http.next_backoff());

    let mut https = default_https_backoff();
    for _ in 0..5 {
        assert_eq!(two, https.next_backoff());
    }
    assert_eq!(None, https.next_backoff());

    let mut tcp = default_tcp_backoff();
    for _ in 0..4 {
        assert_eq!(two, tcp.next_backoff());
    }
    assert_eq!(None, tcp.next_backoff());
}

#[test]
fn initial_delay_is_two_seconds() {
    assert_eq!(Duration::from_secs(2), initial_delay());
    assert_eq!(Duration::new(2, 0), initial_delay());
}

#[test]
fn outcome_becomes_the_result_of_the_wait() {
    assert_eq!(Ok(1), RetryOutcome::<i32, &str>::Succeeded(1).into_result());
    assert_eq!(Err("gone"), RetryOutcome::<i32, &str>::GaveUp("gone").into_result());
}
