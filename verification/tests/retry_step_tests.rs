use maxobot::api_error::ApiError;
use maxobot::retry_executor::{RetryExecutor, RetryStep};
use maxobot::retry_policy::{BackoffStrategy, Jitter, RetryClass, RetryClassFilter, RetryPolicy};

fn fixed_policy(max_attempts: u32, classes: Vec<RetryClass>) -> RetryPolicy {
    RetryPolicy {
        max_attempts,
        backoff: BackoffStrategy::Fixed { delay: 1_000_000 },
        jitter: Jitter::Disabled,
        retry_classes: RetryClassFilter::new(classes),
    }
}

fn unavailable() -> ApiError {
    ApiError::from_status(503, None, Some("service unavailable".to_owned()))
}

#[test]
fn backoff_failures_retry_while_attempts_remain() {
    let executor = RetryExecutor::new(fixed_policy(3, vec![RetryClass::Backoff]))
        .ok()
        .expect("policy should validate");
    assert_eq!(
        executor.on_failure(1, &unavailable()),
        RetryStep::Retry { retry_class: RetryClass::Backoff, delay: 1_000_000 }
    );
    assert_eq!(
        executor.on_failure(2, &unavailable()),
        RetryStep::Retry { retry_class: RetryClass::Backoff, delay: 1_000_000 }
    );
    assert_eq!(
        executor.on_failure(3, &unavailable()),
        RetryStep::GiveUp { retry_class: RetryClass::Backoff }
    );
}

#[test]
fn classes_outside_the_filter_give_up_at_once() {
    let executor = RetryExecutor::new(fixed_policy(5, vec![RetryClass::RateLimited]))
        .ok()
        .expect("policy should validate");
    assert_eq!(
        executor.on_failure(1, &unavailable()),
        RetryStep::GiveUp { retry_class: RetryClass::Backoff }
    );
    let limited = ApiError::from_status(429, None, None);
    assert_eq!(
        executor.on_failure(1, &limited),
        RetryStep::Retry { retry_class: RetryClass::RateLimited, delay: 1_000_000 }
    );
}

#[test]
fn two_attempts_retry_once_then_give_up() {
    let executor = RetryExecutor::new(fixed_policy(2, vec![RetryClass::Backoff]))
        .ok()
        .expect("policy should validate");
    let mut attempt: u32 = 1;
    let mut retries = 0;
    loop {
        match executor.on_failure(attempt, &unavailable()) {
            RetryStep::Retry { .. } => {
                retries += 1;
                attempt += 1;
            }
            RetryStep::GiveUp { .. } => break,
        }
    }
    assert_eq!(retries, 1);
    assert_eq!(attempt, 2);
}
