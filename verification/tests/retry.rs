use opsml_cli::api::error::Error;
use opsml_cli::api::retry::{
    DownloadAction, DownloadEvent, DownloadState, Transition, MAX_ATTEMPTS,
};
use opsml_cli::api::types::PresignedUrl;

/// What a scripted server does in one attempt.
#[derive(Clone, Copy)]
enum Attempt {
    Refuse,
    GrantThenBreak,
    GrantThenDeliver,
}

struct Observed {
    result: Result<(), Error>,
    authorizations: u32,
    fetches: u32,
    failed_attempts: Vec<u32>,
    fetched_with: Vec<String>,
}

/// Runs one transfer against the script, as a caller of the library does:
/// it performs each action and hands back what came of it.
fn run(script: &[Attempt]) -> Observed {
    let mut seen = Observed {
        result: Ok(()),
        authorizations: 0,
        fetches: 0,
        failed_attempts: vec![],
        fetched_with: vec![],
    };
    let (mut state, mut action) = DownloadState::start();
    let mut cycles = 0;
    loop {
        cycles += 1;
        assert!(cycles <= 2 * MAX_ATTEMPTS + 1);
        let event = match action {
            DownloadAction::Authorize { attempt } => {
                seen.authorizations += 1;
                assert_eq!(attempt, seen.authorizations);
                match script[(attempt - 1) as usize] {
                    Attempt::Refuse => DownloadEvent::AuthorizationFailed,
                    _ => DownloadEvent::Authorized(PresignedUrl {
                        url: format!("http://store/get?attempt={}", attempt),
                    }),
                }
            }
            DownloadAction::Fetch { attempt, authorization } => {
                seen.fetches += 1;
                seen.fetched_with.push(authorization.url);
                match script[(attempt - 1) as usize] {
                    Attempt::GrantThenDeliver => DownloadEvent::Fetched,
                    _ => DownloadEvent::TransferFailed,
                }
            }
            DownloadAction::Finish(result) => {
                seen.result = result;
                return seen;
            }
        };
        let transition = state.step(event);
        if let Some(attempt) = transition.failed_attempt {
            seen.failed_attempts.push(attempt);
        }
        state = transition.state;
        action = transition.action;
    }
}

#[test]
fn the_first_attempt_succeeds() {
    let seen = run(&[Attempt::GrantThenDeliver, Attempt::Refuse, Attempt::Refuse]);
    assert_eq!(seen.result, Ok(()));
    assert_eq!(seen.authorizations, 1);
    assert_eq!(seen.fetches, 1);
    assert_eq!(seen.failed_attempts, Vec::<u32>::new());
}

#[test]
fn the_third_attempt_succeeds_after_two_refusals() {
    let seen = run(&[Attempt::Refuse, Attempt::Refuse, Attempt::GrantThenDeliver]);
    assert_eq!(seen.result, Ok(()));
    assert_eq!(seen.authorizations, 3);
    assert_eq!(seen.fetches, 1);
    assert_eq!(seen.failed_attempts, vec![1, 2]);
    assert_eq!(seen.fetched_with, vec!["http://store/get?attempt=3"]);
}

#[test]
fn three_refusals_exhaust_the_attempts() {
    let seen = run(&[Attempt::Refuse, Attempt::Refuse, Attempt::Refuse]);
    assert_eq!(seen.result, Err(Error::ExhaustedFailure { max_attempts: 3 }));
    assert_eq!(seen.authorizations, 3);
    assert_eq!(seen.fetches, 0);
    assert_eq!(seen.failed_attempts, vec![1, 2, 3]);
}

#[test]
fn three_broken_transfers_exhaust_the_attempts() {
    let seen = run(&[Attempt::GrantThenBreak, Attempt::GrantThenBreak, Attempt::GrantThenBreak]);
    assert_eq!(seen.result, Err(Error::ExhaustedFailure { max_attempts: 3 }));
    assert_eq!(seen.authorizations, 3);
    assert_eq!(seen.fetches, 3);
    assert_eq!(seen.failed_attempts, vec![1, 2, 3]);
}

#[test]
fn every_attempt_fetches_under_its_own_authorization() {
    let seen = run(&[Attempt::GrantThenBreak, Attempt::Refuse, Attempt::GrantThenDeliver]);
    assert_eq!(seen.result, Ok(()));
    assert_eq!(seen.authorizations, 3);
    assert_eq!(seen.fetches, 2);
    assert_eq!(
        seen.fetched_with,
        vec!["http://store/get?attempt=1", "http://store/get?attempt=3"]
    );
    assert_eq!(seen.failed_attempts, vec![1, 2]);
}

#[test]
fn every_script_stays_within_the_budget() {
    let kinds = [Attempt::Refuse, Attempt::GrantThenBreak, Attempt::GrantThenDeliver];
    for a in kinds {
        for b in kinds {
            for c in kinds {
                let script = [a, b, c];
                let seen = run(&script);
                let first_delivery =
                    script.iter().position(|k| matches!(k, Attempt::GrantThenDeliver));
                assert!(seen.authorizations <= MAX_ATTEMPTS);
                assert!(seen.fetches <= seen.authorizations);
                match first_delivery {
                    Some(at) => {
                        assert_eq!(seen.result, Ok(()));
                        assert_eq!(seen.authorizations, at as u32 + 1);
                    }
                    None => {
                        assert_eq!(seen.result, Err(Error::ExhaustedFailure { max_attempts: 3 }));
                        assert_eq!(seen.authorizations, MAX_ATTEMPTS);
                    }
                }
            }
        }
    }
}

#[test]
fn start_asks_for_the_first_authorization() {
    assert_eq!(
        DownloadState::start(),
        (DownloadState::Authorizing { attempt: 1 }, DownloadAction::Authorize { attempt: 1 })
    );
    assert_eq!(MAX_ATTEMPTS, 3);
}

#[test]
fn step_by_step() {
    let granted = || PresignedUrl { url: "http://store/get".to_string() };
    assert_eq!(
        DownloadState::Authorizing { attempt: 2 }.step(DownloadEvent::Authorized(granted())),
        Transition {
            state: DownloadState::Fetching { attempt: 2 },
            action: DownloadAction::Fetch { attempt: 2, authorization: granted() },
            failed_attempt: None,
        }
    );
    assert_eq!(
        DownloadState::Authorizing { attempt: 2 }.step(DownloadEvent::AuthorizationFailed),
        Transition {
            state: DownloadState::Authorizing { attempt: 3 },
            action: DownloadAction::Authorize { attempt: 3 },
            failed_attempt: Some(2),
        }
    );
    assert_eq!(
        DownloadState::Authorizing { attempt: 3 }.step(DownloadEvent::AuthorizationFailed),
        Transition {
            state: DownloadState::Exhausted,
            action: DownloadAction::Finish(Err(Error::ExhaustedFailure { max_attempts: 3 })),
            failed_attempt: Some(3),
        }
    );
    assert_eq!(
        DownloadState::Fetching { attempt: 1 }.step(DownloadEvent::Fetched),
        Transition {
            state: DownloadState::Succeeded,
            action: DownloadAction::Finish(Ok(())),
            failed_attempt: None,
        }
    );
    assert_eq!(
        DownloadState::Fetching { attempt: 1 }.step(DownloadEvent::TransferFailed),
        Transition {
            state: DownloadState::Authorizing { attempt: 2 },
            action: DownloadAction::Authorize { attempt: 2 },
            failed_attempt: Some(1),
        }
    );
    assert_eq!(
        DownloadState::Fetching { attempt: 3 }.step(DownloadEvent::TransferFailed),
        Transition {
            state: DownloadState::Exhausted,
            action: DownloadAction::Finish(Err(Error::ExhaustedFailure { max_attempts: 3 })),
            failed_attempt: Some(3),
        }
    );
}

#[test]
fn an_event_that_answers_nothing_pending_fails_the_attempt() {
    assert_eq!(
        DownloadState::Authorizing { attempt: 1 }.step(DownloadEvent::Fetched),
        Transition {
            state: DownloadState::Authorizing { attempt: 2 },
            action: DownloadAction::Authorize { attempt: 2 },
            failed_attempt: Some(1),
        }
    );
    let stray = PresignedUrl { url: "http://store/stray".to_string() };
    assert_eq!(
        DownloadState::Fetching { attempt: 1 }.step(DownloadEvent::Authorized(stray)),
        Transition {
            state: DownloadState::Authorizing { attempt: 2 },
            action: DownloadAction::Authorize { attempt: 2 },
            failed_attempt: Some(1),
        }
    );
}

#[test]
fn a_final_state_stays_final() {
    for event in [DownloadEvent::Fetched, DownloadEvent::TransferFailed] {
        assert_eq!(
            DownloadState::Succeeded.step(event),
            Transition {
                state: DownloadState::Succeeded,
                action: DownloadAction::Finish(Ok(())),
                failed_attempt: None,
            }
        );
    }
    assert_eq!(
        DownloadState::Exhausted.step(DownloadEvent::Fetched),
        Transition {
            state: DownloadState::Exhausted,
            action: DownloadAction::Finish(Err(Error::ExhaustedFailure { max_attempts: 3 })),
            failed_attempt: None,
        }
    );
}
