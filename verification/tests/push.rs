use git_remote::error::{AppError, GitCode, GitFailure};
use git_remote::push::{classify_rejection, push_outcome, PushLog, PushOutcome};

fn parts(outcome: PushOutcome) -> (bool, bool, Option<String>) {
    (outcome.pushed, outcome.non_fast_forward, outcome.rejection_message)
}

fn failure(code: GitCode, message: &str) -> Result<(), GitFailure> {
    Err(GitFailure { code, message: message.to_string() })
}

fn error(code: git2::ErrorCode, message: &str) -> Result<(), git2::Error> {
    Err(git2::Error::new(code, git2::ErrorClass::Reference, message))
}

#[test]
fn a_remote_that_moved_is_recognised_in_any_capitals() {
    for message in [
        "non-fast-forward",
        "! [rejected] main -> main (Non-Fast-Forward)",
        "updates were rejected: FETCH FIRST",
        "Cannot Lock Ref 'refs/heads/main'",
        // Outside ASCII the rest is put in lower case too.
        "ÄNDERUNG: NON-FAST-FORWARD",
        // The Kelvin sign becomes an ordinary k.
        "cannot loc\u{212a} ref",
    ] {
        assert_eq!(
            parts(classify_rejection(message.to_string(), "")),
            (false, true, Some(message.to_string()))
        );
    }
}

#[test]
fn the_case_of_ascii_letters_does_not_matter() {
    for message in [
        "Fetch First",
        "declined",
        "Non-fast-Forward: ὈΔΥΣΣΕΎΣ",
        "ΑΣ Cannot Lock Ref aΣ",
        "ἈΡΧΉ: Declined",
    ] {
        let classify = |text: String| classify_rejection(text, "").non_fast_forward;
        let expected = classify(message.to_string());
        assert_eq!(classify(message.to_ascii_uppercase()), expected);
        assert_eq!(classify(message.to_ascii_lowercase()), expected);
    }
}

#[test]
fn lower_case_does_not_depend_on_the_case_of_ascii_letters() {
    let same = |text: &str| {
        assert_eq!(text.to_lowercase(), text.to_ascii_lowercase().to_lowercase(), "{text:?}")
    };
    for c in '\0'..=char::MAX {
        same(&format!("A{c}A"));
    }
    // A capital sigma among letters, marks and blanks, whatever stands around it.
    let pieces = ["", "A", "a", "Σ", "Β", "'", ".", " ", "\u{301}", "1"];
    for first in pieces {
        for second in pieces {
            for third in pieces {
                for fourth in pieces {
                    same(&format!("{first}{second}Σ{third}{fourth}"));
                }
            }
        }
    }
}

#[test]
fn other_rejections_are_not_conflicts() {
    for message in [
        "",
        "pre-receive hook declined",
        "non fast forward",
        "fetch  first",
        "cannot lock",
        "non-fast-forwar",
        "on-fast-forward",
    ] {
        assert_eq!(
            parts(classify_rejection(message.to_string(), "")),
            (false, false, Some(message.to_string()))
        );
    }
}

#[test]
fn the_sideband_is_trimmed_and_put_below_the_message() {
    let outcome = classify_rejection(
        "pre-receive hook declined".to_string(),
        "\n  error: GH013: push protection\n  see https://example.com\t\r\n",
    );
    assert_eq!(
        outcome.rejection_message.as_deref(),
        Some("pre-receive hook declined\nerror: GH013: push protection\n  see https://example.com")
    );
}

#[test]
fn a_blank_sideband_adds_nothing() {
    let outcome = classify_rejection("declined".to_string(), " \t\r\n\u{a0}\u{3000}");
    assert_eq!(outcome.rejection_message.as_deref(), Some("declined"));
}

#[test]
fn whitespace_is_what_unicode_says() {
    let listed = |c: char| {
        let code = c as u32;
        (0x09..=0x0d).contains(&code)
            || code == 0x20
            || code == 0x85
            || code == 0xa0
            || code == 0x1680
            || (0x2000..=0x200a).contains(&code)
            || code == 0x2028
            || code == 0x2029
            || code == 0x202f
            || code == 0x205f
            || code == 0x3000
    };
    for c in '\0'..=char::MAX {
        let mut sideband = c.to_string();
        let outcome = classify_rejection("m".to_string(), &sideband);
        let expected = if listed(c) { "m".to_string() } else { format!("m\n{c}") };
        assert_eq!(outcome.rejection_message, Some(expected), "{:x}", c as u32);
        if listed(c) {
            sideband.push('x');
            sideband.push(c);
            let outcome = classify_rejection("m".to_string(), &sideband);
            assert_eq!(outcome.rejection_message.as_deref(), Some("m\nx"));
        }
    }
}

#[test]
fn the_sideband_does_not_decide_what_a_rejection_is() {
    assert!(!classify_rejection("declined".to_string(), "non-fast-forward").non_fast_forward);
    assert!(classify_rejection("fetch first".to_string(), "declined").non_fast_forward);
}

#[test]
fn outcomes_of_plain_results() {
    assert_eq!(
        parts(push_outcome(Ok(()), None, "counting objects").unwrap()),
        (true, false, None)
    );
    assert_eq!(
        parts(push_outcome(Ok(()), Some("fetch first".to_string()), " why ").unwrap()),
        (false, true, Some("fetch first\nwhy".to_string()))
    );
    // A failure that names the conflict wins, and is not explained further.
    assert_eq!(
        parts(
            push_outcome(
                failure(GitCode::NotFastForward, "cannot push"),
                Some("declined".to_string()),
                "why"
            )
            .unwrap()
        ),
        (false, true, Some("cannot push".to_string()))
    );
    for code in [GitCode::Other, GitCode::Auth] {
        assert_eq!(
            parts(
                push_outcome(failure(code, "broken"), Some("declined".to_string()), "").unwrap()
            ),
            (false, false, Some("declined".to_string()))
        );
    }
}

#[test]
fn unexplained_failures_are_errors() {
    match push_outcome(failure(GitCode::Auth, "no key"), None, "why") {
        Err(AppError::Auth(message)) => assert_eq!(message, "no key"),
        other => panic!("{other:?}"),
    }
    match push_outcome(failure(GitCode::Other, "no route"), None, "why") {
        Err(AppError::Git(message)) => assert_eq!(message, "no route"),
        other => panic!("{other:?}"),
    }
}

#[test]
fn errors_of_git2_are_read() {
    let log = PushLog::new();
    match log.conclude(error(git2::ErrorCode::Auth, "rejected the sign-in token")) {
        Err(AppError::Auth(message)) => assert_eq!(message, "rejected the sign-in token"),
        other => panic!("{other:?}"),
    }
    let log = PushLog::new();
    match log.conclude(error(git2::ErrorCode::NotFound, "gone")) {
        Err(AppError::Git(message)) => assert_eq!(message, "gone"),
        other => panic!("{other:?}"),
    }
    let log = PushLog::new();
    let outcome = log.conclude(error(git2::ErrorCode::NotFastForward, "moved")).unwrap();
    assert_eq!(parts(outcome), (false, true, Some("moved".to_string())));
}

#[test]
fn the_last_rejection_stays_and_the_sideband_adds_up() {
    let mut log = PushLog::new();
    log.note_status(None);
    log.note_sideband(b" remote: ");
    log.note_status(Some("declined"));
    log.note_sideband("é\n".as_bytes());
    log.note_status(Some("fetch first"));
    log.note_status(None);
    assert_eq!(
        parts(log.conclude(Ok(())).unwrap()),
        (false, true, Some("fetch first\nremote: é".to_string()))
    );
}

#[test]
fn a_push_of_accepted_references_is_made() {
    let mut log = PushLog::new();
    log.note_status(None);
    log.note_sideband(b"non-fast-forward");
    log.note_status(None);
    assert_eq!(parts(log.conclude(Ok(())).unwrap()), (true, false, None));
}

#[test]
fn bytes_that_are_not_text_are_replaced() {
    let mut log = PushLog::new();
    log.note_status(Some("declined"));
    log.note_sideband(b"a\xffb");
    // A character that is cut in two is lost.
    log.note_sideband(b"\xc3");
    log.note_sideband(b"\xa9");
    assert_eq!(
        log.conclude(Ok(())).unwrap().rejection_message.as_deref(),
        Some("declined\na\u{fffd}b\u{fffd}\u{fffd}")
    );
}

#[test]
fn missing_things_are_not_found() {
    match AppError::no_backup_remote() {
        AppError::NotFound(message) => {
            assert_eq!(message, "no backup remote is configured for this graph")
        }
        other => panic!("{other:?}"),
    }
    match AppError::not_found("x") {
        AppError::NotFound(message) => assert_eq!(message, "x"),
        other => panic!("{other:?}"),
    }
}
