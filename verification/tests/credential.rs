use git2::{Cred, CredentialType, ErrorClass, ErrorCode};

use git_remote::credential::{
    callbacks_with_credentials, next_answer, resolve_credential, Allowed, Answer, CredentialChain,
    Offer, Refusal,
};
use git_remote::error::{AppError, GitClass};

// `Cred` implements no `Debug`, so unwrap/expect can't print it.
fn expect_ok(result: Result<Cred, git2::Error>) -> Cred {
    match result {
        Ok(cred) => cred,
        Err(err) => panic!("expected a credential: {err}"),
    }
}

fn expect_err(result: Result<Cred, git2::Error>) -> git2::Error {
    match result {
        Ok(_) => panic!("expected an error, got a credential"),
        Err(err) => err,
    }
}

#[test]
fn token_authenticates_https() {
    let mut tried = false;
    let mut userpass = false;
    expect_ok(resolve_credential(
        Some("ghs_token"),
        None,
        CredentialType::USER_PASS_PLAINTEXT,
        &mut tried,
        &mut userpass,
    ));
}

#[test]
fn token_is_never_offered_to_non_https_transports() {
    // A github.com remote rewired to ssh, or any future transport, must
    // not receive the managed token as some other credential shape.
    let mut tried = false;
    let mut userpass = false;
    let err = expect_err(resolve_credential(
        Some("ghs_token"),
        Some("git"),
        CredentialType::SSH_KEY,
        &mut tried,
        &mut userpass,
    ));
    assert_eq!(err.code(), ErrorCode::Auth);
    assert!(err.message().contains("HTTPS-only"), "{err}");
    assert!(!tried, "the agent must not be consulted on the token path");
}

#[test]
fn ssh_username_probe_is_answered() {
    let mut tried = false;
    let mut userpass = false;
    expect_ok(resolve_credential(
        None,
        None,
        CredentialType::USERNAME,
        &mut tried,
        &mut userpass,
    ));
    assert!(!tried);
}

#[test]
fn ssh_agent_is_offered_once_then_errors_actionably() {
    // libgit2 re-invokes the callback after a rejected credential; the
    // second ask must become the actionable error, not an infinite loop.
    let mut tried = false;
    let mut userpass = false;
    expect_ok(resolve_credential(
        None,
        Some("git"),
        CredentialType::SSH_KEY,
        &mut tried,
        &mut userpass,
    ));
    assert!(tried);

    let err = expect_err(resolve_credential(
        None,
        Some("git"),
        CredentialType::SSH_KEY,
        &mut tried,
        &mut userpass,
    ));
    assert_eq!(err.code(), ErrorCode::Auth);
    assert!(err.message().contains("ssh-add"), "{err}");
}

#[test]
fn generic_https_fails_fast_with_the_ssh_suggestion() {
    // No credential-helper resolution yet: an honest error beats a half-try
    // that dies somewhere less explicable.
    let mut tried = false;
    let mut userpass = false;
    let err = expect_err(resolve_credential(
        None,
        None,
        CredentialType::USER_PASS_PLAINTEXT,
        &mut tried,
        &mut userpass,
    ));
    assert_eq!(err.code(), ErrorCode::Auth);
    assert!(err.message().contains("SSH remote URL"), "{err}");
}

#[test]
fn unsupported_credential_types_error_with_auth() {
    let mut tried = false;
    let mut userpass = false;
    let err = expect_err(resolve_credential(
        None,
        None,
        CredentialType::SSH_INTERACTIVE,
        &mut tried,
        &mut userpass,
    ));
    assert_eq!(err.code(), ErrorCode::Auth);
}

#[test]
fn credentials_are_of_the_kind_that_was_asked_for() {
    let mut agent = false;
    let mut userpass = false;
    let cred = expect_ok(resolve_credential(
        Some("ghs_token"),
        None,
        CredentialType::USER_PASS_PLAINTEXT,
        &mut agent,
        &mut userpass,
    ));
    assert_eq!(cred.credtype() as u32, CredentialType::USER_PASS_PLAINTEXT.bits());
    assert!(userpass);
    assert!(!agent);

    let cred = expect_ok(resolve_credential(
        None,
        Some("alice"),
        CredentialType::USERNAME,
        &mut agent,
        &mut userpass,
    ));
    assert_eq!(cred.credtype() as u32, CredentialType::USERNAME.bits());

    let cred = expect_ok(resolve_credential(
        None,
        Some("alice"),
        CredentialType::SSH_KEY,
        &mut agent,
        &mut userpass,
    ));
    assert_eq!(cred.credtype() as u32, CredentialType::SSH_KEY.bits());
    assert!(agent);
}

#[test]
fn a_string_with_a_nul_makes_no_credential() {
    let mut agent = false;
    let mut userpass = false;
    let err = expect_err(resolve_credential(
        Some("ghs\0token"),
        None,
        CredentialType::USER_PASS_PLAINTEXT,
        &mut agent,
        &mut userpass,
    ));
    assert_eq!(err.code(), ErrorCode::GenericError);
    assert_eq!(err.class(), ErrorClass::None);
    assert_eq!(
        err.message(),
        "data contained a nul byte that could not be represented as a string"
    );
    assert!(userpass, "the token counts as offered");
    assert!(matches!(AppError::from_git(&err), AppError::Git(_)));

    let err = expect_err(resolve_credential(
        None,
        Some("a\0b"),
        CredentialType::USERNAME,
        &mut agent,
        &mut userpass,
    ));
    assert_eq!(err.code(), ErrorCode::GenericError);

    let err = expect_err(resolve_credential(
        None,
        Some("a\0b"),
        CredentialType::SSH_KEY,
        &mut agent,
        &mut userpass,
    ));
    assert_eq!(err.code(), ErrorCode::GenericError);
    assert!(agent, "the agent counts as offered");
}

#[test]
fn refusals_carry_their_class_and_message() {
    for (refusal, class, message) in [
        (
            Refusal::TokenNeedsHttps,
            ErrorClass::Callback,
            "the remote requires an unsupported credential type (token sign-in is HTTPS-only)",
        ),
        (
            Refusal::TokenRejected,
            ErrorClass::Http,
            "github.com rejected the sign-in token — check Reflect still has access to this repository, or sign out and back in",
        ),
        (
            Refusal::AgentRejected,
            ErrorClass::Ssh,
            "the SSH agent offered no key this host accepts — `ssh-add` the right key, then check `ssh -T git@<host>` works",
        ),
        (
            Refusal::HttpsWithoutToken,
            ErrorClass::Http,
            "HTTPS sign-in is only supported for github.com — use an SSH remote URL (git@host:owner/repo.git) for other hosts",
        ),
        (
            Refusal::Unsupported,
            ErrorClass::Callback,
            "the remote requires an unsupported credential type",
        ),
    ] {
        let err = refusal.to_error();
        assert_eq!(err.code(), ErrorCode::Auth);
        assert_eq!(err.class(), class);
        assert_eq!(err.message(), message);
        assert_eq!(refusal.message(), message);
        match AppError::from_git(&err) {
            AppError::Auth(text) => assert_eq!(text, message),
            other => panic!("expected an authentication error, got {other:?}"),
        }
    }
    assert_eq!(Refusal::AgentRejected.class(), GitClass::Ssh);
}

#[test]
fn allowed_types_are_read_bit_by_bit() {
    let all = CredentialType::USER_PASS_PLAINTEXT
        | CredentialType::SSH_KEY
        | CredentialType::USERNAME
        | CredentialType::SSH_INTERACTIVE;
    assert_eq!(
        Allowed::from_types(all),
        Allowed { user_pass_plaintext: true, username: true, ssh_key: true }
    );
    assert_eq!(
        Allowed::from_types(CredentialType::USER_PASS_PLAINTEXT),
        Allowed { user_pass_plaintext: true, username: false, ssh_key: false }
    );
    assert_eq!(
        Allowed::from_types(CredentialType::SSH_KEY),
        Allowed { user_pass_plaintext: false, username: false, ssh_key: true }
    );
    assert_eq!(
        Allowed::from_types(CredentialType::USERNAME),
        Allowed { user_pass_plaintext: false, username: true, ssh_key: false }
    );
    for other in [
        CredentialType::SSH_INTERACTIVE,
        CredentialType::SSH_CUSTOM,
        CredentialType::SSH_MEMORY,
        CredentialType::DEFAULT,
        CredentialType::empty(),
    ] {
        assert_eq!(
            Allowed::from_types(other),
            Allowed { user_pass_plaintext: false, username: false, ssh_key: false }
        );
    }
    assert_eq!(CredentialType::USER_PASS_PLAINTEXT.bits(), 1);
    assert_eq!(CredentialType::SSH_KEY.bits(), 2);
    assert_eq!(CredentialType::USERNAME.bits(), 32);
}

const HTTPS: Allowed = Allowed { user_pass_plaintext: true, username: false, ssh_key: false };
const KEY: Allowed = Allowed { user_pass_plaintext: false, username: false, ssh_key: true };
const NAME: Allowed = Allowed { user_pass_plaintext: false, username: true, ssh_key: false };
const ANY: Allowed = Allowed { user_pass_plaintext: true, username: true, ssh_key: true };

#[test]
fn the_token_signs_in_under_its_own_name() {
    let mut agent = false;
    let mut userpass = false;
    match next_answer(Some("ghs_token"), Some("alice"), ANY, &mut agent, &mut userpass) {
        Answer::Give(Offer::UserPass { username, password }) => {
            assert_eq!(username, "x-access-token");
            assert_eq!(password, "ghs_token");
        }
        _ => panic!("expected the token"),
    }
    assert!(userpass);
    assert!(!agent);
}

#[test]
fn ssh_takes_the_name_in_the_url_or_git() {
    let mut agent = false;
    let mut userpass = false;
    for (from_url, expected) in [(Some("alice"), "alice"), (None, "git")] {
        match next_answer(None, from_url, NAME, &mut agent, &mut userpass) {
            Answer::Give(Offer::Username { username }) => assert_eq!(username, expected),
            _ => panic!("expected a name"),
        }
        assert!(!agent);
        match next_answer(None, from_url, KEY, &mut agent, &mut userpass) {
            Answer::Give(Offer::SshAgent { username }) => assert_eq!(username, expected),
            _ => panic!("expected the agent"),
        }
        assert!(agent);
        agent = false;
    }
    assert!(!userpass);
}

#[test]
fn a_name_probe_comes_before_everything_else() {
    let mut agent = true;
    let mut userpass = true;
    assert!(matches!(
        next_answer(None, None, ANY, &mut agent, &mut userpass),
        Answer::Give(Offer::Username { username: "git" })
    ));
}

#[test]
fn a_rejected_token_is_refused_from_the_second_ask_on() {
    let mut chain = CredentialChain::new(Some("rejected-token".to_string()));
    expect_ok(chain.answer(None, CredentialType::USER_PASS_PLAINTEXT));
    for _ in 0..3 {
        let err = expect_err(chain.answer(None, CredentialType::USER_PASS_PLAINTEXT));
        assert!(err.message().contains("rejected the sign-in token"), "{err}");
    }
    let err = expect_err(chain.answer(None, CredentialType::SSH_KEY));
    assert!(err.message().contains("HTTPS-only"), "{err}");
}

#[test]
fn ssh_takes_two_rounds() {
    let mut chain = CredentialChain::new(None);
    let name = expect_ok(chain.answer(None, CredentialType::USERNAME));
    assert_eq!(name.credtype() as u32, CredentialType::USERNAME.bits());
    let key = expect_ok(chain.answer(Some("git"), CredentialType::SSH_KEY));
    assert_eq!(key.credtype() as u32, CredentialType::SSH_KEY.bits());
    let err = expect_err(chain.answer(Some("git"), CredentialType::SSH_KEY));
    assert_eq!(err.class(), ErrorClass::Ssh);
    // A probe for the name is still answered.
    expect_ok(chain.answer(None, CredentialType::USERNAME));
}

#[test]
fn every_refusal_of_the_plain_decision() {
    let refusal = |token: Option<&'static str>, allowed: Allowed, agent: bool, userpass: bool| {
        let mut agent = agent;
        let mut userpass = userpass;
        match next_answer(token, None, allowed, &mut agent, &mut userpass) {
            Answer::Refuse(refusal) => refusal,
            Answer::Give(_) => panic!("expected a refusal"),
        }
    };
    let none = Allowed { user_pass_plaintext: false, username: false, ssh_key: false };
    assert_eq!(refusal(Some("t"), KEY, false, false), Refusal::TokenNeedsHttps);
    assert_eq!(refusal(Some("t"), NAME, false, false), Refusal::TokenNeedsHttps);
    assert_eq!(refusal(Some("t"), HTTPS, false, true), Refusal::TokenRejected);
    assert_eq!(refusal(None, KEY, true, false), Refusal::AgentRejected);
    assert_eq!(refusal(None, HTTPS, false, false), Refusal::HttpsWithoutToken);
    assert_eq!(refusal(None, none, false, false), Refusal::Unsupported);
}

#[test]
fn callbacks_serve_a_remote_that_asks_for_nothing() {
    // A remote on disk invokes no credential callback: operations that carry one
    // go through, with a token and without.
    let bare = tempfile::tempdir().unwrap();
    git2::Repository::init_bare(bare.path()).unwrap();
    let dir = tempfile::tempdir().unwrap();
    let repo = git2::Repository::init(dir.path()).unwrap();
    let who = git2::Signature::now("a", "a@example.com").unwrap();
    let tree = repo.treebuilder(None).unwrap().write().unwrap();
    let tree = repo.find_tree(tree).unwrap();
    let tip = repo.commit(Some("refs/heads/main"), &who, &who, "one", &tree, &[]).unwrap();
    let mut remote = repo.remote("origin", bare.path().to_str().unwrap()).unwrap();

    let mut push = git2::PushOptions::new();
    push.remote_callbacks(callbacks_with_credentials(Some("ghs_token".to_string())));
    remote.push(&["refs/heads/main:refs/heads/main"], Some(&mut push)).unwrap();

    let mut fetch = git2::FetchOptions::new();
    fetch.remote_callbacks(callbacks_with_credentials(None));
    remote.fetch(&[] as &[&str], Some(&mut fetch), None).unwrap();
    assert_eq!(repo.refname_to_id("refs/remotes/origin/main").unwrap(), tip);
}

#[test]
fn the_first_ask_for_a_password_gets_the_token_wherever_it_stands() {
    let mut chain = CredentialChain::new(Some("ghs_token".to_string()));
    for allowed in [CredentialType::SSH_KEY, CredentialType::USERNAME, CredentialType::DEFAULT] {
        let err = expect_err(chain.answer(Some("git"), allowed));
        assert_eq!(err.code(), ErrorCode::Auth);
        assert!(err.message().contains("HTTPS-only"), "{err}");
    }
    let any = CredentialType::USER_PASS_PLAINTEXT | CredentialType::SSH_KEY;
    let cred = expect_ok(chain.answer(None, any));
    assert_eq!(cred.credtype() as u32, CredentialType::USER_PASS_PLAINTEXT.bits());
    let err = expect_err(chain.answer(None, any));
    assert!(err.message().contains("rejected the sign-in token"), "{err}");
}

#[test]
fn without_a_token_every_name_probe_and_the_first_key_ask_are_answered() {
    let mut chain = CredentialChain::new(None);
    let err = expect_err(chain.answer(None, CredentialType::USER_PASS_PLAINTEXT));
    assert!(err.message().contains("SSH remote URL"), "{err}");
    for _ in 0..3 {
        let cred = expect_ok(chain.answer(None, CredentialType::USERNAME));
        assert_eq!(cred.credtype() as u32, CredentialType::USERNAME.bits());
    }
    // A probe that would take a key as well is not an ask for one.
    let both = CredentialType::USERNAME | CredentialType::SSH_KEY;
    let cred = expect_ok(chain.answer(Some("git"), both));
    assert_eq!(cred.credtype() as u32, CredentialType::USERNAME.bits());
    let cred = expect_ok(chain.answer(Some("git"), CredentialType::SSH_KEY));
    assert_eq!(cred.credtype() as u32, CredentialType::SSH_KEY.bits());
    let err = expect_err(chain.answer(Some("git"), CredentialType::SSH_KEY));
    assert!(err.message().contains("ssh-add"), "{err}");
    let cred = expect_ok(chain.answer(Some("git"), both));
    assert_eq!(cred.credtype() as u32, CredentialType::USERNAME.bits());
}
