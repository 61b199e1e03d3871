//! The credential chain: what a credential callback answers to a host.
//!
//! With a token (the managed sign-in) the answer is HTTPS basic authentication,
//! never another kind of credential, and the token is offered once. A host that
//! accepts a credential asks for it once; one that rejects it asks again without
//! bound, so a second ask is a rejection and becomes an error. Without a token a
//! bare username probe is answered, then the SSH agent is offered once.

use vstd::prelude::*;

use crate::error::{new_error, GitClass, GitCode};
#[allow(unused_imports)]
use crate::error::{error_class, error_code, error_message};

verus! {

/// A credential that git2 hands to a host.
#[verifier::external_type_specification]
#[verifier::external_body]
pub struct ExCred(git2::Cred);

/// The set of credential types that a host accepts.
#[verifier::external_type_specification]
#[verifier::external_body]
pub struct ExCredentialType(git2::CredentialType);

/// The callbacks that git2 invokes during a network operation.
#[verifier::external_type_specification]
#[verifier::external_body]
pub struct ExRemoteCallbacks<'a>(git2::RemoteCallbacks<'a>);

/// The name under which a token signs in.
pub const TOKEN_USERNAME: &'static str = "x-access-token";

/// The name used over SSH when the remote's URL carries none.
pub const DEFAULT_USERNAME: &'static str = "git";

/// The credential types that the chain can answer.
#[derive(Debug, Clone, Copy, PartialEq, Eq, Structural)]
pub enum CredentialKind {
    UserPassPlaintext,
    SshKey,
    Username,
}

/// What a credential carries: a name and a password, a name alone, or a name
/// whose keys the SSH agent holds. `S` is the type of its strings.
pub enum Offer<S> {
    UserPass { username: S, password: S },
    Username { username: S },
    SshAgent { username: S },
}

/// Why the chain hands out no credential.
#[derive(Debug, Clone, Copy, PartialEq, Eq, Structural)]
pub enum Refusal {
    /// A token was given, and the host does not take a name and a password.
    TokenNeedsHttps,
    /// The host asked again after it was given the token.
    TokenRejected,
    /// The host asked again after it was given the SSH agent.
    AgentRejected,
    /// The host takes a name and a password, and there is no token.
    HttpsWithoutToken,
    /// The host takes nothing that the chain can answer.
    Unsupported,
}

/// The answer to one ask of the host.
pub enum Answer<S> {
    Give(Offer<S>),
    Refuse(Refusal),
}

/// Which of the credential types that the chain can answer a host accepts.
#[derive(Debug, Clone, Copy, PartialEq, Eq, Structural)]
pub struct Allowed {
    pub user_pass_plaintext: bool,
    pub username: bool,
    pub ssh_key: bool,
}

/// What the chain has offered so far.
#[derive(Debug, Clone, Copy, PartialEq, Eq, Structural)]
pub struct Tried {
    pub ssh_agent: bool,
    pub userpass: bool,
}

/// The characters of an optional string slice.
pub open spec fn str_chars(text: Option<&str>) -> Option<Seq<char>> {
    match text {
        Some(text) => Some(text@),
        None => None,
    }
}

/// The characters of an optional string.
pub open spec fn string_chars(text: Option<String>) -> Option<Seq<char>> {
    match text {
        Some(text) => Some(text@),
        None => None,
    }
}

impl Refusal {
    /// The class of the error that reports this refusal.
    pub open spec fn spec_class(self) -> GitClass {
        match self {
            Refusal::TokenNeedsHttps => GitClass::Callback,
            Refusal::TokenRejected => GitClass::Http,
            Refusal::AgentRejected => GitClass::Ssh,
            Refusal::HttpsWithoutToken => GitClass::Http,
            Refusal::Unsupported => GitClass::Callback,
        }
    }

    /// What the error that reports this refusal says.
    pub open spec fn spec_message(self) -> Seq<char> {
        match self {
            Refusal::TokenNeedsHttps =>
                "the remote requires an unsupported credential type (token sign-in is HTTPS-only)"@,
            Refusal::TokenRejected =>
                "github.com rejected the sign-in token — check Reflect still has access to this repository, or sign out and back in"@,
            Refusal::AgentRejected =>
                "the SSH agent offered no key this host accepts — `ssh-add` the right key, then check `ssh -T git@<host>` works"@,
            Refusal::HttpsWithoutToken =>
                "HTTPS sign-in is only supported for github.com — use an SSH remote URL (git@host:owner/repo.git) for other hosts"@,
            Refusal::Unsupported => "the remote requires an unsupported credential type"@,
        }
    }

    /// The class of the error that reports this refusal.
    pub fn class(&self) -> (class: GitClass)
        ensures
            class == self.spec_class(),
    {
        match self {
            Refusal::TokenNeedsHttps => GitClass::Callback,
            Refusal::TokenRejected => GitClass::Http,
            Refusal::AgentRejected => GitClass::Ssh,
            Refusal::HttpsWithoutToken => GitClass::Http,
            Refusal::Unsupported => GitClass::Callback,
        }
    }

    /// What the error that reports this refusal says: what went wrong and, where
    /// the user can act on it, what to do.
    pub fn message(&self) -> (message: &'static str)
        ensures
            message@ == self.spec_message(),
    {
        match self {
            Refusal::TokenNeedsHttps =>
                "the remote requires an unsupported credential type (token sign-in is HTTPS-only)",
            Refusal::TokenRejected =>
                "github.com rejected the sign-in token — check Reflect still has access to this repository, or sign out and back in",
            Refusal::AgentRejected =>
                "the SSH agent offered no key this host accepts — `ssh-add` the right key, then check `ssh -T git@<host>` works",
            Refusal::HttpsWithoutToken =>
                "HTTPS sign-in is only supported for github.com — use an SSH remote URL (git@host:owner/repo.git) for other hosts",
            Refusal::Unsupported => "the remote requires an unsupported credential type",
        }
    }

    /// The error that reports this refusal. Its code is `Auth` for every refusal,
    /// so that a refusal is brought to the user's attention and not retried.
    pub fn to_error(&self) -> (error: git2::Error)
        ensures
            reports(error, *self),
            error_code(error) == GitCode::Auth,
            error_class(error) == self.spec_class(),
            error_message(error) == self.spec_message(),
    {
        new_error(GitCode::Auth, self.class(), self.message())
    }
}

/// `error` is the error that reports `refusal`.
pub open spec fn reports(error: git2::Error, refusal: Refusal) -> bool {
    &&& error_code(error) == GitCode::Auth
    &&& error_class(error) == refusal.spec_class()
    &&& error_message(error) == refusal.spec_message()
}

/// The characters of the strings in an offer.
pub open spec fn offer_chars(offer: Offer<&str>) -> Offer<Seq<char>> {
    match offer {
        Offer::UserPass { username, password } => Offer::UserPass {
            username: username@,
            password: password@,
        },
        Offer::Username { username } => Offer::Username { username: username@ },
        Offer::SshAgent { username } => Offer::SshAgent { username: username@ },
    }
}

/// The characters of the strings in an answer.
pub open spec fn answer_chars(answer: Answer<&str>) -> Answer<Seq<char>> {
    match answer {
        Answer::Give(offer) => Answer::Give(offer_chars(offer)),
        Answer::Refuse(refusal) => Answer::Refuse(refusal),
    }
}

/// The name to use over SSH: the one in the URL, else [`DEFAULT_USERNAME`].
pub open spec fn ssh_username(username_from_url: Option<Seq<char>>) -> Seq<char> {
    match username_from_url {
        Some(username) => username,
        None => "git"@,
    }
}

/// The answer to an ask of a host that accepts `allowed`.
///
/// A token is given to a host that takes a name and a password and has not been
/// given it before; every other ask made of a token is refused. Without a token
/// a probe for the name is answered whatever else the host accepts, and the SSH
/// agent is offered if it has not been before.
pub open spec fn decide(
    token: Option<Seq<char>>,
    username_from_url: Option<Seq<char>>,
    allowed: Allowed,
    tried: Tried,
) -> Answer<Seq<char>> {
    match token {
        Some(token) => if !allowed.user_pass_plaintext {
            Answer::Refuse(Refusal::TokenNeedsHttps)
        } else if tried.userpass {
            Answer::Refuse(Refusal::TokenRejected)
        } else {
            Answer::Give(Offer::UserPass { username: "x-access-token"@, password: token })
        },
        None => if allowed.username {
            Answer::Give(Offer::Username { username: ssh_username(username_from_url) })
        } else if allowed.ssh_key && tried.ssh_agent {
            Answer::Refuse(Refusal::AgentRejected)
        } else if allowed.ssh_key {
            Answer::Give(Offer::SshAgent { username: ssh_username(username_from_url) })
        } else if allowed.user_pass_plaintext {
            Answer::Refuse(Refusal::HttpsWithoutToken)
        } else {
            Answer::Refuse(Refusal::Unsupported)
        },
    }
}

/// What has been offered once `answer` has been given.
pub open spec fn tried_after(tried: Tried, answer: Answer<Seq<char>>) -> Tried {
    Tried {
        ssh_agent: tried.ssh_agent || answer matches Answer::Give(Offer::SshAgent { .. }),
        userpass: tried.userpass || answer matches Answer::Give(Offer::UserPass { .. }),
    }
}

/// Decides the answer to one ask, and notes what it offers.
pub fn next_answer<'a>(
    token: Option<&'a str>,
    username_from_url: Option<&'a str>,
    allowed: Allowed,
    ssh_agent_tried: &mut bool,
    userpass_tried: &mut bool,
) -> (answer: Answer<&'a str>)
    ensures
        answer_chars(answer) == decide(
            str_chars(token),
            str_chars(username_from_url),
            allowed,
            Tried { ssh_agent: *old(ssh_agent_tried), userpass: *old(userpass_tried) },
        ),
        (Tried { ssh_agent: *final(ssh_agent_tried), userpass: *final(userpass_tried) })
            == tried_after(
            Tried { ssh_agent: *old(ssh_agent_tried), userpass: *old(userpass_tried) },
            answer_chars(answer),
        ),
        // With a token: the token itself, or a refusal.
        token matches Some(token) ==> match answer {
            Answer::Give(Offer::UserPass { username, password }) => {
                &&& allowed.user_pass_plaintext && !*old(userpass_tried)
                &&& username@ == "x-access-token"@ && password@ == token@
            },
            Answer::Refuse(Refusal::TokenNeedsHttps) => !allowed.user_pass_plaintext,
            Answer::Refuse(Refusal::TokenRejected) => allowed.user_pass_plaintext && *old(
                userpass_tried,
            ),
            _ => false,
        },
        // Without one: the name in the URL, or `git`, alone or for the agent.
        token is None ==> match answer {
            Answer::Give(Offer::Username { username }) => {
                &&& allowed.username
                &&& username_from_url matches Some(name) ==> username@ == name@
                &&& username_from_url is None ==> username@ == "git"@
            },
            Answer::Give(Offer::SshAgent { username }) => {
                &&& !allowed.username && allowed.ssh_key && !*old(ssh_agent_tried)
                &&& username_from_url matches Some(name) ==> username@ == name@
                &&& username_from_url is None ==> username@ == "git"@
            },
            Answer::Refuse(Refusal::AgentRejected) => !allowed.username && allowed.ssh_key && *old(
                ssh_agent_tried,
            ),
            Answer::Refuse(Refusal::HttpsWithoutToken) => !allowed.username && !allowed.ssh_key
                && allowed.user_pass_plaintext,
            Answer::Refuse(Refusal::Unsupported) => !allowed.username && !allowed.ssh_key
                && !allowed.user_pass_plaintext,
            _ => false,
        },
        *final(userpass_tried) == (*old(userpass_tried) || (token is Some
            && allowed.user_pass_plaintext)),
        *final(ssh_agent_tried) == (*old(ssh_agent_tried) || (token is None && !allowed.username
            && allowed.ssh_key)),
{
    if let Some(token) = token {
        if !allowed.user_pass_plaintext {
            return Answer::Refuse(Refusal::TokenNeedsHttps);
        }
        if *userpass_tried {
            return Answer::Refuse(Refusal::TokenRejected);
        }
        *userpass_tried = true;
        return Answer::Give(Offer::UserPass { username: TOKEN_USERNAME, password: token });
    }
    let username: &'a str = match username_from_url {
        Some(username) => username,
        None => DEFAULT_USERNAME,
    };
    // SSH asks in two rounds: first for the name alone (URLs that do not carry
    // one), then for a key for it.
    if allowed.username {
        return Answer::Give(Offer::Username { username });
    }
    if allowed.ssh_key {
        if *ssh_agent_tried {
            return Answer::Refuse(Refusal::AgentRejected);
        }
        *ssh_agent_tried = true;
        return Answer::Give(Offer::SshAgent { username });
    }
    if allowed.user_pass_plaintext {
        return Answer::Refuse(Refusal::HttpsWithoutToken);
    }
    Answer::Refuse(Refusal::Unsupported)
}

/// The bits of a set of credential types, as `git2::CredentialType::bits` gives
/// them.
pub uninterp spec fn type_bits(types: git2::CredentialType) -> u32;

/// The bit that stands for a credential type in such a set.
pub open spec fn kind_bit(kind: CredentialKind) -> u32 {
    match kind {
        CredentialKind::UserPassPlaintext => 1,
        CredentialKind::SshKey => 2,
        CredentialKind::Username => 32,
    }
}

/// Whether a set of credential types with the bits `bits` holds `kind`.
pub open spec fn holds_kind(bits: u32, kind: CredentialKind) -> bool {
    bits & kind_bit(kind) == kind_bit(kind)
}

/// Which types that the chain can answer are in a set with the bits `bits`.
pub open spec fn allowed_in(bits: u32) -> Allowed {
    Allowed {
        user_pass_plaintext: holds_kind(bits, CredentialKind::UserPassPlaintext),
        username: holds_kind(bits, CredentialKind::Username),
        ssh_key: holds_kind(bits, CredentialKind::SshKey),
    }
}

/// Calls `git2::CredentialType::contains` with git2's constant for `kind`.
/// Trusted: it tells whether every bit of that constant is set, and the constants
/// have the bits that [`kind_bit`] lists.
#[verifier::external_body]
fn types_contain(types: git2::CredentialType, kind: CredentialKind) -> (contained: bool)
    ensures
        contained == holds_kind(type_bits(types), kind),
{
    types.contains(match kind {
        CredentialKind::UserPassPlaintext => git2::CredentialType::USER_PASS_PLAINTEXT,
        CredentialKind::SshKey => git2::CredentialType::SSH_KEY,
        CredentialKind::Username => git2::CredentialType::USERNAME,
    })
}

impl Allowed {
    /// Reads the types that the chain can answer out of what a host accepts.
    pub fn from_types(types: git2::CredentialType) -> (allowed: Allowed)
        ensures
            allowed == allowed_in(type_bits(types)),
            allowed.user_pass_plaintext <==> type_bits(types) & 1 == 1,
            allowed.ssh_key <==> type_bits(types) & 2 == 2,
            allowed.username <==> type_bits(types) & 32 == 32,
    {
        Allowed {
            user_pass_plaintext: types_contain(types, CredentialKind::UserPassPlaintext),
            username: types_contain(types, CredentialKind::Username),
            ssh_key: types_contain(types, CredentialKind::SshKey),
        }
    }
}

/// What a credential carries to the host: which of its constructors made it, and
/// with which strings.
pub uninterp spec fn cred_offer(cred: git2::Cred) -> Offer<Seq<char>>;

/// Whether a string of the offer holds a nul character, which no C string can.
pub open spec fn offer_has_nul(offer: Offer<Seq<char>>) -> bool {
    match offer {
        Offer::UserPass { username, password } => username.contains('\0') || password.contains('\0'),
        Offer::Username { username } => username.contains('\0'),
        Offer::SshAgent { username } => username.contains('\0'),
    }
}

/// `result` is the failure that git2 reports where a string holds a nul character.
pub open spec fn fails_on_nul(result: Result<git2::Cred, git2::Error>) -> bool {
    &&& result matches Err(error)
    &&& error_code(error) == GitCode::Other
    &&& error_class(error) == GitClass::Other
    &&& error_message(error)
        == "data contained a nul byte that could not be represented as a string"@
}

/// `result` is what comes of making a credential that carries `offer`.
///
/// A credential that carries it, unless a string in it holds a nul character: of
/// that none is made.
pub open spec fn makes(result: Result<git2::Cred, git2::Error>, offer: Offer<Seq<char>>) -> bool {
    if offer_has_nul(offer) {
        fails_on_nul(result)
    } else {
        result matches Ok(cred) && cred_offer(cred) == offer
    }
}

/// Calls `git2::Cred::userpass_plaintext`. Trusted: it makes a credential that
/// carries this name and this password; only of a name or a password with a nul
/// character it makes none, and the error says so.
#[verifier::external_body]
fn cred_userpass_plaintext(username: &str, password: &str) -> (result: Result<
    git2::Cred,
    git2::Error,
>)
    ensures
        result matches Ok(cred) ==> cred_offer(cred) == (Offer::UserPass {
            username: username@,
            password: password@,
        }),
        !(username@.contains('\0') || password@.contains('\0')) ==> result is Ok,
        username@.contains('\0') || password@.contains('\0') ==> fails_on_nul(result),
{
    git2::Cred::userpass_plaintext(username, password)
}

/// Calls `git2::Cred::username`. Trusted: it makes a credential that carries this
/// name alone; only of a name with a nul character it makes none, and the error
/// says so.
#[verifier::external_body]
fn cred_username(username: &str) -> (result: Result<git2::Cred, git2::Error>)
    ensures
        result matches Ok(cred) ==> cred_offer(cred) == (Offer::Username { username: username@ }),
        !username@.contains('\0') ==> result is Ok,
        username@.contains('\0') ==> fails_on_nul(result),
{
    git2::Cred::username(username)
}

/// Calls `git2::Cred::ssh_key_from_agent`. Trusted: it makes a credential that
/// carries this name and leaves the keys to the SSH agent, which the transport
/// asks later; only of a name with a nul character it makes none, and the error
/// says so.
#[verifier::external_body]
fn cred_ssh_key_from_agent(username: &str) -> (result: Result<git2::Cred, git2::Error>)
    ensures
        result matches Ok(cred) ==> cred_offer(cred) == (Offer::SshAgent { username: username@ }),
        !username@.contains('\0') ==> result is Ok,
        username@.contains('\0') ==> fails_on_nul(result),
{
    git2::Cred::ssh_key_from_agent(username)
}

/// Makes the credential that carries `offer`.
fn make_credential(offer: Offer<&str>) -> (result: Result<git2::Cred, git2::Error>)
    ensures
        makes(result, offer_chars(offer)),
{
    match offer {
        Offer::UserPass { username, password } => cred_userpass_plaintext(username, password),
        Offer::Username { username } => cred_username(username),
        Offer::SshAgent { username } => cred_ssh_key_from_agent(username),
    }
}

/// There is no nul character in the text, if there is a text.
pub open spec fn free_of_nul(text: Option<Seq<char>>) -> bool {
    text matches Some(text) ==> !text.contains('\0')
}

/// The names that the chain adds hold no nul character.
pub proof fn fixed_names_are_free_of_nul()
    ensures
        !"x-access-token"@.contains('\0'),
        !"git"@.contains('\0'),
{
    reveal_strlit("x-access-token");
    reveal_strlit("git");
}

/// What the chain offers of strings without a nul character holds none: the names
/// that it adds hold none either.
pub proof fn offers_are_free_of_nul(
    token: Option<Seq<char>>,
    username_from_url: Option<Seq<char>>,
    allowed: Allowed,
    tried: Tried,
)
    requires
        free_of_nul(token),
        free_of_nul(username_from_url),
    ensures
        decide(token, username_from_url, allowed, tried) matches Answer::Give(offer)
            ==> !offer_has_nul(offer),
{
    fixed_names_are_free_of_nul();
}

/// `result` is what the callback returns for `answer`: the error that reports a
/// refusal, or what came of making the credential that is given.
pub open spec fn resolves(
    result: Result<git2::Cred, git2::Error>,
    answer: Answer<Seq<char>>,
) -> bool {
    match answer {
        Answer::Refuse(refusal) => result matches Err(error) && reports(error, refusal),
        Answer::Give(offer) => makes(result, offer),
    }
}

/// Picks a credential for one invocation of the credential callback.
///
/// What is offered is noted as tried even if no credential could be made of it.
pub fn resolve_credential(
    token: Option<&str>,
    username_from_url: Option<&str>,
    allowed: git2::CredentialType,
    ssh_agent_tried: &mut bool,
    userpass_tried: &mut bool,
) -> (result: Result<git2::Cred, git2::Error>)
    ensures
        ({
            let tried = Tried {
                ssh_agent: *old(ssh_agent_tried),
                userpass: *old(userpass_tried),
            };
            let answer = decide(
                str_chars(token),
                str_chars(username_from_url),
                allowed_in(type_bits(allowed)),
                tried,
            );
            &&& resolves(result, answer)
            // Of strings without a nul character, a credential is made of every offer.
            &&& free_of_nul(str_chars(token)) && free_of_nul(str_chars(username_from_url)) ==> (
            result is Ok <==> answer is Give)
            &&& (Tried { ssh_agent: *final(ssh_agent_tried), userpass: *final(userpass_tried) })
                == tried_after(tried, answer)
        }),
        // The same by the bits of what the host accepts: 1 for a password, 2 for a key,
        // 32 for the name alone.
        ({
            let password = type_bits(allowed) & 1 == 1;
            let key = type_bits(allowed) & 2 == 2;
            let probe = type_bits(allowed) & 32 == 32;
            match token {
                Some(token) => {
                    &&& !password ==> (result matches Err(error) && error_code(error) == GitCode::Auth
                        && reports(error, Refusal::TokenNeedsHttps))
                    &&& password && *old(userpass_tried) ==> (result matches Err(error)
                        && error_code(error) == GitCode::Auth && reports(error, Refusal::TokenRejected))
                    &&& password && !*old(userpass_tried) && !token@.contains('\0') ==> (
                    result matches Ok(cred) && cred_offer(cred) == (Offer::UserPass {
                        username: "x-access-token"@,
                        password: token@,
                    }))
                },
                None => {
                    &&& probe && username_from_url is None ==> (result matches Ok(cred) && cred_offer(cred) == (
                    Offer::Username { username: "git"@ }))
                    &&& probe && username_from_url is Some && !username_from_url->0@.contains('\0') ==> (
                    result matches Ok(cred) && cred_offer(cred) == (Offer::Username {
                        username: username_from_url->0@,
                    }))
                    &&& key && !probe && !*old(ssh_agent_tried) && username_from_url is None ==> (
                    result matches Ok(cred) && cred_offer(cred) == (Offer::SshAgent {
                        username: "git"@,
                    }))
                    &&& key && !probe && !*old(ssh_agent_tried) && username_from_url is Some
                        && !username_from_url->0@.contains('\0') ==> (result matches Ok(cred)
                        && cred_offer(cred) == (Offer::SshAgent { username: username_from_url->0@ }))
                    &&& key && !probe && *old(ssh_agent_tried) ==> (result matches Err(error)
                        && error_code(error) == GitCode::Auth && reports(error, Refusal::AgentRejected))
                    &&& password && !key && !probe ==> (result matches Err(error)
                        && error_code(error) == GitCode::Auth && reports(
                        error,
                        Refusal::HttpsWithoutToken,
                    ))
                    &&& !password && !key && !probe ==> (result matches Err(error)
                        && error_code(error) == GitCode::Auth && reports(error, Refusal::Unsupported))
                },
            }
        }),
        *final(userpass_tried) == (*old(userpass_tried) || (token is Some && type_bits(allowed) & 1
            == 1)),
        *final(ssh_agent_tried) == (*old(ssh_agent_tried) || (token is None && type_bits(allowed)
            & 32 != 32 && type_bits(allowed) & 2 == 2)),
{
    let allowed = Allowed::from_types(allowed);
    proof {
        fixed_names_are_free_of_nul();
        if free_of_nul(str_chars(token)) && free_of_nul(str_chars(username_from_url)) {
            offers_are_free_of_nul(
                str_chars(token),
                str_chars(username_from_url),
                allowed,
                Tried { ssh_agent: *ssh_agent_tried, userpass: *userpass_tried },
            );
        }
    }
    match next_answer(token, username_from_url, allowed, ssh_agent_tried, userpass_tried) {
        Answer::Give(offer) => make_credential(offer),
        Answer::Refuse(refusal) => Err(refusal.to_error()),
    }
}

/// A credential chain between two asks, as mathematical values.
pub struct ChainState {
    pub token: Option<Seq<char>>,
    pub tried: Tried,
}

/// One ask of the host: the name in the remote's URL, and what the host accepts.
pub struct Ask {
    pub username_from_url: Option<Seq<char>>,
    pub allowed: Allowed,
}

impl ChainState {
    /// The chain as it stands before the first ask.
    pub open spec fn fresh(token: Option<Seq<char>>) -> ChainState {
        ChainState { token, tried: Tried { ssh_agent: false, userpass: false } }
    }

    /// What the chain answers to `ask`.
    pub open spec fn answer(self, ask: Ask) -> Answer<Seq<char>> {
        decide(self.token, ask.username_from_url, ask.allowed, self.tried)
    }

    /// The chain once it has answered `ask`.
    pub open spec fn after(self, ask: Ask) -> ChainState {
        ChainState { token: self.token, tried: tried_after(self.tried, self.answer(ask)) }
    }
}

/// The credential chain of one network operation: its token, if it has one, and
/// what it has offered so far.
pub struct CredentialChain {
    token: Option<String>,
    tried: Tried,
}

impl View for CredentialChain {
    type V = ChainState;

    closed spec fn view(&self) -> ChainState {
        ChainState { token: string_chars(self.token), tried: self.tried }
    }
}

impl CredentialChain {
    /// A chain that has offered nothing yet.
    pub fn new(token: Option<String>) -> (chain: CredentialChain)
        ensures
            chain@ == ChainState::fresh(string_chars(token)),
            token matches Some(token) ==> chain@.token == Some(token@),
            token is None ==> chain@.token is None,
            !chain@.tried.ssh_agent,
            !chain@.tried.userpass,
    {
        CredentialChain { token, tried: Tried { ssh_agent: false, userpass: false } }
    }

    /// Answers one ask of the host, as [`resolve_credential`] does.
    pub fn answer(
        &mut self,
        username_from_url: Option<&str>,
        allowed: git2::CredentialType,
    ) -> (result: Result<git2::Cred, git2::Error>)
        ensures
            ({
                let ask = Ask {
                    username_from_url: str_chars(username_from_url),
                    allowed: allowed_in(type_bits(allowed)),
                };
                &&& resolves(result, old(self)@.answer(ask))
                &&& free_of_nul(old(self)@.token) && free_of_nul(ask.username_from_url) ==> (
                result is Ok <==> old(self)@.answer(ask) is Give)
                &&& final(self)@ == old(self)@.after(ask)
            }),
            // The same by the bits of what the host accepts: 1 for a password, 2 for a key,
            // 32 for the name alone.
            ({
                let password = type_bits(allowed) & 1 == 1;
                let key = type_bits(allowed) & 2 == 2;
                let probe = type_bits(allowed) & 32 == 32;
                match old(self)@.token {
                    Some(token) => {
                        &&& !password ==> (result matches Err(error) && error_code(error) == GitCode::Auth
                            && reports(error, Refusal::TokenNeedsHttps))
                        &&& password && old(self)@.tried.userpass ==> (result matches Err(error)
                            && error_code(error) == GitCode::Auth && reports(error, Refusal::TokenRejected))
                        &&& password && !old(self)@.tried.userpass && !token.contains('\0') ==> (
                        result matches Ok(cred) && cred_offer(cred) == (Offer::UserPass {
                            username: "x-access-token"@,
                            password: token,
                        }))
                    },
                    None => {
                        &&& probe && username_from_url is None ==> (result matches Ok(cred) && cred_offer(cred) == (
                        Offer::Username { username: "git"@ }))
                        &&& probe && username_from_url is Some && !username_from_url->0@.contains('\0') ==> (
                        result matches Ok(cred) && cred_offer(cred) == (Offer::Username {
                            username: username_from_url->0@,
                        }))
                        &&& key && !probe && !old(self)@.tried.ssh_agent && username_from_url is None ==> (
                        result matches Ok(cred) && cred_offer(cred) == (Offer::SshAgent {
                            username: "git"@,
                        }))
                        &&& key && !probe && !old(self)@.tried.ssh_agent && username_from_url is Some
                            && !username_from_url->0@.contains('\0') ==> (result matches Ok(cred)
                            && cred_offer(cred) == (Offer::SshAgent { username: username_from_url->0@ }))
                        &&& key && !probe && old(self)@.tried.ssh_agent ==> (result matches Err(error)
                            && error_code(error) == GitCode::Auth && reports(error, Refusal::AgentRejected))
                        &&& password && !key && !probe ==> (result matches Err(error)
                            && error_code(error) == GitCode::Auth && reports(
                            error,
                            Refusal::HttpsWithoutToken,
                        ))
                        &&& !password && !key && !probe ==> (result matches Err(error)
                            && error_code(error) == GitCode::Auth && reports(error, Refusal::Unsupported))
                    },
                }
            }),
            final(self)@.token == old(self)@.token,
            final(self)@.tried.userpass == (old(self)@.tried.userpass || (old(self)@.token is Some
                && type_bits(allowed) & 1 == 1)),
            final(self)@.tried.ssh_agent == (old(self)@.tried.ssh_agent || (old(self)@.token is None
                && type_bits(allowed) & 32 != 32 && type_bits(allowed) & 2 == 2)),
    {
        let token: Option<&str> = match &self.token {
            Some(token) => Some(token.as_str()),
            None => None,
        };
        resolve_credential(
            token,
            username_from_url,
            allowed,
            &mut self.tried.ssh_agent,
            &mut self.tried.userpass,
        )
    }
}

/// The state of the credential chain that the credential callback in `callbacks`
/// answers from, as of when it was set; `None` where no credential callback is
/// set.
pub uninterp spec fn credential_callback(callbacks: git2::RemoteCallbacks<'_>) -> Option<
    ChainState,
>;

/// `git2::RemoteCallbacks::new`. Trusted: the new callbacks hold no credential
/// callback.
pub assume_specification<'a>[ git2::RemoteCallbacks::<'a>::new ]() -> (callbacks:
    git2::RemoteCallbacks<'a>)
    ensures
        credential_callback(callbacks) is None,
;

/// Calls `git2::RemoteCallbacks::credentials` with a callback that answers every
/// ask from `chain`. Trusted: the callbacks hold that callback afterwards. When and
/// how often a transport invokes it is not stated.
#[verifier::external_body]
fn set_credentials<'cb>(callbacks: &mut git2::RemoteCallbacks<'cb>, chain: CredentialChain)
    ensures
        credential_callback(*final(callbacks)) == Some(chain@),
{
    let mut chain = chain;
    callbacks.credentials(move |_url, username, allowed| chain.answer(username, allowed));
}

/// Callbacks with the credential chain in place, the one configuration that
/// fetching, cloning and pushing share. Callers set their other callbacks on top.
pub fn callbacks_with_credentials<'cb>(token: Option<String>) -> (callbacks: git2::RemoteCallbacks<
    'cb,
>)
    ensures
        credential_callback(callbacks) == Some(ChainState::fresh(string_chars(token))),
        credential_callback(callbacks) matches Some(chain) && {
            &&& token matches Some(token) ==> chain.token == Some(token@)
            &&& token is None ==> chain.token is None
            &&& !chain.tried.ssh_agent
            &&& !chain.tried.userpass
        },
{
    let mut callbacks = git2::RemoteCallbacks::new();
    set_credentials(&mut callbacks, CredentialChain::new(token));
    callbacks
}

} // verus!
