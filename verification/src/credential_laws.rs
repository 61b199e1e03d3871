//! What holds of the credential chain over a whole conversation with a host,
//! whatever the host asks for and however often it asks.

use vstd::prelude::*;

#[allow(unused_imports)]
use crate::credential::{
    allowed_in, answer_chars, cred_offer, decide, fails_on_nul, fixed_names_are_free_of_nul,
    free_of_nul, makes, offer_chars, offers_are_free_of_nul, reports, resolves, ssh_username,
    str_chars, string_chars, tried_after, Allowed, Answer, Ask, ChainState, Offer, Refusal, Tried,
};
#[allow(unused_imports)]
use crate::error::{error_class, error_code, error_message, fault_of, Fault, GitClass, GitCode};

verus! {

/// The chain once it has answered the first `n` of `asks`.
pub open spec fn chain_before(chain: ChainState, asks: Seq<Ask>, n: nat) -> ChainState
    decreases n,
{
    if n == 0 {
        chain
    } else {
        chain_before(chain, asks, (n - 1) as nat).after(asks[n - 1])
    }
}

/// What the chain answers to the ask at position `i` of a conversation that it
/// enters as `chain`.
pub open spec fn answer_at(chain: ChainState, asks: Seq<Ask>, i: nat) -> Answer<Seq<char>> {
    chain_before(chain, asks, i).answer(asks[i as int])
}

/// The answer hands out the token.
pub open spec fn gives_token(answer: Answer<Seq<char>>) -> bool {
    answer matches Answer::Give(Offer::UserPass { .. })
}

/// The answer offers the SSH agent.
pub open spec fn gives_agent(answer: Answer<Seq<char>>) -> bool {
    answer matches Answer::Give(Offer::SshAgent { .. })
}

/// In the course of a conversation the token stays, and what has been tried stays
/// tried.
pub proof fn chain_only_moves_forward(chain: ChainState, asks: Seq<Ask>, i: nat, j: nat)
    requires
        i <= j <= asks.len(),
    ensures
        chain_before(chain, asks, i).token == chain.token,
        chain_before(chain, asks, j).token == chain.token,
        chain_before(chain, asks, i).tried.ssh_agent ==> chain_before(
            chain,
            asks,
            j,
        ).tried.ssh_agent,
        chain_before(chain, asks, i).tried.userpass ==> chain_before(
            chain,
            asks,
            j,
        ).tried.userpass,
    decreases i + j,
{
    if i < j {
        chain_only_moves_forward(chain, asks, i, (j - 1) as nat);
    } else if j > 0 {
        chain_only_moves_forward(chain, asks, (i - 1) as nat, (j - 1) as nat);
    }
}

/// A chain with a token answers nothing but that token as a password to a host
/// that takes one: no other kind of credential ever carries it, and the SSH agent
/// is never consulted.
pub proof fn token_never_leaves_https(token: Seq<char>, asks: Seq<Ask>, i: nat)
    requires
        i < asks.len(),
    ensures
        match answer_at(ChainState::fresh(Some(token)), asks, i) {
            Answer::Give(offer) => {
                &&& asks[i as int].allowed.user_pass_plaintext
                &&& offer == (Offer::UserPass { username: "x-access-token"@, password: token })
            },
            Answer::Refuse(_) => true,
        },
        !chain_before(ChainState::fresh(Some(token)), asks, i).tried.ssh_agent,
    decreases i,
{
    let chain = ChainState::fresh(Some(token));
    chain_only_moves_forward(chain, asks, 0, i);
    if i > 0 {
        token_never_leaves_https(token, asks, (i - 1) as nat);
    }
}

/// A chain without a token never hands out a password.
pub proof fn no_token_no_password(asks: Seq<Ask>, i: nat)
    requires
        i < asks.len(),
    ensures
        !gives_token(answer_at(ChainState::fresh(None), asks, i)),
        !chain_before(ChainState::fresh(None), asks, i).tried.userpass,
    decreases i,
{
    let chain = ChainState::fresh(None);
    chain_only_moves_forward(chain, asks, 0, i);
    if i > 0 {
        no_token_no_password(asks, (i - 1) as nat);
    }
}

/// Once the token has been handed out, every later ask is refused: as a rejected
/// token if the host takes a password, else as one that needs HTTPS.
pub proof fn token_then_only_refusals(chain: ChainState, asks: Seq<Ask>, i: nat, j: nat)
    requires
        i < j < asks.len(),
        gives_token(answer_at(chain, asks, i)),
    ensures
        answer_at(chain, asks, j) == Answer::<Seq<char>>::Refuse(
            if asks[j as int].allowed.user_pass_plaintext {
                Refusal::TokenRejected
            } else {
                Refusal::TokenNeedsHttps
            },
        ),
{
    chain_only_moves_forward(chain, asks, i, i + 1);
    chain_only_moves_forward(chain, asks, i + 1, j);
}

/// The token is handed out at most once in a conversation.
pub proof fn token_offered_at_most_once(chain: ChainState, asks: Seq<Ask>, i: nat, j: nat)
    requires
        i < asks.len(),
        j < asks.len(),
        gives_token(answer_at(chain, asks, i)),
        gives_token(answer_at(chain, asks, j)),
    ensures
        i == j,
{
    if i < j {
        token_then_only_refusals(chain, asks, i, j);
    } else if j < i {
        token_then_only_refusals(chain, asks, j, i);
    }
}

/// Once the SSH agent has been offered, a later ask for a key is refused. (An ask
/// that accepts a bare name is still answered with the name.)
pub proof fn agent_then_refusal(chain: ChainState, asks: Seq<Ask>, i: nat, j: nat)
    requires
        i < j < asks.len(),
        gives_agent(answer_at(chain, asks, i)),
        asks[j as int].allowed.ssh_key,
        !asks[j as int].allowed.username,
    ensures
        answer_at(chain, asks, j) == Answer::<Seq<char>>::Refuse(Refusal::AgentRejected),
{
    chain_only_moves_forward(chain, asks, i, i + 1);
    chain_only_moves_forward(chain, asks, i + 1, j);
}

/// The SSH agent is offered at most once in a conversation.
pub proof fn agent_offered_at_most_once(chain: ChainState, asks: Seq<Ask>, i: nat, j: nat)
    requires
        i < asks.len(),
        j < asks.len(),
        gives_agent(answer_at(chain, asks, i)),
        gives_agent(answer_at(chain, asks, j)),
    ensures
        i == j,
{
    if i < j {
        agent_then_refusal(chain, asks, i, j);
    } else if j < i {
        agent_then_refusal(chain, asks, j, i);
    }
}

/// A host that keeps asking for the same thing is refused from its second ask on,
/// so that no conversation with it goes on for ever. (A probe for the name alone,
/// made of a chain without a token, is left out: it is answered every time.)
pub proof fn repeated_ask_is_refused(chain: ChainState, asks: Seq<Ask>, i: nat)
    requires
        0 < i < asks.len(),
        forall|k: int| 0 <= k < asks.len() ==> #[trigger] asks[k] == asks[0],
        chain.token is Some || !asks[0].allowed.username,
    ensures
        answer_at(chain, asks, i) is Refuse,
{
    assert(asks[i as int] == asks[0]);
    chain_only_moves_forward(chain, asks, 0, i);
    chain_only_moves_forward(chain, asks, 1, i);
    assert(chain_before(chain, asks, 1) == chain_before(chain, asks, 0).after(asks[0]));
}

/// The first ask of a host that takes a password gets the token, whatever the host
/// asked for before.
pub proof fn first_ask_gets_the_token(token: Seq<char>, asks: Seq<Ask>, i: nat)
    requires
        i < asks.len(),
        asks[i as int].allowed.user_pass_plaintext,
        forall|k: int| 0 <= k < i ==> !(#[trigger] asks[k]).allowed.user_pass_plaintext,
    ensures
        answer_at(ChainState::fresh(Some(token)), asks, i) == Answer::Give(
            Offer::UserPass { username: "x-access-token"@, password: token },
        ),
{
    chain_only_moves_forward(ChainState::fresh(Some(token)), asks, 0, i);
    token_untried_before_password_ask(token, asks, i);
}

/// As long as no ask took a password, the token has not been offered.
proof fn token_untried_before_password_ask(token: Seq<char>, asks: Seq<Ask>, n: nat)
    requires
        n <= asks.len(),
        forall|k: int| 0 <= k < n ==> !(#[trigger] asks[k]).allowed.user_pass_plaintext,
    ensures
        !chain_before(ChainState::fresh(Some(token)), asks, n).tried.userpass,
    decreases n,
{
    if n > 0 {
        let chain = ChainState::fresh(Some(token));
        chain_only_moves_forward(chain, asks, 0, (n - 1) as nat);
        token_untried_before_password_ask(token, asks, (n - 1) as nat);
        assert(!asks[n - 1].allowed.user_pass_plaintext);
    }
}

/// Without a token, a probe for the name is answered with the name every time,
/// whatever the host asked for before and whatever else it accepts.
pub proof fn name_probe_is_always_answered(asks: Seq<Ask>, i: nat)
    requires
        i < asks.len(),
        asks[i as int].allowed.username,
    ensures
        answer_at(ChainState::fresh(None), asks, i) == Answer::Give(
            Offer::Username { username: ssh_username(asks[i as int].username_from_url) },
        ),
{
    chain_only_moves_forward(ChainState::fresh(None), asks, 0, i);
}

/// The ask is for a key: the host takes one, and does not probe for the name.
pub open spec fn asks_for_key(ask: Ask) -> bool {
    ask.allowed.ssh_key && !ask.allowed.username
}

/// Without a token, the first ask for a key gets the SSH agent, whatever the host
/// asked for before.
pub proof fn first_key_ask_gets_the_agent(asks: Seq<Ask>, i: nat)
    requires
        i < asks.len(),
        asks_for_key(asks[i as int]),
        forall|k: int| 0 <= k < i ==> !asks_for_key(#[trigger] asks[k]),
    ensures
        answer_at(ChainState::fresh(None), asks, i) == Answer::Give(
            Offer::SshAgent { username: ssh_username(asks[i as int].username_from_url) },
        ),
{
    chain_only_moves_forward(ChainState::fresh(None), asks, 0, i);
    agent_untried_before_key_ask(asks, i);
}

/// As long as no ask was for a key, the SSH agent has not been offered.
proof fn agent_untried_before_key_ask(asks: Seq<Ask>, n: nat)
    requires
        n <= asks.len(),
        forall|k: int| 0 <= k < n ==> !asks_for_key(#[trigger] asks[k]),
    ensures
        !chain_before(ChainState::fresh(None), asks, n).tried.ssh_agent,
    decreases n,
{
    if n > 0 {
        chain_only_moves_forward(ChainState::fresh(None), asks, 0, (n - 1) as nat);
        agent_untried_before_key_ask(asks, (n - 1) as nat);
        assert(!asks_for_key(asks[n - 1]));
    }
}

/// `results` is what the callback returned in the course of a conversation that
/// the chain entered as `chain`.
pub open spec fn is_conversation(
    chain: ChainState,
    asks: Seq<Ask>,
    results: Seq<Result<git2::Cred, git2::Error>>,
) -> bool {
    &&& results.len() == asks.len()
    &&& forall|i: nat|
        i < asks.len() ==> resolves(results[i as int], #[trigger] answer_at(chain, asks, i))
}

/// `result` is a credential that carries `offer`.
pub open spec fn hands_out(
    result: Result<git2::Cred, git2::Error>,
    offer: Offer<Seq<char>>,
) -> bool {
    result matches Ok(cred) && cred_offer(cred) == offer
}

/// `result` is the error that reports `refusal`.
pub open spec fn refuses(result: Result<git2::Cred, git2::Error>, refusal: Refusal) -> bool {
    result matches Err(error) && reports(error, refusal)
}

/// In a conversation with a token, the first ask that takes a password is handed
/// the token, and every other ask, before it or after it, is refused.
pub proof fn token_conversation(
    token: Seq<char>,
    asks: Seq<Ask>,
    results: Seq<Result<git2::Cred, git2::Error>>,
    i: nat,
)
    requires
        i < asks.len(),
        is_conversation(ChainState::fresh(Some(token)), asks, results),
        !token.contains('\0'),
    ensures
        !asks[i as int].allowed.user_pass_plaintext ==> refuses(
            results[i as int],
            Refusal::TokenNeedsHttps,
        ),
        asks[i as int].allowed.user_pass_plaintext && (forall|k: int|
            0 <= k < i ==> !(#[trigger] asks[k]).allowed.user_pass_plaintext) ==> hands_out(
            results[i as int],
            Offer::UserPass { username: "x-access-token"@, password: token },
        ),
        asks[i as int].allowed.user_pass_plaintext && (exists|k: int|
            0 <= k < i && (#[trigger] asks[k]).allowed.user_pass_plaintext) ==> refuses(
            results[i as int],
            Refusal::TokenRejected,
        ),
{
    let chain = ChainState::fresh(Some(token));
    let ask = asks[i as int];
    let before = chain_before(chain, asks, i);
    chain_only_moves_forward(chain, asks, 0, i);
    assert(resolves(results[i as int], answer_at(chain, asks, i)));
    if ask.allowed.user_pass_plaintext {
        if forall|k: int| 0 <= k < i ==> !(#[trigger] asks[k]).allowed.user_pass_plaintext {
            first_ask_gets_the_token(token, asks, i);
            offers_are_free_of_nul(Some(token), None, ask.allowed, before.tried);
        } else {
            let k = choose|k: int|
                0 <= k < i && (#[trigger] asks[k]).allowed.user_pass_plaintext;
            password_ask_leaves_token_tried(token, asks, k as nat);
            chain_only_moves_forward(chain, asks, (k + 1) as nat, i);
        }
    }
}

/// Once an ask took a password, the token has been offered.
proof fn password_ask_leaves_token_tried(token: Seq<char>, asks: Seq<Ask>, k: nat)
    requires
        k < asks.len(),
        asks[k as int].allowed.user_pass_plaintext,
    ensures
        chain_before(ChainState::fresh(Some(token)), asks, k + 1).tried.userpass,
{
    chain_only_moves_forward(ChainState::fresh(Some(token)), asks, 0, k);
}

/// In a conversation without a token, every probe for the name is handed the name,
/// the first ask for a key is handed the SSH agent, and every other ask is
/// refused.
pub proof fn tokenless_conversation(
    asks: Seq<Ask>,
    results: Seq<Result<git2::Cred, git2::Error>>,
    i: nat,
)
    requires
        i < asks.len(),
        is_conversation(ChainState::fresh(None), asks, results),
        free_of_nul(asks[i as int].username_from_url),
    ensures
        ({
            let ask = asks[i as int];
            let result = results[i as int];
            let name = ssh_username(ask.username_from_url);
            let key_asked_before = exists|k: int| 0 <= k < i && asks_for_key(#[trigger] asks[k]);
            if ask.allowed.username {
                hands_out(result, Offer::Username { username: name })
            } else if ask.allowed.ssh_key && !key_asked_before {
                hands_out(result, Offer::SshAgent { username: name })
            } else if ask.allowed.ssh_key {
                refuses(result, Refusal::AgentRejected)
            } else if ask.allowed.user_pass_plaintext {
                refuses(result, Refusal::HttpsWithoutToken)
            } else {
                refuses(result, Refusal::Unsupported)
            }
        }),
{
    let chain = ChainState::fresh(None);
    let ask = asks[i as int];
    let before = chain_before(chain, asks, i);
    chain_only_moves_forward(chain, asks, 0, i);
    offers_are_free_of_nul(None, ask.username_from_url, ask.allowed, before.tried);
    assert(resolves(results[i as int], answer_at(chain, asks, i)));
    if asks_for_key(ask) {
        if exists|k: int| 0 <= k < i && asks_for_key(#[trigger] asks[k]) {
            let k = choose|k: int| 0 <= k < i && asks_for_key(#[trigger] asks[k]);
            chain_only_moves_forward(chain, asks, 0, k as nat);
            assert(chain_before(chain, asks, (k + 1) as nat).tried.ssh_agent);
            chain_only_moves_forward(chain, asks, (k + 1) as nat, i);
        } else {
            first_key_ask_gets_the_agent(asks, i);
        }
    }
}

/// Without a token a host that takes nothing but a name and a password is refused
/// at once, whatever it asked for before, and so is one that takes nothing that
/// the chain can answer.
pub proof fn generic_https_fails_fast(asks: Seq<Ask>, i: nat)
    requires
        i < asks.len(),
        !asks[i as int].allowed.username,
        !asks[i as int].allowed.ssh_key,
    ensures
        answer_at(ChainState::fresh(None), asks, i) == Answer::<Seq<char>>::Refuse(
            if asks[i as int].allowed.user_pass_plaintext {
                Refusal::HttpsWithoutToken
            } else {
                Refusal::Unsupported
            },
        ),
{
    chain_only_moves_forward(ChainState::fresh(None), asks, 0, i);
}

/// SSH without a name in the URL takes two rounds: a probe for the name, which
/// leaves the agent untried, then an ask for a key, which the agent gets.
pub proof fn name_probe_then_agent(asks: Seq<Ask>)
    requires
        asks.len() > 1,
        asks[0].allowed.username,
        asks[1].allowed.ssh_key,
        !asks[1].allowed.username,
    ensures
        answer_at(ChainState::fresh(None), asks, 0) matches Answer::Give(Offer::Username { .. }),
        !chain_before(ChainState::fresh(None), asks, 1).tried.ssh_agent,
        gives_agent(answer_at(ChainState::fresh(None), asks, 1)),
{
    assert(chain_before(ChainState::fresh(None), asks, 1) == chain_before(
        ChainState::fresh(None),
        asks,
        0,
    ).after(asks[0]));
}

/// Callers see every refusal as an authentication error with the refusal's
/// message, and see nothing else that the chain returns as one.
pub proof fn refusals_are_auth_errors(
    result: Result<git2::Cred, git2::Error>,
    answer: Answer<Seq<char>>,
)
    requires
        resolves(result, answer),
    ensures
        answer matches Answer::Refuse(refusal) ==> result matches Err(error) && fault_of(
            error_code(error),
            error_message(error),
        ) == Fault::Auth(refusal.spec_message()),
        answer is Give ==> (result matches Err(error) ==> fault_of(
            error_code(error),
            error_message(error),
        ) is Git),
{
}

/// Each type that the chain can answer is read off the bit of its own kind,
/// whatever other bits are set.
pub proof fn each_type_has_its_own_bit(bits: u32)
    ensures
        allowed_in(bits).user_pass_plaintext <==> bits & 1 == 1,
        allowed_in(bits).ssh_key <==> bits & 2 == 2,
        allowed_in(bits).username <==> bits & 32 == 32,
{
}

/// What a host accepts besides does not change what is read: to accept one more
/// type changes the field of that type and no other, and types without a field
/// change nothing.
pub proof fn other_types_do_not_matter(bits: u32, more: u32)
    ensures
        more & 1 == 0 ==> allowed_in(bits | more).user_pass_plaintext == allowed_in(
            bits,
        ).user_pass_plaintext,
        more & 2 == 0 ==> allowed_in(bits | more).ssh_key == allowed_in(bits).ssh_key,
        more & 32 == 0 ==> allowed_in(bits | more).username == allowed_in(bits).username,
        more & 1 == 1 ==> allowed_in(bits | more).user_pass_plaintext,
        more & 2 == 2 ==> allowed_in(bits | more).ssh_key,
        more & 32 == 32 ==> allowed_in(bits | more).username,
{
    assert(more & 1 == 0 ==> (bits | more) & 1 == bits & 1) by (bit_vector);
    assert(more & 2 == 0 ==> (bits | more) & 2 == bits & 2) by (bit_vector);
    assert(more & 32 == 0 ==> (bits | more) & 32 == bits & 32) by (bit_vector);
    assert(more & 1 == 1 ==> (bits | more) & 1 == 1) by (bit_vector);
    assert(more & 2 == 2 ==> (bits | more) & 2 == 2) by (bit_vector);
    assert(more & 32 == 32 ==> (bits | more) & 32 == 32) by (bit_vector);
}

/// Without a token, whatever is offered for a URL that carries a name is offered
/// under exactly that name, and under `git` for a URL that carries none.
pub proof fn name_in_the_url_is_kept(
    username_from_url: Option<Seq<char>>,
    allowed: Allowed,
    tried: Tried,
)
    ensures
        match decide(None, username_from_url, allowed, tried) {
            Answer::Give(Offer::Username { username }) => {
                &&& username_from_url matches Some(name) ==> username == name
                &&& username_from_url is None ==> username == "git"@
            },
            Answer::Give(Offer::SshAgent { username }) => {
                &&& username_from_url matches Some(name) ==> username == name
                &&& username_from_url is None ==> username == "git"@
            },
            Answer::Give(Offer::UserPass { .. }) => false,
            Answer::Refuse(_) => true,
        },
{
}

/// Two URLs with different names are never offered for alike, and a URL without a
/// name is offered for like one with the name `git`.
pub proof fn names_tell_offers_apart(
    name: Seq<char>,
    other: Seq<char>,
    allowed: Allowed,
    tried: Tried,
)
    ensures
        name != other && decide(None, Some(name), allowed, tried) is Give ==> decide(
            None,
            Some(name),
            allowed,
            tried,
        ) != decide(None, Some(other), allowed, tried),
        decide(None, None, allowed, tried) == decide(None, Some("git"@), allowed, tried),
        decide(None, Some(name), allowed, tried) is Give <==> decide(
            None,
            Some(other),
            allowed,
            tried,
        ) is Give,
{
}

/// A token goes out whole, as the password of `x-access-token`, and what is done
/// with it depends neither on what it says nor on the name in the URL.
pub proof fn token_is_kept(
    token: Seq<char>,
    other: Seq<char>,
    username_from_url: Option<Seq<char>>,
    other_username: Option<Seq<char>>,
    allowed: Allowed,
    tried: Tried,
)
    ensures
        match decide(Some(token), username_from_url, allowed, tried) {
            Answer::Give(Offer::UserPass { username, password }) => username == "x-access-token"@
                && password == token,
            Answer::Give(_) => false,
            Answer::Refuse(_) => true,
        },
        decide(Some(token), username_from_url, allowed, tried) == decide(
            Some(token),
            other_username,
            allowed,
            tried,
        ),
        decide(Some(token), username_from_url, allowed, tried) is Give <==> decide(
            Some(other),
            other_username,
            allowed,
            tried,
        ) is Give,
{
}

/// Each kind of credential is offered exactly where it is due: the token to a host
/// that takes a password and was not given it; without a token the name wherever
/// it is probed for, and the SSH agent where a key is asked for and the agent was
/// not offered, even if a password would be taken too.
pub proof fn offers_come_where_they_are_due(
    token: Option<Seq<char>>,
    username_from_url: Option<Seq<char>>,
    allowed: Allowed,
    tried: Tried,
)
    ensures
        gives_token(decide(token, username_from_url, allowed, tried)) <==> token is Some
            && allowed.user_pass_plaintext && !tried.userpass,
        decide(token, username_from_url, allowed, tried) matches Answer::Give(
            Offer::Username { .. },
        ) <==> token is None && allowed.username,
        gives_agent(decide(token, username_from_url, allowed, tried)) <==> token is None
            && allowed.ssh_key && !allowed.username && !tried.ssh_agent,
{
}

/// Each refusal comes exactly where it is due.
pub proof fn refusals_come_where_they_are_due(
    token: Option<Seq<char>>,
    username_from_url: Option<Seq<char>>,
    allowed: Allowed,
    tried: Tried,
)
    ensures
        decide(token, username_from_url, allowed, tried) == Answer::<Seq<char>>::Refuse(
            Refusal::TokenNeedsHttps,
        ) <==> token is Some && !allowed.user_pass_plaintext,
        decide(token, username_from_url, allowed, tried) == Answer::<Seq<char>>::Refuse(
            Refusal::TokenRejected,
        ) <==> token is Some && allowed.user_pass_plaintext && tried.userpass,
        decide(token, username_from_url, allowed, tried) == Answer::<Seq<char>>::Refuse(
            Refusal::AgentRejected,
        ) <==> token is None && allowed.ssh_key && !allowed.username && tried.ssh_agent,
        decide(token, username_from_url, allowed, tried) == Answer::<Seq<char>>::Refuse(
            Refusal::HttpsWithoutToken,
        ) <==> token is None && allowed.user_pass_plaintext && !allowed.ssh_key
            && !allowed.username,
        decide(token, username_from_url, allowed, tried) == Answer::<Seq<char>>::Refuse(
            Refusal::Unsupported,
        ) <==> token is None && !allowed.user_pass_plaintext && !allowed.ssh_key
            && !allowed.username,
{
}

/// What has been tried grows by what is offered, and by nothing else.
pub proof fn tried_grows_by_what_is_offered(
    token: Option<Seq<char>>,
    username_from_url: Option<Seq<char>>,
    allowed: Allowed,
    tried: Tried,
)
    ensures
        ({
            let after = tried_after(tried, decide(token, username_from_url, allowed, tried));
            &&& after.userpass <==> tried.userpass || (token is Some
                && allowed.user_pass_plaintext)
            &&& after.ssh_agent <==> tried.ssh_agent || (token is None && allowed.ssh_key
                && !allowed.username)
        }),
{
}

/// One ask of a chain is answered and remembered as one call for the same token,
/// name and types is, and a chain starts out with its token and nothing tried.
pub proof fn chain_is_one_ask_after_another(chain: ChainState, ask: Ask)
    ensures
        chain.answer(ask) == decide(
            chain.token,
            ask.username_from_url,
            ask.allowed,
            chain.tried,
        ),
        chain.after(ask).token == chain.token,
        chain.after(ask).tried.userpass <==> chain.tried.userpass || (chain.token is Some
            && ask.allowed.user_pass_plaintext),
        chain.after(ask).tried.ssh_agent <==> chain.tried.ssh_agent || (chain.token is None
            && ask.allowed.ssh_key && !ask.allowed.username),
        ChainState::fresh(chain.token).token == chain.token,
        !ChainState::fresh(chain.token).tried.userpass,
        !ChainState::fresh(chain.token).tried.ssh_agent,
{
}

/// With a token, by the bits of what the host accepts: a host that takes a password
/// is handed the token the first time and refused after that, and any other host
/// is refused.
pub proof fn token_result_by_bits(
    token: Seq<char>,
    username_from_url: Option<Seq<char>>,
    bits: u32,
    tried: Tried,
    result: Result<git2::Cred, git2::Error>,
)
    requires
        resolves(result, decide(Some(token), username_from_url, allowed_in(bits), tried)),
        !token.contains('\0'),
    ensures
        result is Ok <==> bits & 1 == 1 && !tried.userpass,
        result matches Ok(cred) ==> cred_offer(cred) == (Offer::UserPass {
            username: "x-access-token"@,
            password: token,
        }),
        result matches Err(error) ==> error_code(error) == GitCode::Auth && error_class(error)
            == (if bits & 1 == 1 {
            GitClass::Http
        } else {
            GitClass::Callback
        }),
{
    fixed_names_are_free_of_nul();
}

/// Without a token, by the bits of what the host accepts: a probe for the name is
/// handed the name, else a first ask for a key the SSH agent under that name,
/// whatever other bits are set; anything else is refused.
pub proof fn tokenless_result_by_bits(
    username_from_url: Option<Seq<char>>,
    bits: u32,
    tried: Tried,
    result: Result<git2::Cred, git2::Error>,
)
    requires
        resolves(result, decide(None, username_from_url, allowed_in(bits), tried)),
        username_from_url matches Some(name) ==> !name.contains('\0'),
    ensures
        result is Ok <==> bits & 32 == 32 || (bits & 2 == 2 && !tried.ssh_agent),
        result matches Ok(cred) ==> match cred_offer(cred) {
            Offer::Username { username } => {
                &&& bits & 32 == 32
                &&& username_from_url matches Some(name) ==> username == name
                &&& username_from_url is None ==> username == "git"@
            },
            Offer::SshAgent { username } => {
                &&& bits & 32 != 32 && bits & 2 == 2 && !tried.ssh_agent
                &&& username_from_url matches Some(name) ==> username == name
                &&& username_from_url is None ==> username == "git"@
            },
            Offer::UserPass { .. } => false,
        },
        result matches Err(error) ==> error_code(error) == GitCode::Auth && error_class(error)
            == (if bits & 2 == 2 {
            GitClass::Ssh
        } else if bits & 1 == 1 {
            GitClass::Http
        } else {
            GitClass::Callback
        }),
{
    fixed_names_are_free_of_nul();
}

/// An error reports a refusal exactly if it is an authentication error of the
/// refusal's class that says what the refusal says.
pub proof fn reports_say_everything(error: git2::Error, refusal: Refusal)
    ensures
        reports(error, refusal) <==> error_code(error) == GitCode::Auth && error_class(error)
            == refusal.spec_class() && error_message(error) == refusal.spec_message(),
        refusal.spec_class() == GitClass::Ssh <==> refusal == Refusal::AgentRejected,
        refusal.spec_class() == GitClass::Http <==> refusal == Refusal::TokenRejected || refusal
            == Refusal::HttpsWithoutToken,
        refusal.spec_class() == GitClass::Callback <==> refusal == Refusal::TokenNeedsHttps
            || refusal == Refusal::Unsupported,
{
}

/// A credential is made of an offer exactly if no string of the offer holds a nul
/// character, and carries the offer; else the failure is no authentication error.
pub proof fn credentials_carry_their_offers(
    username: Seq<char>,
    password: Seq<char>,
    result: Result<git2::Cred, git2::Error>,
)
    ensures
        makes(result, Offer::UserPass { username, password }) ==> {
            &&& result is Ok <==> !username.contains('\0') && !password.contains('\0')
            &&& result matches Ok(cred) ==> cred_offer(cred) == (Offer::UserPass {
                username,
                password,
            })
            &&& result matches Err(error) ==> error_code(error) == GitCode::Other
        },
        makes(result, Offer::Username { username }) ==> {
            &&& result is Ok <==> !username.contains('\0')
            &&& result matches Ok(cred) ==> cred_offer(cred) == (Offer::Username { username })
            &&& result matches Err(error) ==> error_code(error) == GitCode::Other
        },
        makes(result, Offer::SshAgent { username }) ==> {
            &&& result is Ok <==> !username.contains('\0')
            &&& result matches Ok(cred) ==> cred_offer(cred) == (Offer::SshAgent { username })
            &&& result matches Err(error) ==> error_code(error) == GitCode::Other
        },
        fails_on_nul(result) ==> result is Err,
{
}

/// The mathematical values of strings, offers and answers leave nothing out.
pub proof fn views_leave_nothing_out(text: &str, other: &str, owned: String, refusal: Refusal)
    ensures
        str_chars(Some(text)) == Some(text@),
        str_chars(None) is None,
        string_chars(Some(owned)) == Some(owned@),
        string_chars(None) is None,
        free_of_nul(Some(text@)) <==> !text@.contains('\0'),
        free_of_nul(None),
        offer_chars(Offer::UserPass { username: text, password: other }) == (Offer::UserPass {
            username: text@,
            password: other@,
        }),
        offer_chars(Offer::Username { username: text }) == (Offer::Username { username: text@ }),
        offer_chars(Offer::SshAgent { username: text }) == (Offer::SshAgent { username: text@ }),
        answer_chars(Answer::Give(Offer::UserPass { username: text, password: other }))
            == Answer::Give(Offer::UserPass { username: text@, password: other@ }),
        answer_chars(Answer::Give(Offer::Username { username: text })) == Answer::Give(
            Offer::Username { username: text@ },
        ),
        answer_chars(Answer::Give(Offer::SshAgent { username: text })) == Answer::Give(
            Offer::SshAgent { username: text@ },
        ),
        answer_chars(Answer::Refuse(refusal)) == Answer::<Seq<char>>::Refuse(refusal),
{
}

} // verus!
