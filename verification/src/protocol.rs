//! The suspend/resume correlation protocol, as the host's correlation
//! registry runs it.
//!
//! The registry itself lives in the host: the contract only creates
//! suspension points, publishes their tokens, and passes answers through.
//! This module states the registry's rules — one pending entry per created
//! token, at most one delivery, timeout as the only other exit — and proves
//! the guarantees the rest of the library leans on: a terminal outcome never
//! changes, a second answer for the same token has no effect, and every
//! pending token that is answered or expires ends in exactly one of the two
//! terminal states.
use vstd::prelude::*;

verus! {

/// The life of one suspension point: pending from creation, then exactly
/// one terminal outcome.
pub enum TokenState {
    /// Created, not yet resumed.
    Pending,
    /// Resumed once with a delivered answer.
    Resolved(Seq<char>),
    /// Resumed once by the host's timeout.
    TimedOut,
}

/// A terminal state never changes again.
pub open spec fn is_terminal(s: TokenState) -> bool {
    !(s is Pending)
}

/// The host's registry: each created token and where its suspension stands.
pub type TokenRegistry = Map<Seq<u8>, TokenState>;

/// Creation of a suspension point: the host mints `t` and parks the call.
/// The host never reuses a token, so `t` is fresh.
pub open spec fn create_step(m: TokenRegistry, t: Seq<u8>) -> TokenRegistry {
    m.insert(t, TokenState::Pending)
}

/// Delivery of an answer for `t`. Only a still-pending suspension accepts
/// it; a late or repeated delivery changes nothing.
pub open spec fn resolve_step(m: TokenRegistry, t: Seq<u8>, answer: Seq<char>) -> TokenRegistry {
    if m.contains_key(t) && m[t] is Pending {
        m.insert(t, TokenState::Resolved(answer))
    } else {
        m
    }
}

/// Expiry of the host's timeout for `t`. Only a still-pending suspension
/// times out; a token already resumed is left alone.
pub open spec fn timeout_step(m: TokenRegistry, t: Seq<u8>) -> TokenRegistry {
    if m.contains_key(t) && m[t] is Pending {
        m.insert(t, TokenState::TimedOut)
    } else {
        m
    }
}

/// Anything the registry ever does.
pub enum HostStep {
    Create(Seq<u8>),
    Resolve(Seq<u8>, Seq<char>),
    Timeout(Seq<u8>),
}

pub open spec fn apply_step(m: TokenRegistry, s: HostStep) -> TokenRegistry {
    match s {
        HostStep::Create(t) => create_step(m, t),
        HostStep::Resolve(t, answer) => resolve_step(m, t, answer),
        HostStep::Timeout(t) => timeout_step(m, t),
    }
}

pub open spec fn apply_steps(m: TokenRegistry, steps: Seq<HostStep>) -> TokenRegistry
    decreases steps.len(),
{
    if steps.len() == 0 {
        m
    } else {
        apply_step(apply_steps(m, steps.drop_last()), steps.last())
    }
}

/// Whether any step in `steps` creates the token `t`. The host mints each
/// token once, so steps after the creation of `t` never create it again.
pub open spec fn creates_token(steps: Seq<HostStep>, t: Seq<u8>) -> bool {
    exists|k: int| 0 <= k < steps.len() && steps[k] == HostStep::Create(t)
}

/// Law: a terminal outcome is final. Once a token's suspension is resolved
/// or timed out, no later delivery, timeout or creation of other tokens
/// moves it — the first terminal value is the only one ever produced.
pub proof fn lemma_terminal_is_stable(m: TokenRegistry, t: Seq<u8>, steps: Seq<HostStep>)
    requires
        m.contains_key(t),
        is_terminal(m[t]),
        !creates_token(steps, t),
    ensures
        apply_steps(m, steps).contains_key(t),
        apply_steps(m, steps)[t] == m[t],
    decreases steps.len(),
{
    if steps.len() > 0 {
        let prefix = steps.drop_last();
        assert forall|k: int| 0 <= k < prefix.len() implies prefix[k] != HostStep::Create(t) by {
            assert(steps[k] == prefix[k]);
        }
        lemma_terminal_is_stable(m, t, prefix);
        assert(steps[steps.len() - 1] == steps.last());
    }
}

/// Law: answering a pending token fixes its terminal value to exactly the
/// delivered answer, and it stays so under every later step.
pub proof fn lemma_resolution_is_final(
    m: TokenRegistry,
    t: Seq<u8>,
    answer: Seq<char>,
    steps: Seq<HostStep>,
)
    requires
        m.contains_key(t),
        m[t] is Pending,
        !creates_token(steps, t),
    ensures
        apply_steps(resolve_step(m, t, answer), steps)[t] == TokenState::Resolved(answer),
{
    lemma_terminal_is_stable(resolve_step(m, t, answer), t, steps);
}

/// Law: a timed-out pending token ends as `TimedOut`, and stays so under
/// every later step.
pub proof fn lemma_timeout_is_final(m: TokenRegistry, t: Seq<u8>, steps: Seq<HostStep>)
    requires
        m.contains_key(t),
        m[t] is Pending,
        !creates_token(steps, t),
    ensures
        apply_steps(timeout_step(m, t), steps)[t] == TokenState::TimedOut,
{
    lemma_terminal_is_stable(timeout_step(m, t), t, steps);
}

/// Law: a second answer for the same token has no effect. The registry
/// after the repeated delivery is the one the first delivery left.
pub proof fn lemma_second_answer_has_no_effect(
    m: TokenRegistry,
    t: Seq<u8>,
    first: Seq<char>,
    second: Seq<char>,
)
    requires
        m.contains_key(t),
        m[t] is Pending,
    ensures
        resolve_step(resolve_step(m, t, first), t, second) == resolve_step(m, t, first),
{
}

/// Law: the two terminal outcomes exclude each other. After an answer, the
/// timeout changes nothing; after a timeout, an answer changes nothing.
pub proof fn lemma_answer_and_timeout_exclude(m: TokenRegistry, t: Seq<u8>, answer: Seq<char>)
    requires
        m.contains_key(t),
        m[t] is Pending,
    ensures
        timeout_step(resolve_step(m, t, answer), t) == resolve_step(m, t, answer),
        resolve_step(timeout_step(m, t), t, answer) == timeout_step(m, t),
{
}

} // verus!
