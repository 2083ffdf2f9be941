//! The slot that holds the registered completion provider, and the
//! trampoline that answers the engine's completion requests from it.
//!
//! The engine has one completion callback. The binding registers its
//! trampoline there and keeps the host's provider in a slot of its own:
//! unset at first, set by each registration (the last one wins), unset
//! again by a reset. The slot is a plain value; whoever shares it between
//! contexts guards it.

use vstd::prelude::*;
use vstd::utf8::*;
use crate::completions::{add_completions, all_nul_free, texts, Completions};
use crate::engine::EngineCall;
use crate::text::engine_text;

verus! {

/// A completion provider: from the text typed so far to the candidates, in
/// the order in which they are to be offered.
pub enum Provider<F, W> {
    /// Owns all that it answers from, for as long as it is registered.
    Owning(F),
    /// Answers from shared state that it does not keep alive, and reports
    /// `None` once that state is gone.
    Weak(W),
}

/// What a weak provider's answer amounts to: its candidates, or none at
/// all where its backing state is gone.
pub open spec fn weak_texts(answer: Option<Vec<String>>) -> Seq<Seq<char>> {
    match answer {
        Some(candidates) => texts(candidates@),
        None => Seq::empty(),
    }
}

/// An owning provider that the slot can hold: it takes any text, and each
/// candidate that it gives is free of NUL.
pub open spec fn owning_fit<F: Fn(&str) -> Vec<String>>(f: F) -> bool {
    &&& forall|t: &str| call_requires(f, (t,))
    &&& forall|t: &str, ret: Vec<String>| #[trigger]
        call_ensures(f, (t,), ret) ==> all_nul_free(texts(ret@))
}

/// A weak provider that the slot can hold: it takes any text, and each
/// candidate that it gives is free of NUL.
pub open spec fn weak_fit<W: Fn(&str) -> Option<Vec<String>>>(w: W) -> bool {
    &&& forall|t: &str| call_requires(w, (t,))
    &&& forall|t: &str, ret: Option<Vec<String>>| #[trigger]
        call_ensures(w, (t,), ret) ==> all_nul_free(weak_texts(ret))
}

/// `out` is what the owning provider `f` can leave in the buffer for the
/// request `cs`: the candidates of one of its answers to the text of `cs`.
pub open spec fn owning_completes<F: Fn(&str) -> Vec<String>>(
    f: F,
    cs: Seq<u8>,
    out: Seq<Seq<char>>,
) -> bool {
    exists|t: &str, ret: Vec<String>|
        t@ == decode_utf8(cs) && #[trigger] call_ensures(f, (t,), ret) && out == texts(ret@)
}

/// `out` is what the weak provider `w` can leave in the buffer for the
/// request `cs`: the candidates of one of its answers to the text of `cs`,
/// or nothing where it reports its state gone.
pub open spec fn weak_completes<W: Fn(&str) -> Option<Vec<String>>>(
    w: W,
    cs: Seq<u8>,
    out: Seq<Seq<char>>,
) -> bool {
    exists|t: &str, ret: Option<Vec<String>>|
        t@ == decode_utf8(cs) && #[trigger] call_ensures(w, (t,), ret) && out == weak_texts(ret)
}

/// `out` is what `provider` can leave in the buffer for the request `cs`.
pub open spec fn provider_completes<
    F: Fn(&str) -> Vec<String>,
    W: Fn(&str) -> Option<Vec<String>>,
>(
    provider: Provider<F, W>,
    cs: Seq<u8>,
    out: Seq<Seq<char>>,
) -> bool {
    match provider {
        Provider::Owning(f) => owning_completes(f, cs, out),
        Provider::Weak(w) => weak_completes(w, cs, out),
    }
}

/// The trampoline for an owning provider. It sets the buffer's length back
/// to zero, reads the request as text, asks the provider once, if there is
/// one, and appends each candidate in order.
pub fn internal_callback<F: Fn(&str) -> Vec<String>>(
    provider: Option<&F>,
    cs: &[u8],
    lc: &mut Completions,
)
    requires
        valid_utf8(cs@),
        provider matches Some(f) ==> owning_fit(*f),
    ensures
        provider is None ==> final(lc)@ == Seq::<Seq<char>>::empty(),
        provider matches Some(f) ==> owning_completes(*f, cs@, final(lc)@),
{
    lc.clear();
    let input = engine_text(cs);
    if let Some(f) = provider {
        let ret = f(input);
        add_completions(lc, &ret);
        assert(lc@ =~= texts(ret@));
        assert(call_ensures(*f, (input,), ret));
    }
}

/// Appends what a weak provider answered: its candidates in order, or
/// nothing at all where it reports that its backing state is gone.
pub fn add_weak_answer(lc: &mut Completions, answer: &Option<Vec<String>>)
    requires
        all_nul_free(weak_texts(*answer)),
    ensures
        final(lc)@ == old(lc)@ + weak_texts(*answer),
{
    match answer {
        Some(candidates) => add_completions(lc, candidates),
        None => {
            assert(lc@ =~= old(lc)@ + weak_texts(*answer));
        },
    }
}

/// The trampoline for a weak provider. It sets the buffer's length back to
/// zero, reads the request as text, asks the provider once, if there is
/// one, and appends each candidate in order. A provider whose state is gone
/// leaves the buffer empty.
pub fn internal_fn_callback<W: Fn(&str) -> Option<Vec<String>>>(
    provider: Option<&W>,
    cs: &[u8],
    lc: &mut Completions,
)
    requires
        valid_utf8(cs@),
        provider matches Some(w) ==> weak_fit(*w),
    ensures
        provider is None ==> final(lc)@ == Seq::<Seq<char>>::empty(),
        provider matches Some(w) ==> weak_completes(*w, cs@, final(lc)@),
{
    lc.clear();
    let input = engine_text(cs);
    if let Some(w) = provider {
        let answer = w(input);
        add_weak_answer(lc, &answer);
        assert(lc@ =~= weak_texts(answer));
        assert(call_ensures(*w, (input,), answer));
    }
}

/// The slot for the registered provider: at most one at a time.
///
/// The engine may ask for candidates from another context than the one
/// that registered the provider, so a provider is one that can be handed
/// to another thread.
pub struct Slot<
    F: Fn(&str) -> Vec<String> + Send,
    W: Fn(&str) -> Option<Vec<String>> + Send,
> {
    provider: Option<Provider<F, W>>,
}

impl<
    F: Fn(&str) -> Vec<String> + Send,
    W: Fn(&str) -> Option<Vec<String>> + Send,
> Slot<F, W> {
    #[verifier::type_invariant]
    spec fn provider_fits(self) -> bool {
        match self.provider {
            None => true,
            Some(Provider::Owning(f)) => owning_fit(f),
            Some(Provider::Weak(w)) => weak_fit(w),
        }
    }

    /// The provider that is registered, if any.
    pub closed spec fn registered(self) -> Option<Provider<F, W>> {
        self.provider
    }

    /// `out` is what a completion request `cs` can leave in the buffer:
    /// nothing while the slot is unset, else what its provider gives.
    pub open spec fn completes(self, cs: Seq<u8>, out: Seq<Seq<char>>) -> bool {
        match self.registered() {
            None => out == Seq::<Seq<char>>::empty(),
            Some(provider) => provider_completes(provider, cs, out),
        }
    }

    /// The slot after `provider` was registered in it.
    pub closed spec fn registering(self, provider: Provider<F, W>) -> Self {
        Slot { provider: Some(provider) }
    }

    /// The slot after a reset.
    pub closed spec fn cleared(self) -> Self {
        Slot { provider: None }
    }

    /// The slot as it is at start: unset.
    pub fn new() -> (r: Self)
        ensures
            r.registered() is None,
    {
        Slot { provider: None }
    }

    /// Whether a provider is registered.
    pub fn is_set(&self) -> (r: bool)
        ensures
            r == self.registered().is_some(),
    {
        self.provider.is_some()
    }

    /// The trampoline: answers the engine's completion request `cs` into
    /// `lc` from whatever is registered at this moment.
    pub fn complete(&self, cs: &[u8], lc: &mut Completions)
        requires
            valid_utf8(cs@),
        ensures
            self.completes(cs@, final(lc)@),
    {
        proof {
            use_type_invariant(self);
        }
        match &self.provider {
            None => lc.clear(),
            Some(Provider::Owning(f)) => internal_callback(Some(f), cs, lc),
            Some(Provider::Weak(w)) => internal_fn_callback(Some(w), cs, lc),
        }
    }
}

/// Registers `rust_cb` as the one active provider, in place of whatever was
/// registered, and gives the call that makes the trampoline the engine's
/// completion callback.
pub fn set_callback<
    F: Fn(&str) -> Vec<String> + Send,
    W: Fn(&str) -> Option<Vec<String>> + Send,
>(
    slot: &mut Slot<F, W>,
    rust_cb: F,
) -> (r: EngineCall)
    requires
        owning_fit(rust_cb),
    ensures
        *final(slot) == old(slot).registering(Provider::Owning(rust_cb)),
        final(slot).registered() == Some(Provider::<F, W>::Owning(rust_cb)),
        r == EngineCall::SetCompletionCallback,
{
    slot.provider = Some(Provider::Owning(rust_cb));
    EngineCall::SetCompletionCallback
}

/// Registers the weak provider `callback` as the one active provider, in
/// place of whatever was registered, and gives the call that makes the
/// trampoline the engine's completion callback.
pub fn set_callback_with_fn<
    F: Fn(&str) -> Vec<String> + Send,
    W: Fn(&str) -> Option<Vec<String>> + Send,
>(
    slot: &mut Slot<F, W>,
    callback: W,
) -> (r: EngineCall)
    requires
        weak_fit(callback),
    ensures
        *final(slot) == old(slot).registering(Provider::Weak(callback)),
        final(slot).registered() == Some(Provider::<F, W>::Weak(callback)),
        r == EngineCall::SetCompletionCallback,
{
    slot.provider = Some(Provider::Weak(callback));
    EngineCall::SetCompletionCallback
}

/// Back to the state at start: unsets the slot, and gives the two calls
/// that take the callback away from the engine and discard its history.
pub fn reset<
    F: Fn(&str) -> Vec<String> + Send,
    W: Fn(&str) -> Option<Vec<String>> + Send,
>(
    slot: &mut Slot<F, W>,
) -> (r: (EngineCall, EngineCall))
    ensures
        *final(slot) == old(slot).cleared(),
        final(slot).registered() is None,
        r == (EngineCall::ResetCompletionCallback, EngineCall::HistoryFree),
{
    slot.provider = None;
    (EngineCall::ResetCompletionCallback, EngineCall::HistoryFree)
}

/// A registration puts its provider in the slot, and a reset leaves the
/// slot unset, whatever the slot held.
pub proof fn lemma_registered<
    F: Fn(&str) -> Vec<String> + Send,
    W: Fn(&str) -> Option<Vec<String>> + Send,
>(
    slot: Slot<F, W>,
    provider: Provider<F, W>,
)
    ensures
        slot.registering(provider).registered() == Some(provider),
        slot.cleared().registered() is None,
{
}

/// A provider that has one answer to a text leaves exactly that answer in
/// the buffer: the same candidates in the same order, and nothing of what
/// the buffer held before the request.
pub proof fn lemma_completes_exactly<
    F: Fn(&str) -> Vec<String> + Send,
    W: Fn(&str) -> Option<Vec<String>> + Send,
>(
    slot: Slot<F, W>,
    cs: Seq<u8>,
    expected: Seq<Seq<char>>,
    out: Seq<Seq<char>>,
)
    requires
        slot.registered() matches Some(Provider::Owning(f)) && forall|t: &str, ret: Vec<String>|
            t@ == decode_utf8(cs) && #[trigger] call_ensures(f, (t,), ret) ==> texts(ret@)
                == expected,
        slot.completes(cs, out),
    ensures
        out == expected,
{
}

/// A weak provider that has one answer to a text leaves exactly that answer
/// in the buffer, and nothing of what the buffer held before the request.
pub proof fn lemma_weak_completes_exactly<
    F: Fn(&str) -> Vec<String> + Send,
    W: Fn(&str) -> Option<Vec<String>> + Send,
>(slot: Slot<F, W>, cs: Seq<u8>, expected: Seq<Seq<char>>, out: Seq<Seq<char>>)
    requires
        slot.registered() matches Some(Provider::Weak(w)) && forall|
            t: &str,
            ret: Option<Vec<String>>,
        |
            t@ == decode_utf8(cs) && #[trigger] call_ensures(w, (t,), ret) ==> weak_texts(ret)
                == expected,
        slot.completes(cs, out),
    ensures
        out == expected,
{
}

/// The last registration wins: after a provider was replaced, a request is
/// answered from the second provider alone, as if the first had never been
/// registered.
pub proof fn lemma_last_registration_wins<
    F: Fn(&str) -> Vec<String> + Send,
    W: Fn(&str) -> Option<Vec<String>> + Send,
>(
    slot: Slot<F, W>,
    first: Provider<F, W>,
    second: Provider<F, W>,
    cs: Seq<u8>,
    out: Seq<Seq<char>>,
)
    ensures
        slot.registering(first).registering(second).completes(cs, out) <==> provider_completes(
            second,
            cs,
            out,
        ),
        slot.registering(first).registering(second) == slot.registering(second),
{
}

/// After a reset a request leaves the buffer empty, whatever was
/// registered before.
pub proof fn lemma_reset_completes_nothing<
    F: Fn(&str) -> Vec<String> + Send,
    W: Fn(&str) -> Option<Vec<String>> + Send,
>(slot: Slot<F, W>, cs: Seq<u8>, out: Seq<Seq<char>>)
    ensures
        slot.cleared().completes(cs, out) <==> out == Seq::<Seq<char>>::empty(),
{
}

/// A weak provider whose backing state is gone, so that `None` is all it
/// can answer, leaves the buffer empty.
pub proof fn lemma_weak_gone_completes_nothing<
    F: Fn(&str) -> Vec<String> + Send,
    W: Fn(&str) -> Option<Vec<String>> + Send,
>(slot: Slot<F, W>, cs: Seq<u8>, out: Seq<Seq<char>>)
    requires
        slot.registered() matches Some(Provider::Weak(w)) && forall|
            t: &str,
            ret: Option<Vec<String>>,
        | #[trigger] call_ensures(w, (t,), ret) ==> ret is None,
        slot.completes(cs, out),
    ensures
        out == Seq::<Seq<char>>::empty(),
{
}

} // verus!
