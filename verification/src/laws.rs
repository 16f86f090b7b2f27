//! The laws the core obeys, stated and proved once for all inputs.

use vstd::prelude::*;

use crate::dispatch::{wrap_inc, Context, Core, Token};

verus! {

/// Value of the `k`-th identifier minted by a counter seeded at
/// `seed`: `get_new_token` and `get_new_context` each return the
/// current counter and step it with `wrap_inc`, so after `k` calls the
/// counter holds `nth_id(seed, k)` and the calls returned
/// `nth_id(seed, 0)` through `nth_id(seed, k - 1)`.
pub open spec fn nth_id(seed: usize, k: nat) -> usize
    decreases k,
{
    if k == 0 {
        seed
    } else {
        wrap_inc(nth_id(seed, (k - 1) as nat))
    }
}

/// Closed form of the identifier stream while at most one wraparound
/// can have happened: the stream counts up from the seed and, past the
/// largest value, restarts from zero.
proof fn lemma_nth_id_closed_form(seed: usize, k: nat)
    requires
        k <= usize::MAX as nat + 1,
    ensures
        seed + k <= usize::MAX ==> nth_id(seed, k) == seed + k,
        seed + k > usize::MAX ==> nth_id(seed, k) == seed + k - (usize::MAX as nat + 1),
    decreases k,
{
    if k > 0 {
        lemma_nth_id_closed_form(seed, (k - 1) as nat);
    }
}

/// Restarting the stream at its `a`-th value and walking `b` more
/// steps lands on the `(a + b)`-th value.
proof fn lemma_nth_id_shift(seed: usize, a: nat, b: nat)
    ensures
        nth_id(seed, a + b) == nth_id(nth_id(seed, a), b),
    decreases b,
{
    if b > 0 {
        lemma_nth_id_shift(seed, a, (b - 1) as nat);
    }
}

/// Before any wraparound the identifier stream is strictly
/// increasing: of two identifiers minted in sequence the later one is
/// the larger.
pub proof fn lemma_id_stream_monotonic(seed: usize, k1: nat, k2: nat)
    requires
        k1 < k2,
        seed + k2 <= usize::MAX,
    ensures
        nth_id(seed, k1) < nth_id(seed, k2),
{
    lemma_nth_id_closed_form(seed, k1);
    lemma_nth_id_closed_form(seed, k2);
}

/// No two identifiers minted before the counter can have wrapped back
/// around are equal: any two distinct calls within one wraparound
/// period return distinct values.
pub proof fn lemma_id_stream_distinct(seed: usize, k1: nat, k2: nat)
    requires
        k1 < k2,
        k2 - k1 <= usize::MAX,
    ensures
        nth_id(seed, k1) != nth_id(seed, k2),
{
    let d = (k2 - k1) as nat;
    lemma_nth_id_shift(seed, k1, d);
    lemma_nth_id_closed_form(nth_id(seed, k1), d);
}

/// Binding a token and then resolving it yields the bound context:
/// `before` and `after` are the registry around one `insert_context`
/// call, as its contract describes it.
pub proof fn lemma_bind_token_then_resolve<S>(
    before: Core<S>,
    after: Core<S>,
    token: Token,
    context: Context,
)
    requires
        after.token_map() == before.token_map().insert(token.0, context),
    ensures
        after.spec_resolve_token(token) == Some(context),
{
}

/// Unbinding a token and then resolving it yields nothing: `before`
/// and `after` are the registry around one `remove_context` call, as
/// its contract describes it.
pub proof fn lemma_unbind_token_then_resolve<S>(before: Core<S>, after: Core<S>, token: Token)
    requires
        after.token_map() == before.token_map().remove(token.0),
    ensures
        after.spec_resolve_token(token) is None,
{
}

/// Binding a token twice: the second bind reports the first context as
/// the previous association — `insert_context` returns
/// `spec_resolve_token` of the registry it was called on — and the
/// token resolves to the new context afterwards.
pub proof fn lemma_rebind_token<S>(
    first: Core<S>,
    second: Core<S>,
    third: Core<S>,
    token: Token,
    c1: Context,
    c2: Context,
)
    requires
        second.token_map() == first.token_map().insert(token.0, c1),
        third.token_map() == second.token_map().insert(token.0, c2),
    ensures
        second.spec_resolve_token(token) == Some(c1),
        third.spec_resolve_token(token) == Some(c2),
{
}

} // verus!
