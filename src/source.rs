use vstd::prelude::*;

verus! {

// Random parameters come from a draw function: given a generator state, it
// returns one value, drawn uniformly from the half-open interval `[-1, 1)`,
// and the generator's next state. The random constructors thread the state
// through their draws, so what they build is a function of the starting state.

/// `draw` can be called on every state and gives one result for a given state
/// (as a seeded generator does).
pub open spec fn is_deterministic<T, G, D: Fn(G) -> (T, G)>(draw: D) -> bool {
    &&& forall|g: G| #[trigger] draw.requires((g,))
    &&& forall|g: G, p: (T, G), q: (T, G)|
        #[trigger] draw.ensures((g,), p) && #[trigger] draw.ensures((g,), q) ==> p == q
}

/// The value and next state that `draw` gives for state `g`.
pub open spec fn step<T, G, D: Fn(G) -> (T, G)>(draw: D, g: G) -> (T, G) {
    choose|p: (T, G)| draw.ensures((g,), p)
}

/// The generator's state after `k` draws from state `g`.
pub open spec fn state_after<T, G, D: Fn(G) -> (T, G)>(draw: D, g: G, k: nat) -> G
    decreases k,
{
    if k == 0 {
        g
    } else {
        step(draw, state_after(draw, g, (k - 1) as nat)).1
    }
}

/// The value of draw number `k` (counting from zero) from state `g`.
pub open spec fn value_at<T, G, D: Fn(G) -> (T, G)>(draw: D, g: G, k: nat) -> T {
    step(draw, state_after(draw, g, k)).0
}

/// Making `a` draws and then `b` more is making `a + b` draws.
pub proof fn lemma_state_after_add<T, G, D: Fn(G) -> (T, G)>(draw: D, g: G, a: nat, b: nat)
    ensures
        state_after(draw, state_after(draw, g, a), b) == state_after(draw, g, a + b),
    decreases b,
{
    if b > 0 {
        lemma_state_after_add(draw, g, a, (b - 1) as nat);
        assert((a + b - 1) as nat == a + (b - 1) as nat);
    }
}

/// Makes one draw.
pub(crate) fn draw_one<T, G, D: Fn(G) -> (T, G)>(draw: &D, g: G) -> (r: (T, G))
    requires
        is_deterministic(*draw),
    ensures
        r == step(*draw, g),
{
    let ghost g0 = g;
    let r = draw(g);
    assert(draw.ensures((g0,), step(*draw, g0)));
    r
}

} // verus!
