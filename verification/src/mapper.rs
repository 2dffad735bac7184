//! Pure message translation. A subtree that emits messages of type `A` is
//! embedded in a parent that expects type `B` by sending every emitted
//! message through a [`MessageMapper`]; the mapper must behave as a pure
//! function, which is what its specification method pins down.

use vstd::prelude::*;

verus! {

/// A pure, referentially stable function that turns messages of type `A`
/// into messages of type `B`.
pub trait MessageMapper<A, B>: Sized {
    /// The function the translation computes.
    spec fn spec_map(&self, a: A) -> B;

    /// Translates one message.
    fn map_msg(&self, a: A) -> (b: B)
        ensures
            b == self.spec_map(a),
    ;
}

/// Translates every element of a vector, in order.
pub fn map_vec<A, B, F: MessageMapper<A, B>>(v: Vec<A>, mapper: &F) -> (r: Vec<B>)
    ensures
        r@ == v@.map_values(|a: A| mapper.spec_map(a)),
{
    let ghost orig = v@;
    let ghost f = |a: A| mapper.spec_map(a);
    let mut v = v;
    let mut r: Vec<B> = Vec::new();
    while v.len() > 0
        invariant
            orig.map_values(f) =~= r@ + v@.map_values(f),
            f == (|a: A| mapper.spec_map(a)),
        decreases v.len(),
    {
        let ghost before = v@;
        let a = v.remove(0);
        let b = mapper.map_msg(a);
        r.push(b);
        proof {
            assert(before.map_values(f).drop_first() =~= v@.map_values(f));
            assert(before.map_values(f)[0] == b);
        }
    }
    proof {
        assert(r@ + v@.map_values(f) =~= r@);
        assert(r@ =~= orig.map_values(f));
    }
    r
}

/// A message paired with the index of the subtree it came from.
#[derive(Clone, Copy, Debug, PartialEq, Eq)]
pub struct Indexed<M> {
    pub index: u64,
    pub message: M,
}

/// Tags every message with a fixed index, as a parent does when it shows many
/// copies of one component.
#[derive(Clone, Copy, Debug, PartialEq, Eq, Structural)]
pub struct IndexMapper {
    pub index: u64,
}

impl<M> MessageMapper<M, Indexed<M>> for IndexMapper {
    open spec fn spec_map(&self, m: M) -> Indexed<M> {
        Indexed { index: self.index, message: m }
    }

    fn map_msg(&self, m: M) -> (r: Indexed<M>) {
        Indexed { index: self.index, message: m }
    }
}

/// Collapses every message to one fixed value; deliberately not injective.
#[derive(Clone, Copy, Debug, PartialEq, Eq)]
pub struct ConstMapper<B> {
    pub value: B,
}

impl<A, B: Copy> MessageMapper<A, B> for ConstMapper<B> {
    open spec fn spec_map(&self, _a: A) -> B {
        self.value
    }

    fn map_msg(&self, _a: A) -> (r: B) {
        self.value
    }
}

} // verus!
