//! The tree-operation protocol: a generic traversal that queries widget
//! roles (containers, focusables, scrollables, text inputs) without knowing
//! the tree's message type.
//!
//! A widget describes the visits its subtree makes as first-order data
//! ([`OpVisit`]); running an operation over a widget applies those visits in
//! order, which is what [`apply_visits`] pins down.

use vstd::prelude::*;

verus! {

/// The snapshot a focusable widget hands to an operation.
#[derive(Clone, Copy, Debug, PartialEq, Eq, Structural)]
pub struct FocusState {
    pub focused: bool,
}

/// The snapshot a scrollable widget hands to an operation.
#[derive(Clone, Copy, Debug, PartialEq, Eq, Structural)]
pub struct ScrollState {
    pub offset: u32,
}

/// The snapshot a text input hands to an operation.
#[derive(Clone, Copy, Debug, PartialEq, Eq, Structural)]
pub struct TextState {
    pub len: u32,
}

/// One visit a traversal makes: a container boundary or a leaf-role query,
/// each with the widget's identifier if it has one.
#[derive(Clone, Copy, Debug)]
pub enum OpVisit {
    Container { id: Option<u64> },
    Focusable { state: FocusState, id: Option<u64> },
    Scrollable { state: ScrollState, id: Option<u64> },
    TextInput { state: TextState, id: Option<u64> },
}

/// A tree operation over message type `M`. The message type never appears in
/// a visit's payload — leaf queries carry none — which is what lets a
/// remapping node expose an `A`-typed subtree through a `B`-typed operation.
pub trait Operation<M>: Sized {
    /// The operation after it saw a container boundary.
    spec fn spec_container(&self, id: Option<u64>) -> Self;

    /// The operation after it saw a focusable widget.
    spec fn spec_focusable(&self, state: FocusState, id: Option<u64>) -> Self;

    /// The operation after it saw a scrollable widget.
    spec fn spec_scrollable(&self, state: ScrollState, id: Option<u64>) -> Self;

    /// The operation after it saw a text input.
    spec fn spec_text_input(&self, state: TextState, id: Option<u64>) -> Self;

    /// Visits a container boundary.
    fn container(&mut self, id: Option<u64>)
        ensures
            *final(self) == old(self).spec_container(id),
    ;

    /// Visits a focusable widget.
    fn focusable(&mut self, state: FocusState, id: Option<u64>)
        ensures
            *final(self) == old(self).spec_focusable(state, id),
    ;

    /// Visits a scrollable widget.
    fn scrollable(&mut self, state: ScrollState, id: Option<u64>)
        ensures
            *final(self) == old(self).spec_scrollable(state, id),
    ;

    /// Visits a text input.
    fn text_input(&mut self, state: TextState, id: Option<u64>)
        ensures
            *final(self) == old(self).spec_text_input(state, id),
    ;
}

/// The operation after one visit.
pub open spec fn apply_visit<M, O: Operation<M>>(op: O, v: OpVisit) -> O {
    match v {
        OpVisit::Container { id } => op.spec_container(id),
        OpVisit::Focusable { state, id } => op.spec_focusable(state, id),
        OpVisit::Scrollable { state, id } => op.spec_scrollable(state, id),
        OpVisit::TextInput { state, id } => op.spec_text_input(state, id),
    }
}

/// The operation after a sequence of visits, applied oldest first.
pub open spec fn apply_visits<M, O: Operation<M>>(op: O, vs: Seq<OpVisit>) -> O
    decreases vs.len(),
{
    if vs.len() == 0 {
        op
    } else {
        apply_visits::<M, O>(apply_visit::<M, O>(op, vs[0]), vs.drop_first())
    }
}

/// Visits split into two legs land where applying the legs one after the
/// other lands.
pub proof fn lemma_apply_visits_append<M, O: Operation<M>>(op: O, a: Seq<OpVisit>, b: Seq<OpVisit>)
    ensures
        apply_visits::<M, O>(op, a + b) == apply_visits::<M, O>(apply_visits::<M, O>(op, a), b),
    decreases a.len(),
{
    if a.len() == 0 {
        assert(a + b =~= b);
    } else {
        assert((a + b)[0] == a[0]);
        assert((a + b).drop_first() =~= a.drop_first() + b);
        lemma_apply_visits_append::<M, O>(apply_visit::<M, O>(op, a[0]), a.drop_first(), b);
    }
}

/// An operation that tallies what the traversal passed: how many container
/// boundaries and how many leaves of each role, saturating at `u64::MAX`.
#[derive(Clone, Copy, Debug, PartialEq, Eq, Structural)]
pub struct Tally {
    pub containers: u64,
    pub focusables: u64,
    pub scrollables: u64,
    pub text_inputs: u64,
}

/// One more, saturating at the largest value.
pub open spec fn spec_sat_inc(x: u64) -> u64 {
    if x == u64::MAX {
        x
    } else {
        (x + 1) as u64
    }
}

/// Increments, saturating at the largest value.
pub fn sat_inc(x: u64) -> (r: u64)
    ensures
        r == spec_sat_inc(x),
{
    if x == u64::MAX {
        x
    } else {
        x + 1
    }
}

impl Tally {
    /// A tally that has seen nothing yet.
    pub fn new() -> (t: Tally)
        ensures
            t == (Tally { containers: 0, focusables: 0, scrollables: 0, text_inputs: 0 }),
    {
        Tally { containers: 0, focusables: 0, scrollables: 0, text_inputs: 0 }
    }
}

impl<M> Operation<M> for Tally {
    open spec fn spec_container(&self, id: Option<u64>) -> Self {
        Tally { containers: spec_sat_inc(self.containers), ..*self }
    }

    open spec fn spec_focusable(&self, state: FocusState, id: Option<u64>) -> Self {
        Tally { focusables: spec_sat_inc(self.focusables), ..*self }
    }

    open spec fn spec_scrollable(&self, state: ScrollState, id: Option<u64>) -> Self {
        Tally { scrollables: spec_sat_inc(self.scrollables), ..*self }
    }

    open spec fn spec_text_input(&self, state: TextState, id: Option<u64>) -> Self {
        Tally { text_inputs: spec_sat_inc(self.text_inputs), ..*self }
    }

    fn container(&mut self, id: Option<u64>) {
        self.containers = sat_inc(self.containers);
    }

    fn focusable(&mut self, state: FocusState, id: Option<u64>) {
        self.focusables = sat_inc(self.focusables);
    }

    fn scrollable(&mut self, state: ScrollState, id: Option<u64>) {
        self.scrollables = sat_inc(self.scrollables);
    }

    fn text_input(&mut self, state: TextState, id: Option<u64>) {
        self.text_inputs = sat_inc(self.text_inputs);
    }
}

} // verus!
