//! Navigation stack: LIFO of screen ids the user returns to via
//! `Action::Back`, bounded at [`NAV_STACK_DEPTH`] entries.

use vstd::prelude::*;

use crate::ui_types::ScreenId;

verus! {

/// Maximum depth of the navigation stack.
pub const NAV_STACK_DEPTH: usize = 4;

/// What a bounded screen-id vector holds, oldest first.
pub uninterp spec fn screen_stack_items(v: heapless::Vec<ScreenId, 4>) -> Seq<ScreenId>;

/// `heapless::Vec::new`: an empty vector.
#[verifier::external_body]
fn stack_new() -> (v: heapless::Vec<ScreenId, 4>)
    ensures
        screen_stack_items(v) == Seq::<ScreenId>::empty(),
{
    heapless::Vec::new()
}

/// `heapless::Vec::push`: appends when fewer than 4 items are held,
/// otherwise hands the item back unchanged.
#[verifier::external_body]
fn stack_push(v: &mut heapless::Vec<ScreenId, 4>, s: ScreenId) -> (r: Result<(), ScreenId>)
    ensures
        r is Ok <==> screen_stack_items(*old(v)).len() < 4,
        r is Err ==> r->Err_0 == s,
        screen_stack_items(*old(v)).len() < 4 ==> screen_stack_items(*final(v)) == screen_stack_items(*old(v)).push(s),
        screen_stack_items(*old(v)).len() >= 4 ==> screen_stack_items(*final(v)) == screen_stack_items(*old(v)),
{
    v.push(s)
}

/// `heapless::Vec::pop`: removes and returns the last item, if any.
#[verifier::external_body]
fn stack_pop(v: &mut heapless::Vec<ScreenId, 4>) -> (r: Option<ScreenId>)
    ensures
        screen_stack_items(*old(v)).len() == 0 ==> r is None && screen_stack_items(*final(v)) == screen_stack_items(*old(v)),
        screen_stack_items(*old(v)).len() > 0 ==> r == Some(screen_stack_items(*old(v)).last())
            && screen_stack_items(*final(v)) == screen_stack_items(*old(v)).drop_last(),
{
    v.pop()
}

/// `heapless::Vec::last` (through the slice it derefs to), copied out.
#[verifier::external_body]
fn stack_last(v: &heapless::Vec<ScreenId, 4>) -> (r: Option<ScreenId>)
    ensures
        screen_stack_items(*v).len() == 0 ==> r is None,
        screen_stack_items(*v).len() > 0 ==> r == Some(screen_stack_items(*v).last()),
{
    v.last().copied()
}

/// `heapless::Vec::len`.
#[verifier::external_body]
fn stack_len(v: &heapless::Vec<ScreenId, 4>) -> (r: usize)
    ensures
        r == screen_stack_items(*v).len(),
        r <= 4,
{
    v.len()
}

/// Fixed-size navigation stack.
#[derive(Debug)]
pub struct NavStack {
    inner: heapless::Vec<ScreenId, 4>,
}

impl View for NavStack {
    type V = Seq<ScreenId>;

    closed spec fn view(&self) -> Seq<ScreenId> {
        screen_stack_items(self.inner)
    }
}

/// The stack after a push: the id is appended unless the stack is full.
pub open spec fn spec_push(s: Seq<ScreenId>, id: ScreenId) -> Seq<ScreenId> {
    if s.len() < NAV_STACK_DEPTH { s.push(id) } else { s }
}

/// The id a pop yields: the top, or Clock when empty.
pub open spec fn spec_top_or_home(s: Seq<ScreenId>) -> ScreenId {
    if s.len() > 0 { s.last() } else { ScreenId::Clock }
}

/// The stack after a pop.
pub open spec fn spec_pop(s: Seq<ScreenId>) -> Seq<ScreenId> {
    if s.len() > 0 { s.drop_last() } else { s }
}

impl Default for NavStack {
    fn default() -> (s: Self)
        ensures
            s@ == Seq::<ScreenId>::empty(),
    {
        NavStack::new()
    }
}

impl NavStack {
    /// An empty stack.
    pub fn new() -> (s: Self)
        ensures
            s@ == Seq::<ScreenId>::empty(),
    {
        NavStack { inner: stack_new() }
    }

    /// Push a screen; silently dropped if the stack is full.
    pub fn push(&mut self, screen: ScreenId)
        ensures
            final(self)@ == spec_push(old(self)@, screen),
    {
        let _ = stack_push(&mut self.inner, screen);
    }

    /// Pop the top screen, or return Clock if the stack is empty.
    pub fn pop_or_home(&mut self) -> (id: ScreenId)
        ensures
            id == spec_top_or_home(old(self)@),
            final(self)@ == spec_pop(old(self)@),
    {
        match stack_pop(&mut self.inner) {
            Some(s) => s,
            None => ScreenId::Clock,
        }
    }

    /// Peek the top screen without popping, or Clock if the stack is empty.
    pub fn peek_or_home(&self) -> (id: ScreenId)
        ensures
            id == spec_top_or_home(self@),
    {
        match stack_last(&self.inner) {
            Some(s) => s,
            None => ScreenId::Clock,
        }
    }

    /// Current depth.
    pub fn len(&self) -> (n: usize)
        ensures
            n == self@.len(),
            n <= NAV_STACK_DEPTH,
    {
        stack_len(&self.inner)
    }

    /// True when nothing is stacked.
    pub fn is_empty(&self) -> (r: bool)
        ensures
            r == (self@.len() == 0),
    {
        stack_len(&self.inner) == 0
    }
}

/// A push followed by a pop gives back the pushed screen and the
/// stack as it was, whenever the stack had room.
pub proof fn lemma_push_pop_round_trip(s: Seq<ScreenId>, id: ScreenId)
    requires
        s.len() < NAV_STACK_DEPTH,
    ensures
        spec_top_or_home(spec_push(s, id)) == id,
        spec_pop(spec_push(s, id)) == s,
{
    assert(s.push(id).drop_last() =~= s);
}

/// Popping an empty stack lands on Clock and leaves it empty.
pub proof fn lemma_empty_pops_home()
    ensures
        spec_top_or_home(Seq::<ScreenId>::empty()) == ScreenId::Clock,
        spec_pop(Seq::<ScreenId>::empty()) == Seq::<ScreenId>::empty(),
{
}

/// Pushing never grows the stack past its depth; a push onto a full
/// stack changes nothing.
pub proof fn lemma_push_bounded(s: Seq<ScreenId>, id: ScreenId)
    requires
        s.len() <= NAV_STACK_DEPTH,
    ensures
        spec_push(s, id).len() <= NAV_STACK_DEPTH,
        s.len() == NAV_STACK_DEPTH ==> spec_push(s, id) == s,
{
}

} // verus!
