use vstd::prelude::*;

verus! {

/// What the subscriber is told about the span with id `id`: the id itself,
/// or nothing when `id` is the empty id `0`.
pub open spec fn notice(id: u64) -> Option<u64> {
    if id == 0 {
        None
    } else {
        Some(id)
    }
}

/// Computes the notice for the span id `id` (see [`notice`]).
pub fn notice_for(id: u64) -> (n: Option<u64>)
    ensures
        n == notice(id),
{
    if id != 0 {
        Some(id)
    } else {
        None
    }
}

/// A span handle: the id under which the subscriber knows the span, `0` when
/// there is none.
pub struct Span(pub u64);

/// The guard handed back by [`Span::enter`]: it remembers the id of the span
/// that was entered, so that exiting reports the same span.
pub struct Entered(pub u64);

impl Span {
    /// The id of this span (`0`: no span).
    pub open spec fn id(self) -> u64 {
        self.0
    }

    /// Enters the span. Gives back the guard for the entered span together
    /// with the notice for the subscriber's `enter` callback: the span's id,
    /// or `None` when the span is the empty one and nobody is to be told.
    pub fn enter(self) -> (res: (Entered, Option<u64>))
        ensures
            res.0.id() == self.id(),
            res.1 == notice(self.id()),
    {
        let id = self.0;
        let told = notice_for(id);
        (Entered(id), told)
    }
}

impl Entered {
    /// The id of the span that was entered (`0`: no span).
    pub open spec fn id(self) -> u64 {
        self.0
    }

    /// Exits the entered span. The guard itself stays as it was (exiting may
    /// be repeated, as dropping an already exited guard does); the result is
    /// the notice for the subscriber's `exit` callback: the span's id, or
    /// `None` for the empty span.
    pub fn exit(&mut self) -> (told: Option<u64>)
        ensures
            *final(self) == *old(self),
            told == notice(old(self).id()),
    {
        notice_for(self.0)
    }
}

/// The empty id `0` is never reported to the subscriber, and every other id
/// is reported as itself.
pub proof fn lemma_only_empty_span_is_silent(id: u64)
    ensures
        (notice(id) is None) <==> id == 0,
        id != 0 ==> notice(id) == Some(id),
{
}

/// Exiting the guard that entering a span handed back tells the subscriber
/// what entering told it: the same span id, or nothing both times.
pub proof fn lemma_exit_mirrors_enter(span: Span, guard: Entered, told_on_enter: Option<u64>)
    requires
        guard.id() == span.id(),
        told_on_enter == notice(span.id()),
    ensures
        notice(guard.id()) == told_on_enter,
{
}

} // verus!
