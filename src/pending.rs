use vstd::prelude::*;

verus! {

/// The slot that holds at most one file path waiting for a window to show.
///
/// Setting overwrites whatever is there (last write wins); taking reads and
/// clears in one step.
pub struct PendingOpen {
    slot: Option<String>,
}

/// The slot after `set(p)`, whatever it held before.
pub open spec fn spec_set(s: Option<Seq<char>>, p: Seq<char>) -> Option<Seq<char>> {
    Some(p)
}

/// What `take()` hands back, and the slot it leaves behind.
pub open spec fn spec_take(s: Option<Seq<char>>) -> (Option<Seq<char>>, Option<Seq<char>>) {
    (s, None)
}

/// The view of an optional string.
pub open spec fn opt_view(o: Option<String>) -> Option<Seq<char>> {
    match o {
        Some(s) => Some(s@),
        None => None,
    }
}

impl View for PendingOpen {
    type V = Option<Seq<char>>;

    closed spec fn view(&self) -> Option<Seq<char>> {
        opt_view(self.slot)
    }
}

impl PendingOpen {
    /// An empty slot.
    pub fn new() -> (r: PendingOpen)
        ensures
            r@ == None::<Seq<char>>,
    {
        PendingOpen { slot: None }
    }

    /// Stores `path`, dropping any path that was not yet taken.
    pub fn set(&mut self, path: String)
        ensures
            final(self)@ == spec_set(old(self)@, path@),
    {
        self.slot = Some(path);
    }

    /// Reads and clears the slot.
    pub fn take(&mut self) -> (r: Option<String>)
        ensures
            opt_view(r) == spec_take(old(self)@).0,
            final(self)@ == spec_take(old(self)@).1,
    {
        let r = self.slot.take();
        r
    }

    /// Whether a path is waiting, without consuming it.
    pub fn has_value(&self) -> (r: bool)
        ensures
            r == self@ is Some,
    {
        self.slot.is_some()
    }
}

/// A path that is set and then taken comes back unchanged, and the slot is
/// empty afterwards.
pub proof fn lemma_set_then_take(s: Option<Seq<char>>, p: Seq<char>)
    ensures
        spec_take(spec_set(s, p)).0 == Some(p),
        spec_take(spec_set(s, p)).1 is None,
{
}

/// Two writes followed by one take yield exactly one of the two written paths,
/// whichever order the writes land in: the later one, whole.
pub proof fn lemma_two_sets_one_take(s: Option<Seq<char>>, p1: Seq<char>, p2: Seq<char>)
    ensures
        spec_take(spec_set(spec_set(s, p1), p2)).0 == Some(p2),
        spec_take(spec_set(spec_set(s, p2), p1)).0 == Some(p1),
        spec_take(spec_set(spec_set(s, p1), p2)).1 is None,
        spec_take(spec_set(spec_set(s, p2), p1)).1 is None,
{
}

} // verus!
