use vstd::prelude::*;

verus! {

/// The single slot that holds the running worker's handle, if any. The application keeps
/// one behind a mutex, so each method runs as one exclusive step.
pub struct Registry<H> {
    slot: Option<H>,
}

impl<H> View for Registry<H> {
    type V = Option<H>;

    closed spec fn view(&self) -> Option<H> {
        self.slot
    }
}

/// The slot after installing each handle in turn, with no `take` between.
pub open spec fn after_installs<H>(start: Option<H>, handles: Seq<H>) -> Option<H>
    decreases handles.len(),
{
    if handles.len() == 0 {
        start
    } else {
        after_installs(Some(handles[0]), handles.drop_first())
    }
}

impl<H> Registry<H> {
    /// An empty slot: no worker runs.
    pub fn new() -> (r: Registry<H>)
        ensures
            r@ is None,
    {
        Registry { slot: None }
    }

    /// Puts a handle into the slot and hands back what was there before.
    pub fn install(&mut self, handle: H) -> (previous: Option<H>)
        ensures
            final(self)@ == Some(handle),
            final(self)@ == after_installs(old(self)@, seq![handle]),
            previous == old(self)@,
    {
        let previous = self.slot.take();
        self.slot = Some(handle);
        proof {
            let one = seq![handle];
            assert(one.drop_first() =~= Seq::<H>::empty());
            assert(after_installs(old(self)@, one) == after_installs(Some(one[0]), one.drop_first()));
        }
        previous
    }

    /// Removes the handle, leaving the slot empty.
    pub fn take(&mut self) -> (r: Option<H>)
        ensures
            r == old(self)@,
            final(self)@ is None,
    {
        self.slot.take()
    }

    /// Whether a handle is installed.
    pub fn is_running(&self) -> (r: bool)
        ensures
            r == self@ is Some,
    {
        self.slot.is_some()
    }

    /// The installed handle, for a momentary exclusive use such as a write.
    pub fn current_mut(&mut self) -> (r: Option<&mut H>)
        ensures
            old(self)@ is None ==> r is None && final(self)@ is None,
            old(self)@ is Some ==> r is Some && *r.unwrap() == old(self)@.unwrap(),
            old(self)@ is Some ==> final(self)@ == Some(*final(r.unwrap())),
    {
        self.slot.as_mut()
    }
}

/// After a run of installs with no `take` between, the slot holds the last handle installed.
pub proof fn lemma_last_install_wins<H>(start: Option<H>, handles: Seq<H>)
    requires
        handles.len() > 0,
    ensures
        after_installs(start, handles) == Some(handles.last()),
    decreases handles.len(),
{
    let tail = handles.drop_first();
    if handles.len() == 1 {
        assert(after_installs(Some(handles[0]), tail) == Some(handles[0]));
    } else {
        assert(tail.last() == handles.last());
        lemma_last_install_wins(Some(handles[0]), tail);
    }
}

} // verus!
