//! The single-session state: idle, or active with exactly one engine
//! handle, plus the model directory most recently resolved.
use vstd::prelude::*;

verus! {

/// Who holds the engine after a store attempt: a handle is stored only
/// when none is held, so the first one stays.
pub open spec fn after_store<H>(held: Option<H>, handle: H) -> Option<H> {
    if held is None {
        Some(handle)
    } else {
        held
    }
}

/// Session state shared by the start and stop requests. The handle is
/// reachable only through the check-and-set `try_store` and the
/// move-out `take`.
pub struct SessionState<H> {
    process: Option<H>,
    model_path: String,
}

impl<H> SessionState<H> {
    /// The engine handle held, if a session is active.
    pub closed spec fn handle(&self) -> Option<H> {
        self.process
    }

    /// The model directory most recently resolved (diagnostic only).
    pub closed spec fn model_path_view(&self) -> Seq<char> {
        self.model_path@
    }

    pub open spec fn is_active(&self) -> bool {
        self.handle() is Some
    }

    /// An idle session with no model directory recorded.
    pub fn new() -> (r: Self)
        ensures
            r.handle() is None,
            r.model_path_view() == Seq::<char>::empty(),
    {
        SessionState { process: None, model_path: String::new() }
    }

    /// Whether a session is active.
    pub fn active(&self) -> (r: bool)
        ensures
            r == self.is_active(),
    {
        self.process.is_some()
    }

    /// The model directory most recently resolved.
    pub fn model_path(&self) -> (r: &str)
        ensures
            r@ == self.model_path_view(),
    {
        self.model_path.as_str()
    }

    /// Records the model directory of a start request; the session itself
    /// is left as it is.
    pub fn record_model_path(&mut self, path: String)
        ensures
            final(self).handle() == old(self).handle(),
            final(self).model_path_view() == path@,
    {
        self.model_path = path;
    }

    /// Stores `handle` if no session is active and returns `Ok`; otherwise
    /// leaves the session as it is and hands `handle` back.
    pub fn try_store(&mut self, handle: H) -> (r: Result<(), H>)
        ensures
            final(self).handle() == after_store(old(self).handle(), handle),
            final(self).model_path_view() == old(self).model_path_view(),
            r is Ok <==> old(self).handle() is None,
            r is Err ==> r->Err_0 == handle,
    {
        if self.process.is_some() {
            Err(handle)
        } else {
            self.process = Some(handle);
            Ok(())
        }
    }

    /// Moves the handle out, leaving the session idle.
    pub fn take(&mut self) -> (r: Option<H>)
        ensures
            r == old(self).handle(),
            final(self).handle() is None,
            final(self).model_path_view() == old(self).model_path_view(),
    {
        self.process.take()
    }
}

/// Of two start attempts, whatever the session held before, the second
/// never displaces what the first left: never are both handles retained.
/// From an idle session it is the first handle that stays.
pub proof fn two_starts_keep_one<H>(held: Option<H>, first: H, second: H)
    ensures
        after_store(after_store(held, first), second) == after_store(held, first),
        held is None ==> after_store(after_store(held, first), second) == Some(first),
{
}

} // verus!
