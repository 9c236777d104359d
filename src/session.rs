//! The single outbound stream: closed, or open under a name with a handle.
use vstd::prelude::*;

verus! {

/// Mathematical view of a session: `None` when closed, else the advertised
/// name and the handle.
pub type SessionView<H> = Option<(Seq<char>, H)>;

/// What session `s` is after opening it under `name` with `handle`: any
/// earlier handle is gone.
pub open spec fn after_open<H>(s: SessionView<H>, name: Seq<char>, handle: H) -> SessionView<H> {
    Some((name, handle))
}

/// Owner of at most one outbound stream handle of type `H`.
pub struct StreamSession<H> {
    handle: Option<H>,
    name: String,
    active: bool,
}

impl<H> View for StreamSession<H> {
    type V = SessionView<H>;

    closed spec fn view(&self) -> SessionView<H> {
        match self.handle {
            Some(h) => Some((self.name@, h)),
            None => None,
        }
    }
}

impl<H> StreamSession<H> {
    #[verifier::type_invariant]
    spec fn well_formed(self) -> bool {
        self.active <==> self.handle is Some
    }

    /// A closed session.
    pub fn new() -> (r: Self)
        ensures
            r@ is None,
    {
        StreamSession { handle: None, name: String::new(), active: false }
    }

    /// Opens the session under `name` with a freshly built `handle`. A handle
    /// held before is released, so at most one is ever held.
    pub fn open_session(&mut self, name: String, handle: H)
        ensures
            final(self)@ == after_open(old(self)@, name@, handle),
    {
        self.close_session();
        *self = StreamSession { handle: Some(handle), name, active: true };
    }

    /// Releases the handle, if any. Closing a closed session does nothing.
    pub fn close_session(&mut self)
        ensures
            final(self)@ is None,
    {
        *self = StreamSession::new();
    }

    pub fn is_open(&self) -> (r: bool)
        ensures
            r == self@ is Some,
    {
        proof {
            use_type_invariant(self);
        }
        self.active
    }

    /// The handle that frames go to; `None` while closed, where a frame is
    /// dropped without error.
    pub fn sender(&self) -> (r: Option<&H>)
        ensures
            r is Some <==> self@ is Some,
            r matches Some(h) ==> *h == self@->Some_0.1,
    {
        match &self.handle {
            Some(h) => Some(h),
            None => None,
        }
    }

    /// The advertised name; empty while closed.
    pub fn name(&self) -> (r: &str)
        ensures
            self@ matches Some(v) ==> r@ == v.0,
            self@ is None ==> r@.len() == 0,
    {
        proof {
            use_type_invariant(self);
            reveal_strlit("");
        }
        if self.active {
            self.name.as_str()
        } else {
            ""
        }
    }
}

/// Two opens in a row leave exactly one handle, the second, under the
/// second name; the first is no longer held.
pub proof fn lemma_reopen_keeps_one_handle<H>(s: SessionView<H>, first: Seq<char>, h1: H, second: Seq<char>, h2: H)
    ensures
        after_open(after_open(s, first, h1), second, h2) == Some((second, h2)),
{
}

} // verus!
