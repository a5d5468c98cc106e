//! Bookkeeping for the IPC socket file: it is registered once when the listener
//! is bound, and handed out for removal at most once, whichever exit path asks.
use vstd::prelude::*;

verus! {

/// The abstract state: the registered socket path, and whether it has been
/// handed out for removal.
pub struct ShutdownView {
    pub path: Option<Seq<char>>,
    pub cleaned: bool,
}

/// The socket path to remove on exit.
#[derive(Debug)]
pub struct ShutdownState {
    path: Option<String>,
    cleaned: bool,
}

/// The state after registering `path`: only a first registration takes effect.
pub open spec fn registered(s: ShutdownView, path: Seq<char>) -> ShutdownView {
    if s.path is None && !s.cleaned {
        ShutdownView { path: Some(path), cleaned: false }
    } else {
        s
    }
}

/// The path handed out for removal from state `s`, if any.
pub open spec fn cleanup_result(s: ShutdownView) -> Option<Seq<char>> {
    if s.cleaned { None } else { s.path }
}

/// The state after a request for cleanup.
pub open spec fn after_cleanup(s: ShutdownView) -> ShutdownView {
    ShutdownView { path: s.path, cleaned: s.cleaned || s.path is Some }
}

impl View for ShutdownState {
    type V = ShutdownView;

    closed spec fn view(&self) -> ShutdownView {
        ShutdownView {
            path: match self.path {
                Some(p) => Some(p@),
                None => None,
            },
            cleaned: self.cleaned,
        }
    }
}

impl ShutdownState {
    /// A state with no socket registered.
    pub fn new() -> (r: ShutdownState)
        ensures
            r@ == (ShutdownView { path: None, cleaned: false }),
    {
        ShutdownState { path: None, cleaned: false }
    }

    /// Registers the path of a freshly bound socket; returns whether it was taken.
    pub fn register(&mut self, path: String) -> (r: bool)
        ensures
            r == (old(self)@.path is None && !old(self)@.cleaned),
            final(self)@ == registered(old(self)@, path@),
    {
        if self.path.is_none() && !self.cleaned {
            self.path = Some(path);
            true
        } else {
            false
        }
    }

    /// The registered path, the first time cleanup is asked for; `None` after that.
    pub fn take_cleanup(&mut self) -> (r: Option<String>)
        ensures
            (match r {
                Some(p) => Some(p@),
                None => None,
            }) == cleanup_result(old(self)@),
            final(self)@ == after_cleanup(old(self)@),
    {
        if self.cleaned {
            return None;
        }
        match &self.path {
            Some(p) => {
                let p = p.clone();
                self.cleaned = true;
                Some(p)
            },
            None => None,
        }
    }

    /// Whether a socket path is registered.
    pub fn is_registered(&self) -> (r: bool)
        ensures
            r == self@.path is Some,
    {
        self.path.is_some()
    }
}

/// A registered socket is handed out for removal by the first request for
/// cleanup, and never again by any later one.
pub proof fn cleanup_happens_once(s: ShutdownView, path: Seq<char>, n: nat)
    requires
        s.path is None,
        !s.cleaned,
    ensures
        cleanup_result(registered(s, path)) == Some(path),
        cleanup_result(after_cleanup(registered(s, path))) is None,
        cleanup_result(repeat_cleanup(after_cleanup(registered(s, path)), n)) is None,
    decreases n,
{
    if n > 0 {
        cleanup_happens_once(s, path, (n - 1) as nat);
    }
}

/// The state after `n` further requests for cleanup.
pub open spec fn repeat_cleanup(s: ShutdownView, n: nat) -> ShutdownView
    decreases n,
{
    if n == 0 { s } else { after_cleanup(repeat_cleanup(s, (n - 1) as nat)) }
}

} // verus!
