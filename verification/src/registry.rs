//! The event loop's table of live connections, keyed by resume token.
//!
//! A resume handle is an opaque token, not a callback pointer: the worker
//! signals a token, and this table decides whether it still names a live,
//! parked connection. A token whose connection is gone — or was never parked
//! — is ignored, so a late signal for an aborted connection is a safe no-op
//! and can never touch another connection's state.

use vstd::prelude::*;

use crate::conn::Conn;
use crate::conn::ConnView;
use crate::conn::Phase;
use crate::conn::resume_step;

verus! {

/// The per-slot views of a connection table; `None` marks a torn-down or
/// never-used slot.
pub open spec fn views_of(s: Seq<Option<Conn>>) -> Seq<Option<ConnView>> {
    Seq::new(
        s.len(),
        |i: int|
            if s[i] is Some {
                Some(s[i]->0@)
            } else {
                None
            },
    )
}

/// Connection table: slot index is the resume token. Slots are never reused;
/// teardown leaves a `None` that absorbs stale signals.
pub struct Registry {
    pub slots: Vec<Option<Conn>>,
}

impl View for Registry {
    type V = Seq<Option<ConnView>>;

    open spec fn view(&self) -> Seq<Option<ConnView>> {
        views_of(self.slots@)
    }
}

/// Registering appends a slot; the new token is the slot's index.
pub open spec fn spec_register(s: Seq<Option<ConnView>>, c: ConnView) -> Seq<Option<ConnView>> {
    s.push(Some(c))
}

/// Teardown empties the token's slot and touches nothing else; an unknown
/// token changes nothing.
pub open spec fn spec_teardown(s: Seq<Option<ConnView>>, t: int) -> Seq<Option<ConnView>> {
    if 0 <= t < s.len() {
        s.update(t, None)
    } else {
        s
    }
}

/// A resume signal takes effect only on a live, parked connection.
pub open spec fn resume_applies(s: Seq<Option<ConnView>>, t: int) -> bool {
    &&& 0 <= t < s.len()
    &&& s[t] is Some
    &&& s[t]->0.phase == Phase::Suspended
}

/// A resume signal wakes exactly the named connection, or does nothing at
/// all when the token is stale.
pub open spec fn spec_resume(s: Seq<Option<ConnView>>, t: int) -> Seq<Option<ConnView>> {
    if resume_applies(s, t) {
        s.update(t, Some(resume_step(s[t]->0)))
    } else {
        s
    }
}

impl Registry {
    /// Every live connection in the table is well-formed.
    pub open spec fn wf(self) -> bool {
        forall|i: int|
            0 <= i < self@.len() && self@[i] is Some ==> (#[trigger] self@[i])->0.wf()
    }

    /// An empty table.
    pub fn new() -> (r: Registry)
        ensures
            r@ =~= Seq::<Option<ConnView>>::empty(),
            r.wf(),
    {
        Registry { slots: Vec::new() }
    }

    /// Accept a connection: mint the next token and store a fresh connection
    /// registered under it.
    pub fn accept(&mut self) -> (t: usize)
        requires
            old(self).wf(),
        ensures
            final(self).wf(),
            t == old(self)@.len(),
            final(self)@ =~= spec_register(old(self)@, crate::conn::fresh_conn(t)),
    {
        let t = self.slots.len();
        let c = Conn::new(t);
        self.slots.push(Some(c));
        proof {
            assert(self@ =~= spec_register(old(self)@, crate::conn::fresh_conn(t)));
        }
        t
    }

    /// Drop the token's connection, if any. Only that slot changes.
    pub fn teardown(&mut self, t: usize)
        requires
            old(self).wf(),
        ensures
            final(self).wf(),
            final(self)@ =~= spec_teardown(old(self)@, t as int),
    {
        if t < self.slots.len() {
            self.slots.set(t, None);
            proof {
                assert(self@ =~= spec_teardown(old(self)@, t as int));
            }
        }
    }

    /// Deliver a resume signal for a token. Wakes the parked connection it
    /// names; a stale or spurious token is ignored.
    pub fn resume(&mut self, t: usize)
        requires
            old(self).wf(),
        ensures
            final(self).wf(),
            final(self)@ =~= spec_resume(old(self)@, t as int),
    {
        if t < self.slots.len() {
            let slot = &mut self.slots[t];
            match slot {
                Some(c) => {
                    if c.phase == Phase::Suspended {
                        c.on_resume();
                    }
                },
                None => {},
            }
            proof {
                assert(self@ =~= spec_resume(old(self)@, t as int));
            }
        }
    }
}

/// Isolation law: tearing one connection down, and any later resume signal
/// aimed at its now-stale token, leaves every other connection's slot exactly
/// as it was — and the stale token's slot stays empty.
pub proof fn lemma_abort_isolated(s: Seq<Option<ConnView>>, t: int, u: int)
    requires
        0 <= u < s.len(),
        u != t,
    ensures
        spec_teardown(s, t).len() == s.len(),
        spec_teardown(s, t)[u] == s[u],
        spec_resume(spec_teardown(s, t), t)[u] == s[u],
        0 <= t < s.len() ==> spec_resume(spec_teardown(s, t), t)[t] is None,
        spec_resume(s, t)[u] == s[u],
{
}

/// A resume signal whose token names no live, parked connection changes
/// nothing at all.
pub proof fn lemma_stale_resume_no_op(s: Seq<Option<ConnView>>, t: int)
    requires
        !resume_applies(s, t),
    ensures
        spec_resume(s, t) =~= s,
{
}

} // verus!
