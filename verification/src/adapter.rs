use vstd::prelude::*;

use crate::error::ProtocolError;
use crate::session::Session;
use crate::update::TreeUpdate;
use crate::update::TreeUpdateView;

verus! {

/// One batch of platform events, produced by an adapter operation. The
/// caller must raise the batch on the calling thread immediately after the
/// operation returns, before any other adapter operation: batches are
/// neither deferrable nor mergeable across calls.
#[derive(Clone, Copy, Debug, PartialEq, Eq, Structural)]
pub enum EventBatch {
    /// Events that describe the diff introduced by an applied tree update.
    TreeUpdated,
    /// Events that follow a change of the host view's focus state; the
    /// payload is the new state.
    ViewFocusChanged(bool),
}

/// The decision core of a platform adapter.
///
/// The adapter tracks whether an assistive-technology client is active and
/// whether the host view holds OS-level input focus. Its central rule is
/// laziness: `update_if_active` consults a caller-supplied tree supplier
/// only while a client is active, so that no tree is ever built for nobody.
/// The platform-specific work around these decisions — subclassing the
/// native view, translating an update into native events, raising them —
/// belongs to the unverified shell.
pub struct Adapter {
    client_active: bool,
    view_focused: bool,
    applied: Ghost<Seq<TreeUpdateView>>,
}

impl Adapter {
    /// Whether an assistive-technology client is currently active.
    pub closed spec fn spec_client_active(&self) -> bool {
        self.client_active
    }

    /// Whether the host view holds OS-level input focus.
    pub closed spec fn spec_view_focused(&self) -> bool {
        self.view_focused
    }

    /// Every update the adapter has applied, in order of application.
    pub closed spec fn applied(&self) -> Seq<TreeUpdateView> {
        self.applied@
    }

    /// A fresh adapter: no client active, view not focused, nothing
    /// applied yet.
    pub fn new() -> (a: Adapter)
        ensures
            !a.spec_client_active(),
            !a.spec_view_focused(),
            a.applied() == Seq::<TreeUpdateView>::empty(),
    {
        Adapter { client_active: false, view_focused: false, applied: Ghost(Seq::empty()) }
    }

    /// Records the platform's report that an assistive-technology client
    /// became active or inactive.
    pub fn set_client_active(&mut self, active: bool)
        ensures
            final(self).spec_client_active() == active,
            final(self).spec_view_focused() == old(self).spec_view_focused(),
            final(self).applied() == old(self).applied(),
    {
        self.client_active = active;
    }

    /// Whether an assistive-technology client is currently active.
    pub fn is_client_active(&self) -> (r: bool)
        ensures
            r == self.spec_client_active(),
    {
        self.client_active
    }

    /// The lazy update path: while a client is active, pulls one batch from
    /// the supplier, applies it, and returns the events to raise; while no
    /// client is active, returns nothing and leaves the supplier uncalled —
    /// the whole point of the discipline is that tree construction is
    /// skipped when nobody is listening.
    pub fn update_if_active<F: FnOnce() -> TreeUpdate>(&mut self, supplier: F) -> (r: Option<
        EventBatch,
    >)
        requires
            old(self).spec_client_active() ==> call_requires(supplier, ()),
        ensures
            r is Some <==> old(self).spec_client_active(),
            r is Some ==> r == Some(EventBatch::TreeUpdated),
            final(self).spec_client_active() == old(self).spec_client_active(),
            final(self).spec_view_focused() == old(self).spec_view_focused(),
            !old(self).spec_client_active() ==> final(self).applied() == old(self).applied(),
            old(self).spec_client_active() ==> exists|u: TreeUpdate|
                #[trigger] call_ensures(supplier, (), u) && final(self).applied() == old(
                    self,
                ).applied().push(u@),
    {
        if self.client_active {
            let update = supplier();
            self.applied = Ghost(self.applied@.push(update@));
            Some(EventBatch::TreeUpdated)
        } else {
            None
        }
    }

    /// Records that the host view gained or lost OS-level input focus, and
    /// returns the focus-change events to raise while a client is active.
    pub fn update_view_focus_state(&mut self, is_focused: bool) -> (r: Option<EventBatch>)
        ensures
            final(self).spec_view_focused() == is_focused,
            final(self).spec_client_active() == old(self).spec_client_active(),
            final(self).applied() == old(self).applied(),
            r is Some <==> old(self).spec_client_active(),
            r is Some ==> r == Some(EventBatch::ViewFocusChanged(is_focused)),
    {
        self.view_focused = is_focused;
        if self.client_active {
            Some(EventBatch::ViewFocusChanged(is_focused))
        } else {
            None
        }
    }
}

/// The activation bridge's resolution step. When the engine requests an
/// initial tree, caller-side logic answers with a handle: 0 is the sentinel
/// for "no tree available yet", and any other value must name a live update
/// batch, which is consumed out of the registry and handed to the engine.
/// A dead non-sentinel handle is refused explicitly and the registry is
/// left untouched.
pub fn resolve_initial_tree(session: &mut Session, handle: u64) -> (r: Result<
    Option<TreeUpdate>,
    ProtocolError,
>)
    ensures
        handle == 0 ==> (r matches Ok(None)) && final(session)@ == old(session)@,
        handle != 0 && old(session)@.update_live(handle) ==> (r matches Ok(Some(u))
            && u@ == old(session)@.update_at(handle)) && final(session)@ == old(
            session,
        )@.without_update(handle),
        handle != 0 && !old(session)@.update_live(handle) ==> r == Err::<
            Option<TreeUpdate>,
            ProtocolError,
        >(ProtocolError::InvalidHandle) && final(session)@ == old(session)@,
{
    if handle == 0 {
        Ok(None)
    } else {
        match session.update_consume(handle) {
            Ok(update) => Ok(Some(update)),
            Err(e) => Err(e),
        }
    }
}

} // verus!
