//! Opening and closing the overlays that hang from the titlebar's triggers,
//! and handing the input focus to the overlay that was opened last.
//!
//! Each anchor is either closed or open with one overlay. Building an overlay
//! is the toolkit's work and may fail; the controller is told how it went.

use crate::element::ElementId;
use crate::handle::EntityId;
use vstd::prelude::*;

verus! {

/// Names something that can hold the input focus.
#[derive(Clone, Copy, Debug, PartialEq, Eq, Structural)]
pub struct FocusHandle(pub u64);

/// An overlay that the toolkit has built.
#[derive(Clone, Copy, Debug, PartialEq, Eq, Structural)]
pub struct Overlay {
    pub entity_id: EntityId,
    pub focus_handle: FocusHandle,
}

/// Why an overlay could not be built.
#[derive(Debug, PartialEq, Eq)]
pub struct BuildError {
    pub message: String,
}

/// An open overlay and the trigger that it hangs from.
#[derive(Clone, Copy, Debug, PartialEq, Eq, Structural)]
pub struct PopoverSession {
    pub anchor: ElementId,
    pub overlay: Overlay,
}

/// The overlay that is open at each anchor, where a later session replaces an
/// earlier one at the same anchor.
spec fn sessions_map(sessions: Seq<PopoverSession>) -> Map<ElementId, Overlay>
    decreases sessions.len(),
{
    if sessions.len() == 0 {
        Map::empty()
    } else {
        sessions_map(sessions.drop_last()).insert(sessions.last().anchor, sessions.last().overlay)
    }
}

/// No two sessions hang from the same anchor.
spec fn anchors_distinct(sessions: Seq<PopoverSession>) -> bool {
    forall|i: int, j: int|
        0 <= i < j < sessions.len() ==> (#[trigger] sessions[i]).anchor != (
        #[trigger] sessions[j]).anchor
}

proof fn lemma_sessions_map_push(sessions: Seq<PopoverSession>, session: PopoverSession)
    ensures
        sessions_map(sessions.push(session)) == sessions_map(sessions).insert(
            session.anchor,
            session.overlay,
        ),
{
    assert(sessions.push(session).drop_last() =~= sessions);
}

proof fn lemma_sessions_map_dom(sessions: Seq<PopoverSession>, anchor: ElementId)
    ensures
        sessions_map(sessions).contains_key(anchor) <==> exists|j: int|
            0 <= j < sessions.len() && (#[trigger] sessions[j]).anchor == anchor,
    decreases sessions.len(),
{
    if sessions.len() > 0 {
        let front = sessions.drop_last();
        lemma_sessions_map_dom(front, anchor);
        if sessions_map(sessions).contains_key(anchor) {
            if sessions.last().anchor == anchor {
                assert(sessions[sessions.len() - 1].anchor == anchor);
            } else {
                let j = choose|j: int| 0 <= j < front.len() && (#[trigger] front[j]).anchor == anchor;
                assert(sessions[j].anchor == anchor);
            }
        }
        if exists|j: int| 0 <= j < sessions.len() && (#[trigger] sessions[j]).anchor == anchor {
            let j = choose|j: int|
                0 <= j < sessions.len() && (#[trigger] sessions[j]).anchor == anchor;
            if j < front.len() {
                assert(front[j].anchor == anchor);
            }
        }
    }
}

/// The sessions but the one at `anchor`, in their order.
fn without(sessions: &Vec<PopoverSession>, anchor: ElementId) -> (r: Vec<PopoverSession>)
    requires
        anchors_distinct(sessions@),
    ensures
        sessions_map(r@) == sessions_map(sessions@).remove(anchor),
        anchors_distinct(r@),
{
    let mut r: Vec<PopoverSession> = Vec::new();
    let mut i: usize = 0;
    assert(sessions@.take(0) =~= Seq::<PopoverSession>::empty());
    assert(sessions_map(r@) =~= sessions_map(sessions@.take(0)).remove(anchor));
    while i < sessions.len()
        invariant
            i <= sessions.len(),
            anchors_distinct(sessions@),
            anchors_distinct(r@),
            sessions_map(r@) == sessions_map(sessions@.take(i as int)).remove(anchor),
        decreases sessions.len() - i,
    {
        let session = sessions[i];
        proof {
            assert(sessions@.take(i + 1) =~= sessions@.take(i as int).push(session));
            lemma_sessions_map_push(sessions@.take(i as int), session);
        }
        if session.anchor != anchor {
            proof {
                lemma_sessions_map_push(r@, session);
                assert forall|k: int| 0 <= k < r.len() implies (#[trigger] r[k]).anchor
                    != session.anchor by {
                    lemma_sessions_map_dom(r@, r[k].anchor);
                    lemma_sessions_map_dom(sessions@.take(i as int), r[k].anchor);
                    let j = choose|j: int|
                        0 <= j < i && (#[trigger] sessions@.take(i as int)[j]).anchor
                            == r[k].anchor;
                    assert(sessions[j].anchor == r[k].anchor);
                }
                assert(sessions_map(r@.push(session)) =~= sessions_map(
                    sessions@.take(i + 1),
                ).remove(anchor));
            }
            r.push(session);
        } else {
            assert(sessions_map(r@) =~= sessions_map(sessions@.take(i + 1)).remove(anchor));
        }
        i += 1;
    }
    assert(sessions@.take(sessions.len() as int) =~= sessions@);
    r
}

/// Which overlays are open, and which of them owns the input focus.
pub struct PopoverController {
    sessions: Vec<PopoverSession>,
    focus_owner: Option<ElementId>,
}

pub struct PopoverControllerView {
    /// The open overlay of each anchor that is not closed.
    pub open: Map<ElementId, Overlay>,
    /// The anchor whose overlay was handed the focus last and is still open.
    pub focus_owner: Option<ElementId>,
}

impl PopoverControllerView {
    /// Every anchor closed, and no overlay with the focus.
    pub open spec fn closed() -> Self {
        PopoverControllerView { open: Map::empty(), focus_owner: None }
    }

    /// Whether an overlay is open at `anchor`.
    pub open spec fn is_open(self, anchor: ElementId) -> bool {
        self.open.contains_key(anchor)
    }

    /// The focus handle that the controller handed the focus to, while its
    /// overlay is open.
    pub open spec fn focused(self) -> Option<FocusHandle> {
        match self.focus_owner {
            Some(anchor) => Some(self.open[anchor].focus_handle),
            None => None,
        }
    }

    /// At most one overlay owns the focus, and it is an open one.
    pub open spec fn wf(self) -> bool {
        self.focus_owner matches Some(anchor) ==> self.is_open(anchor)
    }

    /// The state after the trigger at `anchor` was activated and building its
    /// overlay ended as `built` says. An overlay that was built is open at
    /// the anchor, in place of one that was open there, and owns the focus.
    /// A failure changes nothing.
    pub open spec fn activate(self, anchor: ElementId, built: Result<Overlay, BuildError>) -> Self {
        match built {
            Ok(overlay) => PopoverControllerView {
                open: self.open.insert(anchor, overlay),
                focus_owner: Some(anchor),
            },
            Err(_) => self,
        }
    }

    /// The state after the overlay at `anchor` was dismissed or lost the
    /// focus: the anchor is closed, and if its overlay owned the focus, no
    /// overlay owns it any more.
    pub open spec fn dismiss(self, anchor: ElementId) -> Self {
        PopoverControllerView {
            open: self.open.remove(anchor),
            focus_owner: if self.focus_owner == Some(anchor) {
                None
            } else {
                self.focus_owner
            },
        }
    }
}

/// Activation and dismissal keep the focus with at most one overlay, which is
/// open.
pub proof fn lemma_transitions_keep_wf(
    state: PopoverControllerView,
    anchor: ElementId,
    built: Result<Overlay, BuildError>,
)
    requires
        state.wf(),
    ensures
        PopoverControllerView::closed().wf(),
        state.activate(anchor, built).wf(),
        state.dismiss(anchor).wf(),
{
}

/// An anchor goes from closed to open and back to closed: an overlay that is
/// opened at a closed anchor and then dismissed leaves the open overlays as
/// they were, and none of them with the focus that it took.
pub proof fn lemma_open_then_dismiss(
    state: PopoverControllerView,
    anchor: ElementId,
    overlay: Overlay,
)
    requires
        !state.is_open(anchor),
    ensures
        state.activate(anchor, Ok(overlay)).is_open(anchor),
        state.activate(anchor, Ok(overlay)).focused() == Some(overlay.focus_handle),
        state.activate(anchor, Ok(overlay)).dismiss(anchor).open == state.open,
        state.activate(anchor, Ok(overlay)).dismiss(anchor).focus_owner is None,
{
    assert(state.open.insert(anchor, overlay).remove(anchor) =~= state.open);
}

/// What happens at one anchor leaves the overlays at the other anchors as
/// they are.
pub proof fn lemma_other_anchors_untouched(
    state: PopoverControllerView,
    anchor: ElementId,
    built: Result<Overlay, BuildError>,
    other: ElementId,
)
    requires
        other != anchor,
    ensures
        state.activate(anchor, built).is_open(other) == state.is_open(other),
        state.dismiss(anchor).is_open(other) == state.is_open(other),
        state.is_open(other) ==> state.activate(anchor, built).open[other] == state.open[other]
            && state.dismiss(anchor).open[other] == state.open[other],
{
}

/// A failure to build an overlay opens nothing and moves no focus.
pub proof fn lemma_failed_build_changes_nothing(
    state: PopoverControllerView,
    anchor: ElementId,
    error: BuildError,
)
    ensures
        state.activate(anchor, Err(error)) == state,
{
}

impl View for PopoverController {
    type V = PopoverControllerView;

    closed spec fn view(&self) -> PopoverControllerView {
        PopoverControllerView {
            open: sessions_map(self.sessions@),
            focus_owner: self.focus_owner,
        }
    }
}

impl PopoverController {
    #[verifier::type_invariant]
    spec fn inv(&self) -> bool {
        &&& anchors_distinct(self.sessions@)
        &&& self.focus_owner matches Some(anchor) ==> sessions_map(self.sessions@).contains_key(
            anchor,
        )
    }

    /// A controller with every anchor closed.
    pub fn new() -> (r: Self)
        ensures
            r@ == PopoverControllerView::closed(),
    {
        PopoverController { sessions: Vec::new(), focus_owner: None }
    }

    /// The overlay that is open at `anchor`, absent where the anchor is closed.
    pub fn overlay(&self, anchor: ElementId) -> (r: Option<Overlay>)
        ensures
            r == if self@.is_open(anchor) {
                Some(self@.open[anchor])
            } else {
                None
            },
    {
        let mut found: Option<Overlay> = None;
        let mut i: usize = 0;
        assert(self.sessions@.take(0) =~= Seq::<PopoverSession>::empty());
        while i < self.sessions.len()
            invariant
                i <= self.sessions.len(),
                found == if sessions_map(self.sessions@.take(i as int)).contains_key(anchor) {
                    Some(sessions_map(self.sessions@.take(i as int))[anchor])
                } else {
                    None
                },
            decreases self.sessions.len() - i,
        {
            let session = self.sessions[i];
            proof {
                assert(self.sessions@.take(i + 1) =~= self.sessions@.take(i as int).push(session));
                lemma_sessions_map_push(self.sessions@.take(i as int), session);
            }
            if session.anchor == anchor {
                found = Some(session.overlay);
            }
            i += 1;
        }
        assert(self.sessions@.take(self.sessions.len() as int) =~= self.sessions@);
        found
    }

    /// Whether an overlay is open at `anchor`.
    pub fn is_open(&self, anchor: ElementId) -> (r: bool)
        ensures
            r == self@.is_open(anchor),
    {
        self.overlay(anchor).is_some()
    }

    /// The anchor whose overlay owns the input focus, if one does.
    pub fn focus_owner(&self) -> (r: Option<ElementId>)
        ensures
            r == self@.focus_owner,
            self@.wf(),
    {
        proof {
            use_type_invariant(self);
        }
        self.focus_owner
    }

    /// The trigger at `anchor` was activated and the toolkit has tried to
    /// build its overlay. Where it was built, the anchor is open with it, in
    /// place of an overlay that was open there, and the focus goes to it.
    /// Where building failed, nothing opens and nothing changes: the failure
    /// ends here.
    pub fn activate(&mut self, anchor: ElementId, built: Result<Overlay, BuildError>) -> (r:
        Option<Overlay>)
        ensures
            final(self)@ == old(self)@.activate(anchor, built),
            r == match built {
                Ok(overlay) => Some(overlay),
                Err(_) => None,
            },
            final(self)@.wf(),
    {
        proof {
            use_type_invariant(&*self);
        }
        match built {
            Ok(overlay) => {
                let mut sessions = without(&self.sessions, anchor);
                let session = PopoverSession { anchor, overlay };
                proof {
                    lemma_sessions_map_push(sessions@, session);
                    assert forall|k: int| 0 <= k < sessions.len() implies (
                    #[trigger] sessions[k]).anchor != anchor by {
                        lemma_sessions_map_dom(sessions@, sessions[k].anchor);
                    }
                    assert(sessions_map(sessions@.push(session)) =~= sessions_map(
                        self.sessions@,
                    ).insert(anchor, overlay));
                }
                sessions.push(session);
                *self = PopoverController { sessions, focus_owner: Some(anchor) };
                Some(overlay)
            },
            Err(_) => None,
        }
    }

    /// The overlay at `anchor` was dismissed or lost the focus: the anchor is
    /// closed. If its overlay owned the focus, no overlay owns it any more;
    /// where the focus goes is the overlay's business.
    pub fn dismiss(&mut self, anchor: ElementId)
        ensures
            final(self)@ == old(self)@.dismiss(anchor),
            final(self)@.wf(),
    {
        proof {
            use_type_invariant(&*self);
        }
        let sessions = without(&self.sessions, anchor);
        let focus_owner = match self.focus_owner {
            Some(owner) => if owner == anchor {
                None
            } else {
                Some(owner)
            },
            None => None,
        };
        *self = PopoverController { sessions, focus_owner };
    }
}

} // verus!
