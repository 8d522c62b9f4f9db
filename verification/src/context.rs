//! What a titlebar is given to read in one render pass, and what it is made
//! from.

use crate::handle::{EntityId, WorkspaceHandle};
use crate::project::{Project, ProjectView};
use crate::user_store::{UserStore, UserStoreView};
use vstd::prelude::*;

verus! {

/// How the window lies on the screen.
#[derive(Clone, Copy, Debug, PartialEq, Eq, Structural)]
pub enum WindowBounds {
    Fullscreen,
    Maximized,
    Fixed,
}

/// The state of the stores at the time of a render pass. The titlebar reads
/// it and changes none of it.
#[derive(Debug)]
pub struct Context {
    pub project: Project,
    pub user_store: UserStore,
    /// The owning workspace, as far as it is still there: what upgrading the
    /// titlebar's weak handle gave.
    pub workspace: Option<WorkspaceHandle>,
    pub window_bounds: WindowBounds,
}

pub struct ContextView {
    pub project: ProjectView,
    pub user_store: UserStoreView,
    pub workspace: Option<WorkspaceHandle>,
    pub window_bounds: WindowBounds,
}

impl View for Context {
    type V = ContextView;

    open spec fn view(&self) -> ContextView {
        ContextView {
            project: self.project@,
            user_store: self.user_store@,
            workspace: self.workspace,
            window_bounds: self.window_bounds,
        }
    }
}

/// The workspace that a titlebar is made for: its own handle, and the stores
/// that it holds.
#[derive(Clone, Copy, Debug, PartialEq, Eq, Structural)]
pub struct Workspace {
    pub handle: WorkspaceHandle,
    pub project: EntityId,
    pub user_store: EntityId,
}

/// A registration with a store: whenever the store changes, its holder is
/// told. It lasts as long as its holder.
#[derive(Clone, Copy, Debug, PartialEq, Eq, Structural)]
pub struct Subscription {
    pub source: EntityId,
}

/// Whether one of `subscriptions` is a registration with `source`.
pub open spec fn observes(subscriptions: Seq<Subscription>, source: EntityId) -> bool {
    exists|i: int| 0 <= i < subscriptions.len() && (#[trigger] subscriptions[i]).source == source
}

/// Whether one of `subscriptions` is a registration with `source`.
pub fn is_observed(subscriptions: &Vec<Subscription>, source: EntityId) -> (r: bool)
    ensures
        r == observes(subscriptions@, source),
{
    let mut i: usize = 0;
    while i < subscriptions.len()
        invariant
            i <= subscriptions.len(),
            forall|j: int| 0 <= j < i ==> (#[trigger] subscriptions[j]).source != source,
        decreases subscriptions.len() - i,
    {
        if subscriptions[i].source == source {
            return true;
        }
        i += 1;
    }
    false
}

} // verus!
