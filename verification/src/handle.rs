//! Handles to state that the titlebar reads and does not own.

use vstd::prelude::*;

verus! {

/// Names one store of the application: a workspace, a project, a user
/// directory.
#[derive(Clone, Copy, Debug, PartialEq, Eq, Structural)]
pub struct EntityId(pub u64);

/// A handle that keeps its workspace alive.
#[derive(Clone, Copy, Debug, PartialEq, Eq, Structural)]
pub struct WorkspaceHandle {
    pub entity_id: EntityId,
}

/// A handle that does not keep its workspace alive: whether the workspace is
/// still there is only known at the moment the handle is upgraded.
#[derive(Clone, Copy, Debug, PartialEq, Eq, Structural)]
pub struct WeakWorkspaceHandle {
    pub entity_id: EntityId,
}

impl WorkspaceHandle {
    /// The weak handle to the same workspace.
    pub fn downgrade(&self) -> (r: WeakWorkspaceHandle)
        ensures
            r.entity_id == self.entity_id,
    {
        WeakWorkspaceHandle { entity_id: self.entity_id }
    }
}

} // verus!
