//! Snapshot of a project as the titlebar reads it: who hosts it, and its
//! visible worktrees in the project's own order.

use vstd::prelude::*;

verus! {

/// Identifies one peer of a collaboration session.
#[derive(Clone, Copy, Debug, PartialEq, Eq, Structural)]
pub struct PeerId {
    pub owner_id: u32,
    pub id: u32,
}

/// The peer that shares a project, and the user behind it.
#[derive(Clone, Copy, Debug, PartialEq, Eq, Structural)]
pub struct Collaborator {
    pub peer_id: PeerId,
    pub user_id: u64,
}

/// The state of a worktree's repository, as far as the titlebar shows it.
#[derive(Debug, PartialEq, Eq)]
pub struct RepositoryEntry {
    pub branch: Option<String>,
}

pub struct RepositoryEntryView {
    pub branch: Option<Seq<char>>,
}

impl View for RepositoryEntry {
    type V = RepositoryEntryView;

    open spec fn view(&self) -> RepositoryEntryView {
        RepositoryEntryView {
            branch: self.branch.deep_view(),
        }
    }
}

impl DeepView for RepositoryEntry {
    type V = RepositoryEntryView;

    open spec fn deep_view(&self) -> RepositoryEntryView {
        self@
    }
}

/// One root directory of a project.
#[derive(Debug, PartialEq, Eq)]
pub struct Worktree {
    pub root_name: String,
    pub root_git_entry: Option<RepositoryEntry>,
}

pub struct WorktreeView {
    pub root_name: Seq<char>,
    pub root_git_entry: Option<RepositoryEntryView>,
}

impl WorktreeView {
    /// The branch that the worktree's root repository is on, if it has a
    /// repository and the repository has a branch.
    pub open spec fn branch(self) -> Option<Seq<char>> {
        match self.root_git_entry {
            Some(entry) => entry.branch,
            None => None,
        }
    }
}

impl View for Worktree {
    type V = WorktreeView;

    open spec fn view(&self) -> WorktreeView {
        WorktreeView {
            root_name: self.root_name@,
            root_git_entry: self.root_git_entry.deep_view(),
        }
    }
}

impl DeepView for Worktree {
    type V = WorktreeView;

    open spec fn deep_view(&self) -> WorktreeView {
        self@
    }
}

impl Worktree {
    /// The branch of the root repository, absent where there is no repository
    /// or the repository is on no branch.
    pub fn branch(&self) -> (r: Option<&String>)
        ensures
            match self@.branch() {
                Some(b) => r matches Some(s) && s@ == b,
                None => r is None,
            },
    {
        match &self.root_git_entry {
            Some(entry) => match &entry.branch {
                Some(b) => Some(b),
                None => None,
            },
            None => None,
        }
    }
}

/// What the titlebar reads of a project.
#[derive(Debug, PartialEq, Eq)]
pub struct Project {
    pub host: Option<Collaborator>,
    pub visible_worktrees: Vec<Worktree>,
}

pub struct ProjectView {
    pub host: Option<Collaborator>,
    pub visible_worktrees: Seq<WorktreeView>,
}

impl View for Project {
    type V = ProjectView;

    open spec fn view(&self) -> ProjectView {
        ProjectView {
            host: self.host,
            visible_worktrees: self.visible_worktrees.deep_view(),
        }
    }
}

impl DeepView for Project {
    type V = ProjectView;

    open spec fn deep_view(&self) -> ProjectView {
        self@
    }
}

impl ProjectView {
    /// The user who hosts the project, where it is shared.
    pub open spec fn host_user_id(self) -> Option<u64> {
        match self.host {
            Some(host) => Some(host.user_id),
            None => None,
        }
    }
}

impl Project {
    /// The user who hosts the project, where it is shared: the one user whose
    /// records in the user directory the titlebar reads.
    pub fn host_user_id(&self) -> (r: Option<u64>)
        ensures
            r == self@.host_user_id(),
    {
        match self.host {
            Some(host) => Some(host.user_id),
            None => None,
        }
    }
}

} // verus!
