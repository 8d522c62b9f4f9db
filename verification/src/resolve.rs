//! Resolving what the titlebar shows from the project and the user directory:
//! the project's name, the active branch, and the host of a shared project.
//! A fact that cannot be found is absent; none of this fails.

use crate::project::{PeerId, Project, ProjectView, WorktreeView};
use crate::truncate::{truncate_and_trailoff, truncated};
use crate::user_store::{ParticipantIndex, UserStore, UserStoreView};
use vstd::prelude::*;

verus! {

/// The longest project name that is shown, the ellipsis marker included.
pub const MAX_PROJECT_NAME_LENGTH: usize = 40;

/// The longest branch name that is shown, the ellipsis marker included.
pub const MAX_BRANCH_NAME_LENGTH: usize = 40;

/// The name of the open project: the root name of the first visible worktree,
/// whatever the others are called. Absent where the project has no visible
/// worktree.
pub open spec fn project_name(worktrees: Seq<WorktreeView>) -> Option<Seq<char>> {
    if worktrees.len() == 0 {
        None
    } else {
        Some(worktrees[0].root_name)
    }
}

/// The active branch: the branch of the first visible worktree that has one.
/// Worktrees without a repository, or whose repository is on no branch, are
/// passed over. Absent where no worktree has a branch.
pub open spec fn active_branch(worktrees: Seq<WorktreeView>) -> Option<Seq<char>>
    decreases worktrees.len(),
{
    if worktrees.len() == 0 {
        None
    } else {
        match worktrees[0].branch() {
            Some(branch) => Some(branch),
            None => active_branch(worktrees.drop_first()),
        }
    }
}

/// `s` bounded to `max_chars` characters, where there is an `s`.
pub open spec fn truncated_option(s: Option<Seq<char>>, max_chars: nat) -> Option<Seq<char>> {
    match s {
        Some(s) => Some(truncated(s, max_chars)),
        None => None,
    }
}

/// The host of a shared project, as the titlebar shows it.
#[derive(Debug, PartialEq, Eq)]
pub struct Host {
    pub github_login: String,
    pub participant_index: ParticipantIndex,
    /// The peer to follow, as it was when the host was resolved.
    pub peer_id: PeerId,
}

pub struct HostView {
    pub github_login: Seq<char>,
    pub participant_index: ParticipantIndex,
    pub peer_id: PeerId,
}

impl View for Host {
    type V = HostView;

    open spec fn view(&self) -> HostView {
        HostView {
            github_login: self.github_login@,
            participant_index: self.participant_index,
            peer_id: self.peer_id,
        }
    }
}

impl DeepView for Host {
    type V = HostView;

    open spec fn deep_view(&self) -> HostView {
        self@
    }
}

/// The host of the project: present where the project is shared, the host's
/// record is cached, and the host takes part in the session.
pub open spec fn project_host(project: ProjectView, users: UserStoreView) -> Option<HostView> {
    match project.host {
        Some(host) => if users.users.contains_key(host.user_id)
            && users.participant_indices.contains_key(host.user_id) {
            Some(
                HostView {
                    github_login: users.users[host.user_id].github_login,
                    participant_index: users.participant_indices[host.user_id],
                    peer_id: host.peer_id,
                },
            )
        } else {
            None
        },
        None => None,
    }
}

/// The project's name is that of the first visible worktree, and bounding it
/// leaves a name that fits unchanged.
pub proof fn lemma_project_name_is_first_root_name(worktrees: Seq<WorktreeView>)
    requires
        worktrees.len() > 0,
    ensures
        project_name(worktrees) == Some(worktrees[0].root_name),
        worktrees[0].root_name.len() <= MAX_PROJECT_NAME_LENGTH ==> truncated_option(
            project_name(worktrees),
            MAX_PROJECT_NAME_LENGTH as nat,
        ) == Some(worktrees[0].root_name),
{
}

/// The host is resolved from the records of the hosting user alone: two
/// states of the user directory that agree on that user give the same host,
/// whatever else they hold.
pub proof fn lemma_host_reads_only_host_records(
    project: ProjectView,
    users: UserStoreView,
    others: UserStoreView,
)
    requires
        project.host_user_id() matches Some(id) ==> {
            &&& users.users.contains_key(id) == others.users.contains_key(id)
            &&& users.users.contains_key(id) ==> users.users[id] == others.users[id]
            &&& users.participant_indices.contains_key(id)
                == others.participant_indices.contains_key(id)
            &&& users.participant_indices.contains_key(id) ==> users.participant_indices[id]
                == others.participant_indices[id]
        },
    ensures
        project_host(project, users) == project_host(project, others),
{
}

/// Worktrees without a branch at the front do not change the active branch.
pub proof fn lemma_active_branch_skips(worktrees: Seq<WorktreeView>, n: int)
    requires
        0 <= n <= worktrees.len(),
        forall|j: int| 0 <= j < n ==> (#[trigger] worktrees[j]).branch() is None,
    ensures
        active_branch(worktrees) == active_branch(worktrees.skip(n)),
    decreases n,
{
    if n == 0 {
        assert(worktrees.skip(0) =~= worktrees);
    } else {
        lemma_active_branch_skips(worktrees, n - 1);
        let rest = worktrees.skip(n - 1);
        assert(rest[0] == worktrees[n - 1]);
        assert(rest.drop_first() =~= worktrees.skip(n));
    }
}

/// The first worktree with a branch decides, not the first worktree: where
/// the worktree at `i` has a branch and none before it has one, that branch
/// is the active branch.
pub proof fn lemma_active_branch_first_with_branch(worktrees: Seq<WorktreeView>, i: int)
    requires
        0 <= i < worktrees.len(),
        worktrees[i].branch() is Some,
        forall|j: int| 0 <= j < i ==> (#[trigger] worktrees[j]).branch() is None,
    ensures
        active_branch(worktrees) == worktrees[i].branch(),
{
    lemma_active_branch_skips(worktrees, i);
    assert(worktrees.skip(i)[0] == worktrees[i]);
}

/// There is no active branch exactly where no worktree has a branch.
pub proof fn lemma_active_branch_absent(worktrees: Seq<WorktreeView>)
    ensures
        active_branch(worktrees) is None <==> forall|j: int|
            0 <= j < worktrees.len() ==> (#[trigger] worktrees[j]).branch() is None,
    decreases worktrees.len(),
{
    if worktrees.len() > 0 {
        let rest = worktrees.drop_first();
        lemma_active_branch_absent(rest);
        assert(forall|j: int| 0 <= j < rest.len() ==> rest[j] == worktrees[j + 1]);
        if active_branch(worktrees) is None {
            assert forall|j: int| 0 <= j < worktrees.len() implies (
            #[trigger] worktrees[j]).branch() is None by {
                if j > 0 {
                    assert(rest[j - 1] == worktrees[j]);
                }
            }
        }
    }
}

/// The name to show for the open project, bounded to
/// `MAX_PROJECT_NAME_LENGTH` characters; absent where no project is open.
pub fn resolve_project_name(project: &Project) -> (r: Option<String>)
    ensures
        r.deep_view() == truncated_option(
            project_name(project@.visible_worktrees),
            MAX_PROJECT_NAME_LENGTH as nat,
        ),
        project@.visible_worktrees.len() == 0 <==> r is None,
        r matches Some(name) ==> name@.len() <= MAX_PROJECT_NAME_LENGTH,
{
    if project.visible_worktrees.len() == 0 {
        None
    } else {
        let worktree = &project.visible_worktrees[0];
        Some(truncate_and_trailoff(worktree.root_name.as_str(), MAX_PROJECT_NAME_LENGTH))
    }
}

/// The name to show for the active branch, bounded to
/// `MAX_BRANCH_NAME_LENGTH` characters; absent where no worktree has a branch.
pub fn resolve_branch(project: &Project) -> (r: Option<String>)
    ensures
        r.deep_view() == truncated_option(
            active_branch(project@.visible_worktrees),
            MAX_BRANCH_NAME_LENGTH as nat,
        ),
        r matches Some(name) ==> name@.len() <= MAX_BRANCH_NAME_LENGTH,
{
    let ghost worktrees = project@.visible_worktrees;
    let mut i: usize = 0;
    while i < project.visible_worktrees.len()
        invariant
            i <= project.visible_worktrees.len(),
            worktrees == project@.visible_worktrees,
            forall|j: int| 0 <= j < i ==> (#[trigger] worktrees[j]).branch() is None,
        decreases project.visible_worktrees.len() - i,
    {
        if let Some(branch) = project.visible_worktrees[i].branch() {
            proof {
                lemma_active_branch_first_with_branch(worktrees, i as int);
            }
            return Some(truncate_and_trailoff(branch.as_str(), MAX_BRANCH_NAME_LENGTH));
        }
        i += 1;
    }
    proof {
        lemma_active_branch_absent(worktrees);
    }
    None
}

/// The host of the project. Nothing is fetched: a host whose record is not
/// cached, or who takes no part in the session, is absent.
pub fn resolve_host(project: &Project, user_store: &UserStore) -> (r: Option<Host>)
    ensures
        r.deep_view() == project_host(project@, user_store@),
        project@.host is None ==> r is None,
        project@.host matches Some(host) ==> (r is Some <==> user_store@.users.contains_key(
            host.user_id,
        ) && user_store@.participant_indices.contains_key(host.user_id)),
{
    let host = match project.host {
        Some(host) => host,
        None => { return None; },
    };
    let host_user = match user_store.get_cached_user(host.user_id) {
        Some(user) => user,
        None => { return None; },
    };
    let participant_index = match user_store.participant_index(host_user.id) {
        Some(index) => index,
        None => { return None; },
    };
    Some(
        Host {
            github_login: host_user.github_login.clone(),
            participant_index,
            peer_id: host.peer_id,
        },
    )
}

} // verus!
