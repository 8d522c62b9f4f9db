//! The titlebar of a workspace that takes part in collaboration: it names the
//! host of a shared project and knows who is signed in.

use crate::context::{is_observed, observes, Context, ContextView, Subscription, Workspace};
use crate::element::{
    Button, ButtonView, ClickAction, Color, ElementId, Label, LabelView, PopoverMenu,
    PopoverMenuView,
};
use crate::handle::{EntityId, WeakWorkspaceHandle, WorkspaceHandle};
use crate::project::PeerId;
use crate::resolve::active_branch;
use crate::popover::{BuildError, Overlay, PopoverController};
use crate::parts::{
    left_padding, project_branch_menu, project_host_button, project_name_menu,
    spec_left_padding, user_menu, whats_up, Titlebar, TitlebarView,
};
use vstd::prelude::*;

verus! {

/// The request to a workspace to follow a peer.
#[derive(Clone, Copy, Debug, PartialEq, Eq, Structural)]
pub struct Follow {
    pub workspace: WorkspaceHandle,
    pub peer_id: PeerId,
}

/// A titlebar with the handles of the stores that it shows. It owns its
/// registrations and none of the stores.
pub struct CollabTitlebarItem {
    project: EntityId,
    user_store: EntityId,
    workspace: WeakWorkspaceHandle,
    user: String,
    _subscriptions: Vec<Subscription>,
    dirty: bool,
}

pub struct CollabTitlebarItemView {
    /// The project that the titlebar shows.
    pub project: EntityId,
    /// The user directory that the titlebar reads.
    pub user_store: EntityId,
    /// The owning workspace, which the titlebar does not keep alive.
    pub workspace: WeakWorkspaceHandle,
    /// The name that the greeting uses.
    pub user: Seq<char>,
    /// The registrations that the titlebar holds for as long as it lives.
    pub subscriptions: Seq<Subscription>,
    /// Whether a store has changed since the titlebar was last rendered.
    pub dirty: bool,
}

impl View for CollabTitlebarItem {
    type V = CollabTitlebarItemView;

    closed spec fn view(&self) -> CollabTitlebarItemView {
        CollabTitlebarItemView {
            project: self.project,
            user_store: self.user_store,
            workspace: self.workspace,
            user: self.user@,
            subscriptions: self._subscriptions@,
            dirty: self.dirty,
        }
    }
}

impl CollabTitlebarItemView {
    /// The titlebar as it is right after it was made for `workspace`: it is
    /// registered with the workspace, the project and the user directory, in
    /// this order, and is yet to be rendered.
    pub open spec fn initial(workspace: Workspace, user: Option<Seq<char>>) -> Self {
        CollabTitlebarItemView {
            project: workspace.project,
            user_store: workspace.user_store,
            workspace: WeakWorkspaceHandle { entity_id: workspace.handle.entity_id },
            user: match user {
                Some(user) => user,
                None => Seq::empty(),
            },
            subscriptions: seq![
                Subscription { source: workspace.handle.entity_id },
                Subscription { source: workspace.project },
                Subscription { source: workspace.user_store },
            ],
            dirty: true,
        }
    }

    /// What the titlebar shows for the state `cx` of the stores. The user
    /// menu at its right is the one for whoever is signed in according to
    /// `cx`, or for nobody.
    pub open spec fn titlebar(self, cx: ContextView) -> TitlebarView {
        TitlebarView {
            id: ElementId::Titlebar,
            left_padding: spec_left_padding(cx.window_bounds),
            project_host: ButtonView::project_host(cx.project, cx.user_store),
            project_name: PopoverMenuView::project_name(
                self.workspace,
                cx.project.visible_worktrees,
            ),
            project_branch: PopoverMenuView::project_branch(
                cx.workspace,
                cx.project.visible_worktrees,
            ),
            greeting: Some(LabelView::whats_up(self.user)),
            user_menu: PopoverMenuView::user_menu(cx.user_store.current_user),
        }
    }
}

impl CollabTitlebarItem {
    /// The titlebar of `workspace`. `user` is the name to greet, taken once
    /// from the environment; where the environment has none, the greeting
    /// names nobody.
    pub fn new(workspace: &Workspace, user: Option<String>) -> (r: Self)
        ensures
            r@ == CollabTitlebarItemView::initial(*workspace, user.deep_view()),
    {
        let mut subscriptions: Vec<Subscription> = Vec::new();
        subscriptions.push(Subscription { source: workspace.handle.entity_id });
        subscriptions.push(Subscription { source: workspace.project });
        subscriptions.push(Subscription { source: workspace.user_store });
        let ghost initial = CollabTitlebarItemView::initial(*workspace, user.deep_view());
        let r = CollabTitlebarItem {
            workspace: workspace.handle.downgrade(),
            project: workspace.project,
            user_store: workspace.user_store,
            user: match user {
                Some(user) => user,
                None => String::new(),
            },
            _subscriptions: subscriptions,
            dirty: true,
        };
        assert(r@.subscriptions =~= initial.subscriptions);
        r
    }

    /// The store `source` has changed. If the titlebar is registered with it,
    /// the titlebar is to be rendered again, and says so.
    pub fn source_changed(&mut self, source: EntityId) -> (r: bool)
        ensures
            r == observes(old(self)@.subscriptions, source),
            final(self)@ == (CollabTitlebarItemView {
                dirty: old(self)@.dirty || r,
                ..old(self)@
            }),
    {
        let observed = is_observed(&self._subscriptions, source);
        if observed {
            self.dirty = true;
        }
        observed
    }

    /// Whether a store has changed since the titlebar was last rendered.
    pub fn needs_render(&self) -> (r: bool)
        ensures
            r == self@.dirty,
    {
        self.dirty
    }

    /// The project that the titlebar shows.
    pub fn project(&self) -> (r: EntityId)
        ensures
            r == self@.project,
    {
        self.project
    }

    /// The user directory that the titlebar reads.
    pub fn user_store(&self) -> (r: EntityId)
        ensures
            r == self@.user_store,
    {
        self.user_store
    }

    /// The owning workspace.
    pub fn workspace(&self) -> (r: WeakWorkspaceHandle)
        ensures
            r == self@.workspace,
    {
        self.workspace
    }

    /// The stores that the titlebar is registered with.
    pub fn subscriptions(&self) -> (r: &Vec<Subscription>)
        ensures
            r@ == self@.subscriptions,
    {
        &self._subscriptions
    }

    /// The titlebar for the state `cx` of the stores. Every part is resolved
    /// anew from `cx`; nothing of an earlier pass is kept.
    pub fn render(&mut self, cx: &Context) -> (r: Titlebar)
        ensures
            r@ == old(self)@.titlebar(cx@),
            r@.user_menu == PopoverMenuView::user_menu(cx@.user_store.current_user),
            r@.user_menu.trigger.avatar is Some <==> cx@.user_store.current_user is Some,
            final(self)@ == (CollabTitlebarItemView { dirty: false, ..old(self)@ }),
    {
        let project_host = self.render_project_host(cx);
        let project_name = self.render_project_name(cx);
        let project_branch = self.render_project_branch(cx);
        let greeting = self.render_whats_up(cx);
        let user_menu = self.render_user_menu_button(cx);
        self.dirty = false;
        Titlebar {
            id: ElementId::Titlebar,
            left_padding: left_padding(cx.window_bounds),
            project_host,
            project_name,
            project_branch,
            greeting: Some(greeting),
            user_menu,
        }
    }

    /// The button that names the host of a shared project. It is absent where
    /// the project is not shared, where the host's record is not cached, and
    /// where the host takes no part in the session.
    pub fn render_project_host(&self, cx: &Context) -> (r: Option<Button>)
        ensures
            r.deep_view() == ButtonView::project_host(cx@.project, cx@.user_store),
            r is Some <==> (cx@.project.host matches Some(host)
                && cx@.user_store.users.contains_key(host.user_id)
                && cx@.user_store.participant_indices.contains_key(host.user_id)),
    {
        project_host_button(&cx.project, &cx.user_store)
    }

    /// What a click on the host's button asks for: that the owning workspace
    /// follows the peer that the button was made for. Where the workspace is
    /// gone, nothing is asked.
    pub fn follow(&self, click: ClickAction, cx: &Context) -> (r: Option<Follow>)
        ensures
            match (click, cx@.workspace) {
                (ClickAction::FollowPeer(peer_id), Some(workspace)) => r == Some(
                    (Follow { workspace, peer_id }),
                ),
                _ => r is None,
            },
    {
        match (click, cx.workspace) {
            (ClickAction::FollowPeer(peer_id), Some(workspace)) => Some(
                Follow { workspace, peer_id },
            ),
            _ => None,
        }
    }

    /// The project's name with the menu of recent projects. Where the project
    /// has no visible worktree, a muted label stands in place of the name.
    pub fn render_project_name(&self, cx: &Context) -> (r: PopoverMenu)
        ensures
            r@ == PopoverMenuView::project_name(self@.workspace, cx@.project.visible_worktrees),
            cx@.project.visible_worktrees.len() == 0 ==> r@.trigger.label == Some(
                "Open recent project"@,
            ) && r@.trigger.color == Color::Muted,
    {
        project_name_menu(self.workspace, &cx.project)
    }

    /// The active branch with the menu of branches; absent where no worktree
    /// has a branch or the workspace is gone.
    pub fn render_project_branch(&self, cx: &Context) -> (r: Option<PopoverMenu>)
        ensures
            r.deep_view() == PopoverMenuView::project_branch(
                cx@.workspace,
                cx@.project.visible_worktrees,
            ),
            r is Some <==> cx@.workspace is Some && active_branch(
                cx@.project.visible_worktrees,
            ) is Some,
    {
        project_branch_menu(cx.workspace, &cx.project)
    }

    /// The trigger of the branch menu was activated and the toolkit has tried
    /// to build the list of branches. Where it was built, it is open at the
    /// trigger and has the focus. Where building failed, nothing opens and
    /// the failure goes no further.
    pub fn render_vcs_popover(
        built: Result<Overlay, BuildError>,
        popovers: &mut PopoverController,
    ) -> (r: Option<Overlay>)
        ensures
            final(popovers)@ == old(popovers)@.activate(ElementId::ProjectBranchTrigger, built),
            r == match built {
                Ok(overlay) => Some(overlay),
                Err(_) => None,
            },
            built is Err ==> final(popovers)@ == old(popovers)@,
            final(popovers)@.wf(),
    {
        popovers.activate(ElementId::ProjectBranchTrigger, built)
    }

    /// The trigger of the recent-projects menu was activated and the toolkit
    /// has built the list: it is open at the trigger and has the focus.
    pub fn render_project_popover(built: Overlay, popovers: &mut PopoverController) -> (r: Overlay)
        ensures
            r == built,
            final(popovers)@ == old(popovers)@.activate(ElementId::ProjectNameTrigger, Ok(built)),
            final(popovers)@.wf(),
    {
        popovers.activate(ElementId::ProjectNameTrigger, Ok(built));
        built
    }

    /// The greeting that stands before the user menu.
    pub fn render_whats_up(&mut self, _cx: &Context) -> (r: Label)
        ensures
            r@ == LabelView::whats_up(old(self)@.user),
            final(self)@ == old(self)@,
    {
        whats_up(self.user.as_str())
    }

    /// The user menu with its trigger. Who is signed in is looked up in `cx`
    /// at every call.
    pub fn render_user_menu_button(&mut self, cx: &Context) -> (r: PopoverMenu)
        ensures
            r@ == PopoverMenuView::user_menu(cx@.user_store.current_user),
            final(self)@ == old(self)@,
    {
        user_menu(cx.user_store.current_user())
    }
}

} // verus!
