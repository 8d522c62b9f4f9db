//! The titlebar of a workspace that knows of no collaboration: it shows the
//! project, the branch and a configuration menu.

use crate::context::{is_observed, observes, Context, ContextView, Subscription, Workspace};
use crate::element::{Color, ElementId, PopoverMenu, PopoverMenuView};
use crate::handle::{EntityId, WeakWorkspaceHandle};
use crate::popover::{BuildError, Overlay, PopoverController};
use crate::resolve::active_branch;
use crate::parts::{
    config_menu, left_padding, project_branch_menu, project_name_menu, spec_left_padding,
    Titlebar, TitlebarView,
};
use vstd::prelude::*;

verus! {

/// A titlebar with the handles of the stores that it shows. It owns its
/// registrations and none of the stores.
pub struct TitlebarItem {
    project: EntityId,
    workspace: WeakWorkspaceHandle,
    user: String,
    _subscriptions: Vec<Subscription>,
    dirty: bool,
}

pub struct TitlebarItemView {
    /// The project that the titlebar shows.
    pub project: EntityId,
    /// The owning workspace, which the titlebar does not keep alive.
    pub workspace: WeakWorkspaceHandle,
    /// The name that the greeting uses.
    pub user: Seq<char>,
    /// The registrations that the titlebar holds for as long as it lives.
    pub subscriptions: Seq<Subscription>,
    /// Whether a store has changed since the titlebar was last rendered.
    pub dirty: bool,
}

impl View for TitlebarItem {
    type V = TitlebarItemView;

    closed spec fn view(&self) -> TitlebarItemView {
        TitlebarItemView {
            project: self.project,
            workspace: self.workspace,
            user: self.user@,
            subscriptions: self._subscriptions@,
            dirty: self.dirty,
        }
    }
}

impl TitlebarItemView {
    /// The titlebar as it is right after it was made for `workspace`: it is
    /// registered with the workspace and the project, in this order, and is
    /// yet to be rendered.
    pub open spec fn initial(workspace: Workspace, user: Option<Seq<char>>) -> Self {
        TitlebarItemView {
            project: workspace.project,
            workspace: WeakWorkspaceHandle { entity_id: workspace.handle.entity_id },
            user: match user {
                Some(user) => user,
                None => Seq::empty(),
            },
            subscriptions: seq![
                Subscription { source: workspace.handle.entity_id },
                Subscription { source: workspace.project },
            ],
            dirty: true,
        }
    }

    /// What the titlebar shows for the state `cx` of the stores.
    pub open spec fn titlebar(self, cx: ContextView) -> TitlebarView {
        TitlebarView {
            id: ElementId::Titlebar,
            left_padding: spec_left_padding(cx.window_bounds),
            project_host: None,
            project_name: PopoverMenuView::project_name(
                self.workspace,
                cx.project.visible_worktrees,
            ),
            project_branch: PopoverMenuView::project_branch(
                cx.workspace,
                cx.project.visible_worktrees,
            ),
            greeting: None,
            user_menu: PopoverMenuView::config_menu(self.user),
        }
    }
}

impl TitlebarItem {
    /// The titlebar of `workspace`. `user` is the name to greet, taken once
    /// from the environment; where the environment has none, the greeting
    /// names nobody.
    pub fn new(workspace: &Workspace, user: Option<String>) -> (r: Self)
        ensures
            r@ == TitlebarItemView::initial(*workspace, user.deep_view()),
    {
        let mut subscriptions: Vec<Subscription> = Vec::new();
        subscriptions.push(Subscription { source: workspace.handle.entity_id });
        subscriptions.push(Subscription { source: workspace.project });
        let ghost initial = TitlebarItemView::initial(*workspace, user.deep_view());
        let r = TitlebarItem {
            workspace: workspace.handle.downgrade(),
            project: workspace.project,
            user: match user {
                Some(user) => user,
                None => String::new(),
            },
            _subscriptions: subscriptions,
            dirty: true,
        };
        assert(r@.subscriptions =~= initial.subscriptions);
        r
    }

    /// The store `source` has changed. If the titlebar is registered with it,
    /// the titlebar is to be rendered again, and says so.
    pub fn source_changed(&mut self, source: EntityId) -> (r: bool)
        ensures
            r == observes(old(self)@.subscriptions, source),
            final(self)@ == (TitlebarItemView { dirty: old(self)@.dirty || r, ..old(self)@ }),
    {
        let observed = is_observed(&self._subscriptions, source);
        if observed {
            self.dirty = true;
        }
        observed
    }

    /// Whether a store has changed since the titlebar was last rendered.
    pub fn needs_render(&self) -> (r: bool)
        ensures
            r == self@.dirty,
    {
        self.dirty
    }

    /// The project that the titlebar shows.
    pub fn project(&self) -> (r: EntityId)
        ensures
            r == self@.project,
    {
        self.project
    }

    /// The owning workspace.
    pub fn workspace(&self) -> (r: WeakWorkspaceHandle)
        ensures
            r == self@.workspace,
    {
        self.workspace
    }

    /// The stores that the titlebar is registered with.
    pub fn subscriptions(&self) -> (r: &Vec<Subscription>)
        ensures
            r@ == self@.subscriptions,
    {
        &self._subscriptions
    }

    /// The titlebar for the state `cx` of the stores. Every part is resolved
    /// anew from `cx`; nothing of an earlier pass is kept.
    pub fn render(&mut self, cx: &Context) -> (r: Titlebar)
        ensures
            r@ == old(self)@.titlebar(cx@),
            final(self)@ == (TitlebarItemView { dirty: false, ..old(self)@ }),
    {
        let project_name = self.render_project_name(cx);
        let project_branch = self.render_project_branch(cx);
        let user_menu = self.render_user_menu_button();
        self.dirty = false;
        Titlebar {
            id: ElementId::Titlebar,
            left_padding: left_padding(cx.window_bounds),
            project_host: None,
            project_name,
            project_branch,
            greeting: None,
            user_menu,
        }
    }

    /// The project's name with the menu of recent projects. Where the project
    /// has no visible worktree, a muted label stands in place of the name.
    pub fn render_project_name(&self, cx: &Context) -> (r: PopoverMenu)
        ensures
            r@ == PopoverMenuView::project_name(self@.workspace, cx@.project.visible_worktrees),
            cx@.project.visible_worktrees.len() == 0 ==> r@.trigger.label == Some(
                "Open recent project"@,
            ) && r@.trigger.color == Color::Muted,
    {
        project_name_menu(self.workspace, &cx.project)
    }

    /// The active branch with the menu of branches; absent where no worktree
    /// has a branch or the workspace is gone.
    pub fn render_project_branch(&self, cx: &Context) -> (r: Option<PopoverMenu>)
        ensures
            r.deep_view() == PopoverMenuView::project_branch(
                cx@.workspace,
                cx@.project.visible_worktrees,
            ),
            r is Some <==> cx@.workspace is Some && active_branch(cx@.project.visible_worktrees)
                is Some,
    {
        project_branch_menu(cx.workspace, &cx.project)
    }

    /// The trigger of the branch menu was activated and the toolkit has tried
    /// to build the list of branches. Where it was built, it is open at the
    /// trigger and has the focus. Where building failed, nothing opens and
    /// the failure goes no further.
    pub fn render_vcs_popover(
        built: Result<Overlay, BuildError>,
        popovers: &mut PopoverController,
    ) -> (r: Option<Overlay>)
        ensures
            final(popovers)@ == old(popovers)@.activate(ElementId::ProjectBranchTrigger, built),
            r == match built {
                Ok(overlay) => Some(overlay),
                Err(_) => None,
            },
            built is Err ==> final(popovers)@ == old(popovers)@,
            final(popovers)@.wf(),
    {
        popovers.activate(ElementId::ProjectBranchTrigger, built)
    }

    /// The trigger of the recent-projects menu was activated and the toolkit
    /// has built the list: it is open at the trigger and has the focus.
    pub fn render_project_popover(built: Overlay, popovers: &mut PopoverController) -> (r: Overlay)
        ensures
            r == built,
            final(popovers)@ == old(popovers)@.activate(ElementId::ProjectNameTrigger, Ok(built)),
            final(popovers)@.wf(),
    {
        popovers.activate(ElementId::ProjectNameTrigger, Ok(built));
        built
    }

    /// The configuration menu with its trigger, which carries the greeting.
    pub fn render_user_menu_button(&mut self) -> (r: PopoverMenu)
        ensures
            r@ == PopoverMenuView::config_menu(old(self)@.user),
            final(self)@ == old(self)@,
    {
        config_menu(self.user.as_str())
    }
}

} // verus!
