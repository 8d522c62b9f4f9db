//! The parts of a titlebar: what each of them shows for a given state of the
//! project and of the user directory, and the titlebar as a whole.

use crate::context::WindowBounds;
use crate::element::{
    Action, AnchorCorner, Button, ButtonView, ClickAction, Color, ElementId, IconName, Label,
    LabelView, Menu, MenuEntry, MenuEntryView, MenuView, PopoverMenu, PopoverMenuView, Tooltip,
    TooltipView,
};
use crate::handle::{WeakWorkspaceHandle, WorkspaceHandle};
use crate::project::{Project, ProjectView, WorktreeView};
use crate::resolve::{
    active_branch, project_host, project_name, resolve_branch, resolve_host,
    resolve_project_name, truncated_option, MAX_BRANCH_NAME_LENGTH, MAX_PROJECT_NAME_LENGTH,
};
use crate::truncate::truncated;
use crate::user_store::{User, UserStore, UserStoreView, UserView};
use vstd::prelude::*;
use vstd::string::*;

verus! {

/// The room, in pixels, that the window's own controls take at the left of
/// the titlebar. They do not scale with the rest of the interface.
pub const WINDOW_CONTROLS_WIDTH: u32 = 80;

/// The space to the left of the titlebar's content.
#[derive(Clone, Copy, Debug, PartialEq, Eq, Structural)]
pub enum Padding {
    /// The small step of the interface's own scale.
    Small,
    /// A fixed number of pixels.
    Pixels(u32),
}

/// What the window is asked to do.
#[derive(Clone, Copy, Debug, PartialEq, Eq, Structural)]
pub enum WindowAction {
    Zoom,
}

impl TooltipView {
    /// A tooltip of one line.
    pub open spec fn text(text: Seq<char>) -> TooltipView {
        TooltipView { text, action: None, meta: None }
    }
}

impl ButtonView {
    /// The trigger of the recent-projects menu. It shows the project's name,
    /// bounded in length; where no project is open it shows a muted label in
    /// its place.
    pub open spec fn project_name(worktrees: Seq<WorktreeView>) -> ButtonView {
        let name = truncated_option(project_name(worktrees), MAX_PROJECT_NAME_LENGTH as nat);
        ButtonView {
            id: ElementId::ProjectNameTrigger,
            label: Some(
                match name {
                    Some(name) => name,
                    None => "Open recent project"@,
                },
            ),
            avatar: None,
            icon: None,
            color: if name is Some {
                Color::Default
            } else {
                Color::Muted
            },
            tooltip: TooltipView::text("Recent Projects"@),
            on_click: None,
        }
    }

    /// The trigger of the branch menu, showing `branch`.
    pub open spec fn project_branch(branch: Seq<char>) -> ButtonView {
        ButtonView {
            id: ElementId::ProjectBranchTrigger,
            label: Some(branch),
            avatar: None,
            icon: None,
            color: Color::Muted,
            tooltip: TooltipView {
                text: "Recent Branches"@,
                action: Some(Action::ToggleVcsMenu),
                meta: Some("Local branches only"@),
            },
            on_click: None,
        }
    }

    /// The button that names the host of a shared project, in the host's
    /// colour; a click on it follows the host's peer as it was at this time.
    /// Absent where the project has no host that can be resolved.
    pub open spec fn project_host(project: ProjectView, users: UserStoreView) -> Option<
        ButtonView,
    > {
        match project_host(project, users) {
            Some(host) => Some(
                ButtonView {
                    id: ElementId::ProjectOwnerTrigger,
                    label: Some(host.github_login),
                    avatar: None,
                    icon: None,
                    color: Color::Player(host.participant_index.0),
                    tooltip: TooltipView::text(
                        host.github_login + " is sharing this project. Click to follow."@,
                    ),
                    on_click: Some(ClickAction::FollowPeer(host.peer_id)),
                },
            ),
            None => None,
        }
    }

    /// The trigger of the user menu: a chevron, after the avatar of the
    /// signed-in user where there is one.
    pub open spec fn user_menu(current_user: Option<UserView>) -> ButtonView {
        ButtonView {
            id: ElementId::UserMenu,
            label: None,
            avatar: match current_user {
                Some(user) => Some(user.avatar_uri),
                None => None,
            },
            icon: Some(IconName::ChevronDown),
            color: Color::Muted,
            tooltip: TooltipView::text("Toggle User Menu"@),
            on_click: None,
        }
    }

    /// The trigger of the configuration menu, which greets `user`.
    pub open spec fn config_menu(user: Seq<char>) -> ButtonView {
        ButtonView {
            id: ElementId::UserMenu,
            label: Some(LabelView::whats_up(user).text),
            avatar: None,
            icon: None,
            color: Color::Default,
            tooltip: TooltipView::text("Config"@),
            on_click: None,
        }
    }
}

impl LabelView {
    /// The greeting of `user`.
    pub open spec fn whats_up(user: Seq<char>) -> LabelView {
        LabelView { text: "what's up, "@ + user }
    }
}

impl MenuEntryView {
    pub open spec fn settings() -> MenuEntryView {
        MenuEntryView::Action { label: "Settings"@, action: Action::OpenSettings }
    }

    pub open spec fn extensions() -> MenuEntryView {
        MenuEntryView::Action { label: "Extensions"@, action: Action::Extensions }
    }

    pub open spec fn themes(label: Seq<char>) -> MenuEntryView {
        MenuEntryView::Action { label, action: Action::ToggleThemeSelector }
    }

    pub open spec fn sign_out() -> MenuEntryView {
        MenuEntryView::Action { label: "Sign Out"@, action: Action::SignOut }
    }
}

/// The entries that every user menu has, signed in or not.
pub open spec fn common_menu_entries(themes_label: Seq<char>) -> Seq<MenuEntryView> {
    seq![
        MenuEntryView::settings(),
        MenuEntryView::extensions(),
        MenuEntryView::themes(themes_label),
    ]
}

/// The entries of the user menu: the common ones, and for a signed-in user a
/// separator and the way to sign out.
pub open spec fn user_menu_entries(signed_in: bool) -> Seq<MenuEntryView> {
    if signed_in {
        common_menu_entries("Themes..."@) + seq![
            MenuEntryView::Separator,
            MenuEntryView::sign_out(),
        ]
    } else {
        common_menu_entries("Themes..."@)
    }
}

impl PopoverMenuView {
    /// The project's name with the menu of recent projects, which is built
    /// for the workspace behind the titlebar's weak handle.
    pub open spec fn project_name(
        workspace: WeakWorkspaceHandle,
        worktrees: Seq<WorktreeView>,
    ) -> PopoverMenuView {
        PopoverMenuView {
            id: ElementId::ProjectNameTrigger,
            trigger: ButtonView::project_name(worktrees),
            menu: MenuView::RecentProjects(workspace),
            anchor: None,
        }
    }

    /// The active branch, bounded in length, with the menu of branches.
    /// Absent where the workspace is gone or no worktree has a branch: the
    /// slot then stays empty.
    pub open spec fn project_branch(
        workspace: Option<WorkspaceHandle>,
        worktrees: Seq<WorktreeView>,
    ) -> Option<PopoverMenuView> {
        match (workspace, active_branch(worktrees)) {
            (Some(workspace), Some(branch)) => Some(
                PopoverMenuView {
                    id: ElementId::ProjectBranchTrigger,
                    trigger: ButtonView::project_branch(
                        truncated(branch, MAX_BRANCH_NAME_LENGTH as nat),
                    ),
                    menu: MenuView::BranchList(workspace),
                    anchor: None,
                },
            ),
            _ => None,
        }
    }

    /// The user menu, which depends on whether somebody is signed in.
    pub open spec fn user_menu(current_user: Option<UserView>) -> PopoverMenuView {
        PopoverMenuView {
            id: ElementId::UserMenu,
            trigger: ButtonView::user_menu(current_user),
            menu: MenuView::Context(user_menu_entries(current_user is Some)),
            anchor: if current_user is Some {
                Some(AnchorCorner::TopRight)
            } else {
                None
            },
        }
    }

    /// The configuration menu of a titlebar that knows of no user directory.
    pub open spec fn config_menu(user: Seq<char>) -> PopoverMenuView {
        PopoverMenuView {
            id: ElementId::UserMenu,
            trigger: ButtonView::config_menu(user),
            menu: MenuView::Context(common_menu_entries("Themes"@)),
            anchor: None,
        }
    }
}

/// A project without visible worktrees is not selected: the trigger of the
/// recent-projects menu shows the muted label that invites to open one.
pub proof fn lemma_no_project_selected(worktrees: Seq<WorktreeView>)
    requires
        worktrees.len() == 0,
    ensures
        project_name(worktrees) is None,
        ButtonView::project_name(worktrees).label == Some("Open recent project"@),
        ButtonView::project_name(worktrees).color == Color::Muted,
{
}

/// An open project is selected: the trigger shows its name, bounded in
/// length, in the ordinary colour.
pub proof fn lemma_project_selected(worktrees: Seq<WorktreeView>)
    requires
        worktrees.len() > 0,
    ensures
        ButtonView::project_name(worktrees).label == Some(
            truncated(worktrees[0].root_name, MAX_PROJECT_NAME_LENGTH as nat),
        ),
        ButtonView::project_name(worktrees).color == Color::Default,
{
}

/// The user menu shows who is signed in at the time it is made: the avatar
/// and the way to sign out are there exactly when somebody is signed in.
pub proof fn lemma_user_menu_follows_sign_in(current_user: Option<UserView>)
    ensures
        PopoverMenuView::user_menu(current_user).trigger.avatar is Some <==> current_user is Some,
        PopoverMenuView::user_menu(current_user).menu == MenuView::Context(
            user_menu_entries(current_user is Some),
        ),
        user_menu_entries(current_user is Some).contains(MenuEntryView::sign_out())
            <==> current_user is Some,
{
    lemma_user_menus_share_common_entries(MenuEntryView::sign_out());
}

/// A shared project whose host is not in the cache of the user directory has
/// no host to show, whether or not the host takes part in the session.
pub proof fn lemma_host_absent_unless_cached(project: ProjectView, users: UserStoreView)
    requires
        project.host matches Some(host) && !users.users.contains_key(host.user_id),
    ensures
        project_host(project, users) is None,
        ButtonView::project_host(project, users) is None,
{
}

/// A shared project whose host takes no part in the session has no host to
/// show, though the host's record is cached.
pub proof fn lemma_host_absent_unless_participant(project: ProjectView, users: UserStoreView)
    requires
        project.host matches Some(host) && users.users.contains_key(host.user_id)
            && !users.participant_indices.contains_key(host.user_id),
    ensures
        project_host(project, users) is None,
        ButtonView::project_host(project, users) is None,
{
}

/// A shared project whose host is cached and takes part in the session shows
/// the host by name, in the host's colour, and follows the host's peer.
pub proof fn lemma_host_present(project: ProjectView, users: UserStoreView)
    requires
        project.host matches Some(host) && users.users.contains_key(host.user_id)
            && users.participant_indices.contains_key(host.user_id),
    ensures
        ButtonView::project_host(project, users) matches Some(button) && button.label == Some(
            users.users[project.host->0.user_id].github_login,
        ) && button.color == Color::Player(
            users.participant_indices[project.host->0.user_id].0,
        ) && button.on_click == Some(ClickAction::FollowPeer(project.host->0.peer_id)),
{
}

/// The signed-in and the signed-out user menu share the common entries and
/// nothing else, and only the signed-in menu offers to sign out.
pub proof fn lemma_user_menus_share_common_entries(entry: MenuEntryView)
    ensures
        user_menu_entries(true).contains(entry) && user_menu_entries(false).contains(entry)
            <==> common_menu_entries("Themes..."@).contains(entry),
        user_menu_entries(true).contains(MenuEntryView::sign_out()),
        !user_menu_entries(false).contains(MenuEntryView::sign_out()),
{
    let common = common_menu_entries("Themes..."@);
    let signed_in = user_menu_entries(true);
    let signed_out = user_menu_entries(false);
    assert(signed_in[4] == MenuEntryView::sign_out());
    if common.contains(entry) {
        let i = choose|i: int| 0 <= i < common.len() && common[i] == entry;
        assert(signed_in[i] == entry);
    }
}

fn tooltip_text(text: &str) -> (r: Tooltip)
    ensures
        r@ == TooltipView::text(text@),
{
    Tooltip { text: text.to_owned(), action: None, meta: None }
}

/// The trigger of the recent-projects menu with its menu.
pub fn project_name_menu(workspace: WeakWorkspaceHandle, project: &Project) -> (r: PopoverMenu)
    ensures
        r@ == PopoverMenuView::project_name(workspace, project@.visible_worktrees),
        project@.visible_worktrees.len() == 0 ==> r@.trigger.label == Some(
            "Open recent project"@,
        ) && r@.trigger.color == Color::Muted,
        r@.trigger.label matches Some(label) && (project@.visible_worktrees.len() > 0
            ==> label.len() <= MAX_PROJECT_NAME_LENGTH),
{
    let name = resolve_project_name(project);
    let is_project_selected = name.is_some();
    let label = match name {
        Some(name) => name,
        None => "Open recent project".to_owned(),
    };
    PopoverMenu {
        id: ElementId::ProjectNameTrigger,
        trigger: Button {
            id: ElementId::ProjectNameTrigger,
            label: Some(label),
            avatar: None,
            icon: None,
            color: if is_project_selected {
                Color::Default
            } else {
                Color::Muted
            },
            tooltip: tooltip_text("Recent Projects"),
            on_click: None,
        },
        menu: Menu::RecentProjects(workspace),
        anchor: None,
    }
}

/// The trigger of the branch menu with its menu, where there is a branch to
/// show and a workspace to build the menu for.
pub fn project_branch_menu(workspace: Option<WorkspaceHandle>, project: &Project) -> (r: Option<
    PopoverMenu,
>)
    ensures
        r.deep_view() == PopoverMenuView::project_branch(workspace, project@.visible_worktrees),
        r is Some <==> workspace is Some && active_branch(project@.visible_worktrees) is Some,
        r matches Some(menu) ==> menu@.trigger.label matches Some(label) && label.len()
            <= MAX_BRANCH_NAME_LENGTH,
{
    let workspace = match workspace {
        Some(workspace) => workspace,
        None => { return None; },
    };
    let branch_name = match resolve_branch(project) {
        Some(name) => name,
        None => { return None; },
    };
    Some(
        PopoverMenu {
            id: ElementId::ProjectBranchTrigger,
            trigger: Button {
                id: ElementId::ProjectBranchTrigger,
                label: Some(branch_name),
                avatar: None,
                icon: None,
                color: Color::Muted,
                tooltip: Tooltip {
                    text: "Recent Branches".to_owned(),
                    action: Some(Action::ToggleVcsMenu),
                    meta: Some("Local branches only".to_owned()),
                },
                on_click: None,
            },
            menu: Menu::BranchList(workspace),
            anchor: None,
        },
    )
}

/// The button that names the host of a shared project.
pub fn project_host_button(project: &Project, user_store: &UserStore) -> (r: Option<Button>)
    ensures
        r.deep_view() == ButtonView::project_host(project@, user_store@),
        r is Some <==> (project@.host matches Some(host) && user_store@.users.contains_key(
            host.user_id,
        ) && user_store@.participant_indices.contains_key(host.user_id)),
{
    let host = match resolve_host(project, user_store) {
        Some(host) => host,
        None => { return None; },
    };
    let tooltip = host.github_login.clone().concat(" is sharing this project. Click to follow.");
    Some(
        Button {
            id: ElementId::ProjectOwnerTrigger,
            label: Some(host.github_login),
            avatar: None,
            icon: None,
            color: Color::Player(host.participant_index.0),
            tooltip: Tooltip { text: tooltip, action: None, meta: None },
            on_click: Some(ClickAction::FollowPeer(host.peer_id)),
        },
    )
}

/// The greeting of `user`.
pub fn whats_up(user: &str) -> (r: Label)
    ensures
        r@ == LabelView::whats_up(user@),
{
    Label { text: "what's up, ".to_owned().concat(user) }
}

fn common_entries(themes_label: &str) -> (r: Vec<MenuEntry>)
    ensures
        r.deep_view() == common_menu_entries(themes_label@),
{
    let mut entries: Vec<MenuEntry> = Vec::new();
    entries.push(MenuEntry::Action { label: "Settings".to_owned(), action: Action::OpenSettings });
    entries.push(
        MenuEntry::Action { label: "Extensions".to_owned(), action: Action::Extensions },
    );
    entries.push(
        MenuEntry::Action { label: themes_label.to_owned(), action: Action::ToggleThemeSelector },
    );
    assert(entries.deep_view() =~= common_menu_entries(themes_label@));
    entries
}

/// The user menu with its trigger, for the user who is signed in or for
/// nobody.
pub fn user_menu(current_user: Option<&User>) -> (r: PopoverMenu)
    ensures
        r@ == PopoverMenuView::user_menu(current_user.deep_view()),
{
    let mut entries = common_entries("Themes...");
    match current_user {
        Some(user) => {
            entries.push(MenuEntry::Separator);
            entries.push(MenuEntry::Action { label: "Sign Out".to_owned(), action: Action::SignOut });
            assert(entries.deep_view() =~= user_menu_entries(true));
            PopoverMenu {
                id: ElementId::UserMenu,
                trigger: Button {
                    id: ElementId::UserMenu,
                    label: None,
                    avatar: Some(user.avatar_uri.clone()),
                    icon: Some(IconName::ChevronDown),
                    color: Color::Muted,
                    tooltip: tooltip_text("Toggle User Menu"),
                    on_click: None,
                },
                menu: Menu::Context(entries),
                anchor: Some(AnchorCorner::TopRight),
            }
        },
        None => {
            PopoverMenu {
                id: ElementId::UserMenu,
                trigger: Button {
                    id: ElementId::UserMenu,
                    label: None,
                    avatar: None,
                    icon: Some(IconName::ChevronDown),
                    color: Color::Muted,
                    tooltip: tooltip_text("Toggle User Menu"),
                    on_click: None,
                },
                menu: Menu::Context(entries),
                anchor: None,
            }
        },
    }
}

/// The configuration menu with its trigger, which greets `user`.
pub fn config_menu(user: &str) -> (r: PopoverMenu)
    ensures
        r@ == PopoverMenuView::config_menu(user@),
{
    PopoverMenu {
        id: ElementId::UserMenu,
        trigger: Button {
            id: ElementId::UserMenu,
            label: Some(whats_up(user).text),
            avatar: None,
            icon: None,
            color: Color::Default,
            tooltip: tooltip_text("Config"),
            on_click: None,
        },
        menu: Menu::Context(common_entries("Themes")),
        anchor: None,
    }
}

/// A titlebar. At its left stand the host of a shared project, the project's
/// name and the active branch, in this order and as far as each is there. At
/// its right stand a greeting, where the titlebar has one of its own, and the
/// user menu.
#[derive(Debug, PartialEq, Eq)]
pub struct Titlebar {
    pub id: ElementId,
    pub left_padding: Padding,
    pub project_host: Option<Button>,
    pub project_name: PopoverMenu,
    pub project_branch: Option<PopoverMenu>,
    pub greeting: Option<Label>,
    pub user_menu: PopoverMenu,
}

pub struct TitlebarView {
    pub id: ElementId,
    pub left_padding: Padding,
    pub project_host: Option<ButtonView>,
    pub project_name: PopoverMenuView,
    pub project_branch: Option<PopoverMenuView>,
    pub greeting: Option<LabelView>,
    pub user_menu: PopoverMenuView,
}

impl View for Titlebar {
    type V = TitlebarView;

    open spec fn view(&self) -> TitlebarView {
        TitlebarView {
            id: self.id,
            left_padding: self.left_padding,
            project_host: self.project_host.deep_view(),
            project_name: self.project_name@,
            project_branch: self.project_branch.deep_view(),
            greeting: self.greeting.deep_view(),
            user_menu: self.user_menu@,
        }
    }
}

/// The space to the left of the titlebar's content: in a full-screen window
/// the window's controls are hidden and a small step is enough.
pub open spec fn spec_left_padding(bounds: WindowBounds) -> Padding {
    if bounds == WindowBounds::Fullscreen {
        Padding::Small
    } else {
        Padding::Pixels(WINDOW_CONTROLS_WIDTH)
    }
}

/// The space to the left of the titlebar's content.
pub fn left_padding(bounds: WindowBounds) -> (r: Padding)
    ensures
        r == spec_left_padding(bounds),
{
    match bounds {
        WindowBounds::Fullscreen => Padding::Small,
        _ => Padding::Pixels(WINDOW_CONTROLS_WIDTH),
    }
}

/// What a click on the titlebar's own ground asks of the window: a double
/// click zooms it, any other click does nothing.
pub fn on_click(click_count: usize) -> (r: Option<WindowAction>)
    ensures
        r == if click_count == 2 {
            Some(WindowAction::Zoom)
        } else {
            None
        },
{
    if click_count == 2 {
        Some(WindowAction::Zoom)
    } else {
        None
    }
}

} // verus!
