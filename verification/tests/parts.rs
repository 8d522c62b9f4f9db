use titlebar::context::WindowBounds;
use titlebar::element::{
    Action, AnchorCorner, Button, ClickAction, Color, ElementId, IconName, Label, Menu, MenuEntry,
    PopoverMenu, Tooltip,
};
use titlebar::handle::{EntityId, WeakWorkspaceHandle, WorkspaceHandle};
use titlebar::project::{Collaborator, PeerId, Project, RepositoryEntry, Worktree};
use titlebar::parts::{
    config_menu, left_padding, on_click, project_branch_menu, project_host_button,
    project_name_menu, user_menu, whats_up, Padding, WindowAction, WINDOW_CONTROLS_WIDTH,
};
use titlebar::user_store::{ParticipantIndex, User, UserStore};

fn worktree(name: &str, branch: Option<&str>) -> Worktree {
    Worktree {
        root_name: name.to_string(),
        root_git_entry: branch.map(|b| RepositoryEntry { branch: Some(b.to_string()) }),
    }
}

fn weak(n: u64) -> WeakWorkspaceHandle {
    WeakWorkspaceHandle { entity_id: EntityId(n) }
}

fn strong(n: u64) -> WorkspaceHandle {
    WorkspaceHandle { entity_id: EntityId(n) }
}

fn action(label: &str, action: Action) -> MenuEntry {
    MenuEntry::Action { label: label.to_string(), action }
}

fn entries(menu: &PopoverMenu) -> &Vec<MenuEntry> {
    match &menu.menu {
        Menu::Context(entries) => entries,
        other => panic!("not a context menu: {:?}", other),
    }
}

fn actions(menu: &PopoverMenu) -> Vec<Action> {
    let mut found = Vec::new();
    for entry in entries(menu) {
        if let MenuEntry::Action { action, .. } = entry {
            found.push(*action);
        }
    }
    found
}

fn alice() -> User {
    User {
        id: 5,
        github_login: "alice".to_string(),
        avatar_uri: "https://avatars.example/alice".to_string(),
    }
}

#[test]
fn element_ids_have_their_names() {
    assert_eq!(ElementId::Titlebar.as_str(), "titlebar");
    assert_eq!(ElementId::ProjectOwnerTrigger.as_str(), "project_owner_trigger");
    assert_eq!(ElementId::ProjectNameTrigger.as_str(), "project_name_trigger");
    assert_eq!(ElementId::ProjectBranchTrigger.as_str(), "project_branch_trigger");
    assert_eq!(ElementId::UserMenu.as_str(), "user-menu");
}

#[test]
fn project_name_menu_of_an_open_project() {
    let project = Project { host: None, visible_worktrees: vec![worktree("my-app", Some("main"))] };
    let menu = project_name_menu(weak(1), &project);
    assert_eq!(
        menu,
        PopoverMenu {
            id: ElementId::ProjectNameTrigger,
            trigger: Button {
                id: ElementId::ProjectNameTrigger,
                label: Some("my-app".to_string()),
                avatar: None,
                icon: None,
                color: Color::Default,
                tooltip: Tooltip {
                    text: "Recent Projects".to_string(),
                    action: None,
                    meta: None,
                },
                on_click: None,
            },
            menu: Menu::RecentProjects(weak(1)),
            anchor: None,
        }
    );
}

#[test]
fn project_name_menu_without_a_project_is_muted_fallback() {
    let project = Project { host: None, visible_worktrees: vec![] };
    let menu = project_name_menu(weak(1), &project);
    assert_eq!(menu.trigger.label, Some("Open recent project".to_string()));
    assert_eq!(menu.trigger.color, Color::Muted);
    assert_eq!(menu.menu, Menu::RecentProjects(weak(1)));
    assert_eq!(menu.id, ElementId::ProjectNameTrigger);
}

#[test]
fn project_name_equal_to_the_fallback_is_still_selected() {
    let project =
        Project { host: None, visible_worktrees: vec![worktree("Open recent project", None)] };
    let menu = project_name_menu(weak(1), &project);
    assert_eq!(menu.trigger.label, Some("Open recent project".to_string()));
    assert_eq!(menu.trigger.color, Color::Default);
}

#[test]
fn project_name_of_sixty_characters_is_shown_as_forty() {
    let name = "x".repeat(60);
    let project = Project { host: None, visible_worktrees: vec![worktree(&name, None)] };
    let label = project_name_menu(weak(1), &project).trigger.label.unwrap();
    assert_eq!(label.chars().count(), 40);
    assert!(label.ends_with('…'));
    assert_eq!(label, format!("{}…", "x".repeat(39)));
}

#[test]
fn project_branch_menu_of_a_branch() {
    let project = Project { host: None, visible_worktrees: vec![worktree("my-app", Some("main"))] };
    let menu = project_branch_menu(Some(strong(2)), &project);
    assert_eq!(
        menu,
        Some(PopoverMenu {
            id: ElementId::ProjectBranchTrigger,
            trigger: Button {
                id: ElementId::ProjectBranchTrigger,
                label: Some("main".to_string()),
                avatar: None,
                icon: None,
                color: Color::Muted,
                tooltip: Tooltip {
                    text: "Recent Branches".to_string(),
                    action: Some(Action::ToggleVcsMenu),
                    meta: Some("Local branches only".to_string()),
                },
                on_click: None,
            },
            menu: Menu::BranchList(strong(2)),
            anchor: None,
        })
    );
}

#[test]
fn project_branch_menu_is_absent_without_a_branch() {
    let project = Project { host: None, visible_worktrees: vec![worktree("my-app", None)] };
    assert_eq!(project_branch_menu(Some(strong(2)), &project), None);
    let empty = Project { host: None, visible_worktrees: vec![] };
    assert_eq!(project_branch_menu(Some(strong(2)), &empty), None);
}

#[test]
fn project_branch_menu_is_absent_once_the_workspace_is_gone() {
    let project = Project { host: None, visible_worktrees: vec![worktree("my-app", Some("main"))] };
    assert_eq!(project_branch_menu(None, &project), None);
}

#[test]
fn project_branch_menu_takes_the_later_worktree_with_a_branch() {
    let project = Project {
        host: None,
        visible_worktrees: vec![worktree("docs", None), worktree("my-app", Some("release"))],
    };
    let menu = project_branch_menu(Some(strong(2)), &project).unwrap();
    assert_eq!(menu.trigger.label, Some("release".to_string()));
}

#[test]
fn project_host_button_of_a_present_host() {
    let mut users = UserStore::new();
    users.insert_user(alice());
    users.set_participant_index(5, ParticipantIndex(3));
    let project = Project {
        host: Some(Collaborator { peer_id: PeerId { owner_id: 1, id: 42 }, user_id: 5 }),
        visible_worktrees: vec![],
    };
    assert_eq!(
        project_host_button(&project, &users),
        Some(Button {
            id: ElementId::ProjectOwnerTrigger,
            label: Some("alice".to_string()),
            avatar: None,
            icon: None,
            color: Color::Player(3),
            tooltip: Tooltip {
                text: "alice is sharing this project. Click to follow.".to_string(),
                action: None,
                meta: None,
            },
            on_click: Some(ClickAction::FollowPeer(PeerId { owner_id: 1, id: 42 })),
        })
    );
}

#[test]
fn project_host_button_is_absent_for_an_uncached_host() {
    let mut users = UserStore::new();
    users.set_participant_index(5, ParticipantIndex(3));
    let project = Project {
        host: Some(Collaborator { peer_id: PeerId { owner_id: 1, id: 42 }, user_id: 5 }),
        visible_worktrees: vec![],
    };
    assert_eq!(project_host_button(&project, &users), None);
}

#[test]
fn project_host_button_is_absent_for_a_host_outside_the_session() {
    let mut users = UserStore::new();
    users.insert_user(alice());
    let project = Project {
        host: Some(Collaborator { peer_id: PeerId { owner_id: 1, id: 42 }, user_id: 5 }),
        visible_worktrees: vec![],
    };
    assert_eq!(project_host_button(&project, &users), None);
}

#[test]
fn project_host_button_is_absent_for_a_local_project() {
    let mut users = UserStore::new();
    users.insert_user(alice());
    users.set_participant_index(5, ParticipantIndex(3));
    let project = Project { host: None, visible_worktrees: vec![] };
    assert_eq!(project_host_button(&project, &users), None);
}

#[test]
fn greeting_names_the_user() {
    assert_eq!(whats_up("alice"), Label { text: "what's up, alice".to_string() });
    assert_eq!(whats_up(""), Label { text: "what's up, ".to_string() });
}

#[test]
fn signed_in_user_menu() {
    let user = alice();
    let menu = user_menu(Some(&user));
    assert_eq!(
        menu,
        PopoverMenu {
            id: ElementId::UserMenu,
            trigger: Button {
                id: ElementId::UserMenu,
                label: None,
                avatar: Some("https://avatars.example/alice".to_string()),
                icon: Some(IconName::ChevronDown),
                color: Color::Muted,
                tooltip: Tooltip {
                    text: "Toggle User Menu".to_string(),
                    action: None,
                    meta: None,
                },
                on_click: None,
            },
            menu: Menu::Context(vec![
                action("Settings", Action::OpenSettings),
                action("Extensions", Action::Extensions),
                action("Themes...", Action::ToggleThemeSelector),
                MenuEntry::Separator,
                action("Sign Out", Action::SignOut),
            ]),
            anchor: Some(AnchorCorner::TopRight),
        }
    );
}

#[test]
fn signed_out_user_menu() {
    let menu = user_menu(None);
    assert_eq!(
        menu,
        PopoverMenu {
            id: ElementId::UserMenu,
            trigger: Button {
                id: ElementId::UserMenu,
                label: None,
                avatar: None,
                icon: Some(IconName::ChevronDown),
                color: Color::Muted,
                tooltip: Tooltip {
                    text: "Toggle User Menu".to_string(),
                    action: None,
                    meta: None,
                },
                on_click: None,
            },
            menu: Menu::Context(vec![
                action("Settings", Action::OpenSettings),
                action("Extensions", Action::Extensions),
                action("Themes...", Action::ToggleThemeSelector),
            ]),
            anchor: None,
        }
    );
}

#[test]
fn user_menus_share_only_the_common_entries() {
    let user = alice();
    let signed_in = user_menu(Some(&user));
    let signed_out = user_menu(None);
    let shared: Vec<&MenuEntry> =
        entries(&signed_in).iter().filter(|e| entries(&signed_out).contains(e)).collect();
    assert_eq!(
        shared,
        vec![
            &action("Settings", Action::OpenSettings),
            &action("Extensions", Action::Extensions),
            &action("Themes...", Action::ToggleThemeSelector),
        ]
    );
    assert!(actions(&signed_in).contains(&Action::SignOut));
    assert!(!actions(&signed_out).contains(&Action::SignOut));
    assert!(entries(&signed_in).contains(&MenuEntry::Separator));
    assert!(!entries(&signed_out).contains(&MenuEntry::Separator));
}

#[test]
fn config_menu_greets_the_user() {
    let menu = config_menu("bob");
    assert_eq!(
        menu,
        PopoverMenu {
            id: ElementId::UserMenu,
            trigger: Button {
                id: ElementId::UserMenu,
                label: Some("what's up, bob".to_string()),
                avatar: None,
                icon: None,
                color: Color::Default,
                tooltip: Tooltip { text: "Config".to_string(), action: None, meta: None },
                on_click: None,
            },
            menu: Menu::Context(vec![
                action("Settings", Action::OpenSettings),
                action("Extensions", Action::Extensions),
                action("Themes", Action::ToggleThemeSelector),
            ]),
            anchor: None,
        }
    );
}

#[test]
fn left_padding_leaves_room_for_window_controls() {
    assert_eq!(WINDOW_CONTROLS_WIDTH, 80);
    assert_eq!(left_padding(WindowBounds::Fullscreen), Padding::Small);
    assert_eq!(left_padding(WindowBounds::Maximized), Padding::Pixels(80));
    assert_eq!(left_padding(WindowBounds::Fixed), Padding::Pixels(80));
}

#[test]
fn only_a_double_click_zooms() {
    assert_eq!(on_click(0), None);
    assert_eq!(on_click(1), None);
    assert_eq!(on_click(2), Some(WindowAction::Zoom));
    assert_eq!(on_click(3), None);
}

#[test]
fn weak_handle_names_the_same_workspace() {
    assert_eq!(strong(9).downgrade(), weak(9));
}
