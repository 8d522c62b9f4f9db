use titlebar::element::ElementId;
use titlebar::handle::EntityId;
use titlebar::popover::{BuildError, FocusHandle, Overlay, PopoverController};
use titlebar::{CollabTitlebarItem, TitlebarItem};

fn overlay(n: u64) -> Overlay {
    Overlay { entity_id: EntityId(n), focus_handle: FocusHandle(100 + n) }
}

fn failure() -> BuildError {
    BuildError { message: "no git backend".to_string() }
}

#[test]
fn new_controller_has_everything_closed() {
    let popovers = PopoverController::new();
    assert!(!popovers.is_open(ElementId::ProjectNameTrigger));
    assert!(!popovers.is_open(ElementId::ProjectBranchTrigger));
    assert!(!popovers.is_open(ElementId::UserMenu));
    assert_eq!(popovers.overlay(ElementId::UserMenu), None);
    assert_eq!(popovers.focus_owner(), None);
}

#[test]
fn activation_opens_and_moves_focus() {
    let mut popovers = PopoverController::new();
    let r = popovers.activate(ElementId::UserMenu, Ok(overlay(1)));
    assert_eq!(r, Some(overlay(1)));
    assert!(popovers.is_open(ElementId::UserMenu));
    assert_eq!(popovers.overlay(ElementId::UserMenu), Some(overlay(1)));
    assert_eq!(popovers.focus_owner(), Some(ElementId::UserMenu));
    assert!(!popovers.is_open(ElementId::ProjectNameTrigger));
}

#[test]
fn failed_build_opens_nothing() {
    let mut popovers = PopoverController::new();
    let r = popovers.activate(ElementId::ProjectBranchTrigger, Err(failure()));
    assert_eq!(r, None);
    assert!(!popovers.is_open(ElementId::ProjectBranchTrigger));
    assert_eq!(popovers.focus_owner(), None);
}

#[test]
fn failed_build_leaves_open_overlays_and_focus_alone() {
    let mut popovers = PopoverController::new();
    popovers.activate(ElementId::ProjectNameTrigger, Ok(overlay(1)));
    let r = popovers.activate(ElementId::ProjectBranchTrigger, Err(failure()));
    assert_eq!(r, None);
    assert!(!popovers.is_open(ElementId::ProjectBranchTrigger));
    assert_eq!(popovers.overlay(ElementId::ProjectNameTrigger), Some(overlay(1)));
    assert_eq!(popovers.focus_owner(), Some(ElementId::ProjectNameTrigger));
}

#[test]
fn dismissal_closes_and_gives_up_focus() {
    let mut popovers = PopoverController::new();
    popovers.activate(ElementId::UserMenu, Ok(overlay(1)));
    popovers.dismiss(ElementId::UserMenu);
    assert!(!popovers.is_open(ElementId::UserMenu));
    assert_eq!(popovers.focus_owner(), None);
}

#[test]
fn dismissing_a_closed_anchor_changes_nothing() {
    let mut popovers = PopoverController::new();
    popovers.activate(ElementId::UserMenu, Ok(overlay(1)));
    popovers.dismiss(ElementId::ProjectBranchTrigger);
    assert_eq!(popovers.overlay(ElementId::UserMenu), Some(overlay(1)));
    assert_eq!(popovers.focus_owner(), Some(ElementId::UserMenu));
}

#[test]
fn opening_a_second_anchor_takes_focus_and_keeps_the_first_open() {
    let mut popovers = PopoverController::new();
    popovers.activate(ElementId::ProjectNameTrigger, Ok(overlay(1)));
    popovers.activate(ElementId::ProjectBranchTrigger, Ok(overlay(2)));
    assert_eq!(popovers.overlay(ElementId::ProjectNameTrigger), Some(overlay(1)));
    assert_eq!(popovers.overlay(ElementId::ProjectBranchTrigger), Some(overlay(2)));
    assert_eq!(popovers.focus_owner(), Some(ElementId::ProjectBranchTrigger));
}

#[test]
fn dismissing_an_overlay_without_focus_keeps_the_focus_owner() {
    let mut popovers = PopoverController::new();
    popovers.activate(ElementId::ProjectNameTrigger, Ok(overlay(1)));
    popovers.activate(ElementId::ProjectBranchTrigger, Ok(overlay(2)));
    popovers.dismiss(ElementId::ProjectNameTrigger);
    assert!(!popovers.is_open(ElementId::ProjectNameTrigger));
    assert_eq!(popovers.overlay(ElementId::ProjectBranchTrigger), Some(overlay(2)));
    assert_eq!(popovers.focus_owner(), Some(ElementId::ProjectBranchTrigger));
}

#[test]
fn reactivation_replaces_the_overlay_at_the_anchor() {
    let mut popovers = PopoverController::new();
    popovers.activate(ElementId::UserMenu, Ok(overlay(1)));
    popovers.activate(ElementId::ProjectNameTrigger, Ok(overlay(2)));
    popovers.activate(ElementId::UserMenu, Ok(overlay(3)));
    assert_eq!(popovers.overlay(ElementId::UserMenu), Some(overlay(3)));
    assert_eq!(popovers.overlay(ElementId::ProjectNameTrigger), Some(overlay(2)));
    assert_eq!(popovers.focus_owner(), Some(ElementId::UserMenu));
    popovers.dismiss(ElementId::UserMenu);
    assert!(!popovers.is_open(ElementId::UserMenu));
    assert_eq!(popovers.overlay(ElementId::ProjectNameTrigger), Some(overlay(2)));
}

#[test]
fn closed_open_closed_at_one_anchor() {
    let mut popovers = PopoverController::new();
    for n in 0..5u64 {
        assert!(!popovers.is_open(ElementId::ProjectBranchTrigger));
        popovers.activate(ElementId::ProjectBranchTrigger, Ok(overlay(n)));
        assert_eq!(popovers.overlay(ElementId::ProjectBranchTrigger), Some(overlay(n)));
        popovers.dismiss(ElementId::ProjectBranchTrigger);
    }
    assert!(!popovers.is_open(ElementId::ProjectBranchTrigger));
    assert_eq!(popovers.focus_owner(), None);
}

#[test]
fn vcs_popover_that_fails_to_build_opens_nothing() {
    let mut popovers = PopoverController::new();
    assert_eq!(CollabTitlebarItem::render_vcs_popover(Err(failure()), &mut popovers), None);
    assert!(!popovers.is_open(ElementId::ProjectBranchTrigger));
    assert_eq!(popovers.focus_owner(), None);
    assert_eq!(TitlebarItem::render_vcs_popover(Err(failure()), &mut popovers), None);
    assert!(!popovers.is_open(ElementId::ProjectBranchTrigger));
    assert_eq!(popovers.focus_owner(), None);
}

#[test]
fn vcs_popover_that_builds_is_open_and_focused() {
    let mut popovers = PopoverController::new();
    let r = CollabTitlebarItem::render_vcs_popover(Ok(overlay(4)), &mut popovers);
    assert_eq!(r, Some(overlay(4)));
    assert_eq!(popovers.overlay(ElementId::ProjectBranchTrigger), Some(overlay(4)));
    assert_eq!(popovers.focus_owner(), Some(ElementId::ProjectBranchTrigger));
    let r = TitlebarItem::render_vcs_popover(Ok(overlay(5)), &mut popovers);
    assert_eq!(r, Some(overlay(5)));
    assert_eq!(popovers.overlay(ElementId::ProjectBranchTrigger), Some(overlay(5)));
}

#[test]
fn project_popover_is_open_and_focused() {
    let mut popovers = PopoverController::new();
    let r = CollabTitlebarItem::render_project_popover(overlay(6), &mut popovers);
    assert_eq!(r, overlay(6));
    assert_eq!(popovers.overlay(ElementId::ProjectNameTrigger), Some(overlay(6)));
    assert_eq!(popovers.focus_owner(), Some(ElementId::ProjectNameTrigger));
    let r = TitlebarItem::render_project_popover(overlay(7), &mut popovers);
    assert_eq!(r, overlay(7));
    assert_eq!(popovers.overlay(ElementId::ProjectNameTrigger), Some(overlay(7)));
    assert!(!popovers.is_open(ElementId::ProjectBranchTrigger));
}
