//! The elements of a titlebar, as plain values that a toolkit can draw.

use crate::handle::{WeakWorkspaceHandle, WorkspaceHandle};
use crate::project::PeerId;
use vstd::prelude::*;

verus! {

/// The elements that the titlebar names.
#[derive(Clone, Copy, Debug, PartialEq, Eq, Structural)]
pub enum ElementId {
    Titlebar,
    ProjectOwnerTrigger,
    ProjectNameTrigger,
    ProjectBranchTrigger,
    UserMenu,
}

impl ElementId {
    /// The name under which the toolkit knows the element.
    pub open spec fn name(self) -> Seq<char> {
        match self {
            ElementId::Titlebar => "titlebar"@,
            ElementId::ProjectOwnerTrigger => "project_owner_trigger"@,
            ElementId::ProjectNameTrigger => "project_name_trigger"@,
            ElementId::ProjectBranchTrigger => "project_branch_trigger"@,
            ElementId::UserMenu => "user-menu"@,
        }
    }

    /// The name under which the toolkit knows the element.
    pub fn as_str(&self) -> (r: &'static str)
        ensures
            r@ == self.name(),
    {
        match self {
            ElementId::Titlebar => "titlebar",
            ElementId::ProjectOwnerTrigger => "project_owner_trigger",
            ElementId::ProjectNameTrigger => "project_name_trigger",
            ElementId::ProjectBranchTrigger => "project_branch_trigger",
            ElementId::UserMenu => "user-menu",
        }
    }
}

/// The colour of a label or an icon.
#[derive(Clone, Copy, Debug, PartialEq, Eq, Structural)]
pub enum Color {
    /// The theme's ordinary text colour.
    Default,
    /// The subdued colour of what is less important, or stands for something
    /// that is not there.
    Muted,
    /// The colour of the participant with this colour slot.
    Player(u32),
}

#[derive(Clone, Copy, Debug, PartialEq, Eq, Structural)]
pub enum IconName {
    ChevronDown,
}

/// The corner of a trigger that its menu hangs from.
#[derive(Clone, Copy, Debug, PartialEq, Eq, Structural)]
pub enum AnchorCorner {
    TopLeft,
    TopRight,
}

/// What a menu entry or a key binding sets off.
#[derive(Clone, Copy, Debug, PartialEq, Eq, Structural)]
pub enum Action {
    OpenSettings,
    Extensions,
    ToggleThemeSelector,
    SignOut,
    ToggleVcsMenu,
}

/// What a click on a button sets off.
#[derive(Clone, Copy, Debug, PartialEq, Eq, Structural)]
pub enum ClickAction {
    /// Follow this peer in the owning workspace.
    FollowPeer(PeerId),
}

/// The text shown while the pointer rests on an element.
#[derive(Debug, PartialEq, Eq)]
pub struct Tooltip {
    pub text: String,
    /// The action whose key binding is shown beside the text.
    pub action: Option<Action>,
    /// A second, smaller line.
    pub meta: Option<String>,
}

pub struct TooltipView {
    pub text: Seq<char>,
    pub action: Option<Action>,
    pub meta: Option<Seq<char>>,
}

impl View for Tooltip {
    type V = TooltipView;

    open spec fn view(&self) -> TooltipView {
        TooltipView {
            text: self.text@,
            action: self.action,
            meta: self.meta.deep_view(),
        }
    }
}

impl DeepView for Tooltip {
    type V = TooltipView;

    open spec fn deep_view(&self) -> TooltipView {
        self@
    }
}

/// A button: any of a label, an avatar and an icon, in this order.
#[derive(Debug, PartialEq, Eq)]
pub struct Button {
    pub id: ElementId,
    pub label: Option<String>,
    /// Where the avatar's image is found.
    pub avatar: Option<String>,
    pub icon: Option<IconName>,
    /// The colour of the label and of the icon.
    pub color: Color,
    pub tooltip: Tooltip,
    pub on_click: Option<ClickAction>,
}

pub struct ButtonView {
    pub id: ElementId,
    pub label: Option<Seq<char>>,
    pub avatar: Option<Seq<char>>,
    pub icon: Option<IconName>,
    pub color: Color,
    pub tooltip: TooltipView,
    pub on_click: Option<ClickAction>,
}

impl View for Button {
    type V = ButtonView;

    open spec fn view(&self) -> ButtonView {
        ButtonView {
            id: self.id,
            label: self.label.deep_view(),
            avatar: self.avatar.deep_view(),
            icon: self.icon,
            color: self.color,
            tooltip: self.tooltip@,
            on_click: self.on_click,
        }
    }
}

impl DeepView for Button {
    type V = ButtonView;

    open spec fn deep_view(&self) -> ButtonView {
        self@
    }
}

/// A line of text.
#[derive(Debug, PartialEq, Eq)]
pub struct Label {
    pub text: String,
}

pub struct LabelView {
    pub text: Seq<char>,
}

impl View for Label {
    type V = LabelView;

    open spec fn view(&self) -> LabelView {
        LabelView { text: self.text@ }
    }
}

impl DeepView for Label {
    type V = LabelView;

    open spec fn deep_view(&self) -> LabelView {
        self@
    }
}

/// One line of a context menu.
#[derive(Debug, PartialEq, Eq)]
pub enum MenuEntry {
    Action { label: String, action: Action },
    Separator,
}

pub enum MenuEntryView {
    Action { label: Seq<char>, action: Action },
    Separator,
}

impl View for MenuEntry {
    type V = MenuEntryView;

    open spec fn view(&self) -> MenuEntryView {
        match self {
            MenuEntry::Action { label, action } => MenuEntryView::Action {
                label: label@,
                action: *action,
            },
            MenuEntry::Separator => MenuEntryView::Separator,
        }
    }
}

impl DeepView for MenuEntry {
    type V = MenuEntryView;

    open spec fn deep_view(&self) -> MenuEntryView {
        self@
    }
}

/// What a popover shows once its trigger is activated.
#[derive(Debug, PartialEq, Eq)]
pub enum Menu {
    /// The list of recent projects, built for the workspace behind the weak
    /// handle.
    RecentProjects(WeakWorkspaceHandle),
    /// The list of branches, built for the workspace behind the handle.
    BranchList(WorkspaceHandle),
    /// A context menu with these entries, top down.
    Context(Vec<MenuEntry>),
}

pub enum MenuView {
    RecentProjects(WeakWorkspaceHandle),
    BranchList(WorkspaceHandle),
    Context(Seq<MenuEntryView>),
}

impl View for Menu {
    type V = MenuView;

    open spec fn view(&self) -> MenuView {
        match self {
            Menu::RecentProjects(workspace) => MenuView::RecentProjects(*workspace),
            Menu::BranchList(workspace) => MenuView::BranchList(*workspace),
            Menu::Context(entries) => MenuView::Context(entries.deep_view()),
        }
    }
}

impl DeepView for Menu {
    type V = MenuView;

    open spec fn deep_view(&self) -> MenuView {
        self@
    }
}

/// A trigger with the menu that it opens.
#[derive(Debug, PartialEq, Eq)]
pub struct PopoverMenu {
    pub id: ElementId,
    pub trigger: Button,
    pub menu: Menu,
    /// The corner that the menu hangs from; `None` leaves it to the toolkit.
    pub anchor: Option<AnchorCorner>,
}

pub struct PopoverMenuView {
    pub id: ElementId,
    pub trigger: ButtonView,
    pub menu: MenuView,
    pub anchor: Option<AnchorCorner>,
}

impl View for PopoverMenu {
    type V = PopoverMenuView;

    open spec fn view(&self) -> PopoverMenuView {
        PopoverMenuView {
            id: self.id,
            trigger: self.trigger@,
            menu: self.menu@,
            anchor: self.anchor,
        }
    }
}

impl DeepView for PopoverMenu {
    type V = PopoverMenuView;

    open spec fn deep_view(&self) -> PopoverMenuView {
        self@
    }
}

} // verus!
