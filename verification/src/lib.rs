//! Presentation model of an editor titlebar: the facts a titlebar shows are
//! resolved from snapshots of the project, its worktrees and the user
//! directory, bounded in length, and described as plain element values that a
//! toolkit can draw. Popover menus are tracked by a small controller that owns
//! the focus hand-over.

pub mod collab_titlebar_item;
pub mod context;
pub mod element;
pub mod handle;
pub mod parts;
pub mod popover;
pub mod project;
pub mod resolve;
pub mod titlebar_item;
pub mod truncate;
pub mod user_store;

pub use collab_titlebar_item::CollabTitlebarItem;
pub use titlebar_item::TitlebarItem;
