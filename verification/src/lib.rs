//! The model behind a small file browser: which well-known folders exist,
//! which drives are shown, and what the main panel lists after each click.
//!
//! Nothing here touches the disk or the screen. The surrounding program
//! asks the operating system, hands the answers over as plain values, and
//! draws what the model then holds.

pub mod drives;
pub mod explorer;
pub mod file_item;
pub mod lister;
pub mod metadata;
pub mod navigation;
pub mod platform;
pub mod registry;
pub mod text;
pub mod title_bar;

pub use explorer::FileExplorer;
pub use file_item::FileItem;
pub use title_bar::TitleBar;
