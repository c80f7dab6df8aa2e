//! The three screens of the editor and the registry that holds them.

pub mod editing_screen;
pub mod exiting_screen;
pub mod main_screen;
pub mod registry;
pub mod screen_trait;

pub use editing_screen::EditingScreen;
pub use exiting_screen::ExitingScreen;
pub use main_screen::MainScreen;
pub use registry::{AnyScreen, ScreenRegistry};
pub use screen_trait::Screen;
