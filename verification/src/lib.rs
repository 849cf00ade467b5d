//! HyperOS 4 inspired soft-light glass theme for GPUI.
//!
//! This crate holds the parts of the theme that are decided independently of
//! the renderer: the bundled light and dark theme sources, the choice between
//! them for a theme mode, and the native window backdrop that glass windows
//! ask for. Each public function states its result exactly in its contract.

mod glass;
mod theme;

pub use glass::{soft_glass_window_background, WindowBackgroundAppearance};
pub use theme::{HyperOs4Theme, ThemeMode};
