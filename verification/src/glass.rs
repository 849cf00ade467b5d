use vstd::prelude::*;

verus! {

/// How a window's background is composed with what lies behind it.
#[derive(Clone, Copy, Debug, PartialEq, Eq, Structural)]
pub enum WindowBackgroundAppearance {
    /// A solid window background.
    Opaque,
    /// Transparent pixels show the desktop unchanged.
    Transparent,
    /// Transparent pixels show the desktop through the compositor's blur.
    Blurred,
}

/// Select the native window backdrop used by HyperOS 4 glass windows.
///
/// The blurred appearance maps to the platform compositor (acrylic on
/// Windows, a visual-effect view on macOS, the Wayland blur protocol where
/// available). Platforms without a backdrop blur keep the translucent tint
/// and highlight treatment as a graceful fallback.
pub fn soft_glass_window_background() -> (a: WindowBackgroundAppearance)
    ensures
        a == WindowBackgroundAppearance::Blurred,
{
    WindowBackgroundAppearance::Blurred
}

} // verus!
