//! What the shell knows of its one window: colour, backdrop material and
//! visibility.
use vstd::prelude::*;

verus! {

/// An RGBA colour, one byte per channel.
#[derive(Clone, Copy, Debug, PartialEq, Eq, Structural)]
pub struct Rgba {
    pub r: u8,
    pub g: u8,
    pub b: u8,
    pub a: u8,
}

/// The opaque colour painted behind the content before it first draws, so that
/// the platform's default colour never flashes (`#0d0d0d`).
pub open spec fn theme_background() -> Rgba {
    Rgba { r: 13, g: 13, b: 13, a: 255 }
}

/// The theme's background colour.
pub fn background_color() -> (c: Rgba)
    ensures
        c == theme_background(),
{
    Rgba { r: 13, g: 13, b: 13, a: 255 }
}

/// Compositor translucency materials the shell asks for.
#[derive(Clone, Copy, Debug, PartialEq, Eq, Structural)]
pub enum Material {
    UnderWindowBackground,
}

/// The material applied to the window's backdrop during setup.
pub open spec fn shell_material() -> Material {
    Material::UnderWindowBackground
}

/// The translucency material of the shell.
pub fn backdrop_material() -> (m: Material)
    ensures
        m == shell_material(),
{
    Material::UnderWindowBackground
}

/// Whether the window is on screen.
#[derive(Clone, Copy, Debug, PartialEq, Eq, Structural)]
pub enum Visibility {
    Hidden,
    Visible,
}

/// The observable state of the shell's window.
#[derive(Clone, Copy, Debug, PartialEq, Eq, Structural)]
pub struct Window {
    pub visibility: Visibility,
    /// The colour set on the window, or `None` while the platform's default
    /// backdrop shows.
    pub background: Option<Rgba>,
    /// The translucency material applied, if any.
    pub material: Option<Material>,
}

impl Window {
    /// A window as the platform creates it: hidden, with its default backdrop
    /// and no material.
    pub fn created() -> (w: Window)
        ensures
            w.visibility == Visibility::Hidden,
            w.background.is_none(),
            w.material.is_none(),
    {
        Window { visibility: Visibility::Hidden, background: None, material: None }
    }

    /// Whether the window is on screen.
    pub fn is_visible(&self) -> (r: bool)
        ensures
            r == (self.visibility == Visibility::Visible),
    {
        match self.visibility {
            Visibility::Visible => true,
            Visibility::Hidden => false,
        }
    }
}

} // verus!
