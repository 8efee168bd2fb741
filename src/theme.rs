use vstd::prelude::*;

verus! {

/// A color with 8-bit red, green, blue and alpha channels.
#[derive(Clone, Copy, Debug, PartialEq, Eq, Structural)]
pub struct Rgba {
    pub red: u8,
    pub green: u8,
    pub blue: u8,
    pub alpha: u8,
}

/// The fonts and colors of the shell's own widgets.
pub struct Theme;

impl Theme {
    /// The font of regular text.
    pub fn font_name() -> (r: &'static str)
        ensures
            r@ == "Fira Sans Semi-Light 10"@,
    {
        "Fira Sans Semi-Light 10"
    }

    /// The font of secondary text, such as descriptions.
    pub fn small_font_name() -> (r: &'static str)
        ensures
            r@ == "Fira Sans Semi-Light 9"@,
    {
        "Fira Sans Semi-Light 9"
    }

    /// The fill of panels.
    pub fn color_background() -> (r: Rgba)
        ensures
            r == (Rgba { red: 0x33, green: 0x30, blue: 0x2F, alpha: 0xFF }),
    {
        Rgba { red: 0x33, green: 0x30, blue: 0x2F, alpha: 0xFF }
    }

    /// The outline of the input and of the active workspace.
    pub fn color_border() -> (r: Rgba)
        ensures
            r == (Rgba { red: 0xFB, green: 0xB8, blue: 0x6C, alpha: 0xFF }),
    {
        Rgba { red: 0xFB, green: 0xB8, blue: 0x6C, alpha: 0xFF }
    }

    /// The fill of the highlighted result and of selected text.
    pub fn color_highlight() -> (r: Rgba)
        ensures
            r == (Rgba { red: 0x5A, green: 0x57, blue: 0x57, alpha: 0xFF }),
    {
        Rgba { red: 0x5A, green: 0x57, blue: 0x57, alpha: 0xFF }
    }

    /// The fill of the input and of workspace previews.
    pub fn color_input() -> (r: Rgba)
        ensures
            r == (Rgba { red: 0x2B, green: 0x29, blue: 0x28, alpha: 0xFF }),
    {
        Rgba { red: 0x2B, green: 0x29, blue: 0x28, alpha: 0xFF }
    }

    /// The color of text.
    pub fn color_text() -> (r: Rgba)
        ensures
            r == (Rgba { red: 0xE6, green: 0xE6, blue: 0xE6, alpha: 0xFF }),
    {
        Rgba { red: 0xE6, green: 0xE6, blue: 0xE6, alpha: 0xFF }
    }
}

} // verus!
