//! The color themes of the terminal chat: the dark and light palettes,
//! and the styles the views draw with, built from a palette.

use vstd::prelude::*;

use crate::message::StyleRole;

verus! {

/// A 24-bit color.
#[derive(Debug, Clone, Copy, PartialEq, Eq, Structural)]
pub struct Rgb {
    pub r: u8,
    pub g: u8,
    pub b: u8,
}

/// The colors of a theme.
#[derive(Debug, Clone, Copy, PartialEq, Eq, Structural)]
pub struct Palette {
    pub ember: Rgb,
    pub ember_dim: Rgb,
    pub ember_bright: Rgb,
    pub teal: Rgb,
    pub teal_dim: Rgb,
    pub fg: Rgb,
    pub fg_muted: Rgb,
    pub fg_subtle: Rgb,
    pub fg_faint: Rgb,
    pub bg: Rgb,
    pub bg_elevated: Rgb,
    pub bg_panel: Rgb,
    pub bg_hover: Rgb,
    pub success: Rgb,
    pub warning: Rgb,
    pub error: Rgb,
    pub info: Rgb,
    pub syntax_keyword: Rgb,
    pub syntax_string: Rgb,
    pub syntax_number: Rgb,
    pub syntax_comment: Rgb,
    pub syntax_fn: Rgb,
    pub syntax_type: Rgb,
    pub border: Rgb,
    pub border_focus: Rgb,
}

/// The dark palette: a warm ember brand on deep charcoal.
pub open spec fn dark_palette() -> Palette {
    Palette {
        ember: Rgb { r: 235, g: 134, b: 74 },
        ember_dim: Rgb { r: 160, g: 82, b: 45 },
        ember_bright: Rgb { r: 255, g: 170, b: 100 },
        teal: Rgb { r: 79, g: 196, b: 188 },
        teal_dim: Rgb { r: 45, g: 120, b: 115 },
        fg: Rgb { r: 224, g: 222, b: 221 },
        fg_muted: Rgb { r: 168, g: 165, b: 163 },
        fg_subtle: Rgb { r: 120, g: 117, b: 116 },
        fg_faint: Rgb { r: 72, g: 70, b: 69 },
        bg: Rgb { r: 24, g: 23, b: 27 },
        bg_elevated: Rgb { r: 32, g: 31, b: 36 },
        bg_panel: Rgb { r: 38, g: 37, b: 43 },
        bg_hover: Rgb { r: 48, g: 46, b: 54 },
        success: Rgb { r: 134, g: 200, b: 120 },
        warning: Rgb { r: 230, g: 185, b: 90 },
        error: Rgb { r: 220, g: 95, b: 95 },
        info: Rgb { r: 110, g: 175, b: 230 },
        syntax_keyword: Rgb { r: 200, g: 130, b: 220 },
        syntax_string: Rgb { r: 150, g: 200, b: 120 },
        syntax_number: Rgb { r: 220, g: 170, b: 100 },
        syntax_comment: Rgb { r: 110, g: 108, b: 108 },
        syntax_fn: Rgb { r: 120, g: 180, b: 230 },
        syntax_type: Rgb { r: 230, g: 195, b: 120 },
        border: Rgb { r: 55, g: 54, b: 62 },
        border_focus: Rgb { r: 235, g: 134, b: 74 },
    }
}

/// The light palette: a deeper ember on warm paper.
pub open spec fn light_palette() -> Palette {
    Palette {
        ember: Rgb { r: 190, g: 80, b: 30 },
        ember_dim: Rgb { r: 140, g: 60, b: 20 },
        ember_bright: Rgb { r: 210, g: 100, b: 40 },
        teal: Rgb { r: 20, g: 110, b: 105 },
        teal_dim: Rgb { r: 40, g: 90, b: 85 },
        fg: Rgb { r: 40, g: 39, b: 43 },
        fg_muted: Rgb { r: 90, g: 88, b: 92 },
        fg_subtle: Rgb { r: 130, g: 128, b: 132 },
        fg_faint: Rgb { r: 180, g: 178, b: 182 },
        bg: Rgb { r: 245, g: 244, b: 242 },
        bg_elevated: Rgb { r: 238, g: 237, b: 234 },
        bg_panel: Rgb { r: 232, g: 230, b: 227 },
        bg_hover: Rgb { r: 222, g: 220, b: 216 },
        success: Rgb { r: 60, g: 140, b: 70 },
        warning: Rgb { r: 170, g: 120, b: 30 },
        error: Rgb { r: 190, g: 50, b: 50 },
        info: Rgb { r: 50, g: 110, b: 180 },
        syntax_keyword: Rgb { r: 150, g: 50, b: 170 },
        syntax_string: Rgb { r: 60, g: 120, b: 50 },
        syntax_number: Rgb { r: 170, g: 110, b: 30 },
        syntax_comment: Rgb { r: 150, g: 148, b: 145 },
        syntax_fn: Rgb { r: 50, g: 100, b: 170 },
        syntax_type: Rgb { r: 160, g: 100, b: 30 },
        border: Rgb { r: 205, g: 203, b: 200 },
        border_focus: Rgb { r: 190, g: 80, b: 30 },
    }
}

impl Palette {
    /// The dark palette.
    pub fn dark() -> (p: Palette)
        ensures
            p == dark_palette(),
    {
        Palette {
            ember: Rgb { r: 235, g: 134, b: 74 },
            ember_dim: Rgb { r: 160, g: 82, b: 45 },
            ember_bright: Rgb { r: 255, g: 170, b: 100 },
            teal: Rgb { r: 79, g: 196, b: 188 },
            teal_dim: Rgb { r: 45, g: 120, b: 115 },
            fg: Rgb { r: 224, g: 222, b: 221 },
            fg_muted: Rgb { r: 168, g: 165, b: 163 },
            fg_subtle: Rgb { r: 120, g: 117, b: 116 },
            fg_faint: Rgb { r: 72, g: 70, b: 69 },
            bg: Rgb { r: 24, g: 23, b: 27 },
            bg_elevated: Rgb { r: 32, g: 31, b: 36 },
            bg_panel: Rgb { r: 38, g: 37, b: 43 },
            bg_hover: Rgb { r: 48, g: 46, b: 54 },
            success: Rgb { r: 134, g: 200, b: 120 },
            warning: Rgb { r: 230, g: 185, b: 90 },
            error: Rgb { r: 220, g: 95, b: 95 },
            info: Rgb { r: 110, g: 175, b: 230 },
            syntax_keyword: Rgb { r: 200, g: 130, b: 220 },
            syntax_string: Rgb { r: 150, g: 200, b: 120 },
            syntax_number: Rgb { r: 220, g: 170, b: 100 },
            syntax_comment: Rgb { r: 110, g: 108, b: 108 },
            syntax_fn: Rgb { r: 120, g: 180, b: 230 },
            syntax_type: Rgb { r: 230, g: 195, b: 120 },
            border: Rgb { r: 55, g: 54, b: 62 },
            border_focus: Rgb { r: 235, g: 134, b: 74 },
        }
    }

    /// The light palette.
    pub fn light() -> (p: Palette)
        ensures
            p == light_palette(),
    {
        Palette {
            ember: Rgb { r: 190, g: 80, b: 30 },
            ember_dim: Rgb { r: 140, g: 60, b: 20 },
            ember_bright: Rgb { r: 210, g: 100, b: 40 },
            teal: Rgb { r: 20, g: 110, b: 105 },
            teal_dim: Rgb { r: 40, g: 90, b: 85 },
            fg: Rgb { r: 40, g: 39, b: 43 },
            fg_muted: Rgb { r: 90, g: 88, b: 92 },
            fg_subtle: Rgb { r: 130, g: 128, b: 132 },
            fg_faint: Rgb { r: 180, g: 178, b: 182 },
            bg: Rgb { r: 245, g: 244, b: 242 },
            bg_elevated: Rgb { r: 238, g: 237, b: 234 },
            bg_panel: Rgb { r: 232, g: 230, b: 227 },
            bg_hover: Rgb { r: 222, g: 220, b: 216 },
            success: Rgb { r: 60, g: 140, b: 70 },
            warning: Rgb { r: 170, g: 120, b: 30 },
            error: Rgb { r: 190, g: 50, b: 50 },
            info: Rgb { r: 50, g: 110, b: 180 },
            syntax_keyword: Rgb { r: 150, g: 50, b: 170 },
            syntax_string: Rgb { r: 60, g: 120, b: 50 },
            syntax_number: Rgb { r: 170, g: 110, b: 30 },
            syntax_comment: Rgb { r: 150, g: 148, b: 145 },
            syntax_fn: Rgb { r: 50, g: 100, b: 170 },
            syntax_type: Rgb { r: 160, g: 100, b: 30 },
            border: Rgb { r: 205, g: 203, b: 200 },
            border_focus: Rgb { r: 190, g: 80, b: 30 },
        }
    }
}

impl Default for Palette {
    /// The dark palette.
    fn default() -> (p: Palette)
        ensures
            p == dark_palette(),
    {
        Palette::dark()
    }
}

/// A text style: foreground and background colors, bold, reversed.
#[derive(Debug, Clone, Copy, PartialEq, Eq, Structural)]
pub struct Style {
    pub fg: Option<Rgb>,
    pub bg: Option<Rgb>,
    pub bold: bool,
    pub reversed: bool,
}

/// The styles of the views, built from a palette.
#[derive(Debug, Clone, Copy, PartialEq, Eq, Structural)]
pub struct Styles {
    pub palette: Palette,
}

impl Styles {
    /// The styles of a palette.
    pub fn new(palette: Palette) -> (s: Styles)
        ensures
            s.palette == palette,
    {
        Styles { palette }
    }

    /// The styles of the dark palette.
    pub fn dark() -> (s: Styles)
        ensures
            s.palette == dark_palette(),
    {
        Styles::new(Palette::dark())
    }

    /// The styles of the light palette.
    pub fn light() -> (s: Styles)
        ensures
            s.palette == light_palette(),
    {
        Styles::new(Palette::light())
    }

    /// The brand: ember, bold.
    pub fn brand(&self) -> (s: Style)
        ensures
            s == (Style { fg: Some(self.palette.ember), bg: None::<Rgb>, bold: true, reversed: false }),
    {
        Style { fg: Some(self.palette.ember), bg: None, bold: true, reversed: false }
    }

    /// The dimmed brand.
    pub fn brand_dim(&self) -> (s: Style)
        ensures
            s == (Style { fg: Some(self.palette.ember_dim), bg: None::<Rgb>, bold: false, reversed: false }),
    {
        Style { fg: Some(self.palette.ember_dim), bg: None, bold: false, reversed: false }
    }

    /// Body text.
    pub fn text(&self) -> (s: Style)
        ensures
            s == (Style { fg: Some(self.palette.fg), bg: None::<Rgb>, bold: false, reversed: false }),
    {
        Style { fg: Some(self.palette.fg), bg: None, bold: false, reversed: false }
    }

    /// Muted text.
    pub fn text_muted(&self) -> (s: Style)
        ensures
            s == (Style { fg: Some(self.palette.fg_muted), bg: None::<Rgb>, bold: false, reversed: false }),
    {
        Style { fg: Some(self.palette.fg_muted), bg: None, bold: false, reversed: false }
    }

    /// Subtle text.
    pub fn text_subtle(&self) -> (s: Style)
        ensures
            s == (Style { fg: Some(self.palette.fg_subtle), bg: None::<Rgb>, bold: false, reversed: false }),
    {
        Style { fg: Some(self.palette.fg_subtle), bg: None, bold: false, reversed: false }
    }

    /// Faint text.
    pub fn text_faint(&self) -> (s: Style)
        ensures
            s == (Style { fg: Some(self.palette.fg_faint), bg: None::<Rgb>, bold: false, reversed: false }),
    {
        Style { fg: Some(self.palette.fg_faint), bg: None, bold: false, reversed: false }
    }

    /// Success.
    pub fn success(&self) -> (s: Style)
        ensures
            s == (Style { fg: Some(self.palette.success), bg: None::<Rgb>, bold: false, reversed: false }),
    {
        Style { fg: Some(self.palette.success), bg: None, bold: false, reversed: false }
    }

    /// A warning, bold.
    pub fn warning(&self) -> (s: Style)
        ensures
            s == (Style { fg: Some(self.palette.warning), bg: None::<Rgb>, bold: true, reversed: false }),
    {
        Style { fg: Some(self.palette.warning), bg: None, bold: true, reversed: false }
    }

    /// An error, bold.
    pub fn error(&self) -> (s: Style)
        ensures
            s == (Style { fg: Some(self.palette.error), bg: None::<Rgb>, bold: true, reversed: false }),
    {
        Style { fg: Some(self.palette.error), bg: None, bold: true, reversed: false }
    }

    /// Information.
    pub fn info(&self) -> (s: Style)
        ensures
            s == (Style { fg: Some(self.palette.info), bg: None::<Rgb>, bold: false, reversed: false }),
    {
        Style { fg: Some(self.palette.info), bg: None, bold: false, reversed: false }
    }

    /// The user's label: teal, bold.
    pub fn role_user(&self) -> (s: Style)
        ensures
            s == (Style { fg: Some(self.palette.teal), bg: None::<Rgb>, bold: true, reversed: false }),
    {
        Style { fg: Some(self.palette.teal), bg: None, bold: true, reversed: false }
    }

    /// The assistant's label: ember, bold.
    pub fn role_assistant(&self) -> (s: Style)
        ensures
            s == (Style { fg: Some(self.palette.ember), bg: None::<Rgb>, bold: true, reversed: false }),
    {
        Style { fg: Some(self.palette.ember), bg: None, bold: true, reversed: false }
    }

    /// System lines.
    pub fn role_system(&self) -> (s: Style)
        ensures
            s == (Style { fg: Some(self.palette.fg_subtle), bg: None::<Rgb>, bold: false, reversed: false }),
    {
        Style { fg: Some(self.palette.fg_subtle), bg: None, bold: false, reversed: false }
    }

    /// Tool lines.
    pub fn role_tool(&self) -> (s: Style)
        ensures
            s == (Style { fg: Some(self.palette.fg_muted), bg: None::<Rgb>, bold: false, reversed: false }),
    {
        Style { fg: Some(self.palette.fg_muted), bg: None, bold: false, reversed: false }
    }

    /// Code keywords.
    pub fn syntax_keyword(&self) -> (s: Style)
        ensures
            s == (Style { fg: Some(self.palette.syntax_keyword), bg: None::<Rgb>, bold: false, reversed: false }),
    {
        Style { fg: Some(self.palette.syntax_keyword), bg: None, bold: false, reversed: false }
    }

    /// Code strings.
    pub fn syntax_string(&self) -> (s: Style)
        ensures
            s == (Style { fg: Some(self.palette.syntax_string), bg: None::<Rgb>, bold: false, reversed: false }),
    {
        Style { fg: Some(self.palette.syntax_string), bg: None, bold: false, reversed: false }
    }

    /// Code numbers.
    pub fn syntax_number(&self) -> (s: Style)
        ensures
            s == (Style { fg: Some(self.palette.syntax_number), bg: None::<Rgb>, bold: false, reversed: false }),
    {
        Style { fg: Some(self.palette.syntax_number), bg: None, bold: false, reversed: false }
    }

    /// Code comments.
    pub fn syntax_comment(&self) -> (s: Style)
        ensures
            s == (Style { fg: Some(self.palette.syntax_comment), bg: None::<Rgb>, bold: false, reversed: false }),
    {
        Style { fg: Some(self.palette.syntax_comment), bg: None, bold: false, reversed: false }
    }

    /// Code function names.
    pub fn syntax_fn(&self) -> (s: Style)
        ensures
            s == (Style { fg: Some(self.palette.syntax_fn), bg: None::<Rgb>, bold: false, reversed: false }),
    {
        Style { fg: Some(self.palette.syntax_fn), bg: None, bold: false, reversed: false }
    }

    /// Code type names.
    pub fn syntax_type(&self) -> (s: Style)
        ensures
            s == (Style { fg: Some(self.palette.syntax_type), bg: None::<Rgb>, bold: false, reversed: false }),
    {
        Style { fg: Some(self.palette.syntax_type), bg: None, bold: false, reversed: false }
    }

    /// Borders.
    pub fn border(&self) -> (s: Style)
        ensures
            s == (Style { fg: Some(self.palette.border), bg: None::<Rgb>, bold: false, reversed: false }),
    {
        Style { fg: Some(self.palette.border), bg: None, bold: false, reversed: false }
    }

    /// The border of the focused pane.
    pub fn border_focus(&self) -> (s: Style)
        ensures
            s == (Style { fg: Some(self.palette.border_focus), bg: None::<Rgb>, bold: false, reversed: false }),
    {
        Style { fg: Some(self.palette.border_focus), bg: None, bold: false, reversed: false }
    }

    /// Pane titles: muted, bold.
    pub fn title(&self) -> (s: Style)
        ensures
            s == (Style { fg: Some(self.palette.fg_muted), bg: None::<Rgb>, bold: true, reversed: false }),
    {
        Style { fg: Some(self.palette.fg_muted), bg: None, bold: true, reversed: false }
    }

    /// A highlighted row: body text, reversed.
    pub fn highlight(&self) -> (s: Style)
        ensures
            s == (Style { fg: Some(self.palette.fg), bg: None::<Rgb>, bold: false, reversed: true }),
    {
        Style { fg: Some(self.palette.fg), bg: None, bold: false, reversed: true }
    }

    /// A success pill: background on success, bold.
    pub fn status_pill_ok(&self) -> (s: Style)
        ensures
            s == (Style { fg: Some(self.palette.bg), bg: Some(self.palette.success), bold: true, reversed: false }),
    {
        Style { fg: Some(self.palette.bg), bg: Some(self.palette.success), bold: true, reversed: false }
    }

    /// A warning pill: background on warning, bold.
    pub fn status_pill_warn(&self) -> (s: Style)
        ensures
            s == (Style { fg: Some(self.palette.bg), bg: Some(self.palette.warning), bold: true, reversed: false }),
    {
        Style { fg: Some(self.palette.bg), bg: Some(self.palette.warning), bold: true, reversed: false }
    }

    /// An error pill: background on error, bold.
    pub fn status_pill_err(&self) -> (s: Style)
        ensures
            s == (Style { fg: Some(self.palette.bg), bg: Some(self.palette.error), bold: true, reversed: false }),
    {
        Style { fg: Some(self.palette.bg), bg: Some(self.palette.error), bold: true, reversed: false }
    }

    /// An information pill: background on info, bold.
    pub fn status_pill_info(&self) -> (s: Style)
        ensures
            s == (Style { fg: Some(self.palette.bg), bg: Some(self.palette.info), bold: true, reversed: false }),
    {
        Style { fg: Some(self.palette.bg), bg: Some(self.palette.info), bold: true, reversed: false }
    }

    /// The style a span of a message line is drawn in.
    pub fn role(&self, role: StyleRole) -> (s: Style)
        ensures
            s == match role {
                StyleRole::Plain => Style { fg: None, bg: None, bold: false, reversed: false },
                StyleRole::Brand => Style { fg: Some(self.palette.ember), bg: None, bold: true, reversed: false },
                StyleRole::Text => Style { fg: Some(self.palette.fg), bg: None, bold: false, reversed: false },
                StyleRole::TextMuted => Style { fg: Some(self.palette.fg_muted), bg: None, bold: false, reversed: false },
                StyleRole::TextSubtle => Style { fg: Some(self.palette.fg_subtle), bg: None, bold: false, reversed: false },
                StyleRole::TextFaint => Style { fg: Some(self.palette.fg_faint), bg: None, bold: false, reversed: false },
                StyleRole::Success => Style { fg: Some(self.palette.success), bg: None, bold: false, reversed: false },
                StyleRole::Warning => Style { fg: Some(self.palette.warning), bg: None, bold: true, reversed: false },
                StyleRole::Error => Style { fg: Some(self.palette.error), bg: None, bold: true, reversed: false },
                StyleRole::Info => Style { fg: Some(self.palette.info), bg: None, bold: false, reversed: false },
                StyleRole::RoleUser => Style { fg: Some(self.palette.teal), bg: None, bold: true, reversed: false },
                StyleRole::RoleAssistant => Style { fg: Some(self.palette.ember), bg: None, bold: true, reversed: false },
                StyleRole::SyntaxString => Style { fg: Some(self.palette.syntax_string), bg: None, bold: false, reversed: false },
            },
    {
        match role {
            StyleRole::Plain => Style { fg: None, bg: None, bold: false, reversed: false },
            StyleRole::Brand => self.brand(),
            StyleRole::Text => self.text(),
            StyleRole::TextMuted => self.text_muted(),
            StyleRole::TextSubtle => self.text_subtle(),
            StyleRole::TextFaint => self.text_faint(),
            StyleRole::Success => self.success(),
            StyleRole::Warning => self.warning(),
            StyleRole::Error => self.error(),
            StyleRole::Info => self.info(),
            StyleRole::RoleUser => self.role_user(),
            StyleRole::RoleAssistant => self.role_assistant(),
            StyleRole::SyntaxString => self.syntax_string(),
        }
    }
}

impl Default for Styles {
    /// The styles of the dark palette.
    fn default() -> (s: Styles)
        ensures
            s.palette == dark_palette(),
    {
        Styles::dark()
    }
}

} // verus!
