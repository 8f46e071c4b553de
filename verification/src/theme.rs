//! Theme system: declarative token sets that map element kinds to styles.

pub mod color;
pub mod defaults;
pub mod types;

pub use color::{AnsiColor, Color};
pub use defaults::{
    catppuccin_theme, docs_theme, dracula_theme, gruvbox_theme, minimal_theme, monokai_theme,
    neon_theme, nord_theme, solarized_theme, tokyo_night_theme,
};
pub use types::{
    default_all_sides, default_blockquote_indent, default_code_block_padding,
    default_heading_margin_bottom, default_heading_margin_top, default_list_indent,
    default_paragraph_spacing, default_true, default_version, BlockQuoteStyle, BlockStyles,
    BorderConfig, BorderSide, BorderStyle, CalloutStyle, CalloutStyles, CodeBlockStyle,
    ColorPalette, EmphasisStyle, FontStyle, FontWeight, HeadingStyle, HeadingStyles,
    HorizontalRuleStyle, InlineStyles, LinkStyle, ListStyle, ParagraphStyle, Spacing, TableStyle,
    TextStyle, Theme, Typography, UrlDisplayMode,
};

use crate::text::{chars_equal, chars_of, lower_seq, to_lower};
use defaults::{
    catppuccin_palette, dracula_palette, gruvbox_palette, is_docs_theme, is_minimal_theme,
    is_neon_theme, is_palette_theme, monokai_palette, nord_palette, solarized_palette,
    tokyo_night_palette,
};
use vstd::prelude::*;

verus! {

/// The built-in themes.
#[derive(Debug, Clone, Copy, PartialEq, Eq, Structural)]
pub enum BuiltinTheme {
    Docs,
    Neon,
    Minimal,
    Dracula,
    Monokai,
    Solarized,
    Gruvbox,
    Nord,
    TokyoNight,
    Catppuccin,
}

/// The built-in theme that `name`, in lowercase, names.
pub open spec fn builtin_named(name: Seq<char>) -> Option<BuiltinTheme> {
    if name == "docs"@ {
        Some(BuiltinTheme::Docs)
    } else if name == "neon"@ {
        Some(BuiltinTheme::Neon)
    } else if name == "minimal"@ {
        Some(BuiltinTheme::Minimal)
    } else if name == "dracula"@ {
        Some(BuiltinTheme::Dracula)
    } else if name == "monokai"@ {
        Some(BuiltinTheme::Monokai)
    } else if name == "solarized"@ {
        Some(BuiltinTheme::Solarized)
    } else if name == "gruvbox"@ {
        Some(BuiltinTheme::Gruvbox)
    } else if name == "nord"@ {
        Some(BuiltinTheme::Nord)
    } else if name == "tokyo-night"@ || name == "tokyonight"@ {
        Some(BuiltinTheme::TokyoNight)
    } else if name == "catppuccin"@ {
        Some(BuiltinTheme::Catppuccin)
    } else {
        None
    }
}

/// Whether `t` is the built-in theme `which`.
pub open spec fn is_builtin(which: BuiltinTheme, t: Theme) -> bool {
    match which {
        BuiltinTheme::Docs => is_docs_theme(t),
        BuiltinTheme::Neon => is_neon_theme(t),
        BuiltinTheme::Minimal => is_minimal_theme(t),
        BuiltinTheme::Dracula => is_palette_theme(t, "Dracula"@, dracula_palette()),
        BuiltinTheme::Monokai => is_palette_theme(t, "Monokai"@, monokai_palette()),
        BuiltinTheme::Solarized => is_palette_theme(t, "Solarized"@, solarized_palette()),
        BuiltinTheme::Gruvbox => is_palette_theme(t, "Gruvbox"@, gruvbox_palette()),
        BuiltinTheme::Nord => is_palette_theme(t, "Nord"@, nord_palette()),
        BuiltinTheme::TokyoNight => is_palette_theme(t, "Tokyo Night"@, tokyo_night_palette()),
        BuiltinTheme::Catppuccin => is_palette_theme(t, "Catppuccin"@, catppuccin_palette()),
    }
}

impl BuiltinTheme {
    /// The built-in theme that `name` names; case is ignored.
    pub fn named(name: &str) -> (r: Option<BuiltinTheme>)
        ensures
            r == builtin_named(lower_seq(name@)),
    {
        let lowered = to_lower(&chars_of(name));
        if chars_equal(&lowered, "docs") {
            Some(BuiltinTheme::Docs)
        } else if chars_equal(&lowered, "neon") {
            Some(BuiltinTheme::Neon)
        } else if chars_equal(&lowered, "minimal") {
            Some(BuiltinTheme::Minimal)
        } else if chars_equal(&lowered, "dracula") {
            Some(BuiltinTheme::Dracula)
        } else if chars_equal(&lowered, "monokai") {
            Some(BuiltinTheme::Monokai)
        } else if chars_equal(&lowered, "solarized") {
            Some(BuiltinTheme::Solarized)
        } else if chars_equal(&lowered, "gruvbox") {
            Some(BuiltinTheme::Gruvbox)
        } else if chars_equal(&lowered, "nord") {
            Some(BuiltinTheme::Nord)
        } else if chars_equal(&lowered, "tokyo-night") || chars_equal(&lowered, "tokyonight") {
            Some(BuiltinTheme::TokyoNight)
        } else if chars_equal(&lowered, "catppuccin") {
            Some(BuiltinTheme::Catppuccin)
        } else {
            None
        }
    }

    /// The theme itself.
    pub fn theme(self) -> (t: Theme)
        ensures
            is_builtin(self, t),
    {
        match self {
            BuiltinTheme::Docs => docs_theme(),
            BuiltinTheme::Neon => neon_theme(),
            BuiltinTheme::Minimal => minimal_theme(),
            BuiltinTheme::Dracula => dracula_theme(),
            BuiltinTheme::Monokai => monokai_theme(),
            BuiltinTheme::Solarized => solarized_theme(),
            BuiltinTheme::Gruvbox => gruvbox_theme(),
            BuiltinTheme::Nord => nord_theme(),
            BuiltinTheme::TokyoNight => tokyo_night_theme(),
            BuiltinTheme::Catppuccin => catppuccin_theme(),
        }
    }
}

impl Theme {
    /// Get a built-in theme by name; case is ignored.
    pub fn builtin(name: &str) -> (r: Option<Theme>)
        ensures
            match builtin_named(lower_seq(name@)) {
                Some(which) => r matches Some(t) && is_builtin(which, t),
                None => r is None,
            },
    {
        match BuiltinTheme::named(name) {
            Some(which) => Some(which.theme()),
            None => None,
        }
    }

    /// List all built-in theme names.
    pub fn builtin_names() -> (names: Vec<&'static str>)
        ensures
            names@.len() == 10,
            names@[0]@ == "docs"@,
            names@[1]@ == "neon"@,
            names@[2]@ == "minimal"@,
            names@[3]@ == "dracula"@,
            names@[4]@ == "monokai"@,
            names@[5]@ == "solarized"@,
            names@[6]@ == "gruvbox"@,
            names@[7]@ == "nord"@,
            names@[8]@ == "tokyo-night"@,
            names@[9]@ == "catppuccin"@,
            forall|i: int| 0 <= i < 10 ==> builtin_named(#[trigger] names@[i]@) is Some,
    {
        let mut names: Vec<&'static str> = Vec::new();
        names.push("docs");
        names.push("neon");
        names.push("minimal");
        names.push("dracula");
        names.push("monokai");
        names.push("solarized");
        names.push("gruvbox");
        names.push("nord");
        names.push("tokyo-night");
        names.push("catppuccin");
        names
    }
}

} // verus!
