//! Color handling for the rendered output.
//!
//! The rendering functions take an explicit `use_color` flag; resolving the
//! three-way color mode against the terminal is the caller's business and is
//! decided here from plain values. Painting a string wraps it in the ANSI
//! foreground escape codes that the terminal color library emits.

use vstd::prelude::*;

use owo_colors::OwoColorize;

verus! {

/// Whether colorized output is requested: always, only on a terminal, or
/// never.
#[derive(Debug, Clone, Copy, PartialEq, Eq, Structural)]
pub enum ColorMode {
    Always,
    Auto,
    Never,
}

/// Whether a mode turns color on, given whether standard output is a
/// terminal.
pub open spec fn spec_use_color(mode: ColorMode, terminal: bool) -> bool {
    match mode {
        ColorMode::Always => true,
        ColorMode::Auto => terminal,
        ColorMode::Never => false,
    }
}

impl ColorMode {
    /// Resolves the mode: `Always` and `Never` decide alone, `Auto` follows
    /// whether standard output is a terminal.
    pub fn use_color(&self, terminal: bool) -> (r: bool)
        ensures
            r == spec_use_color(*self, terminal),
    {
        match self {
            ColorMode::Always => true,
            ColorMode::Auto => terminal,
            ColorMode::Never => false,
        }
    }

    /// The mode's name, as it appears on the command line.
    pub fn as_str(&self) -> (r: &'static str)
        ensures
            r@ == spec_mode_name(*self),
    {
        match self {
            ColorMode::Always => "always",
            ColorMode::Auto => "auto",
            ColorMode::Never => "never",
        }
    }
}

/// The mode's name, as it appears on the command line.
pub open spec fn spec_mode_name(mode: ColorMode) -> Seq<char> {
    match mode {
        ColorMode::Always => "always"@,
        ColorMode::Auto => "auto"@,
        ColorMode::Never => "never"@,
    }
}

/// The ANSI escape that restores the default foreground color.
pub open spec fn fg_reset() -> Seq<char> {
    "\u{1b}[39m"@
}

/// The ANSI escape that selects the blue foreground.
pub open spec fn blue_pre() -> Seq<char> {
    "\u{1b}[34m"@
}

/// The ANSI escape that selects the green foreground.
pub open spec fn green_pre() -> Seq<char> {
    "\u{1b}[32m"@
}

/// The ANSI escape that selects the cyan foreground.
pub open spec fn cyan_pre() -> Seq<char> {
    "\u{1b}[36m"@
}

/// The ANSI escape that selects the bright green foreground.
pub open spec fn bright_green_pre() -> Seq<char> {
    "\u{1b}[92m"@
}

/// The ANSI escape that selects the bright blue foreground.
pub open spec fn bright_blue_pre() -> Seq<char> {
    "\u{1b}[94m"@
}

/// The text wrapped in a foreground color when `on` holds, unchanged
/// otherwise.
pub open spec fn colorize(on: bool, pre: Seq<char>, s: Seq<char>) -> Seq<char> {
    if on {
        pre + s + fg_reset()
    } else {
        s
    }
}

/// Relies on owo_colors' `OwoColorize::blue`: its display form is the text
/// between the blue foreground escape and the foreground reset.
#[verifier::external_body]
pub(crate) fn paint_blue(s: &str) -> (r: String)
    ensures
        r@ == blue_pre() + s@ + fg_reset(),
{
    format!("{}", s.blue())
}

/// Relies on owo_colors' `OwoColorize::green`: its display form is the text
/// between the green foreground escape and the foreground reset.
#[verifier::external_body]
pub(crate) fn paint_green(s: &str) -> (r: String)
    ensures
        r@ == green_pre() + s@ + fg_reset(),
{
    format!("{}", s.green())
}

/// Relies on owo_colors' `OwoColorize::cyan`: its display form is the text
/// between the cyan foreground escape and the foreground reset.
#[verifier::external_body]
pub(crate) fn paint_cyan(s: &str) -> (r: String)
    ensures
        r@ == cyan_pre() + s@ + fg_reset(),
{
    format!("{}", s.cyan())
}

/// Relies on owo_colors' `OwoColorize::bright_green`: its display form is
/// the text between the bright green foreground escape and the foreground
/// reset.
#[verifier::external_body]
pub(crate) fn paint_bright_green(s: &str) -> (r: String)
    ensures
        r@ == bright_green_pre() + s@ + fg_reset(),
{
    format!("{}", s.bright_green())
}

/// Relies on owo_colors' `OwoColorize::bright_blue`: its display form is
/// the text between the bright blue foreground escape and the foreground
/// reset.
#[verifier::external_body]
pub(crate) fn paint_bright_blue(s: &str) -> (r: String)
    ensures
        r@ == bright_blue_pre() + s@ + fg_reset(),
{
    format!("{}", s.bright_blue())
}

} // verus!
