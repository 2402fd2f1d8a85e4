//! Resolution of command-line options to the label's configuration.
//!
//! An omitted title takes its documented default, and a color string that
//! fails to parse is silently replaced by its fallback rather than
//! aborting startup. The caption text arrives already defaulted by the
//! host's argument schema. Sizes are measured in display points and
//! handled by the host; only the discrete options are resolved here.

use vstd::prelude::*;
use crate::color::Rgba;
use crate::color::spec_fallback_background;
use crate::color::spec_fallback_foreground;
use crate::color::spec_resolve_color;
use crate::color::fallback_background;
use crate::color::fallback_foreground;
use crate::color::resolve_color;

verus! {

/// The resolved, immutable-after-startup configuration of the label
/// window: caption text, colors, chrome and stacking flags, and title.
pub struct LabelConfig {
    /// The caption to display; may be empty.
    pub text: String,
    /// Background fill of the window panel.
    pub bg: Rgba,
    /// Color of the caption text.
    pub fg: Rgba,
    /// Suppress OS window chrome and enable manual dragging.
    pub undecorated: bool,
    /// Request the highest window stacking level.
    pub always_on_top: bool,
    /// OS-level window title (irrelevant when undecorated).
    pub title: String,
}

/// The window title used when `--title` is omitted.
pub open spec fn spec_default_title() -> Seq<char> {
    "Label"@
}

/// Resolve the command-line options to a configuration.
///
/// The caption is taken as given (the host's argument schema supplies its
/// default). An omitted title takes its default; an omitted or
/// unparseable color string takes its fallback (the defaults `#cc0000`
/// and `#ffffff` name exactly the fallback colors, so omission and parse
/// failure resolve alike).
pub fn resolve_config(
    text: String,
    bg: Option<String>,
    fg: Option<String>,
    undecorated: bool,
    always_on_top: bool,
    title: Option<String>,
) -> (c: LabelConfig)
    ensures
        c.text@ == text@,
        c.title@ == if title is Some {
            title->0@
        } else {
            spec_default_title()
        },
        c.bg == if bg is Some {
            spec_resolve_color(bg->0@, spec_fallback_background())
        } else {
            spec_fallback_background()
        },
        c.fg == if fg is Some {
            spec_resolve_color(fg->0@, spec_fallback_foreground())
        } else {
            spec_fallback_foreground()
        },
        c.undecorated == undecorated,
        c.always_on_top == always_on_top,
{
    let title = match title {
        Some(t) => t,
        None => "Label".to_owned(),
    };
    let bg = match bg {
        Some(s) => resolve_color(s.as_str(), fallback_background()),
        None => fallback_background(),
    };
    let fg = match fg {
        Some(s) => resolve_color(s.as_str(), fallback_foreground()),
        None => fallback_foreground(),
    };
    LabelConfig { text, bg, fg, undecorated, always_on_top, title }
}

} // verus!
