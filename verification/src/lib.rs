//! Typed builders for a terminal emulator's proprietary escape sequences:
//! inline image display and file transfer, annotations, and an assortment
//! of single-shot control codes (cursor shape, clipboard, tab colors,
//! notifications, touchbar labels). Every function produces the exact byte
//! sequence the protocol requires; writing it to the terminal is left to
//! the caller.

use vstd::prelude::*;

pub mod annotation;
pub mod codes;
pub mod dimension;
pub mod encode;
pub mod file;

pub use annotation::{Annotation, AnnotationView};
pub use codes::{
    anchor, attention, clear_scrollback, cursor_guide, download_image,
    pop_current_touchbar_labels, pop_touchbar_label, push_current_touchbar_labels,
    push_touchbar_label, restore_tab_colors, send_notification, set_background_image,
    set_clipboard, set_color_palette, set_current_dir, set_cursor_shape, set_mark, set_tab_colors,
    set_touchbar_key_label, set_unicode_version, steal_focus, AttentionType, CursorShape,
};
pub use dimension::Dimension;
pub use file::{File, FileView};

verus! {

/// Misuse of a builder detected at the API boundary, as opposed to an
/// environmental I/O failure (which only the unverified shell around this
/// library can encounter).
#[derive(Debug, Clone, Copy, PartialEq, Eq, Structural)]
pub enum ContractViolation {
    /// A percentage dimension was larger than 100.
    PercentOutOfRange,
    /// An annotation had coordinates but no length, a combination with no
    /// defined serialization.
    CoordinatesWithoutLength,
}

} // verus!
