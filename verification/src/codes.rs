//! Single-shot escape sequences: each function returns the exact byte
//! sequence (as text) for one terminal control code.

use vstd::prelude::*;
use vstd::string::StringExecFns;
use vstd::string::StringSliceAdditionalSpecFns;
use vstd::utf8::encode_utf8;
use crate::encode::{b64_of, base64_text, dec_digits, payload_fits, push_dec};

verus! {

/// The possible cursor shapes.
#[derive(Debug, Clone, Copy, PartialEq, Eq, Structural)]
pub enum CursorShape {
    /// A solid vertical block.
    Block,
    /// A thin vertical line.
    VerticalBar,
    /// A thin horizontal line.
    Underline,
}

/// The possible attention actions.
#[derive(Debug, Clone, Copy, PartialEq, Eq, Structural)]
pub enum AttentionType {
    /// Start the visual display.
    Yes,
    /// Stop the visual display.
    No,
    /// Show fireworks.
    Firework,
}

/// The digit the protocol uses for each cursor shape.
pub open spec fn cursor_shape_digit(shape: CursorShape) -> Seq<char> {
    match shape {
        CursorShape::Block => "0"@,
        CursorShape::VerticalBar => "1"@,
        CursorShape::Underline => "2"@,
    }
}

/// The word the protocol uses for each attention action.
pub open spec fn attention_word(kind: AttentionType) -> Seq<char> {
    match kind {
        AttentionType::Yes => "yes"@,
        AttentionType::No => "no"@,
        AttentionType::Firework => "fireworks"@,
    }
}

/// The sequence for a clickable link with custom display text.
pub fn anchor(url: &str, display_text: &str) -> (r: String)
    ensures
        r@ == "\u{1b}]8;;"@ + url@ + "\u{7}"@ + display_text@ + "\u{1b}]8;;\u{7}"@,
{
    let mut out = String::new();
    out.append("\u{1b}]8;;");
    out.append(url);
    out.append("\u{7}");
    out.append(display_text);
    out.append("\u{1b}]8;;\u{7}");
    proof {
        assert(out@ =~= "\u{1b}]8;;"@ + url@ + "\u{7}"@ + display_text@ + "\u{1b}]8;;\u{7}"@);
    }
    out
}

/// The sequence that sets the shape of the cursor.
pub fn set_cursor_shape(shape: CursorShape) -> (r: String)
    ensures
        r@ == "\u{1b}]1337;CursorShape="@ + cursor_shape_digit(shape) + "\u{7}"@,
{
    let mut out = String::new();
    out.append("\u{1b}]1337;CursorShape=");
    out.append(
        match shape {
            CursorShape::Block => "0",
            CursorShape::VerticalBar => "1",
            CursorShape::Underline => "2",
        },
    );
    out.append("\u{7}");
    proof {
        assert(out@ =~= "\u{1b}]1337;CursorShape="@ + cursor_shape_digit(shape) + "\u{7}"@);
    }
    out
}

/// The sequence that sets a mark at the current line.
pub fn set_mark() -> (r: String)
    ensures
        r@ == "\u{1b}]1337;SetMark\u{7}"@,
{
    String::from_str("\u{1b}]1337;SetMark\u{7}")
}

/// The sequence that asks the terminal to become the focused application.
pub fn steal_focus() -> (r: String)
    ensures
        r@ == "\u{1b}]1337;StealFocus\u{7}"@,
{
    String::from_str("\u{1b}]1337;StealFocus\u{7}")
}

/// The sequence that clears the terminal's scroll history.
pub fn clear_scrollback() -> (r: String)
    ensures
        r@ == "\u{1b}]1337;ClearScrollback\u{7}"@,
{
    String::from_str("\u{1b}]1337;ClearScrollback\u{7}")
}

/// The sequence that sets the terminal's current working directory.
pub fn set_current_dir(dir: &str) -> (r: String)
    ensures
        r@ == "\u{1b}]1337;CurrentDir="@ + dir@ + "\u{7}"@,
{
    let mut out = String::new();
    out.append("\u{1b}]1337;CurrentDir=");
    out.append(dir);
    out.append("\u{7}");
    proof {
        assert(out@ =~= "\u{1b}]1337;CurrentDir="@ + dir@ + "\u{7}"@);
    }
    out
}

/// The sequence that sends a system-wide notification.
pub fn send_notification(message: &str) -> (r: String)
    ensures
        r@ == "\u{1b}]9;"@ + message@ + "\u{7}"@,
{
    let mut out = String::new();
    out.append("\u{1b}]9;");
    out.append(message);
    out.append("\u{7}");
    proof {
        assert(out@ =~= "\u{1b}]9;"@ + message@ + "\u{7}"@);
    }
    out
}

/// The sequence that sets the clipboard to the given text.
pub fn set_clipboard(text: &str) -> (r: String)
    ensures
        r@ == "\u{1b}]1337;CopyToClipboard=\u{7}"@ + text@ + "\n\u{1b}]1337;EndCopy\u{7}"@,
{
    let mut out = String::new();
    out.append("\u{1b}]1337;CopyToClipboard=\u{7}");
    out.append(text);
    out.append("\n\u{1b}]1337;EndCopy\u{7}");
    proof {
        assert(out@ =~= "\u{1b}]1337;CopyToClipboard=\u{7}"@ + text@
            + "\n\u{1b}]1337;EndCopy\u{7}"@);
    }
    out
}

/// The sequences that set the tab colors to a custom RGB value, one per
/// channel, in the order red, green, blue.
pub fn set_tab_colors(red: u8, green: u8, blue: u8) -> (r: String)
    ensures
        r@ == "\u{1b}]6;1;bg;red;brightness;"@ + dec_digits(red as nat) + "\u{7}"@
            + "\u{1b}]6;1;bg;green;brightness;"@ + dec_digits(green as nat) + "\u{7}"@
            + "\u{1b}]6;1;bg;blue;brightness;"@ + dec_digits(blue as nat) + "\u{7}"@,
{
    let mut out = String::new();
    out.append("\u{1b}]6;1;bg;red;brightness;");
    push_dec(&mut out, red as u64);
    out.append("\u{7}");
    out.append("\u{1b}]6;1;bg;green;brightness;");
    push_dec(&mut out, green as u64);
    out.append("\u{7}");
    out.append("\u{1b}]6;1;bg;blue;brightness;");
    push_dec(&mut out, blue as u64);
    out.append("\u{7}");
    proof {
        assert(out@ =~= "\u{1b}]6;1;bg;red;brightness;"@ + dec_digits(red as nat) + "\u{7}"@
            + "\u{1b}]6;1;bg;green;brightness;"@ + dec_digits(green as nat) + "\u{7}"@
            + "\u{1b}]6;1;bg;blue;brightness;"@ + dec_digits(blue as nat) + "\u{7}"@);
    }
    out
}

/// The sequence that restores the tab colors to their defaults.
pub fn restore_tab_colors() -> (r: String)
    ensures
        r@ == "\u{1b}]6;1;bg;*;default\u{7}"@,
{
    String::from_str("\u{1b}]6;1;bg;*;default\u{7}")
}

/// The sequence that sets the terminal color palette.
pub fn set_color_palette(colors: &str) -> (r: String)
    ensures
        r@ == "\u{1b}]1337;SetColors="@ + colors@ + "\u{7}"@,
{
    let mut out = String::new();
    out.append("\u{1b}]1337;SetColors=");
    out.append(colors);
    out.append("\u{7}");
    proof {
        assert(out@ =~= "\u{1b}]1337;SetColors="@ + colors@ + "\u{7}"@);
    }
    out
}

/// The sequence that sets the visibility of the cursor guide.
pub fn cursor_guide(show: bool) -> (r: String)
    ensures
        r@ == "\u{1b}]1337;HighlightCursorLine="@ + (if show {
            "yes"@
        } else {
            "no"@
        }) + "\u{7}"@,
{
    let mut out = String::new();
    out.append("\u{1b}]1337;HighlightCursorLine=");
    out.append(if show { "yes" } else { "no" });
    out.append("\u{7}");
    proof {
        assert(out@ =~= "\u{1b}]1337;HighlightCursorLine="@ + (if show {
            "yes"@
        } else {
            "no"@
        }) + "\u{7}"@);
    }
    out
}

/// The sequence that triggers a dock bounce notification or fireworks.
pub fn attention(kind: AttentionType) -> (r: String)
    ensures
        r@ == "\u{1b}]1337;RequestAttention="@ + attention_word(kind) + "\u{7}"@,
{
    let mut out = String::new();
    out.append("\u{1b}]1337;RequestAttention=");
    out.append(
        match kind {
            AttentionType::Yes => "yes",
            AttentionType::No => "no",
            AttentionType::Firework => "fireworks",
        },
    );
    out.append("\u{7}");
    proof {
        assert(out@ =~= "\u{1b}]1337;RequestAttention="@ + attention_word(kind) + "\u{7}"@);
    }
    out
}

/// The sequence that sets the terminal background to the image at a path;
/// the path is transmitted base64-encoded.
pub fn set_background_image(filename: &str) -> (r: String)
    requires
        payload_fits(filename.spec_bytes().len()),
    ensures
        r@ == "\u{1b}]1337;SetBackgroundImageFile="@ + b64_of(filename.spec_bytes()) + "\u{7}"@,
{
    let mut out = String::new();
    out.append("\u{1b}]1337;SetBackgroundImageFile=");
    let b64 = base64_text(filename.as_bytes());
    out.append(b64.as_str());
    out.append("\u{7}");
    proof {
        assert(out@ =~= "\u{1b}]1337;SetBackgroundImageFile="@ + b64_of(filename.spec_bytes())
            + "\u{7}"@);
    }
    out
}

/// Appends each byte of `s` to `out`.
fn push_bytes(out: &mut Vec<u8>, s: &[u8])
    ensures
        final(out)@ == old(out)@ + s@,
{
    let mut i: usize = 0;
    while i < s.len()
        invariant
            i <= s@.len(),
            out@ == old(out)@ + s@.subrange(0, i as int),
        decreases s@.len() - i,
    {
        let b = s[i];
        out.push(b);
        i = i + 1;
        proof {
            assert(out@ =~= old(out)@ + s@.subrange(0, i as int));
        }
    }
    proof {
        assert(s@.subrange(0, s@.len() as int) =~= s@);
    }
}

/// The byte sequence that shows an image inline from data the caller has
/// already base64-encoded, with its display arguments.
pub fn download_image(args: &str, img_data: &[u8]) -> (r: Vec<u8>)
    ensures
        r@ == encode_utf8("\u{1b}]1337;File="@) + encode_utf8(args@) + encode_utf8(":"@)
            + img_data@ + seq![7u8],
{
    let mut out: Vec<u8> = Vec::new();
    push_bytes(&mut out, "\u{1b}]1337;File=".as_bytes());
    push_bytes(&mut out, args.as_bytes());
    push_bytes(&mut out, ":".as_bytes());
    push_bytes(&mut out, img_data);
    out.push(7u8);
    proof {
        assert(out@ =~= encode_utf8("\u{1b}]1337;File="@) + encode_utf8(args@) + encode_utf8(":"@)
            + img_data@ + seq![7u8]);
    }
    out
}

/// The sequence that configures one touchbar key label.
pub fn set_touchbar_key_label(key: &str, value: &str) -> (r: String)
    ensures
        r@ == "\u{1b}]1337;SetKeyLabel="@ + key@ + "="@ + value@ + "\u{7}"@,
{
    let mut out = String::new();
    out.append("\u{1b}]1337;SetKeyLabel=");
    out.append(key);
    out.append("=");
    out.append(value);
    out.append("\u{7}");
    proof {
        assert(out@ =~= "\u{1b}]1337;SetKeyLabel="@ + key@ + "="@ + value@ + "\u{7}"@);
    }
    out
}

/// The sequence that pushes the current touchbar key labels.
pub fn push_current_touchbar_labels() -> (r: String)
    ensures
        r@ == "\u{1b}]1337;PushKeyLabels\u{7}"@,
{
    String::from_str("\u{1b}]1337;PushKeyLabels\u{7}")
}

/// The sequence that pops the current touchbar key labels.
pub fn pop_current_touchbar_labels() -> (r: String)
    ensures
        r@ == "\u{1b}]1337;PopKeyLabels\u{7}"@,
{
    String::from_str("\u{1b}]1337;PopKeyLabels\u{7}")
}

/// The sequence that pushes a specific touchbar key label by name.
pub fn push_touchbar_label(label: &str) -> (r: String)
    ensures
        r@ == "\u{1b}1337;PushKeyLabels="@ + label@ + "\u{7}"@,
{
    let mut out = String::new();
    out.append("\u{1b}1337;PushKeyLabels=");
    out.append(label);
    out.append("\u{7}");
    proof {
        assert(out@ =~= "\u{1b}1337;PushKeyLabels="@ + label@ + "\u{7}"@);
    }
    out
}

/// The sequence that pops a specific touchbar key label by name.
pub fn pop_touchbar_label(label: &str) -> (r: String)
    ensures
        r@ == "\u{1b}1337;PopKeyLabels="@ + label@ + "\u{7}"@,
{
    let mut out = String::new();
    out.append("\u{1b}1337;PopKeyLabels=");
    out.append(label);
    out.append("\u{7}");
    proof {
        assert(out@ =~= "\u{1b}1337;PopKeyLabels="@ + label@ + "\u{7}"@);
    }
    out
}

/// The sequence that sets the terminal's unicode version.
pub fn set_unicode_version(version: u8) -> (r: String)
    ensures
        r@ == "\u{1b}1337;UnicodeVersion="@ + dec_digits(version as nat) + "\u{7}"@,
{
    let mut out = String::new();
    out.append("\u{1b}1337;UnicodeVersion=");
    push_dec(&mut out, version as u64);
    out.append("\u{7}");
    proof {
        assert(out@ =~= "\u{1b}1337;UnicodeVersion="@ + dec_digits(version as nat) + "\u{7}"@);
    }
    out
}

} // verus!
