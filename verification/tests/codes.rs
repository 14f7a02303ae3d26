use iterm2::{
    anchor, attention, clear_scrollback, cursor_guide, download_image,
    pop_current_touchbar_labels, pop_touchbar_label, push_current_touchbar_labels,
    push_touchbar_label, restore_tab_colors, send_notification, set_background_image,
    set_clipboard, set_color_palette, set_current_dir, set_cursor_shape, set_mark,
    set_tab_colors, set_touchbar_key_label, set_unicode_version, steal_focus, AttentionType,
    CursorShape,
};

#[test]
fn anchor_wraps_url_and_text() {
    assert_eq!(
        anchor("https://example.com", "example"),
        "\x1b]8;;https://example.com\x07example\x1b]8;;\x07"
    );
}

#[test]
fn cursor_shapes_map_to_digits() {
    assert_eq!(set_cursor_shape(CursorShape::Block), "\x1b]1337;CursorShape=0\x07");
    assert_eq!(set_cursor_shape(CursorShape::VerticalBar), "\x1b]1337;CursorShape=1\x07");
    assert_eq!(set_cursor_shape(CursorShape::Underline), "\x1b]1337;CursorShape=2\x07");
}

#[test]
fn fixed_sequences_are_exact() {
    assert_eq!(set_mark(), "\x1b]1337;SetMark\x07");
    assert_eq!(steal_focus(), "\x1b]1337;StealFocus\x07");
    assert_eq!(clear_scrollback(), "\x1b]1337;ClearScrollback\x07");
    assert_eq!(restore_tab_colors(), "\x1b]6;1;bg;*;default\x07");
    assert_eq!(push_current_touchbar_labels(), "\x1b]1337;PushKeyLabels\x07");
    assert_eq!(pop_current_touchbar_labels(), "\x1b]1337;PopKeyLabels\x07");
}

#[test]
fn parameterized_sequences_embed_their_argument() {
    assert_eq!(set_current_dir("/tmp"), "\x1b]1337;CurrentDir=/tmp\x07");
    assert_eq!(send_notification("done"), "\x1b]9;done\x07");
    assert_eq!(set_color_palette("a=ff0000"), "\x1b]1337;SetColors=a=ff0000\x07");
    assert_eq!(set_touchbar_key_label("F1", "build"), "\x1b]1337;SetKeyLabel=F1=build\x07");
    assert_eq!(push_touchbar_label("mine"), "\x1b1337;PushKeyLabels=mine\x07");
    assert_eq!(pop_touchbar_label("mine"), "\x1b1337;PopKeyLabels=mine\x07");
    assert_eq!(set_unicode_version(9), "\x1b1337;UnicodeVersion=9\x07");
}

#[test]
fn clipboard_wraps_text_between_copy_and_end() {
    assert_eq!(
        set_clipboard("snippet"),
        "\x1b]1337;CopyToClipboard=\x07snippet\n\x1b]1337;EndCopy\x07"
    );
}

#[test]
fn tab_colors_emit_three_channel_sequences() {
    assert_eq!(
        set_tab_colors(17, 0, 255),
        "\x1b]6;1;bg;red;brightness;17\x07\x1b]6;1;bg;green;brightness;0\x07\x1b]6;1;bg;blue;brightness;255\x07"
    );
}

#[test]
fn cursor_guide_uses_yes_and_no() {
    assert_eq!(cursor_guide(true), "\x1b]1337;HighlightCursorLine=yes\x07");
    assert_eq!(cursor_guide(false), "\x1b]1337;HighlightCursorLine=no\x07");
}

#[test]
fn attention_kinds_map_to_words() {
    assert_eq!(attention(AttentionType::Yes), "\x1b]1337;RequestAttention=yes\x07");
    assert_eq!(attention(AttentionType::No), "\x1b]1337;RequestAttention=no\x07");
    assert_eq!(attention(AttentionType::Firework), "\x1b]1337;RequestAttention=fireworks\x07");
}

#[test]
fn background_image_path_is_base64_encoded() {
    let out = set_background_image("/tmp/bg.png");
    assert_eq!(
        out,
        format!("\x1b]1337;SetBackgroundImageFile={}\x07", base64::encode("/tmp/bg.png"))
    );
    assert!(!out.contains("/tmp/bg.png"));
}

#[test]
fn download_image_passes_encoded_data_through() {
    let out = download_image("width=5", b"QUJD");
    let mut expected = b"\x1b]1337;File=width=5:".to_vec();
    expected.extend_from_slice(b"QUJD");
    expected.push(7);
    assert_eq!(out, expected);
}
