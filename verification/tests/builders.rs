use iterm2::{Annotation, ContractViolation, Dimension, File};

#[test]
fn percent_in_range_serializes_with_percent_sign() {
    assert_eq!(Dimension::Percent(0).text(), Ok("0%".to_string()));
    assert_eq!(Dimension::Percent(42).text(), Ok("42%".to_string()));
    assert_eq!(Dimension::Percent(100).text(), Ok("100%".to_string()));
}

#[test]
fn percent_over_100_is_a_contract_violation() {
    assert_eq!(
        Dimension::Percent(101).text(),
        Err(ContractViolation::PercentOutOfRange)
    );
    assert_eq!(
        Dimension::Percent(255).text(),
        Err(ContractViolation::PercentOutOfRange)
    );
}

#[test]
fn dimension_variants_serialize_exactly() {
    assert_eq!(Dimension::Pixel(500).text(), Ok("500px".to_string()));
    assert_eq!(Dimension::Cells(12).text(), Ok("12".to_string()));
    assert_eq!(Dimension::Auto.text(), Ok("auto".to_string()));
    assert_eq!(Dimension::Pixel(0).text(), Ok("0px".to_string()));
    assert_eq!(Dimension::Cells(4294967295).text(), Ok("4294967295".to_string()));
}

#[test]
fn show_emits_set_fields_inline_flag_payload_and_newline() {
    let out = File::new(b"PNGDATA")
        .width(Dimension::Percent(100))
        .height(Dimension::Pixel(1))
        .preserve_aspect_ratio(false)
        .show()
        .unwrap();
    assert_eq!(
        out,
        "\x1b]1337;File=width=100%;height=1px;preserveAspectRatio=0;inline=1;:UE5HREFUQQ==\x07\n"
    );
}

#[test]
fn download_emits_inline_zero_and_no_trailing_newline() {
    let out = File::new(b"PNGDATA")
        .width(Dimension::Percent(100))
        .height(Dimension::Pixel(1))
        .preserve_aspect_ratio(false)
        .download()
        .unwrap();
    assert_eq!(
        out,
        "\x1b]1337;File=width=100%;height=1px;preserveAspectRatio=0;inline=0;:UE5HREFUQQ==\x07"
    );
}

#[test]
fn payload_is_base64_not_raw() {
    let out = File::new(b"PNGDATA").show().unwrap();
    assert!(out.contains("UE5HREFUQQ=="));
    assert!(!out.contains("PNGDATA"));
    assert_eq!(out, format!("\x1b]1337;File=inline=1;:{}\x07\n", base64::encode(b"PNGDATA")));
}

#[test]
fn empty_payload_encodes_to_nothing() {
    let out = File::new(b"").show().unwrap();
    assert_eq!(out, "\x1b]1337;File=inline=1;:\x07\n");
}

#[test]
fn unset_fields_emit_no_keys() {
    let out = File::new(b"x").show().unwrap();
    assert!(!out.contains("name="));
    assert!(!out.contains("size="));
    assert!(!out.contains("width="));
    assert!(!out.contains("height="));
    assert!(!out.contains("preserveAspectRatio="));
    assert!(out.contains("inline=1;"));
}

#[test]
fn all_fields_emit_in_fixed_order() {
    let out = File::new(b"abc")
        .name("pic.png".to_string())
        .size(3)
        .width(Dimension::Cells(7))
        .height(Dimension::Auto)
        .preserve_aspect_ratio(true)
        .download()
        .unwrap();
    assert_eq!(
        out,
        format!(
            "\x1b]1337;File=name=pic.png;size=3;width=7;height=auto;preserveAspectRatio=1;inline=0;:{}\x07",
            base64::encode(b"abc")
        )
    );
}

#[test]
fn single_set_fields_appear_alone() {
    let named = File::new(b"x").name("n".to_string()).download().unwrap();
    assert_eq!(named, format!("\x1b]1337;File=name=n;inline=0;:{}\x07", base64::encode(b"x")));
    let sized = File::new(b"x").size(4096).download().unwrap();
    assert_eq!(sized, format!("\x1b]1337;File=size=4096;inline=0;:{}\x07", base64::encode(b"x")));
    let wide = File::new(b"x").width(Dimension::Auto).download().unwrap();
    assert_eq!(wide, format!("\x1b]1337;File=width=auto;inline=0;:{}\x07", base64::encode(b"x")));
    let kept = File::new(b"x").preserve_aspect_ratio(true).download().unwrap();
    assert_eq!(
        kept,
        format!("\x1b]1337;File=preserveAspectRatio=1;inline=0;:{}\x07", base64::encode(b"x"))
    );
}

#[test]
fn invalid_percent_width_fails_show_and_download() {
    let r = File::new(b"x").width(Dimension::Percent(150)).show();
    assert_eq!(r, Err(ContractViolation::PercentOutOfRange));
    let r = File::new(b"x").height(Dimension::Percent(101)).download();
    assert_eq!(r, Err(ContractViolation::PercentOutOfRange));
}

#[test]
fn annotation_message_only_is_verbatim() {
    let out = Annotation::new("hello note").show().unwrap();
    assert_eq!(out, "\x1b]1337;AddAnnotation=hello note\x07");
}

#[test]
fn annotation_with_length_prefixes_length() {
    let out = Annotation::new("hello").length(5).show().unwrap();
    assert_eq!(out, "\x1b]1337;AddAnnotation=5|hello\x07");
}

#[test]
fn annotation_with_length_and_coords_lists_all_four() {
    let out = Annotation::new("hello").length(5).coords(3, 4).show().unwrap();
    assert_eq!(out, "\x1b]1337;AddAnnotation=hello|5|3|4\x07");
}

#[test]
fn annotation_coords_without_length_is_a_contract_violation() {
    let r = Annotation::new("hello").coords(3, 4).show();
    assert_eq!(r, Err(ContractViolation::CoordinatesWithoutLength));
    let r = Annotation::new("").coords(0, 0).show();
    assert_eq!(r, Err(ContractViolation::CoordinatesWithoutLength));
}

#[test]
fn annotation_hidden_selects_hidden_key() {
    let shown = Annotation::new("m").hidden(true).show().unwrap();
    assert_eq!(shown, "\x1b]1337;AddHiddenAnnotation=m\x07");
    let plain = Annotation::new("m").hidden(false).show().unwrap();
    assert_eq!(plain, "\x1b]1337;AddAnnotation=m\x07");
    let default = Annotation::new("m").show().unwrap();
    assert_eq!(default, "\x1b]1337;AddAnnotation=m\x07");
}

#[test]
fn annotation_empty_message_serializes() {
    assert_eq!(Annotation::new("").show().unwrap(), "\x1b]1337;AddAnnotation=\x07");
    assert_eq!(
        Annotation::new("").length(0).show().unwrap(),
        "\x1b]1337;AddAnnotation=0|\x07"
    );
}
