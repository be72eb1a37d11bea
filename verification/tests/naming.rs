use jelly_fpga_loader::errors::ErrorKind;
use jelly_fpga_loader::naming::{
    base_name, derive_converted_binary_name, derive_overlay_name_from_source, file_stem,
    has_suffix,
};

#[test]
fn base_name_returns_final_component() {
    assert_eq!(base_name("path/to/design.bit").unwrap(), "design.bit");
    assert_eq!(base_name("design.bit").unwrap(), "design.bit");
    assert_eq!(base_name("/abs/dir/overlay.dtbo").unwrap(), "overlay.dtbo");
    assert_eq!(base_name("a//b").unwrap(), "b");
}

#[test]
fn base_name_rejects_empty_path() {
    assert_eq!(base_name(""), Err(ErrorKind::InvalidPath));
}

#[test]
fn base_name_rejects_trailing_separator() {
    assert_eq!(base_name("some/dir/"), Err(ErrorKind::InvalidPath));
    assert_eq!(base_name("/"), Err(ErrorKind::InvalidPath));
}

#[test]
fn converted_binary_name_appends_whole_suffix() {
    assert_eq!(derive_converted_binary_name("foo.bit"), "foo.bit.bin");
}

#[test]
fn converted_binary_name_is_not_idempotent() {
    let once = derive_converted_binary_name("foo.bit");
    assert_eq!(derive_converted_binary_name(&once), "foo.bit.bin.bin");
}

#[test]
fn overlay_name_keeps_extension_without_stem() {
    assert_eq!(
        derive_overlay_name_from_source("design.dts", false).unwrap(),
        "design.dts.dtbo"
    );
}

#[test]
fn overlay_name_strips_extension_with_stem() {
    assert_eq!(
        derive_overlay_name_from_source("design.dts", true).unwrap(),
        "design.dtbo"
    );
}

#[test]
fn overlay_name_uses_base_name_of_nested_path() {
    assert_eq!(
        derive_overlay_name_from_source("src/tree/overlay.dts", false).unwrap(),
        "overlay.dts.dtbo"
    );
    assert_eq!(
        derive_overlay_name_from_source("src/tree/overlay.dts", true).unwrap(),
        "overlay.dtbo"
    );
}

#[test]
fn overlay_name_rejects_invalid_path() {
    assert_eq!(
        derive_overlay_name_from_source("", true),
        Err(ErrorKind::InvalidPath)
    );
    assert_eq!(
        derive_overlay_name_from_source("dir/", false),
        Err(ErrorKind::InvalidPath)
    );
}

#[test]
fn file_stem_strips_last_extension_only() {
    assert_eq!(file_stem("a.b.c"), "a.b");
    assert_eq!(file_stem("design.dts"), "design");
}

#[test]
fn file_stem_keeps_plain_and_hidden_names() {
    assert_eq!(file_stem("noext"), "noext");
    assert_eq!(file_stem(".hidden"), ".hidden");
}

#[test]
fn has_suffix_checks_exact_tail() {
    assert!(has_suffix("design.dts", ".dts"));
    assert!(!has_suffix("design.dtbo", ".dts"));
    assert!(!has_suffix("ts", ".dts"));
    assert!(has_suffix("anything", ""));
}
