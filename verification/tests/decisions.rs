use sdl2_ttf::font::{glyph_index_result, size_result, Font};
use sdl2_ttf::handle::Handle;
use sdl2_ttf::metrics::{vertical_metrics_consistent, GlyphMetrics};
use sdl2_ttf::version::Version;

#[test]
fn font_load_failure_carries_native_message() {
    let err = Font::from_native(0, String::from("Couldn't open missing.ttf"))
        .err()
        .unwrap();
    assert_eq!(err.message().as_str(), "Couldn't open missing.ttf");
    assert_eq!(err.into_message(), "Couldn't open missing.ttf");
}

#[test]
fn font_load_success_is_never_ambiguous() {
    let f = Font::from_native(0x5000, String::from("stale message")).unwrap();
    assert_eq!(f.raw(), 0x5000);
    assert!(f.owned());
}

#[test]
fn surface_failure_carries_native_message() {
    let err = Handle::from_native(0, String::from("Text has zero width")).err().unwrap();
    assert_eq!(err.message().as_str(), "Text has zero width");
}

#[test]
fn surface_success_is_an_owning_handle() {
    // A render call that came back non-null is a success, whatever the text
    // was; an empty rendering is a well-formed owned surface, never an
    // undefined size.
    let h = Handle::from_native(0x6000, String::new()).unwrap();
    assert_eq!(h.raw(), 0x6000);
    assert!(h.owned());
}

#[test]
fn size_result_keeps_dimensions_on_success() {
    assert_eq!(size_result(0, 120, 28, String::new()).unwrap(), (120, 28));
}

#[test]
fn size_result_fails_on_nonzero_status() {
    let err = size_result(-1, 0, 0, String::from("Text has zero width")).err().unwrap();
    assert_eq!(err.message().as_str(), "Text has zero width");
    assert!(size_result(1, 7, 7, String::new()).is_err());
}

#[test]
fn glyph_index_zero_means_not_provided() {
    assert_eq!(glyph_index_result(0), None);
    assert_eq!(glyph_index_result(1), Some(1));
    assert_eq!(glyph_index_result(254), Some(254));
}

#[test]
fn glyph_metrics_follow_the_status_code() {
    assert_eq!(
        GlyphMetrics::from_native(0, 1, 10, -2, 12, 11),
        Some(GlyphMetrics { minx: 1, maxx: 10, miny: -2, maxy: 12, advance: 11 })
    );
    assert_eq!(GlyphMetrics::from_native(-1, 1, 10, -2, 12, 11), None);
}

#[test]
fn vertical_metrics_convention() {
    // Ascent extends upward (non-negative), descent downward (non-positive),
    // and the total height covers at least ascent - descent.
    assert!(vertical_metrics_consistent(28, 22, -6));
    assert!(vertical_metrics_consistent(30, 22, -6));
    assert!(!vertical_metrics_consistent(27, 22, -6));
    assert!(!vertical_metrics_consistent(28, -1, -6));
    assert!(!vertical_metrics_consistent(28, 22, 1));
    assert!(vertical_metrics_consistent(i32::MAX, i32::MAX, i32::MIN + 1) == false);
}

#[test]
fn version_triple_is_kept() {
    let v = Version::new(2, 0, 14);
    assert_eq!(v, Version { major: 2, minor: 0, patch: 14 });
}
