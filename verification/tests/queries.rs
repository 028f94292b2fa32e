use quartz_font::handle::QuartzFontHandle;
use quartz_font::metrics::SizedFontReadings;
use quartz_font::units::FractionalPixel;

fn ready_handle() -> QuartzFontHandle {
    QuartzFontHandle::begin_construction(101)
        .unwrap()
        .accept_outline_font(202)
        .unwrap()
        .accept_sized_font(303)
        .unwrap()
}

#[test]
fn mapped_character_yields_its_glyph() {
    let handle = ready_handle();
    assert_eq!(handle.glyph_index(true, 36), Some(36));
}

#[test]
fn unmapped_character_yields_no_glyph() {
    let handle = ready_handle();
    assert_eq!(handle.glyph_index(false, 0), None);
}

#[test]
fn glyph_lookup_is_deterministic() {
    // The outcome is a function of the engine's report alone: the same
    // report gives the same glyph on every query, and an absent mapping
    // stays absent.
    let handle = ready_handle();
    let first = handle.glyph_index(true, 74);
    let second = handle.glyph_index(true, 74);
    assert_eq!(first, second);
    assert_eq!(first, Some(74));
    assert_eq!(handle.glyph_index(false, 0), handle.glyph_index(false, 0));
    assert_eq!(handle.glyph_index(false, 0), None);
}

#[test]
fn advance_is_non_negative() {
    let handle = ready_handle();
    let zero = handle.glyph_h_advance(0).unwrap();
    assert!(zero.0 >= 0);
    assert_eq!(zero, FractionalPixel(0));
    let wide = handle.glyph_h_advance(5500).unwrap();
    assert!(wide.0 >= 0);
    assert_eq!(wide, FractionalPixel(5500));
}

#[test]
fn end_to_end_minimal_font() {
    // A valid minimal font program bound at 12 points: construction yields a
    // ready handle, 'A' maps to a positive glyph, the glyph has a positive
    // advance, and the metrics report positive ascent and descent.
    let handle = QuartzFontHandle::begin_construction(1)
        .unwrap()
        .accept_outline_font(2)
        .unwrap()
        .accept_sized_font(3)
        .unwrap();

    // The engine maps 'A' to glyph 36 in the minimal font.
    let glyph = handle.glyph_index(true, 36).expect("'A' must map");
    assert!(glyph > 0);

    let advance = handle
        .glyph_h_advance(7203)
        .expect("a looked-up glyph is always advance-queryable");
    assert!(advance.0 > 0);

    // Readings a 12-point font reports, in thousandths of a point.
    let metrics = handle.get_metrics(SizedFontReadings {
        ascent: 9000,
        descent: 3000,
        leading: 500,
        x_height: 6200,
        underline_thickness: 700,
        underline_position: -1100,
        bounding_width: 14500,
    });
    assert!(metrics.ascent.0 > 0);
    assert!(metrics.descent.0 > 0);
    assert_eq!(metrics.em_size.0, metrics.ascent.0 + metrics.descent.0);
}
