use quartz_font::handle::QuartzFontHandle;
use quartz_font::metrics::SizedFontReadings;
use quartz_font::units::Au;

fn ready_handle() -> QuartzFontHandle {
    QuartzFontHandle::begin_construction(41)
        .unwrap()
        .accept_outline_font(42)
        .unwrap()
        .accept_sized_font(43)
        .unwrap()
}

#[test]
fn point_conversion_exact_values() {
    // 80 font units per point, input in thousandths of a point.
    assert_eq!(Au::from_pt_milli(0), Au(0));
    assert_eq!(Au::from_pt_milli(1000), Au(80));
    assert_eq!(Au::from_pt_milli(12000), Au(960));
    assert_eq!(Au::from_pt_milli(-1250), Au(-100));
    // The fractional remainder truncates toward zero on both sides.
    assert_eq!(Au::from_pt_milli(7), Au(0));
    assert_eq!(Au::from_pt_milli(-7), Au(0));
    assert_eq!(Au::from_pt_milli(12), Au(0));
    assert_eq!(Au::from_pt_milli(13), Au(1));
    // The largest magnitude the conversion accepts.
    assert_eq!(Au::from_pt_milli(1_000_000_000_000), Au(80_000_000_000));
    assert_eq!(Au::from_pt_milli(-1_000_000_000_000), Au(-80_000_000_000));
}

#[test]
fn metrics_fields_converted_exactly() {
    let handle = ready_handle();
    let metrics = handle.get_metrics(SizedFontReadings {
        ascent: 9000,
        descent: 3000,
        leading: 500,
        x_height: 6000,
        underline_thickness: 700,
        underline_position: -1000,
        bounding_width: 14000,
    });
    assert_eq!(metrics.ascent, Au(720));
    assert_eq!(metrics.descent, Au(240));
    assert_eq!(metrics.leading, Au(40));
    assert_eq!(metrics.x_height, Au(480));
    assert_eq!(metrics.underline_size, Au(56));
    assert_eq!(metrics.underline_offset, Au(-80));
    assert_eq!(metrics.max_advance, Au(1120));
    assert_eq!(metrics.em_size, Au(960));
}

#[test]
fn em_size_is_ascent_plus_descent() {
    // Metrics consistency, across different sizes: the em size is always the
    // derived sum, never an independent reading.
    let handle = ready_handle();
    for (ascent, descent) in [(9000i64, 3000i64), (18000, 6000), (7333, 2417), (0, 0)] {
        let metrics = handle.get_metrics(SizedFontReadings {
            ascent,
            descent,
            leading: 800,
            x_height: 5000,
            underline_thickness: 650,
            underline_position: -900,
            bounding_width: 12345,
        });
        assert_eq!(metrics.em_size.0, metrics.ascent.0 + metrics.descent.0);
    }
}
