use chartfun::geometry::{ChartPoint, X_UNIT, Y_UNIT};
use chartfun::{build_geometry, mul_div, ChartSurface};

#[test]
fn mul_div_rounds_to_nearest() {
    assert_eq!(mul_div(250, 96, 96), 250);
    assert_eq!(mul_div(250, 120, 96), 313);
    assert_eq!(mul_div(226, 120, 96), 283);
    assert_eq!(mul_div(7, 1, 2), 4);
    assert_eq!(mul_div(5, 1, 3), 2);
    assert_eq!(mul_div(4, 1, 3), 1);
    assert_eq!(mul_div(0, 500, 96), 0);
}

#[test]
fn size_after_set_dpi() {
    let mut c = ChartSurface::new(96);
    assert_eq!(c.size(), (250, 226));
    for (dpi, w, h) in [(96u32, 250u64, 226u64), (120, 313, 283), (144, 375, 339), (192, 500, 452)] {
        c.set_dpi(dpi);
        assert_eq!(c.size(), (w, h));
        assert_eq!(c.dpi(), dpi);
    }
    c.set_dpi(96);
    assert_eq!(c.size(), (250, 226));
}

#[test]
fn grid_offset_counts_points_across_dpi_changes() {
    let mut c = ChartSurface::new(96);
    assert_eq!(c.grid_offset(), 0);
    for k in 1..=25usize {
        c.add_point(k as i32);
        if k % 7 == 0 {
            c.set_dpi(144);
        }
        assert_eq!(c.grid_offset(), k % 10);
    }
    assert_eq!(c.points().len(), 25);
}

#[test]
fn four_samples_scenario() {
    let mut c = ChartSurface::new(96);
    for v in [500, 1500, 5000, 3500] {
        c.add_point(v);
    }
    let g = c.geometry();
    assert_eq!((g.width, g.height), (250, 226));
    // start_x = 56 pitches of 250 / 59 pixels
    let start = 56 * 250;
    let base = Y_UNIT as i128 * 226;
    let expected = vec![
        ChartPoint { x: start, y: base },
        ChartPoint { x: start, y: (10000 - 500) * 226 },
        ChartPoint { x: start + 250, y: (10000 - 1500) * 226 },
        ChartPoint { x: start + 500, y: (10000 - 5000) * 226 },
        ChartPoint { x: start + 750, y: (10000 - 3500) * 226 },
        ChartPoint { x: start + 750, y: base },
    ];
    assert_eq!(g.outline, expected);
    let px = |p: &ChartPoint| (p.x as f64 / X_UNIT as f64, p.y as f64 / Y_UNIT as f64);
    let (x0, y0) = px(&g.outline[1]);
    assert!((x0 - 237.288).abs() < 0.001);
    assert!((y0 - (226.0 - 5.0 * 2.26)).abs() < 1e-9);
    for p in &g.outline {
        assert!(p.x <= X_UNIT as i128 * 250);
    }
}

#[test]
fn empty_chart_has_only_the_baseline() {
    let c = ChartSurface::new(96);
    let g = c.geometry();
    let base = Y_UNIT as i128 * 226;
    assert_eq!(
        g.outline,
        vec![ChartPoint { x: 60 * 250, y: base }, ChartPoint { x: 0, y: base }]
    );
}

#[test]
fn full_chart_spans_the_width() {
    let mut c = ChartSurface::new(96);
    for v in 0..70 {
        c.add_point(v * 100);
    }
    let g = c.geometry();
    assert_eq!(g.outline.len(), 62);
    assert_eq!(g.outline[0].x, 0);
    assert_eq!(g.outline[1].x, 0);
    assert_eq!(g.outline[60].x, X_UNIT as i128 * 250);
    assert_eq!(g.outline[61].x, X_UNIT as i128 * 250);
    for i in 1..60 {
        assert!(g.outline[i].x <= g.outline[i + 1].x);
    }
    // newest sample is 69 %
    assert_eq!(g.outline[60].y, (10000 - 6900) * 226);
}

#[test]
fn out_of_range_samples_are_not_clamped() {
    let samples = vec![-1000, 15000];
    let g = build_geometry(&samples, 100, 100, 0);
    assert_eq!(g.outline[1].y, 11000 * 100);
    assert_eq!(g.outline[2].y, -5000 * 100);
}

#[test]
fn gridlines() {
    let g = build_geometry(&Vec::new(), 250, 226, 3);
    let rows: Vec<i128> = (1..10).map(|k| k * 226 * 1000).collect();
    assert_eq!(g.rows, rows);
    let columns: Vec<i128> = (1..=10).map(|k| (k * 10 - 3) * 250).collect();
    assert_eq!(g.columns, columns);
    let g = build_geometry(&Vec::new(), 250, 226, 0);
    assert_eq!(g.columns[0], 10 * 250);
}
