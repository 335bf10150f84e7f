use oxiedraw_ui::canvas::crop_geom::{
    crop_drag, cursor_name, drag_ratio, hit_test_widget, nearest, pull, snap_locked, Axis,
    CropDrag, CropFrame, CropHandle, DragRatio, LockedPull,
};
use oxiedraw_ui::geometry::Point;
use oxiedraw_ui::ieee::Single;

const EPS: f32 = 1e-3;
const SIZE: (f32, f32) = (1000.0, 800.0);
const THRESHOLD: f32 = 8.0;

#[derive(Clone, Copy, Debug)]
struct Rect {
    x: f32,
    y: f32,
    w: f32,
    h: f32,
}

impl Rect {
    fn new(x: f32, y: f32, w: f32, h: f32) -> Rect {
        Rect { x, y, w, h }
    }

    fn normalized(self) -> Rect {
        Rect::new(
            self.x.min(self.x + self.w),
            self.y.min(self.y + self.h),
            self.w.abs(),
            self.h.abs(),
        )
    }

    fn right(self) -> f32 {
        self.x + self.w
    }

    fn bottom(self) -> f32 {
        self.y + self.h
    }
}

fn s(v: f32) -> Single {
    Single::from_bits(v.to_bits())
}

fn value(v: Single) -> f32 {
    f32::from_bits(v.bits)
}

fn border(axis: Axis) -> f32 {
    match axis {
        Axis::X => SIZE.0,
        Axis::Y => SIZE.1,
    }
}

fn pulled(axis: Axis, at: f32) -> Option<f32> {
    pull(s(-at), s(border(axis) - at), s(THRESHOLD)).map(value)
}

fn snapped(axis: Axis, at: f32) -> f32 {
    at + pulled(axis, at).unwrap_or(0.0)
}

fn lock(edges: &[(Axis, f32, f32)], size: f32) -> f32 {
    let pulls: Vec<LockedPull> = edges
        .iter()
        .filter_map(|(axis, base, slope)| {
            let offset = pulled(*axis, base + slope * size)?;
            Some(LockedPull { offset: s(offset), resized: s(size + offset / slope) })
        })
        .collect();
    value(snap_locked(&pulls, s(size)))
}

fn corner_rect(anchor: (f32, f32), corner: (f32, f32), ratio: Option<f32>) -> Rect {
    let Some(ratio) = ratio else {
        let x = snapped(Axis::X, corner.0);
        let y = snapped(Axis::Y, corner.1);
        return Rect::new(anchor.0, anchor.1, x - anchor.0, y - anchor.1);
    };
    let (dx, dy) = (corner.0 - anchor.0, corner.1 - anchor.1);
    let (sx, sy) = (dx.signum(), dy.signum());
    let height = (dx.abs() * ratio + dy.abs()) / (ratio * ratio + 1.0);
    let height = lock(&[(Axis::X, anchor.0, sx * ratio), (Axis::Y, anchor.1, sy)], height);
    Rect::new(anchor.0, anchor.1, sx * ratio * height, sy * height)
}

fn edge_rect(n: Rect, axis: Axis, anchor: f32, edge: f32, ratio: Option<f32>) -> Rect {
    let (start, len) = match axis {
        Axis::X => (n.y, n.h),
        Axis::Y => (n.x, n.w),
    };
    let (along, start, len) = match ratio {
        None => (snapped(axis, edge) - anchor, start, len),
        Some(ratio) => {
            let per = match axis {
                Axis::X => ratio.recip(),
                Axis::Y => ratio,
            };
            let sign = (edge - anchor).signum();
            let centre = start + len / 2.0;
            let half = per / 2.0;
            let cross = axis.cross();
            let edges = [(axis, anchor, sign), (cross, centre, -half), (cross, centre, half)];
            let size = lock(&edges, (edge - anchor).abs());
            (sign * size, centre - half * size, per * size)
        }
    };
    match axis {
        Axis::X => Rect::new(anchor, start, along, len),
        Axis::Y => Rect::new(start, anchor, len, along),
    }
}

fn moved(n: Rect, dx: f32, dy: f32) -> Rect {
    let (x, y) = (n.x + dx, n.y + dy);
    let offset = |axis: Axis, near: f32, far: f32| {
        let offsets: Vec<Single> =
            [pulled(axis, near), pulled(axis, far)].into_iter().flatten().map(s).collect();
        nearest(&offsets).map_or(0.0, |i| value(offsets[i]))
    };
    Rect::new(x + offset(Axis::X, x, x + n.w), y + offset(Axis::Y, y, y + n.h), n.w, n.h)
}

/// A drag on a 1000 x 800 canvas at zoom 1, snapping on.
fn drag(
    handle: CropHandle,
    start: Option<Rect>,
    from: (f32, f32),
    to: (f32, f32),
    ratio: Option<f32>,
) -> Rect {
    let n = start.map(Rect::normalized);
    let (dx, dy) = (to.0 - from.0, to.1 - from.1);
    let rect = match (crop_drag(handle, start.is_some()), n) {
        (CropDrag::New, _) => corner_rect(from, to, ratio),
        (CropDrag::Whole, Some(n)) => moved(n, dx, dy),
        (CropDrag::Corner { right, bottom }, Some(n)) => {
            let (x, ax) = if right { (n.right(), n.x) } else { (n.x, n.right()) };
            let (y, ay) = if bottom { (n.bottom(), n.y) } else { (n.y, n.bottom()) };
            corner_rect((ax, ay), (x + dx, y + dy), ratio)
        }
        (CropDrag::Side { axis, high }, Some(n)) => {
            let (low, top, by) = match axis {
                Axis::X => (n.x, n.right(), dx),
                Axis::Y => (n.y, n.bottom(), dy),
            };
            let (edge, anchor) = if high { (top, low) } else { (low, top) };
            edge_rect(n, axis, anchor, edge + by, ratio)
        }
        _ => panic!("drag with a start rect yields a rect"),
    };
    rect.normalized()
}

fn near(a: f32, b: f32) -> bool {
    (a - b).abs() < EPS
}

fn has_ratio(rect: Rect, ratio: f32) -> bool {
    near(rect.w / rect.h, ratio)
}

/// The ratio a drag is locked to.
fn ratio_of(preset: Option<f32>, shift: bool, handle: CropHandle, start: Option<Rect>) -> Option<f32> {
    let n = start.map(Rect::normalized);
    match drag_ratio(preset.map(s), shift, handle, n.map(|n| (s(n.w), s(n.h)))) {
        DragRatio::Free => None,
        DragRatio::Locked(r) => Some(value(r)),
        DragRatio::Turned(r) => Some(value(r).recip()),
        DragRatio::Square => Some(1.0),
        DragRatio::StartShape => n.map(|n| n.w / n.h),
    }
}

fn ratio_is(ratio: Option<f32>, want: f32) -> bool {
    ratio.is_some_and(|ratio| near(ratio, want))
}

#[test]
fn locked_corner_snap_keeps_ratio() {
    let start = Rect::new(100.0, 100.0, 400.0, 225.0);
    let rect = drag(
        CropHandle::BottomRight,
        Some(start),
        (500.0, 325.0),
        (996.0, 604.0),
        Some(16.0 / 9.0),
    );
    assert!(near(rect.right(), 1000.0), "{:?}", rect);
    assert!(has_ratio(rect, 16.0 / 9.0), "{:?}", rect);
    assert!(near(rect.x, 100.0) && near(rect.y, 100.0), "{:?}", rect);
}

#[test]
fn locked_corner_keeps_opposite_corner() {
    let start = Rect::new(200.0, 200.0, 400.0, 300.0);
    let rect = drag(
        CropHandle::TopLeft,
        Some(start),
        (200.0, 200.0),
        (150.0, 180.0),
        Some(4.0 / 3.0),
    );
    assert!(near(rect.right(), 600.0) && near(rect.bottom(), 500.0), "{:?}", rect);
    assert!(has_ratio(rect, 4.0 / 3.0), "{:?}", rect);
}

#[test]
fn free_corner_snaps_axes_independently() {
    let rect = drag(CropHandle::NewRect, None, (300.0, 300.0), (996.0, 795.0), None);
    assert!(near(rect.right(), 1000.0) && near(rect.bottom(), 800.0), "{:?}", rect);
}

#[test]
fn locked_edge_grows_around_centre_and_snaps() {
    let start = Rect::new(300.0, 100.0, 400.0, 400.0);
    let rect =
        drag(CropHandle::BottomMid, Some(start), (500.0, 500.0), (500.0, 796.0), Some(1.0));
    assert!(near(rect.bottom(), 800.0), "{:?}", rect);
    assert!(near(rect.x + rect.w / 2.0, 500.0), "{:?}", rect);
    assert!(has_ratio(rect, 1.0), "{:?}", rect);
}

#[test]
fn locked_drags_still_match_the_preset() {
    let preset = 16.0 / 9.0;
    let start = Rect::new(100.0, 100.0, 320.0, 180.0);
    let ratio = ratio_of(Some(preset), false, CropHandle::MidRight, Some(start));
    for (handle, from, to) in [
        (CropHandle::MidRight, (420.0, 190.0), (637.3, 211.9)),
        (CropHandle::TopMid, (260.0, 100.0), (251.0, 3.7)),
        (CropHandle::BottomLeft, (100.0, 280.0), (997.1, 603.3)),
    ] {
        let rect = drag(handle, Some(start), from, to, ratio);
        assert!(has_ratio(rect, preset), "{:?} -> {:?}", handle, rect);
    }
}

#[test]
fn move_snap_keeps_size() {
    let start = Rect::new(100.0, 100.0, 300.0, 200.0);
    let rect = drag(CropHandle::Move, Some(start), (200.0, 200.0), (105.0, 200.0), None);
    assert!(near(rect.x, 0.0) && near(rect.w, 300.0) && near(rect.h, 200.0), "{:?}", rect);
}

#[test]
fn shift_locks_free_to_start_shape() {
    let start = Some(Rect::new(0.0, 0.0, 300.0, 100.0));
    assert!(ratio_of(None, false, CropHandle::BottomRight, start).is_none());
    assert!(ratio_is(ratio_of(None, true, CropHandle::BottomRight, start), 3.0));
    assert!(ratio_is(ratio_of(None, true, CropHandle::NewRect, start), 1.0));
}

#[test]
fn preset_follows_start_orientation() {
    let portrait = Some(Rect::new(0.0, 0.0, 90.0, 160.0));
    let ratio = ratio_of(Some(16.0 / 9.0), false, CropHandle::TopMid, portrait);
    assert!(ratio_is(ratio, 9.0 / 16.0));
}

#[test]
fn a_chosen_ratio_is_turned_only_where_it_lies_across() {
    let at = |r: f32, w: f32, h: f32| {
        drag_ratio(Some(s(r)), false, CropHandle::TopMid, Some((s(w), s(h))))
    };
    assert_eq!(at(1.5, 160.0, 90.0), DragRatio::Locked(s(1.5)));
    assert_eq!(at(1.5, 90.0, 160.0), DragRatio::Turned(s(1.5)));
    assert_eq!(at(0.5, 160.0, 90.0), DragRatio::Turned(s(0.5)));
    assert_eq!(at(0.5, 90.0, 160.0), DragRatio::Locked(s(0.5)));
    assert_eq!(
        drag_ratio(Some(s(0.5)), true, CropHandle::NewRect, None),
        DragRatio::Locked(s(0.5))
    );
}

#[test]
fn shift_keeps_a_flat_rectangle_free() {
    let start = Some(Rect::new(0.0, 0.0, 300.0, 0.0));
    assert!(ratio_of(None, true, CropHandle::TopMid, start).is_none());
    assert!(ratio_of(None, true, CropHandle::TopMid, None).is_none());
}

#[test]
fn crossing_an_axis_twice_comes_back() {
    assert_eq!(Axis::X.cross(), Axis::Y);
    assert_eq!(Axis::X.cross().cross(), Axis::X);
}

fn frame(x1: f32, y1: f32, x2: f32, y2: f32, at: (f32, f32)) -> CropFrame {
    CropFrame {
        x1: s(x1),
        y1: s(y1),
        x2: s(x2),
        y2: s(y2),
        from_x1: s(at.0 - x1),
        from_x2: s(at.0 - x2),
        from_mid_x: s(at.0 - f32::midpoint(x1, x2)),
        from_y1: s(at.1 - y1),
        from_y2: s(at.1 - y2),
        from_mid_y: s(at.1 - f32::midpoint(y1, y2)),
    }
}

#[test]
fn handles_are_hit_before_the_inside() {
    let hit = |x: f32, y: f32| {
        let at = Point { x: s(x), y: s(y) };
        hit_test_widget(Some(frame(100.0, 100.0, 300.0, 200.0, (x, y))), at)
    };
    assert_eq!(hit(102.0, 98.0), CropHandle::TopLeft);
    assert_eq!(hit(300.0, 101.0), CropHandle::TopRight);
    assert_eq!(hit(95.0, 205.0), CropHandle::BottomLeft);
    assert_eq!(hit(309.0, 209.0), CropHandle::BottomRight);
    assert_eq!(hit(200.0, 100.0), CropHandle::TopMid);
    assert_eq!(hit(200.0, 200.0), CropHandle::BottomMid);
    assert_eq!(hit(100.0, 150.0), CropHandle::MidLeft);
    assert_eq!(hit(300.0, 150.0), CropHandle::MidRight);
    assert_eq!(hit(150.0, 130.0), CropHandle::Move);
    assert_eq!(hit(400.0, 400.0), CropHandle::NewRect);
    assert_eq!(hit(110.0, 90.0), CropHandle::NewRect);
    let at = Point { x: s(5.0), y: s(5.0) };
    assert_eq!(hit_test_widget(None, at), CropHandle::NewRect);
}

#[test]
fn cursors_follow_the_handles() {
    assert_eq!(cursor_name(CropHandle::Nothing), "crosshair");
    assert_eq!(cursor_name(CropHandle::Move), "move");
    assert_eq!(cursor_name(CropHandle::BottomRight), "nwse-resize");
    assert_eq!(cursor_name(CropHandle::TopRight), "nesw-resize");
    assert_eq!(cursor_name(CropHandle::TopMid), "ns-resize");
    assert_eq!(cursor_name(CropHandle::MidLeft), "ew-resize");
}

#[test]
fn a_border_out_of_reach_does_not_pull() {
    assert_eq!(pulled(Axis::X, 500.0), None);
    assert_eq!(pulled(Axis::X, 8.0), None);
    assert_eq!(pulled(Axis::X, 7.0), Some(-7.0));
    assert_eq!(pulled(Axis::Y, 795.0), Some(5.0));
}

#[test]
fn the_shortest_pull_wins() {
    let pulls = vec![
        LockedPull { offset: s(-5.0), resized: s(95.0) },
        LockedPull { offset: s(2.0), resized: s(-1.0) },
        LockedPull { offset: s(3.0), resized: s(103.0) },
    ];
    assert_eq!(snap_locked(&pulls, s(100.0)), s(103.0));
    assert_eq!(snap_locked(&Vec::new(), s(100.0)), s(100.0));
}
