use whimsy::window::{can_nudge, can_slice};
use whimsy::{nudge, resolve_metric, Direction, Metric, Ratio, Rect};

fn rect(left: i32, top: i32, right: i32, bottom: i32) -> Rect {
    Rect { left, top, right, bottom }
}

fn ratio(numer: i32, denom: i32) -> Ratio {
    Ratio { numer, denom }
}

#[test]
fn xyxy_keeps_ordered_corners() {
    assert_eq!(Rect::xyxy(1, 2, 30, 40), rect(1, 2, 30, 40));
}

#[test]
fn xyxy_swaps_corners_out_of_order() {
    assert_eq!(Rect::xyxy(10, 20, 0, 5), rect(0, 5, 10, 20));
}

#[test]
fn xywh_builds_from_extent() {
    assert_eq!(Rect::xywh(100, 50, 300, 200), rect(100, 50, 400, 250));
}

#[test]
fn xywh_negative_extent_reaches_back() {
    assert_eq!(Rect::xywh(10, 10, -5, 3), rect(5, 10, 10, 13));
}

#[test]
fn wh_of_ordered_rect() {
    assert_eq!(rect(0, 0, 400, 200).wh(), (400, 200));
}

#[test]
fn wh_of_unordered_rect() {
    assert_eq!(rect(10, 0, 0, 5).wh(), (10, 5));
}

#[test]
fn size_fits_rejects_too_wide_rect() {
    assert!(rect(0, 0, 1920, 1080).size_fits());
    assert!(!rect(i32::MIN, 0, i32::MAX, 0).size_fits());
}

#[test]
fn slice_halves_in_each_direction() {
    let area = rect(0, 0, 1920, 1080);
    let half = ratio(2, 1);
    assert_eq!(area.slice_rect(Direction::Up, half), rect(0, 0, 1920, 540));
    assert_eq!(area.slice_rect(Direction::Down, half), rect(0, 540, 1920, 1080));
    assert_eq!(area.slice_rect(Direction::Left, half), rect(0, 0, 960, 1080));
    assert_eq!(area.slice_rect(Direction::Right, half), rect(960, 0, 1920, 1080));
}

#[test]
fn slice_truncates_toward_zero() {
    let area = rect(0, 0, 1000, 500);
    let third = ratio(3, 1);
    assert_eq!(area.slice_rect(Direction::Left, third), rect(0, 0, 333, 500));
    assert_eq!(area.slice_rect(Direction::Right, third), rect(667, 0, 1000, 500));
    assert_eq!(area.slice_rect(Direction::Down, third), rect(0, 334, 1000, 500));
}

#[test]
fn slice_by_fraction_above_one_stays_inside() {
    let area = rect(10, 20, 1011, 521);
    let f = ratio(5, 2);
    for d in [Direction::Up, Direction::Left, Direction::Right, Direction::Down] {
        let s = area.slice_rect(d, f);
        assert!(area.left <= s.left && s.right <= area.right);
        assert!(area.top <= s.top && s.bottom <= area.bottom);
        let (w, h) = s.wh();
        match d {
            Direction::Up => assert!(s.top == area.top && h == 200 && w == 1001),
            Direction::Down => assert!(s.bottom == area.bottom && h == 200 && w == 1001),
            Direction::Left => assert!(s.left == area.left && w == 400 && h == 501),
            Direction::Right => assert!(s.right == area.right && w == 400 && h == 501),
        }
    }
}

#[test]
fn slice_by_one_keeps_rect() {
    let area = rect(-50, 30, 700, 900);
    for d in [Direction::Up, Direction::Left, Direction::Right, Direction::Down] {
        assert_eq!(area.slice_rect(d, ratio(1, 1)), area);
        assert_eq!(area.slice_rect(d, ratio(7, 7)), area);
    }
}

#[test]
fn slice_by_fraction_below_one_grows() {
    let area = rect(0, 0, 100, 100);
    assert_eq!(area.slice_rect(Direction::Left, ratio(1, 2)), rect(0, 0, 200, 100));
}

#[test]
fn can_slice_reports_overflow_and_bad_fraction() {
    let edge = rect(i32::MAX - 10, 0, i32::MAX, 10);
    assert!(can_slice(&edge, Direction::Left, ratio(2, 1)));
    assert!(!can_slice(&edge, Direction::Left, ratio(1, 2)));
    assert!(!can_slice(&rect(0, 0, 10, 10), Direction::Up, ratio(0, 1)));
    assert!(!can_slice(&rect(0, 0, 10, 10), Direction::Up, ratio(1, 0)));
}

#[test]
fn nudge_moves_in_each_direction() {
    let r = rect(100, 100, 500, 400);
    assert_eq!(nudge(r, Direction::Up, 30), rect(100, 70, 500, 370));
    assert_eq!(nudge(r, Direction::Down, 30), rect(100, 130, 500, 430));
    assert_eq!(nudge(r, Direction::Left, 30), rect(70, 100, 470, 400));
    assert_eq!(nudge(r, Direction::Right, 30), rect(130, 100, 530, 400));
}

#[test]
fn nudge_right_then_left_is_identity() {
    let r = rect(-20, 7, 300, 90);
    for n in [0, 1, 55, 10_000] {
        assert_eq!(nudge(nudge(r, Direction::Right, n), Direction::Left, n), r);
    }
}

#[test]
fn can_nudge_reports_overflow() {
    let r = rect(0, 0, 100, 100);
    assert!(can_nudge(&r, Direction::Right, 1000));
    assert!(!can_nudge(&r, Direction::Right, i32::MAX - 50));
    assert!(!can_nudge(&r, Direction::Up, i32::MIN));
}

#[test]
fn resolve_absolute_passes_through() {
    let r = rect(0, 0, 400, 200);
    assert_eq!(resolve_metric(Metric::Absolute(50), Direction::Up, &r), 50);
    assert_eq!(resolve_metric(Metric::Absolute(-7), Direction::Left, &r), -7);
}

#[test]
fn resolve_full_percent_is_extent_along_axis() {
    let r = rect(0, 0, 400, 200);
    let whole = Metric::Percent(ratio(1, 1));
    assert_eq!(resolve_metric(whole, Direction::Left, &r), 400);
    assert_eq!(resolve_metric(whole, Direction::Right, &r), 400);
    assert_eq!(resolve_metric(whole, Direction::Up, &r), 200);
    assert_eq!(resolve_metric(whole, Direction::Down, &r), 200);
}

#[test]
fn resolve_percent_truncates_toward_zero() {
    let r = rect(0, 0, 100, 50);
    assert_eq!(resolve_metric(Metric::Percent(ratio(1, 3)), Direction::Left, &r), 33);
    assert_eq!(resolve_metric(Metric::Percent(ratio(-1, 3)), Direction::Left, &r), -33);
    assert_eq!(resolve_metric(Metric::Percent(ratio(1, 2)), Direction::Up, &r), 25);
}

#[test]
fn resolve_percent_saturates() {
    let r = rect(0, 0, 4, 4);
    let big = Metric::Percent(ratio(i32::MAX, 1));
    assert_eq!(resolve_metric(big, Direction::Left, &r), i32::MAX);
    let small = Metric::Percent(ratio(i32::MIN, 1));
    assert_eq!(resolve_metric(small, Direction::Up, &r), i32::MIN);
}
