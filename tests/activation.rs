use whimsy::{plan_activation, Action, Config, ConfigDirectives, Direction, Key, Metric, Modifier};
use whimsy::{Ratio, Rect, Reference};

fn rect(left: i32, top: i32, right: i32, bottom: i32) -> Rect {
    Rect { left, top, right, bottom }
}

#[test]
fn push_left_half_of_work_area() {
    let action = Action::Push { direction: Direction::Left, fraction: Ratio { numer: 2, denom: 1 } };
    let area = rect(0, 0, 1920, 1080);
    assert_eq!(plan_activation(&action, Some(area)), Some(rect(0, 0, 960, 1080)));
}

#[test]
fn nudge_right_by_absolute_distance() {
    let action = Action::Nudge { direction: Direction::Right, distance: Metric::Absolute(50) };
    let current = rect(100, 100, 500, 400);
    assert_eq!(plan_activation(&action, Some(current)), Some(rect(150, 100, 550, 400)));
}

#[test]
fn nudge_up_by_half_of_height() {
    let half = Metric::Percent(Ratio { numer: 1, denom: 2 });
    let action = Action::Nudge { direction: Direction::Up, distance: half };
    let current = rect(0, 0, 400, 200);
    assert_eq!(plan_activation(&action, Some(current)), Some(rect(0, -100, 400, 100)));
}

#[test]
fn no_focused_window_changes_nothing() {
    let push = Action::Push { direction: Direction::Up, fraction: Ratio { numer: 2, denom: 1 } };
    let nudge = Action::Nudge { direction: Direction::Left, distance: Metric::Absolute(5) };
    assert_eq!(plan_activation(&push, None), None);
    assert_eq!(plan_activation(&nudge, None), None);
}

#[test]
fn invalid_numbers_change_nothing() {
    let area = rect(0, 0, 1920, 1080);
    let zero = Action::Push { direction: Direction::Up, fraction: Ratio { numer: 0, denom: 1 } };
    let negative = Action::Push { direction: Direction::Up, fraction: Ratio { numer: -2, denom: 1 } };
    let no_denom = Action::Nudge {
        direction: Direction::Up,
        distance: Metric::Percent(Ratio { numer: 1, denom: 0 }),
    };
    assert_eq!(plan_activation(&zero, Some(area)), None);
    assert_eq!(plan_activation(&negative, Some(area)), None);
    assert_eq!(plan_activation(&no_denom, Some(area)), None);
}

#[test]
fn unrepresentable_target_changes_nothing() {
    let far = rect(i32::MAX - 100, 0, i32::MAX, 100);
    let nudge = Action::Nudge { direction: Direction::Right, distance: Metric::Absolute(200) };
    assert_eq!(plan_activation(&nudge, Some(far)), None);
    let huge = rect(i32::MIN, 0, i32::MAX, 100);
    let push = Action::Push { direction: Direction::Left, fraction: Ratio { numer: 2, denom: 1 } };
    assert_eq!(plan_activation(&push, Some(huge)), None);
}

#[test]
fn reference_of_each_action() {
    let push = Action::Push { direction: Direction::Up, fraction: Ratio { numer: 2, denom: 1 } };
    let nudge = Action::Nudge { direction: Direction::Left, distance: Metric::Absolute(5) };
    assert_eq!(push.reference(), Reference::WorkArea);
    assert_eq!(nudge.reference(), Reference::WindowRect);
}

#[test]
fn default_directives_disable_live_reload() {
    assert!(!ConfigDirectives::default().live_reload_configuration);
}

#[test]
fn default_config_bindings() {
    let config = Config::default();
    assert!(!config.directives.live_reload_configuration);
    assert_eq!(config.bindings.len(), 2);
    let first = &config.bindings[0];
    assert_eq!(first.key, Key::Left);
    assert_eq!(first.modifiers, vec![Modifier::Super, Modifier::Shift]);
    assert_eq!(
        first.action,
        Action::Push { direction: Direction::Left, fraction: Ratio { numer: 2, denom: 1 } }
    );
    let second = &config.bindings[1];
    assert_eq!(second.key, Key::Left);
    assert_eq!(second.modifiers, vec![Modifier::Super, Modifier::Shift, Modifier::Alt]);
    assert_eq!(
        second.action,
        Action::Nudge { direction: Direction::Left, distance: Metric::Absolute(100) }
    );
}
