use ambient_lights::{
    assign_targets, set_color_command, target_index, ColorMode, Controller, Light, Transition,
};

#[test]
fn multi_color_short_palette_falls_back_to_last() {
    let palette = vec![(1, 2, 3), (4, 5, 6)];
    let targets = assign_targets(ColorMode::Multi, 3, &palette);
    assert_eq!(targets, vec![(1, 2, 3), (4, 5, 6), (4, 5, 6)]);
    assert_eq!(target_index(ColorMode::Multi, 2, 2), 1);
}

#[test]
fn single_color_all_follow_first() {
    let palette = vec![(9, 9, 9), (4, 5, 6)];
    let targets = assign_targets(ColorMode::Single, 3, &palette);
    assert_eq!(targets, vec![(9, 9, 9); 3]);
    assert_eq!(target_index(ColorMode::Single, 7, 2), 0);
}

#[test]
fn multi_color_long_palette_one_each() {
    let palette = vec![(1, 0, 0), (2, 0, 0), (3, 0, 0), (4, 0, 0)];
    assert_eq!(assign_targets(ColorMode::Multi, 2, &palette), vec![(1, 0, 0), (2, 0, 0)]);
    assert_eq!(assign_targets(ColorMode::Multi, 0, &palette), vec![]);
}

#[test]
fn keep_alive_every_interval() {
    let mut c = Controller::new(ColorMode::Single, Transition::Smooth, 3, 10);
    let due: Vec<bool> = (0..25).map(|_| c.keep_alive_due()).collect();
    for (i, d) in due.iter().enumerate() {
        assert_eq!(*d, i % 10 == 0, "tick {}", i);
    }
}

#[test]
fn keep_alive_interval_one_is_every_tick() {
    let mut c = Controller::new(ColorMode::Single, Transition::Smooth, 3, 1);
    for _ in 0..5 {
        assert!(c.keep_alive_due());
    }
}

#[test]
fn tick_moves_each_fixture_toward_its_target() {
    let mut c = Controller::new(ColorMode::Multi, Transition::Smooth, 3, 10);
    let mut lights = vec![Light::new(), Light::new(), Light { current_color: (200, 0, 0) }];
    let palette = vec![(100, 0, 0), (0, 100, 0)];
    let plan = c.tick(&mut lights, &palette);
    assert!(plan.keep_alive);
    assert_eq!(lights[0].current_color, (50, 0, 0));
    assert_eq!(lights[1].current_color, (0, 50, 0));
    assert_eq!(lights[2].current_color, (100, 50, 0));
    assert_eq!(plan.frames.len(), 3);
    assert_eq!(plan.frames[0], Some(set_color_command(50, 0, 0)));
    assert_eq!(plan.frames[2], Some(set_color_command(100, 50, 0)));
    let plan = c.tick(&mut lights, &palette);
    assert!(!plan.keep_alive);
    assert_eq!(lights[0].current_color, (75, 0, 0));
}

#[test]
fn tick_suppresses_converged_fixtures() {
    let mut c = Controller::new(ColorMode::Single, Transition::Smooth, 3, 10);
    let mut lights = vec![Light { current_color: (99, 1, 0) }, Light::new()];
    let plan = c.tick(&mut lights, &vec![(100, 0, 0)]);
    assert_eq!(plan.frames[0], None);
    assert_eq!(lights[0].current_color, (99, 1, 0));
    assert_eq!(plan.frames[1], Some(set_color_command(50, 0, 0)));
}
