use art_scenes::bubble_art::{BubbleArt, BubbleField, BubbleSines};
use art_scenes::bubbles::{Bubble, Bubbles};
use art_scenes::common::Color;
use art_scenes::draw::{DrawCommand, Point, Rotation};
use art_scenes::panel::{ConfigError, Control};
use art_scenes::program::{ProgramState, UIState};
use art_scenes::rays::{Ray, Rays};

const OPEN: UIState = UIState { params_panel: true };
const CLOSED: UIState = UIState { params_panel: false };
const WINDOW: Point = Point { x: 1_280_000_000, y: 720_000_000 };

fn small_scene() -> BubbleArt {
    let bubble = Bubble::new(-5_000_000, 250_000, 100_000, 1_000_000).unwrap();
    let ray = Ray::new(200_000, 500_000, 400_000, 250_000, 500_000).unwrap();
    BubbleArt { bubbles: Bubbles::with_bubbles(vec![bubble]), rays: Rays::with_rays(vec![ray]) }
}

fn small_sines() -> BubbleSines {
    BubbleSines {
        wobble: vec![500_000],
        alpha: vec![500_000],
        direction: Rotation { cos: 600_000, sin: -800_000 },
    }
}

fn backdrop() -> DrawCommand {
    DrawCommand::FilledRect {
        size: WINDOW,
        color: Color { red: 250_000, green: 250_000, blue: 1_250_000, alpha: 1_000_000 },
    }
}

#[test]
fn scene_starts_with_fifty_bubbles_and_sixty_rays() {
    let art = BubbleArt::default();
    assert_eq!(art.bubbles.bubbles.len(), 50);
    assert_eq!(art.rays.rays.len(), 60);
    assert_eq!(art.validate(), Ok(()));
}

#[test]
fn panel_is_shown_only_while_it_is_open_and_the_scene_is_on() {
    let art = small_scene();
    assert_eq!(art.params_ui(&OPEN, ProgramState::Bubbles).len(), 29);
    assert!(art.params_ui(&CLOSED, ProgramState::Bubbles).is_empty());
    assert!(art.params_ui(&OPEN, ProgramState::MainMenu).is_empty());
    assert!(art.params_ui(&OPEN, ProgramState::SummerLeaves).is_empty());
    assert!(art.params_ui(&OPEN, ProgramState::Circle).is_empty());
}

#[test]
fn panel_lists_every_parameter_under_its_title() {
    let art = small_scene();
    let panel = art.params_ui(&OPEN, ProgramState::Bubbles);
    let slider = |label, field, value, min, max| Control::Slider {
        label,
        field,
        value,
        min,
        max,
        step: 0,
    };
    let expected = vec![
        Control::Heading { text: "Steps" },
        Control::Checkbox { label: "Bubbles", field: BubbleField::Bubbles, checked: true },
        Control::Checkbox { label: "Rays", field: BubbleField::Rays, checked: true },
        Control::Heading { text: "Thickness" },
        slider("Outer", BubbleField::Thickness, 10_000, 10_000, 100_000),
        Control::Heading { text: "Radius" },
        slider("Outer Min", BubbleField::OuterRadiusMin, 400_000, 200_000, 500_000),
        slider("Outer Max", BubbleField::OuterRadiusMax, 500_000, 400_000, 2_000_000),
        slider("Inner Min", BubbleField::InnerRadiusMin, 300_000, 200_000, 400_000),
        slider("Inner Max", BubbleField::InnerRadiusMax, 400_000, 300_000, 2_000_000),
        Control::Heading { text: "Shine" },
        slider("Start", BubbleField::ShineStart, 523_599, 0, 6_283_185),
        slider("End", BubbleField::ShineEnd, 1_047_198, 0, 6_283_185),
        slider("Thickness", BubbleField::ShineThickness, 10_000, 10_000, 100_000),
        Control::Heading { text: "Wobble" },
        slider("Size", BubbleField::WobbleSize, 1_500_000, 0, 4_000_000),
        slider("Frequency", BubbleField::WobbleFrequency, 10_000_000, 0, 20_000_000),
        Control::Heading { text: "Positioning" },
        slider("Starting", BubbleField::Starting, 7_000_000, 0, 10_000_000),
        slider("Range", BubbleField::StartingRange, 5_000_000, 0, 5_000_000),
        Control::Heading { text: "Cycle" },
        slider("Length", BubbleField::Cycle, 4_000_000, 100_000, 60_000_000),
        Control::Heading { text: "Rays" },
        slider("Angle", BubbleField::RayAngle, 5_100_000, 0, 6_283_185),
        Control::Slider {
            label: "Min Length",
            field: BubbleField::RayMinLength,
            value: 500_000,
            min: 0,
            max: 5_500_000,
            step: 100_000,
        },
        Control::Slider {
            label: "Max Length",
            field: BubbleField::RayMaxLength,
            value: 5_500_000,
            min: 500_000,
            max: 10_000_000,
            step: 100_000,
        },
        slider("Thickness", BubbleField::RayThickness, 1_000_000, 0, 1_000_000),
        slider("Alpha", BubbleField::RayAlpha, 30_000, 0, 1_000_000),
        slider("Speed", BubbleField::RaySpeed, 8_500_000, 0, 10_000_000),
    ];
    assert_eq!(panel, expected);
}

#[test]
fn every_parameter_has_a_row_and_a_name() {
    let art = small_scene();
    let fields = BubbleField::fields();
    assert_eq!(fields.len(), 21);
    let panel = art.params_ui(&OPEN, ProgramState::Bubbles);
    for field in fields {
        let row = art.control(field);
        assert!(panel.contains(&row));
        match row {
            Control::Checkbox { label, checked, .. } => {
                assert_eq!(label, field.label());
                assert_eq!(checked, art.value(field) != 0);
            }
            Control::Slider { label, value, min, max, .. } => {
                assert_eq!(label, field.label());
                assert_eq!(value, art.value(field));
                assert_eq!((min, max), art.range(field));
            }
            Control::Heading { .. } => panic!("a parameter is no title"),
        }
    }
}

#[test]
fn set_writes_a_value_of_the_range_as_it_is() {
    let mut art = small_scene();
    art.set(BubbleField::Thickness, 55_000);
    assert_eq!(art.bubbles.thickness, 55_000);
    art.set(BubbleField::RaySpeed, 0);
    assert_eq!(art.rays.speed, 0);
    art.set(BubbleField::Cycle, 60_000_000);
    assert_eq!(art.bubbles.cycle, 60_000_000);
    assert_eq!(art.value(BubbleField::Cycle), 60_000_000);
}

#[test]
fn set_stops_at_the_ends_of_the_range() {
    let mut art = small_scene();
    art.set(BubbleField::Thickness, 5);
    assert_eq!(art.bubbles.thickness, 10_000);
    art.set(BubbleField::Thickness, i32::MAX);
    assert_eq!(art.bubbles.thickness, 100_000);
    art.set(BubbleField::Cycle, 0);
    assert_eq!(art.bubbles.cycle, 100_000);
    art.set(BubbleField::Cycle, -4_000_000);
    assert_eq!(art.bubbles.cycle, 100_000);
    art.set(BubbleField::RayAngle, 7_000_000);
    assert_eq!(art.rays.angle, 6_283_185);
}

#[test]
fn set_keeps_the_ends_of_a_stretch_in_order() {
    let mut art = small_scene();
    art.set(BubbleField::OuterRadiusMin, 900_000);
    assert_eq!(art.bubbles.outer_radius_min, 500_000);
    art.set(BubbleField::OuterRadiusMax, 300_000);
    assert_eq!(art.bubbles.outer_radius_max, 500_000);
    art.set(BubbleField::InnerRadiusMax, 250_000);
    assert_eq!(art.bubbles.inner_radius_max, 300_000);
    art.set(BubbleField::RayMaxLength, 100_000);
    assert_eq!(art.rays.max_length, 500_000);
    art.set(BubbleField::RayMinLength, 9_000_000);
    assert_eq!(art.rays.min_length, 500_000);
    assert_eq!(art.validate(), Ok(()));
}

#[test]
fn set_leaves_everything_else_as_it_is() {
    let mut art = small_scene();
    art.set(BubbleField::WobbleSize, 2_000_000);
    let mut expected = small_scene();
    expected.bubbles.wobble_size = 2_000_000;
    assert_eq!(art, expected);
}

#[test]
fn set_turns_a_switch_off_with_zero_and_on_with_anything_else() {
    let mut art = small_scene();
    art.set(BubbleField::Bubbles, 0);
    assert!(!art.bubbles.render);
    assert_eq!(art.value(BubbleField::Bubbles), 0);
    art.set(BubbleField::Bubbles, 7);
    assert!(art.bubbles.render);
    assert_eq!(art.value(BubbleField::Bubbles), 1);
    art.set(BubbleField::Rays, -3);
    assert!(!art.rays.render);
    art.set(BubbleField::Rays, 1);
    assert!(art.rays.render);
}

#[test]
fn range_of_the_end_of_a_stretch_follows_the_other_end() {
    let mut art = small_scene();
    assert_eq!(art.range(BubbleField::OuterRadiusMin), (200_000, 500_000));
    assert_eq!(art.range(BubbleField::OuterRadiusMax), (400_000, 2_000_000));
    art.bubbles.outer_radius_max = 5_000_000;
    assert_eq!(art.range(BubbleField::OuterRadiusMin), (200_000, 2_000_000));
    art.bubbles.outer_radius_min = 0;
    assert_eq!(art.range(BubbleField::OuterRadiusMax), (200_000, 2_000_000));
    art.rays.min_length = 0;
    assert_eq!(art.range(BubbleField::RayMaxLength), (100_000, 10_000_000));
}

#[test]
fn a_cycle_of_no_length_is_reported() {
    let mut art = small_scene();
    art.bubbles.cycle = 0;
    assert_eq!(
        art.validate(),
        Err(ConfigError { field: BubbleField::Cycle, value: 0, min: 100_000, max: 60_000_000 })
    );
    art.bubbles.cycle = -4_000_000;
    assert!(matches!(art.validate(), Err(ConfigError { field: BubbleField::Cycle, .. })));
}

#[test]
fn a_stretch_with_its_ends_the_wrong_way_round_is_reported() {
    let mut art = small_scene();
    art.bubbles.outer_radius_min = 600_000;
    assert_eq!(
        art.validate(),
        Err(ConfigError {
            field: BubbleField::OuterRadiusMin,
            value: 600_000,
            min: 200_000,
            max: 500_000
        })
    );
}

#[test]
fn the_first_parameter_outside_its_range_is_the_one_reported() {
    let mut art = small_scene();
    art.rays.alpha = 2_000_000;
    art.bubbles.cycle = 0;
    art.bubbles.shine_end = -1;
    assert_eq!(
        art.validate(),
        Err(ConfigError { field: BubbleField::ShineEnd, value: -1, min: 0, max: 6_283_185 })
    );
    art.bubbles.shine_end = 0;
    assert!(matches!(art.validate(), Err(ConfigError { field: BubbleField::Cycle, .. })));
    art.bubbles.cycle = 100_000;
    assert_eq!(
        art.validate(),
        Err(ConfigError { field: BubbleField::RayAlpha, value: 2_000_000, min: 0, max: 1_000_000 })
    );
}

#[test]
fn scene_paints_nothing_while_another_state_is_on() {
    let art = small_scene();
    let sines = small_sines();
    for state in [
        ProgramState::MainMenu,
        ProgramState::Circle,
        ProgramState::Gallery,
        ProgramState::SummerLeaves,
    ] {
        assert!(art.draw(state, 1_000_000, WINDOW, &sines).is_empty());
        let angles = art.angles(state, 1_000_000);
        assert!(angles.wobble.is_empty());
        assert!(angles.alpha.is_empty());
    }
}

#[test]
fn scene_paints_the_backdrop_then_the_bubbles_then_the_rays() {
    let art = small_scene();
    let painter = art.draw(ProgramState::Bubbles, 1_000_000, WINDOW, &small_sines());
    let pale_blue = Color { red: 400_000, green: 400_000, blue: 1_400_000, alpha: 1_000_000 };
    let center = Point { x: -4_250_000, y: 0 };
    assert_eq!(
        painter,
        vec![
            backdrop(),
            DrawCommand::Circle {
                center,
                radius: 450_000,
                hollow: true,
                thickness: 10_000,
                color: pale_blue,
            },
            DrawCommand::Arc {
                center,
                radius: 350_000,
                start_angle: 523_599,
                end_angle: 1_047_198,
                thickness: 10_000,
                color: pale_blue,
            },
            DrawCommand::Line {
                from: Point { x: -12_800_000, y: 5_000_000 },
                to: Point { x: -11_000_000, y: 2_600_000 },
                thickness: 400_000,
                color: Color { red: 1_400_000, green: 1_400_000, blue: 400_000, alpha: 15_000 },
            },
        ]
    );
}

#[test]
fn a_part_that_is_switched_off_is_not_painted() {
    let mut art = small_scene();
    art.bubbles.render = false;
    let painter = art.draw(ProgramState::Bubbles, 1_000_000, WINDOW, &small_sines());
    assert_eq!(painter.len(), 2);
    assert_eq!(painter[0], backdrop());
    assert!(matches!(painter[1], DrawCommand::Line { .. }));
    art.rays.render = false;
    let painter = art.draw(ProgramState::Bubbles, 1_000_000, WINDOW, &small_sines());
    assert_eq!(painter, vec![backdrop()]);
    art.bubbles.render = true;
    let painter = art.draw(ProgramState::Bubbles, 1_000_000, WINDOW, &small_sines());
    assert_eq!(painter.len(), 3);
    assert!(matches!(painter[2], DrawCommand::Arc { .. }));
}

#[test]
fn scene_without_particles_paints_its_backdrop_only() {
    let art = BubbleArt { bubbles: Bubbles::generate(0), rays: Rays::generate(0) };
    let none =
        BubbleSines { wobble: vec![], alpha: vec![], direction: Rotation { cos: 0, sin: 0 } };
    assert_eq!(art.draw(ProgramState::Bubbles, 5, WINDOW, &none), vec![backdrop()]);
}

#[test]
fn scene_asks_for_the_angles_of_the_parts_that_are_switched_on() {
    let mut art = small_scene();
    let angles = art.angles(ProgramState::Bubbles, 2_250_000);
    assert_eq!(angles.wobble, vec![3_250_000]);
    assert_eq!(angles.alpha, vec![8_500_000]);
    assert_eq!(angles.direction, 5_100_000);
    art.bubbles.render = false;
    let angles = art.angles(ProgramState::Bubbles, 2_250_000);
    assert!(angles.wobble.is_empty());
    assert_eq!(angles.alpha.len(), 1);
    art.rays.render = false;
    assert!(art.angles(ProgramState::Bubbles, 2_250_000).alpha.is_empty());
}

#[test]
fn a_frame_reads_the_parameters_as_they_are_now() {
    let mut art = small_scene();
    art.set(BubbleField::OuterRadiusMax, 600_000);
    art.set(BubbleField::Thickness, 20_000);
    let painter = art.draw(ProgramState::Bubbles, 1_000_000, WINDOW, &small_sines());
    assert!(matches!(
        painter[1],
        DrawCommand::Circle { radius: 500_000, thickness: 20_000, .. }
    ));
}

#[test]
fn same_frame_twice_gives_the_same_shapes() {
    let art = BubbleArt::default();
    let sines = BubbleSines {
        wobble: (0..50).map(|i| i * 20_000).collect(),
        alpha: (0..60).map(|i| -i * 10_000).collect(),
        direction: Rotation { cos: 377_978, sin: -925_815 },
    };
    let first = art.draw(ProgramState::Bubbles, 9_876_543, WINDOW, &sines);
    let second = art.draw(ProgramState::Bubbles, 9_876_543, WINDOW, &sines);
    assert_eq!(first, second);
    assert_eq!(first.len(), 1 + 2 * 50 + 60);
}
