use art_scenes::common::{CachedRandom, Color};
use art_scenes::draw::{DrawCommand, Point, Rotation};
use art_scenes::panel::{ConfigError, Control};
use art_scenes::program::{ProgramState, UIState};
use art_scenes::summer_leaves::{LeafArt, LeafField, LeafParams, GRID_SIDE};

const PANEL_OPEN: UIState = UIState { params_panel: true };
const QUARTER_TURN: Rotation = Rotation { cos: 0, sin: 1_000_000 };

fn black_line(from: (i64, i64), to: (i64, i64), thickness: i64) -> DrawCommand {
    DrawCommand::Line {
        from: Point { x: from.0, y: from.1 },
        to: Point { x: to.0, y: to.1 },
        thickness,
        color: Color::black(),
    }
}

fn bound(from: (i64, i64), to: (i64, i64)) -> DrawCommand {
    DrawCommand::Line {
        from: Point { x: from.0, y: from.1 },
        to: Point { x: to.0, y: to.1 },
        thickness: 200_000,
        color: Color { red: 1_250_000, green: 250_000, blue: 250_000, alpha: 600_000 },
    }
}

#[test]
fn leaves_start_with_the_usual_parameters() {
    let params = LeafParams::default();
    assert_eq!(
        params,
        LeafParams {
            show_debug_grid: true,
            debug_spacing: 500_000,
            leaf_size: 500_000,
            line_thickness: 200_000,
            center_offset: -120_000,
            debug_rotation: 0,
            bounds_x: 3_000_000,
            bounds_y: 3_000_000,
            debug_show_bounds: true,
        }
    );
    assert_eq!(LeafArt::default().params, params);
    assert_eq!(LeafArt::default().validate(), Ok(()));
    assert_eq!(GRID_SIDE, 10);
}

#[test]
fn a_leaf_is_a_stem_and_a_blade_on_its_foot() {
    let params = LeafParams::default();
    let mut painter = Vec::new();
    params.draw_leaf(
        &mut painter,
        Point { x: 500_000, y: 1_500_000 },
        Rotation { cos: 1_000_000, sin: 0 },
    );
    assert_eq!(
        painter,
        vec![
            black_line((380_000, 1_500_000), (880_000, 1_500_000), 200_000),
            DrawCommand::Circle {
                center: Point { x: 380_000, y: 1_500_000 },
                radius: 250_000,
                hollow: false,
                thickness: 200_000,
                color: Color::black(),
            },
        ]
    );
}

#[test]
fn a_turned_leaf_points_along_its_direction() {
    let params = LeafParams::default();
    let mut painter = Vec::new();
    params.draw_leaf(&mut painter, Point { x: 0, y: 0 }, QUARTER_TURN);
    assert_eq!(painter[0], black_line((0, -120_000), (0, 380_000), 200_000));
    let mut painter = Vec::new();
    params.draw_leaf(&mut painter, Point { x: 0, y: 0 }, Rotation { cos: -600_000, sin: 800_000 });
    assert_eq!(painter[0], black_line((72_000, -96_000), (-228_000, 304_000), 200_000));
}

#[test]
fn a_direction_beyond_one_counts_as_one() {
    let params = LeafParams::default();
    let mut far = Vec::new();
    let mut unit = Vec::new();
    params.draw_leaf(&mut far, Point { x: 1, y: 2 }, Rotation { cos: 3_000_000, sin: -3_000_000 });
    params.draw_leaf(&mut unit, Point { x: 1, y: 2 }, Rotation { cos: 1_000_000, sin: -1_000_000 });
    assert_eq!(far, unit);
}

#[test]
fn half_of_an_odd_or_negative_size_is_rounded_down() {
    let mut params = LeafParams::default();
    params.leaf_size = 5;
    let mut painter = Vec::new();
    params.draw_leaf(&mut painter, Point { x: 0, y: 0 }, QUARTER_TURN);
    assert!(matches!(painter[1], DrawCommand::Circle { radius: 2, .. }));
    params.leaf_size = -5;
    let mut painter = Vec::new();
    params.draw_leaf(&mut painter, Point { x: 0, y: 0 }, QUARTER_TURN);
    assert!(matches!(painter[1], DrawCommand::Circle { radius: -3, .. }));
}

#[test]
fn the_grid_is_ten_by_ten_leaves_column_after_column() {
    let params = LeafParams::default();
    let mut painter = Vec::new();
    params.draw_debug_grid(&mut painter, &Vec::new());
    assert_eq!(painter.len(), 200);
    for i in 0..10i64 {
        for j in 0..10i64 {
            let idx = (i * 10 + j) as usize;
            let (x, y) = (i * 500_000 - 120_000, j * 500_000);
            assert_eq!(painter[2 * idx], black_line((x, y), (x + 500_000, y), 200_000));
            assert!(matches!(
                painter[2 * idx + 1],
                DrawCommand::Circle { center, radius: 250_000, hollow: false, .. }
                    if center == Point { x, y }
            ));
        }
    }
}

#[test]
fn each_leaf_of_the_grid_is_turned_by_its_own_direction() {
    let params = LeafParams::default();
    let mut directions = vec![Rotation { cos: 1_000_000, sin: 0 }; 100];
    directions[13] = QUARTER_TURN;
    let mut painter = Vec::new();
    params.draw_debug_grid(&mut painter, &directions);
    assert_eq!(painter[26], black_line((500_000, 1_380_000), (500_000, 1_880_000), 200_000));
    assert_eq!(painter[28], black_line((380_000, 2_000_000), (880_000, 2_000_000), 200_000));
}

#[test]
fn a_leaf_without_a_direction_is_not_turned() {
    let params = LeafParams::default();
    let mut painter = Vec::new();
    params.draw_debug_grid(&mut painter, &vec![QUARTER_TURN]);
    assert_eq!(painter[0], black_line((0, -120_000), (0, 380_000), 200_000));
    assert_eq!(painter[2], black_line((-120_000, 500_000), (380_000, 500_000), 200_000));
}

#[test]
fn spacing_sets_the_leaves_apart() {
    let mut params = LeafParams::default();
    params.debug_spacing = 2_000_000;
    params.center_offset = 0;
    let mut painter = Vec::new();
    params.draw_debug_grid(&mut painter, &Vec::new());
    assert!(matches!(
        painter[199],
        DrawCommand::Circle { center: Point { x: 18_000_000, y: 18_000_000 }, .. }
    ));
}

#[test]
fn a_leaf_is_turned_by_its_share_of_a_full_turn() {
    let mut params = LeafParams::default();
    assert_eq!(params.rotation(250_000), 0);
    params.debug_rotation = 1_000_000;
    assert_eq!(params.rotation(0), 0);
    assert_eq!(params.rotation(250_000), 1_570_796);
    assert_eq!(params.rotation(500_000), 3_141_592);
    assert_eq!(params.rotation(999_999), 6_283_178);
    params.debug_rotation = 500_000;
    assert_eq!(params.rotation(250_000), 785_398);
}

#[test]
fn the_angles_of_the_grid_come_from_the_table_by_index() {
    let mut params = LeafParams::default();
    params.debug_rotation = 1_000_000;
    let table = CachedRandom::from_values(vec![0, 250_000, 500_000]).unwrap();
    let angles = params.grid_angles(&table);
    assert_eq!(angles.len(), 100);
    for (idx, angle) in angles.iter().enumerate() {
        assert_eq!(*angle, [0, 1_570_796, 3_141_592][idx % 3]);
    }
}

#[test]
fn the_angles_of_the_grid_are_the_same_every_frame() {
    let mut params = LeafParams::default();
    params.debug_rotation = 700_000;
    let table = CachedRandom::default();
    assert_eq!(params.grid_angles(&table), params.grid_angles(&table));
}

#[test]
fn the_bounds_are_four_lines_round_the_middle() {
    let mut params = LeafParams::default();
    params.bounds_y = 2_000_000;
    let mut painter = Vec::new();
    params.draw_bounds(&mut painter);
    assert_eq!(
        painter,
        vec![
            bound((-3_000_000, -2_000_000), (3_000_000, -2_000_000)),
            bound((3_000_000, -2_000_000), (3_000_000, 2_000_000)),
            bound((3_000_000, 2_000_000), (-3_000_000, 2_000_000)),
            bound((-3_000_000, 2_000_000), (-3_000_000, -2_000_000)),
        ]
    );
}

#[test]
fn leaves_paint_the_grid_and_then_the_bounds() {
    let art = LeafArt::default();
    let painter = art.draw(ProgramState::SummerLeaves, &Vec::new());
    assert_eq!(painter.len(), 204);
    assert_eq!(painter[0], black_line((-120_000, 0), (380_000, 0), 200_000));
    assert_eq!(painter[200], bound((-3_000_000, -3_000_000), (3_000_000, -3_000_000)));
}

#[test]
fn a_part_of_the_leaves_that_is_switched_off_is_not_painted() {
    let mut art = LeafArt::default();
    art.params.show_debug_grid = false;
    assert_eq!(art.draw(ProgramState::SummerLeaves, &Vec::new()).len(), 4);
    art.params.debug_show_bounds = false;
    assert!(art.draw(ProgramState::SummerLeaves, &Vec::new()).is_empty());
    art.params.show_debug_grid = true;
    assert_eq!(art.draw(ProgramState::SummerLeaves, &Vec::new()).len(), 200);
}

#[test]
fn leaves_paint_nothing_while_another_state_is_on() {
    let art = LeafArt::default();
    let table = CachedRandom::default();
    for state in
        [ProgramState::MainMenu, ProgramState::Circle, ProgramState::Gallery, ProgramState::Bubbles]
    {
        assert!(art.draw(state, &Vec::new()).is_empty());
        assert!(art.angles(state, &table).is_empty());
    }
}

#[test]
fn leaves_ask_for_angles_only_while_the_grid_is_shown() {
    let mut art = LeafArt::default();
    let table = CachedRandom::default();
    assert_eq!(art.angles(ProgramState::SummerLeaves, &table).len(), 100);
    art.params.show_debug_grid = false;
    assert!(art.angles(ProgramState::SummerLeaves, &table).is_empty());
}

#[test]
fn panel_of_the_leaves_lists_every_parameter_under_its_title() {
    let art = LeafArt::default();
    let slider = |label, field, value, min, max| Control::Slider {
        label,
        field,
        value,
        min,
        max,
        step: 0,
    };
    assert_eq!(
        art.params_ui(&PANEL_OPEN, ProgramState::SummerLeaves),
        vec![
            Control::Heading { text: "Debug" },
            Control::Checkbox {
                label: "Debug grid",
                field: LeafField::ShowDebugGrid,
                checked: true
            },
            slider("Spacing", LeafField::DebugSpacing, 500_000, 100_000, 10_000_000),
            slider("Rotation", LeafField::DebugRotation, 0, 0, 1_000_000),
            Control::Heading { text: "Leaves" },
            slider("Size", LeafField::LeafSize, 500_000, 10_000, 500_000),
            slider("Line Thickness", LeafField::LineThickness, 200_000, 10_000, 1_000_000),
            slider("Center Offset", LeafField::CenterOffset, -120_000, -500_000, 500_000),
            Control::Heading { text: "Bounds" },
            slider("Bounds X", LeafField::BoundsX, 3_000_000, 0, 10_000_000),
            slider("Bounds Y", LeafField::BoundsY, 3_000_000, 0, 10_000_000),
            Control::Checkbox {
                label: "Debug show bounds",
                field: LeafField::DebugShowBounds,
                checked: true
            },
        ]
    );
}

#[test]
fn panel_of_the_leaves_is_shown_only_while_open_and_on() {
    let art = LeafArt::default();
    let closed = UIState { params_panel: false };
    assert!(art.params_ui(&closed, ProgramState::SummerLeaves).is_empty());
    assert!(art.params_ui(&PANEL_OPEN, ProgramState::Bubbles).is_empty());
    assert!(art.params_ui(&PANEL_OPEN, ProgramState::MainMenu).is_empty());
}

#[test]
fn every_parameter_of_the_leaves_has_a_row() {
    let art = LeafArt::default();
    let panel = art.params_ui(&PANEL_OPEN, ProgramState::SummerLeaves);
    let fields = LeafField::fields();
    assert_eq!(fields.len(), 9);
    for field in fields {
        assert!(panel.contains(&art.control(field)));
    }
}

#[test]
fn set_on_the_leaves_stops_at_the_ends_of_the_range() {
    let mut art = LeafArt::default();
    art.set(LeafField::CenterOffset, -900_000);
    assert_eq!(art.params.center_offset, -500_000);
    art.set(LeafField::CenterOffset, 900_000);
    assert_eq!(art.params.center_offset, 500_000);
    art.set(LeafField::LeafSize, 0);
    assert_eq!(art.params.leaf_size, 10_000);
    art.set(LeafField::DebugRotation, 250_000);
    assert_eq!(art.params.debug_rotation, 250_000);
    assert_eq!(art.value(LeafField::DebugRotation), 250_000);
    art.set(LeafField::BoundsX, 20_000_000);
    assert_eq!(art.params.bounds_x, 10_000_000);
    art.set(LeafField::DebugSpacing, 1);
    assert_eq!(art.params.debug_spacing, 100_000);
    art.set(LeafField::LineThickness, 2_000_000);
    assert_eq!(art.params.line_thickness, 1_000_000);
    assert_eq!(art.validate(), Ok(()));
}

#[test]
fn set_on_the_leaves_leaves_everything_else_as_it_is() {
    let mut art = LeafArt::default();
    art.set(LeafField::BoundsY, 1_000_000);
    let mut expected = LeafArt::default();
    expected.params.bounds_y = 1_000_000;
    assert_eq!(art, expected);
}

#[test]
fn switches_of_the_leaves() {
    let mut art = LeafArt::default();
    art.set(LeafField::ShowDebugGrid, 0);
    assert!(!art.params.show_debug_grid);
    art.set(LeafField::DebugShowBounds, 0);
    assert!(!art.params.debug_show_bounds);
    art.set(LeafField::DebugShowBounds, 5);
    assert!(art.params.debug_show_bounds);
    assert_eq!(art.value(LeafField::DebugShowBounds), 1);
    assert_eq!(art.value(LeafField::ShowDebugGrid), 0);
}

#[test]
fn the_first_parameter_of_the_leaves_outside_its_range_is_reported() {
    let mut art = LeafArt::default();
    art.params.bounds_x = -1;
    art.params.leaf_size = 600_000;
    assert_eq!(
        art.validate(),
        Err(ConfigError { field: LeafField::LeafSize, value: 600_000, min: 10_000, max: 500_000 })
    );
    art.params.leaf_size = 500_000;
    assert_eq!(
        art.validate(),
        Err(ConfigError { field: LeafField::BoundsX, value: -1, min: 0, max: 10_000_000 })
    );
}

#[test]
fn ranges_and_names_of_the_leaves() {
    assert_eq!(LeafField::DebugSpacing.range(), (100_000, 10_000_000));
    assert_eq!(LeafField::ShowDebugGrid.range(), (0, 1));
    assert_eq!(LeafField::CenterOffset.label(), "Center Offset");
}
