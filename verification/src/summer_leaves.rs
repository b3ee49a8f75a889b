//! The scene of leaves on a grid, each turned by its own cached random
//! fraction.
use crate::common::{entry, CachedRandom, Color, Modifier, PASTEL};
use crate::draw::{DrawCommand, Point, Rotation};
use crate::fixed::{clamp, clamped, lemma_product_bounds, scaled, scaled_mul, SCALE, TAU};
use crate::panel::{ConfigError, Control};
use crate::program::{ProgramState, UIState};
use vstd::prelude::*;

verus! {

/// How many leaves the grid has along each side.
pub const GRID_SIDE: usize = 10;

/// Opacity of the lines that show the bounds: three fifths.
pub const BOUNDS_ALPHA: i64 = 600_000;

/// The parameters of the scene, open to be read and written between frames.
#[derive(Clone, Copy, Debug, PartialEq, Eq)]
pub struct LeafParams {
    /// Whether the grid of leaves is painted.
    pub show_debug_grid: bool,
    /// Distance from leaf to leaf.
    pub debug_spacing: i32,
    /// Length of a leaf's stem; its blade is half as wide.
    pub leaf_size: i32,
    /// Thickness of every line.
    pub line_thickness: i32,
    /// How far a leaf is moved along its own direction.
    pub center_offset: i32,
    /// How much of a full turn the leaves are turned by, each by its own
    /// share of it.
    pub debug_rotation: i32,
    /// Half the width of the bounds.
    pub bounds_x: i32,
    /// Half the height of the bounds.
    pub bounds_y: i32,
    /// Whether the bounds are painted.
    pub debug_show_bounds: bool,
}

/// The scene.
#[derive(Clone, Copy, Debug, PartialEq, Eq)]
pub struct LeafArt {
    pub params: LeafParams,
}

/// The colour of the leaves: black.
pub open spec fn leaf_color() -> Color {
    Color::opaque(0, 0, 0)
}

/// The colour of the bounds: a pale red that lets the leaves show through.
pub open spec fn bounds_color() -> Color {
    Color { alpha: BOUNDS_ALPHA, ..Color::opaque(SCALE as int, 0, 0).mixed(PASTEL as int) }
}

impl LeafParams {
    /// Whether every parameter has the value that a scene starts with.
    pub open spec fn starts_default(&self) -> bool {
        &&& self.show_debug_grid
        &&& self.debug_spacing == 500_000
        &&& self.leaf_size == 500_000
        &&& self.line_thickness == 200_000
        &&& self.center_offset == -120_000
        &&& self.debug_rotation == 0
        &&& self.bounds_x == 3_000_000
        &&& self.bounds_y == 3_000_000
        &&& self.debug_show_bounds
    }

    /// The angle by which the leaf with the random fraction `fraction` is
    /// turned: that share of a full turn, as far as the scene turns leaves
    /// at all.
    pub open spec fn spec_rotation(&self, fraction: int) -> int {
        scaled(scaled(fraction, TAU as int), self.debug_rotation as int)
    }

    /// Where the leaf drawn at `pos` in the direction `direction` has its
    /// foot: at `pos`, moved along the direction by the offset.
    pub open spec fn spec_foot(&self, pos: Point, direction: Rotation) -> (int, int) {
        (
            pos.x + scaled(
                self.center_offset as int,
                clamp(direction.cos as int, -(SCALE as int), SCALE as int),
            ),
            pos.y + scaled(
                self.center_offset as int,
                clamp(direction.sin as int, -(SCALE as int), SCALE as int),
            ),
        )
    }

    /// Where the stem of that leaf ends: its length along the direction
    /// from the foot.
    pub open spec fn spec_tip(&self, pos: Point, direction: Rotation) -> (int, int) {
        (
            self.spec_foot(pos, direction).0 + scaled(
                self.leaf_size as int,
                clamp(direction.cos as int, -(SCALE as int), SCALE as int),
            ),
            self.spec_foot(pos, direction).1 + scaled(
                self.leaf_size as int,
                clamp(direction.sin as int, -(SCALE as int), SCALE as int),
            ),
        )
    }

    /// The shapes of one leaf: its stem, then its blade, a disc on the foot.
    pub open spec fn spec_draw_leaf(&self, pos: Point, direction: Rotation) -> Seq<DrawCommand> {
        let foot = Point {
            x: self.spec_foot(pos, direction).0 as i64,
            y: self.spec_foot(pos, direction).1 as i64,
        };
        let tip = Point {
            x: self.spec_tip(pos, direction).0 as i64,
            y: self.spec_tip(pos, direction).1 as i64,
        };
        seq![
            DrawCommand::Line {
                from: foot,
                to: tip,
                thickness: self.line_thickness as i64,
                color: leaf_color(),
            },
            DrawCommand::Circle {
                center: foot,
                radius: (self.leaf_size / 2) as i64,
                hollow: false,
                thickness: self.line_thickness as i64,
                color: leaf_color(),
            },
        ]
    }

    /// Whether every number of the leaf's shapes is the whole number that
    /// its formula gives, none cut short to fit.
    pub open spec fn leaf_fits(&self, pos: Point, direction: Rotation) -> bool {
        let shapes = self.spec_draw_leaf(pos, direction);
        &&& shapes[0]->Line_from.x == self.spec_foot(pos, direction).0
        &&& shapes[0]->Line_from.y == self.spec_foot(pos, direction).1
        &&& shapes[0]->Line_to.x == self.spec_tip(pos, direction).0
        &&& shapes[0]->Line_to.y == self.spec_tip(pos, direction).1
    }

    /// Where the leaf with the index `idx` stands on the grid: the grid is
    /// filled column after column, each from the bottom up.
    pub open spec fn spec_cell(&self, idx: int) -> Point {
        Point {
            x: ((idx / (GRID_SIDE as int)) * self.debug_spacing) as i64,
            y: ((idx % (GRID_SIDE as int)) * self.debug_spacing) as i64,
        }
    }

    /// The shapes of the first `count` leaves of the grid.
    pub open spec fn spec_draw_grid_first(&self, count: nat, directions: Seq<Rotation>) -> Seq<
        DrawCommand,
    >
        decreases count,
    {
        if count == 0 {
            Seq::empty()
        } else {
            let idx = (count - 1) as int;
            self.spec_draw_grid_first(idx as nat, directions) + self.spec_draw_leaf(
                self.spec_cell(idx),
                Rotation::at(directions, idx),
            )
        }
    }

    /// The shapes of the whole grid: ten by ten leaves.
    pub open spec fn spec_draw_debug_grid(&self, directions: Seq<Rotation>) -> Seq<DrawCommand> {
        self.spec_draw_grid_first((GRID_SIDE * GRID_SIDE) as nat, directions)
    }

    /// One side of the bounds.
    pub open spec fn spec_side(&self, from: (int, int), to: (int, int)) -> DrawCommand {
        DrawCommand::Line {
            from: Point { x: from.0 as i64, y: from.1 as i64 },
            to: Point { x: to.0 as i64, y: to.1 as i64 },
            thickness: self.line_thickness as i64,
            color: bounds_color(),
        }
    }

    /// The shapes of the bounds: the four sides of the rectangle round the
    /// middle, from the lower left corner and counter-clockwise.
    pub open spec fn spec_draw_bounds(&self) -> Seq<DrawCommand> {
        let x = self.bounds_x as int;
        let y = self.bounds_y as int;
        seq![
            self.spec_side((-x, -y), (x, -y)),
            self.spec_side((x, -y), (x, y)),
            self.spec_side((x, y), (-x, y)),
            self.spec_side((-x, y), (-x, -y)),
        ]
    }

    /// Computes the angle by which a leaf is turned; see
    /// [`LeafParams::spec_rotation`].
    pub fn rotation(&self, fraction: u32) -> (angle: i64)
        ensures
            angle == self.spec_rotation(fraction as int),
    {
        proof {
            lemma_product_bounds(fraction as int, TAU as int, 0x1_0000_0000, 0x8000_0000);
        }
        let turn: i64 = scaled_mul(fraction as i64, TAU as i64) as i64;
        proof {
            lemma_product_bounds(
                turn as int,
                self.debug_rotation as int,
                0x8000_0000_0000,
                0x8000_0000,
            );
        }
        scaled_mul(turn, self.debug_rotation as i64) as i64
    }

    /// For each leaf of the grid the angle by which it is turned, from the
    /// random fraction that the table holds for the leaf's index. The host
    /// computes their cosines and sines and hands them to
    /// [`LeafParams::draw_debug_grid`] in the same order.
    pub fn grid_angles(&self, rand: &CachedRandom) -> (angles: Vec<i64>)
        ensures
            angles@.len() == GRID_SIDE * GRID_SIDE,
            forall|idx: int|
                0 <= idx < angles@.len() ==> #[trigger] angles@[idx] == self.spec_rotation(
                    entry(rand@, idx) as int,
                ),
    {
        let mut angles: Vec<i64> = Vec::new();
        let mut idx: usize = 0;
        while idx < GRID_SIDE * GRID_SIDE
            invariant
                idx <= GRID_SIDE * GRID_SIDE,
                angles@.len() == idx,
                forall|k: int|
                    0 <= k < idx ==> #[trigger] angles@[k] == self.spec_rotation(
                        entry(rand@, k) as int,
                    ),
            decreases GRID_SIDE * GRID_SIDE - idx,
        {
            let angle: i64 = self.rotation(rand.get(idx));
            angles.push(angle);
            idx += 1;
        }
        angles
    }

    /// Adds the shapes of one leaf to `painter`; see
    /// [`LeafParams::spec_draw_leaf`]. Within the grid no number is cut
    /// short. The result depends on the arguments alone.
    pub fn draw_leaf(&self, painter: &mut Vec<DrawCommand>, pos: Point, direction: Rotation)
        requires
            -0x4000_0000_0000_0000 <= pos.x <= 0x4000_0000_0000_0000,
            -0x4000_0000_0000_0000 <= pos.y <= 0x4000_0000_0000_0000,
        ensures
            final(painter)@ == old(painter)@ + self.spec_draw_leaf(pos, direction),
            self.leaf_fits(pos, direction),
    {
        let cos: i64 = clamped(direction.cos, -1_000_000, 1_000_000) as i64;
        let sin: i64 = clamped(direction.sin, -1_000_000, 1_000_000) as i64;
        proof {
            lemma_product_bounds(self.center_offset as int, cos as int, 0x8000_0000, 1_000_000);
            lemma_product_bounds(self.center_offset as int, sin as int, 0x8000_0000, 1_000_000);
            lemma_product_bounds(self.leaf_size as int, cos as int, 0x8000_0000, 1_000_000);
            lemma_product_bounds(self.leaf_size as int, sin as int, 0x8000_0000, 1_000_000);
        }
        let foot = Point {
            x: pos.x + (scaled_mul(self.center_offset as i64, cos) as i64),
            y: pos.y + (scaled_mul(self.center_offset as i64, sin) as i64),
        };
        let tip = Point {
            x: foot.x + (scaled_mul(self.leaf_size as i64, cos) as i64),
            y: foot.y + (scaled_mul(self.leaf_size as i64, sin) as i64),
        };
        let radius: i64 = if self.leaf_size >= 0 {
            (self.leaf_size / 2) as i64
        } else {
            (self.leaf_size as i64 - 1) / 2
        };
        painter.push(
            DrawCommand::Line {
                from: foot,
                to: tip,
                thickness: self.line_thickness as i64,
                color: Color::black(),
            },
        );
        painter.push(
            DrawCommand::Circle {
                center: foot,
                radius,
                hollow: false,
                thickness: self.line_thickness as i64,
                color: Color::black(),
            },
        );
        proof {
            assert(final(painter)@ =~= old(painter)@ + self.spec_draw_leaf(pos, direction));
        }
    }

    /// Adds the shapes of the grid to `painter`, leaf after leaf; see
    /// [`LeafParams::spec_draw_debug_grid`]. `directions` holds for each leaf
    /// the cosine and sine of its angle from [`LeafParams::grid_angles`]; a
    /// leaf that the list does not reach is not turned. The result depends on
    /// the arguments alone.
    pub fn draw_debug_grid(&self, painter: &mut Vec<DrawCommand>, directions: &Vec<Rotation>)
        ensures
            final(painter)@ == old(painter)@ + self.spec_draw_debug_grid(directions@),
    {
        let mut i: usize = 0;
        while i < GRID_SIDE
            invariant
                i <= GRID_SIDE,
                painter@ == old(painter)@ + self.spec_draw_grid_first(
                    (i * GRID_SIDE) as nat,
                    directions@,
                ),
            decreases GRID_SIDE - i,
        {
            let mut j: usize = 0;
            while j < GRID_SIDE
                invariant
                    i < GRID_SIDE,
                    j <= GRID_SIDE,
                    painter@ == old(painter)@ + self.spec_draw_grid_first(
                        (i * GRID_SIDE + j) as nat,
                        directions@,
                    ),
                decreases GRID_SIDE - j,
            {
                let idx: usize = i * GRID_SIDE + j;
                proof {
                    lemma_product_bounds(i as int, self.debug_spacing as int, 10, 0x8000_0000);
                    lemma_product_bounds(j as int, self.debug_spacing as int, 10, 0x8000_0000);
                }
                let pos = Point {
                    x: (i as i64) * (self.debug_spacing as i64),
                    y: (j as i64) * (self.debug_spacing as i64),
                };
                proof {
                    assert(pos == self.spec_cell(idx as int));
                }
                self.draw_leaf(painter, pos, Rotation::pick(directions, idx));
                proof {
                    assert(painter@ =~= old(painter)@ + self.spec_draw_grid_first(
                        (idx + 1) as nat,
                        directions@,
                    ));
                }
                j += 1;
            }
            i += 1;
        }
    }

    /// Adds the shapes of the bounds to `painter`; see
    /// [`LeafParams::spec_draw_bounds`].
    pub fn draw_bounds(&self, painter: &mut Vec<DrawCommand>)
        ensures
            final(painter)@ == old(painter)@ + self.spec_draw_bounds(),
    {
        let x: i64 = self.bounds_x as i64;
        let y: i64 = self.bounds_y as i64;
        let thickness: i64 = self.line_thickness as i64;
        let color: Color = Color::red().pastel().with_alpha(BOUNDS_ALPHA);
        painter.push(
            DrawCommand::Line {
                from: Point { x: -x, y: -y },
                to: Point { x, y: -y },
                thickness,
                color,
            },
        );
        painter.push(
            DrawCommand::Line { from: Point { x, y: -y }, to: Point { x, y }, thickness, color },
        );
        painter.push(
            DrawCommand::Line { from: Point { x, y }, to: Point { x: -x, y }, thickness, color },
        );
        painter.push(
            DrawCommand::Line {
                from: Point { x: -x, y },
                to: Point { x: -x, y: -y },
                thickness,
                color,
            },
        );
        proof {
            assert(final(painter)@ =~= old(painter)@ + self.spec_draw_bounds());
        }
    }
}

impl Default for LeafParams {
    fn default() -> (params: LeafParams)
        ensures
            params.starts_default(),
    {
        LeafParams {
            show_debug_grid: true,
            debug_spacing: 500_000,
            leaf_size: 500_000,
            line_thickness: 200_000,
            center_offset: -120_000,
            debug_rotation: 0,
            bounds_x: 3_000_000,
            bounds_y: 3_000_000,
            debug_show_bounds: true,
        }
    }
}

/// The parameters of the scene, in the order of its panel.
#[derive(Clone, Copy, Debug, PartialEq, Eq, Hash, Structural)]
pub enum LeafField {
    ShowDebugGrid,
    DebugSpacing,
    DebugRotation,
    LeafSize,
    LineThickness,
    CenterOffset,
    BoundsX,
    BoundsY,
    DebugShowBounds,
}

impl LeafField {
    /// Whether the parameter is a switch rather than a number.
    pub open spec fn is_switch(self) -> bool {
        self == LeafField::ShowDebugGrid || self == LeafField::DebugShowBounds
    }

    /// The least value that the parameter may have.
    pub open spec fn lowest(self) -> int {
        match self {
            LeafField::DebugSpacing => 100_000,
            LeafField::LeafSize | LeafField::LineThickness => 10_000,
            LeafField::CenterOffset => -500_000,
            _ => 0,
        }
    }

    /// The greatest value that the parameter may have.
    pub open spec fn highest(self) -> int {
        match self {
            LeafField::ShowDebugGrid | LeafField::DebugShowBounds => 1,
            LeafField::DebugSpacing | LeafField::BoundsX | LeafField::BoundsY => 10_000_000,
            LeafField::DebugRotation | LeafField::LineThickness => 1_000_000,
            LeafField::LeafSize | LeafField::CenterOffset => 500_000,
        }
    }

    /// The name of the parameter on its row of the panel.
    pub open spec fn spec_label(self) -> &'static str {
        match self {
            LeafField::ShowDebugGrid => "Debug grid",
            LeafField::DebugSpacing => "Spacing",
            LeafField::DebugRotation => "Rotation",
            LeafField::LeafSize => "Size",
            LeafField::LineThickness => "Line Thickness",
            LeafField::CenterOffset => "Center Offset",
            LeafField::BoundsX => "Bounds X",
            LeafField::BoundsY => "Bounds Y",
            LeafField::DebugShowBounds => "Debug show bounds",
        }
    }

    /// Every parameter, in the order of the panel.
    pub open spec fn all() -> Seq<LeafField> {
        seq![
            LeafField::ShowDebugGrid,
            LeafField::DebugSpacing,
            LeafField::DebugRotation,
            LeafField::LeafSize,
            LeafField::LineThickness,
            LeafField::CenterOffset,
            LeafField::BoundsX,
            LeafField::BoundsY,
            LeafField::DebugShowBounds,
        ]
    }

    /// Where the parameter stands in [`LeafField::all`].
    pub open spec fn position(self) -> int {
        match self {
            LeafField::ShowDebugGrid => 0,
            LeafField::DebugSpacing => 1,
            LeafField::DebugRotation => 2,
            LeafField::LeafSize => 3,
            LeafField::LineThickness => 4,
            LeafField::CenterOffset => 5,
            LeafField::BoundsX => 6,
            LeafField::BoundsY => 7,
            LeafField::DebugShowBounds => 8,
        }
    }

    /// Every parameter stands in [`LeafField::all`], at its position.
    pub proof fn lemma_all_complete(self)
        ensures
            0 <= self.position() < LeafField::all().len(),
            LeafField::all()[self.position()] == self,
    {
    }

    /// Lists every parameter; see [`LeafField::all`].
    pub fn fields() -> (list: Vec<LeafField>)
        ensures
            list@ == LeafField::all(),
    {
        let list = vec![
            LeafField::ShowDebugGrid,
            LeafField::DebugSpacing,
            LeafField::DebugRotation,
            LeafField::LeafSize,
            LeafField::LineThickness,
            LeafField::CenterOffset,
            LeafField::BoundsX,
            LeafField::BoundsY,
            LeafField::DebugShowBounds,
        ];
        proof {
            assert(list@ =~= LeafField::all());
        }
        list
    }

    /// Tells the name of the parameter; see [`LeafField::spec_label`].
    pub fn label(self) -> (r: &'static str)
        ensures
            r == self.spec_label(),
    {
        match self {
            LeafField::ShowDebugGrid => "Debug grid",
            LeafField::DebugSpacing => "Spacing",
            LeafField::DebugRotation => "Rotation",
            LeafField::LeafSize => "Size",
            LeafField::LineThickness => "Line Thickness",
            LeafField::CenterOffset => "Center Offset",
            LeafField::BoundsX => "Bounds X",
            LeafField::BoundsY => "Bounds Y",
            LeafField::DebugShowBounds => "Debug show bounds",
        }
    }

    /// Tells the range of the parameter; see [`LeafField::lowest`] and
    /// [`LeafField::highest`].
    pub fn range(self) -> (r: (i32, i32))
        ensures
            r.0 == self.lowest(),
            r.1 == self.highest(),
            r.0 <= r.1,
    {
        match self {
            LeafField::ShowDebugGrid | LeafField::DebugShowBounds => (0, 1),
            LeafField::DebugSpacing => (100_000, 10_000_000),
            LeafField::DebugRotation => (0, 1_000_000),
            LeafField::LeafSize => (10_000, 500_000),
            LeafField::LineThickness => (10_000, 1_000_000),
            LeafField::CenterOffset => (-500_000, 500_000),
            LeafField::BoundsX | LeafField::BoundsY => (0, 10_000_000),
        }
    }
}

impl LeafArt {
    /// The value of a parameter; a switch counts 1 when it is on and 0 when
    /// it is off.
    pub open spec fn spec_value(&self, field: LeafField) -> int {
        match field {
            LeafField::ShowDebugGrid => if self.params.show_debug_grid { 1 } else { 0 },
            LeafField::DebugSpacing => self.params.debug_spacing as int,
            LeafField::DebugRotation => self.params.debug_rotation as int,
            LeafField::LeafSize => self.params.leaf_size as int,
            LeafField::LineThickness => self.params.line_thickness as int,
            LeafField::CenterOffset => self.params.center_offset as int,
            LeafField::BoundsX => self.params.bounds_x as int,
            LeafField::BoundsY => self.params.bounds_y as int,
            LeafField::DebugShowBounds => if self.params.debug_show_bounds { 1 } else { 0 },
        }
    }

    /// Whether a parameter lies within its range.
    pub open spec fn in_range(&self, field: LeafField) -> bool {
        field.lowest() <= self.spec_value(field) <= field.highest()
    }

    /// Whether every parameter lies within its range.
    pub open spec fn valid(&self) -> bool {
        forall|field: LeafField| self.in_range(field)
    }

    /// The scene with one parameter set to `value` and every other as it
    /// is. A switch is on for every value but 0.
    pub open spec fn with_value(self, field: LeafField, value: i32) -> LeafArt {
        LeafArt {
            params: match field {
                LeafField::ShowDebugGrid => LeafParams {
                    show_debug_grid: value != 0,
                    ..self.params
                },
                LeafField::DebugSpacing => LeafParams { debug_spacing: value, ..self.params },
                LeafField::DebugRotation => LeafParams { debug_rotation: value, ..self.params },
                LeafField::LeafSize => LeafParams { leaf_size: value, ..self.params },
                LeafField::LineThickness => LeafParams { line_thickness: value, ..self.params },
                LeafField::CenterOffset => LeafParams { center_offset: value, ..self.params },
                LeafField::BoundsX => LeafParams { bounds_x: value, ..self.params },
                LeafField::BoundsY => LeafParams { bounds_y: value, ..self.params },
                LeafField::DebugShowBounds => LeafParams {
                    debug_show_bounds: value != 0,
                    ..self.params
                },
            },
        }
    }

    /// The row of the panel for a parameter.
    pub open spec fn spec_control(&self, field: LeafField) -> Control<LeafField> {
        if field.is_switch() {
            Control::Checkbox {
                label: field.spec_label(),
                field,
                checked: self.spec_value(field) != 0,
            }
        } else {
            Control::Slider {
                label: field.spec_label(),
                field,
                value: self.spec_value(field) as i32,
                min: field.lowest() as i32,
                max: field.highest() as i32,
                step: 0,
            }
        }
    }

    /// The panel of the scene: every parameter on a row of its own, under
    /// the titles of the groups.
    pub open spec fn spec_panel(&self) -> Seq<Control<LeafField>> {
        seq![
            Control::Heading { text: "Debug" },
            self.spec_control(LeafField::ShowDebugGrid),
            self.spec_control(LeafField::DebugSpacing),
            self.spec_control(LeafField::DebugRotation),
            Control::Heading { text: "Leaves" },
            self.spec_control(LeafField::LeafSize),
            self.spec_control(LeafField::LineThickness),
            self.spec_control(LeafField::CenterOffset),
            Control::Heading { text: "Bounds" },
            self.spec_control(LeafField::BoundsX),
            self.spec_control(LeafField::BoundsY),
            self.spec_control(LeafField::DebugShowBounds),
        ]
    }

    /// The shapes of a frame: the grid of leaves, then the bounds, each
    /// only while its switch is on.
    pub open spec fn spec_draw(&self, directions: Seq<Rotation>) -> Seq<DrawCommand> {
        (if self.params.show_debug_grid {
            self.params.spec_draw_debug_grid(directions)
        } else {
            Seq::empty()
        }) + (if self.params.debug_show_bounds {
            self.params.spec_draw_bounds()
        } else {
            Seq::empty()
        })
    }

    /// Whether `angles` are the angles that a frame needs the cosines and
    /// sines of: for each leaf of the grid the angle by which it is turned,
    /// while the scene is on and the grid is shown, and none otherwise.
    pub open spec fn asks_for(
        &self,
        program_state: ProgramState,
        table: Seq<u32>,
        angles: Seq<i64>,
    ) -> bool {
        &&& angles.len() == if program_state.runs(ProgramState::SummerLeaves)
            && self.params.show_debug_grid {
            GRID_SIDE * GRID_SIDE
        } else {
            0
        }
        &&& forall|idx: int|
            0 <= idx < angles.len() ==> #[trigger] angles[idx] == self.params.spec_rotation(
                entry(table, idx) as int,
            )
    }

    /// Reads a parameter; see [`LeafArt::spec_value`].
    pub fn value(&self, field: LeafField) -> (r: i32)
        ensures
            r == self.spec_value(field),
    {
        match field {
            LeafField::ShowDebugGrid => if self.params.show_debug_grid { 1 } else { 0 },
            LeafField::DebugSpacing => self.params.debug_spacing,
            LeafField::DebugRotation => self.params.debug_rotation,
            LeafField::LeafSize => self.params.leaf_size,
            LeafField::LineThickness => self.params.line_thickness,
            LeafField::CenterOffset => self.params.center_offset,
            LeafField::BoundsX => self.params.bounds_x,
            LeafField::BoundsY => self.params.bounds_y,
            LeafField::DebugShowBounds => if self.params.debug_show_bounds { 1 } else { 0 },
        }
    }

    /// Sets a parameter to `value`, or to the end of its range that is
    /// nearest to `value` where `value` lies outside. Everything else stays
    /// as it is. A scene whose parameters were all within their ranges
    /// still has them so.
    pub fn set(&mut self, field: LeafField, value: i32)
        ensures
            *final(self) == old(self).with_value(
                field,
                clamp(value as int, field.lowest(), field.highest()) as i32,
            ),
            final(self).in_range(field),
            old(self).valid() ==> final(self).valid(),
    {
        let (min, max) = field.range();
        let value: i32 = clamped(value, min, max);
        match field {
            LeafField::ShowDebugGrid => {
                self.params.show_debug_grid = value != 0;
            },
            LeafField::DebugSpacing => {
                self.params.debug_spacing = value;
            },
            LeafField::DebugRotation => {
                self.params.debug_rotation = value;
            },
            LeafField::LeafSize => {
                self.params.leaf_size = value;
            },
            LeafField::LineThickness => {
                self.params.line_thickness = value;
            },
            LeafField::CenterOffset => {
                self.params.center_offset = value;
            },
            LeafField::BoundsX => {
                self.params.bounds_x = value;
            },
            LeafField::BoundsY => {
                self.params.bounds_y = value;
            },
            LeafField::DebugShowBounds => {
                self.params.debug_show_bounds = value != 0;
            },
        }
        proof {
            if old(self).valid() {
                assert forall|other: LeafField| self.in_range(other) by {
                    assert(old(self).in_range(other));
                }
            }
        }
    }

    /// Builds the row of the panel for a parameter; see
    /// [`LeafArt::spec_control`].
    pub fn control(&self, field: LeafField) -> (row: Control<LeafField>)
        ensures
            row == self.spec_control(field),
    {
        match field {
            LeafField::ShowDebugGrid | LeafField::DebugShowBounds => Control::Checkbox {
                label: field.label(),
                field,
                checked: self.value(field) != 0,
            },
            _ => {
                let (min, max) = field.range();
                Control::Slider {
                    label: field.label(),
                    field,
                    value: self.value(field),
                    min,
                    max,
                    step: 0,
                }
            },
        }
    }

    /// Looks for a parameter outside its range. The check passes exactly
    /// when the scene is valid. Where it fails, the error holds the first
    /// parameter, in the order of the panel, that lies outside its range,
    /// with its value and that range.
    pub fn validate(&self) -> (r: Result<(), ConfigError<LeafField>>)
        ensures
            r is Ok <==> self.valid(),
            r is Err ==> {
                let error = r->Err_0;
                &&& !self.in_range(error.field)
                &&& forall|earlier: LeafField|
                    earlier.position() < error.field.position() ==> self.in_range(earlier)
                &&& error.value == self.spec_value(error.field)
                &&& error.min == error.field.lowest()
                &&& error.max == error.field.highest()
            },
    {
        let fields = LeafField::fields();
        let mut i: usize = 0;
        while i < fields.len()
            invariant
                i <= fields@.len(),
                fields@ == LeafField::all(),
                forall|k: int| 0 <= k < i ==> self.in_range(#[trigger] fields@[k]),
            decreases fields@.len() - i,
        {
            let field = fields[i];
            let value = self.value(field);
            let (min, max) = field.range();
            if value < min || value > max {
                proof {
                    assert(!self.in_range(field));
                    field.lemma_all_complete();
                    assert forall|earlier: LeafField|
                        earlier.position() < field.position() implies self.in_range(earlier) by {
                        earlier.lemma_all_complete();
                        assert(self.in_range(fields@[earlier.position()]));
                    }
                }
                return Err(ConfigError { field, value, min, max });
            }
            i += 1;
        }
        proof {
            assert forall|field: LeafField| self.in_range(field) by {
                field.lemma_all_complete();
                assert(self.in_range(fields@[field.position()]));
            }
        }
        Ok(())
    }

    /// The panel of the scene for this frame: its rows while the panel is
    /// open and the scene is on, and nothing otherwise. See
    /// [`LeafArt::spec_panel`].
    pub fn params_ui(&self, ui_state: &UIState, program_state: ProgramState) -> (panel: Vec<
        Control<LeafField>,
    >)
        ensures
            panel@ == if ui_state.params_panel && program_state.runs(ProgramState::SummerLeaves) {
                self.spec_panel()
            } else {
                Seq::empty()
            },
    {
        let mut panel: Vec<Control<LeafField>> = Vec::new();
        if !ui_state.params_panel || !program_state.in_state(ProgramState::SummerLeaves) {
            return panel;
        }
        panel.push(Control::Heading { text: "Debug" });
        panel.push(self.control(LeafField::ShowDebugGrid));
        panel.push(self.control(LeafField::DebugSpacing));
        panel.push(self.control(LeafField::DebugRotation));
        panel.push(Control::Heading { text: "Leaves" });
        panel.push(self.control(LeafField::LeafSize));
        panel.push(self.control(LeafField::LineThickness));
        panel.push(self.control(LeafField::CenterOffset));
        panel.push(Control::Heading { text: "Bounds" });
        panel.push(self.control(LeafField::BoundsX));
        panel.push(self.control(LeafField::BoundsY));
        panel.push(self.control(LeafField::DebugShowBounds));
        proof {
            assert(panel@ =~= self.spec_panel());
        }
        panel
    }

    /// The angles that a frame needs the cosines and sines of: those of the
    /// leaves of the grid while the scene is on and the grid is shown, and
    /// none otherwise. See [`LeafParams::grid_angles`].
    pub fn angles(&self, program_state: ProgramState, rand: &CachedRandom) -> (angles: Vec<i64>)
        ensures
            self.asks_for(program_state, rand@, angles@),
    {
        if program_state.in_state(ProgramState::SummerLeaves) && self.params.show_debug_grid {
            self.params.grid_angles(rand)
        } else {
            Vec::new()
        }
    }

    /// The shapes of a frame, in the order in which they are to be painted;
    /// see [`LeafArt::spec_draw`]. While another state is on there are none,
    /// and nothing is computed. `directions` holds what the host computed
    /// from [`LeafArt::angles`]. The result depends on the arguments alone.
    pub fn draw(&self, program_state: ProgramState, directions: &Vec<Rotation>) -> (painter: Vec<
        DrawCommand,
    >)
        ensures
            painter@ == if program_state.runs(ProgramState::SummerLeaves) {
                self.spec_draw(directions@)
            } else {
                Seq::empty()
            },
    {
        let mut painter: Vec<DrawCommand> = Vec::new();
        if !program_state.in_state(ProgramState::SummerLeaves) {
            return painter;
        }
        if self.params.show_debug_grid {
            self.params.draw_debug_grid(&mut painter, directions);
        }
        if self.params.debug_show_bounds {
            self.params.draw_bounds(&mut painter);
        }
        proof {
            assert(painter@ =~= self.spec_draw(directions@));
        }
        painter
    }
}

impl Default for LeafArt {
    /// The scene as it starts, with every parameter within its range.
    fn default() -> (art: LeafArt)
        ensures
            art.params.starts_default(),
            art.valid(),
    {
        LeafArt { params: LeafParams::default() }
    }
}

} // verus!
