//! The scene of bubbles and rays as a whole: its parameters by name, its
//! panel, and its frame.
use crate::bubbles::Bubbles;
use crate::common::{Color, Modifier, PASTEL};
use crate::draw::{DrawCommand, Point, Rotation};
use crate::fixed::{clamp, clamped, SCALE, TAU};
use crate::panel::{ConfigError, Control};
use crate::program::{ProgramState, UIState};
use crate::rays::{RayDraws, Rays};
use vstd::prelude::*;

verus! {

/// The scene: a field of bubbles and a field of rays, each with its
/// parameters.
#[derive(Debug, PartialEq, Eq)]
pub struct BubbleArt {
    pub bubbles: Bubbles,
    pub rays: Rays,
}

/// The parameters of the scene, in the order of its panel.
#[derive(Clone, Copy, Debug, PartialEq, Eq, Hash, Structural)]
pub enum BubbleField {
    Bubbles,
    Rays,
    Thickness,
    OuterRadiusMin,
    OuterRadiusMax,
    InnerRadiusMin,
    InnerRadiusMax,
    ShineStart,
    ShineEnd,
    ShineThickness,
    WobbleSize,
    WobbleFrequency,
    Starting,
    StartingRange,
    Cycle,
    RayAngle,
    RayMinLength,
    RayMaxLength,
    RayThickness,
    RayAlpha,
    RaySpeed,
}

impl BubbleField {
    /// Whether the parameter is a switch rather than a number.
    pub open spec fn is_switch(self) -> bool {
        self == BubbleField::Bubbles || self == BubbleField::Rays
    }

    /// The least value that the parameter may ever have.
    pub open spec fn lowest(self) -> int {
        match self {
            BubbleField::Bubbles | BubbleField::Rays => 0,
            BubbleField::Thickness | BubbleField::ShineThickness => 10_000,
            BubbleField::OuterRadiusMin
            | BubbleField::OuterRadiusMax
            | BubbleField::InnerRadiusMin
            | BubbleField::InnerRadiusMax => 200_000,
            BubbleField::Cycle | BubbleField::RayMaxLength => 100_000,
            _ => 0,
        }
    }

    /// The greatest value that the parameter may ever have.
    pub open spec fn highest(self) -> int {
        match self {
            BubbleField::Bubbles | BubbleField::Rays => 1,
            BubbleField::Thickness | BubbleField::ShineThickness => 100_000,
            BubbleField::OuterRadiusMin
            | BubbleField::OuterRadiusMax
            | BubbleField::InnerRadiusMin
            | BubbleField::InnerRadiusMax => 2_000_000,
            BubbleField::ShineStart | BubbleField::ShineEnd | BubbleField::RayAngle => TAU as int,
            BubbleField::WobbleSize => 4_000_000,
            BubbleField::WobbleFrequency => 20_000_000,
            BubbleField::Starting => 10_000_000,
            BubbleField::StartingRange => 5_000_000,
            BubbleField::Cycle => 60_000_000,
            BubbleField::RayMinLength
            | BubbleField::RayMaxLength
            | BubbleField::RaySpeed => 10_000_000,
            BubbleField::RayThickness | BubbleField::RayAlpha => 1_000_000,
        }
    }

    /// The parameter that this one may not exceed, if there is one: the
    /// upper end of the stretch of which this is the lower end.
    pub open spec fn ceiling(self) -> Option<BubbleField> {
        match self {
            BubbleField::OuterRadiusMin => Some(BubbleField::OuterRadiusMax),
            BubbleField::InnerRadiusMin => Some(BubbleField::InnerRadiusMax),
            BubbleField::RayMinLength => Some(BubbleField::RayMaxLength),
            _ => None,
        }
    }

    /// The parameter that this one may not fall below, if there is one: the
    /// lower end of the stretch of which this is the upper end.
    pub open spec fn floor(self) -> Option<BubbleField> {
        match self {
            BubbleField::OuterRadiusMax => Some(BubbleField::OuterRadiusMin),
            BubbleField::InnerRadiusMax => Some(BubbleField::InnerRadiusMin),
            BubbleField::RayMaxLength => Some(BubbleField::RayMinLength),
            _ => None,
        }
    }

    /// The step in which the parameter's slider moves; 0 where it moves
    /// freely.
    pub open spec fn spec_step(self) -> int {
        match self {
            BubbleField::RayMinLength | BubbleField::RayMaxLength => 100_000,
            _ => 0,
        }
    }

    /// The name of the parameter on its row of the panel.
    pub open spec fn spec_label(self) -> &'static str {
        match self {
            BubbleField::Bubbles => "Bubbles",
            BubbleField::Rays => "Rays",
            BubbleField::Thickness => "Outer",
            BubbleField::OuterRadiusMin => "Outer Min",
            BubbleField::OuterRadiusMax => "Outer Max",
            BubbleField::InnerRadiusMin => "Inner Min",
            BubbleField::InnerRadiusMax => "Inner Max",
            BubbleField::ShineStart => "Start",
            BubbleField::ShineEnd => "End",
            BubbleField::ShineThickness => "Thickness",
            BubbleField::WobbleSize => "Size",
            BubbleField::WobbleFrequency => "Frequency",
            BubbleField::Starting => "Starting",
            BubbleField::StartingRange => "Range",
            BubbleField::Cycle => "Length",
            BubbleField::RayAngle => "Angle",
            BubbleField::RayMinLength => "Min Length",
            BubbleField::RayMaxLength => "Max Length",
            BubbleField::RayThickness => "Thickness",
            BubbleField::RayAlpha => "Alpha",
            BubbleField::RaySpeed => "Speed",
        }
    }

    /// Every parameter, in the order of the panel.
    pub open spec fn all() -> Seq<BubbleField> {
        seq![
            BubbleField::Bubbles,
            BubbleField::Rays,
            BubbleField::Thickness,
            BubbleField::OuterRadiusMin,
            BubbleField::OuterRadiusMax,
            BubbleField::InnerRadiusMin,
            BubbleField::InnerRadiusMax,
            BubbleField::ShineStart,
            BubbleField::ShineEnd,
            BubbleField::ShineThickness,
            BubbleField::WobbleSize,
            BubbleField::WobbleFrequency,
            BubbleField::Starting,
            BubbleField::StartingRange,
            BubbleField::Cycle,
            BubbleField::RayAngle,
            BubbleField::RayMinLength,
            BubbleField::RayMaxLength,
            BubbleField::RayThickness,
            BubbleField::RayAlpha,
            BubbleField::RaySpeed,
        ]
    }

    /// Where the parameter stands in [`BubbleField::all`].
    pub open spec fn position(self) -> int {
        match self {
            BubbleField::Bubbles => 0,
            BubbleField::Rays => 1,
            BubbleField::Thickness => 2,
            BubbleField::OuterRadiusMin => 3,
            BubbleField::OuterRadiusMax => 4,
            BubbleField::InnerRadiusMin => 5,
            BubbleField::InnerRadiusMax => 6,
            BubbleField::ShineStart => 7,
            BubbleField::ShineEnd => 8,
            BubbleField::ShineThickness => 9,
            BubbleField::WobbleSize => 10,
            BubbleField::WobbleFrequency => 11,
            BubbleField::Starting => 12,
            BubbleField::StartingRange => 13,
            BubbleField::Cycle => 14,
            BubbleField::RayAngle => 15,
            BubbleField::RayMinLength => 16,
            BubbleField::RayMaxLength => 17,
            BubbleField::RayThickness => 18,
            BubbleField::RayAlpha => 19,
            BubbleField::RaySpeed => 20,
        }
    }

    /// Every parameter stands in [`BubbleField::all`], at its position.
    pub proof fn lemma_all_complete(self)
        ensures
            0 <= self.position() < BubbleField::all().len(),
            BubbleField::all()[self.position()] == self,
    {
    }

    /// Lists every parameter; see [`BubbleField::all`].
    pub fn fields() -> (list: Vec<BubbleField>)
        ensures
            list@ == BubbleField::all(),
    {
        let list = vec![
            BubbleField::Bubbles,
            BubbleField::Rays,
            BubbleField::Thickness,
            BubbleField::OuterRadiusMin,
            BubbleField::OuterRadiusMax,
            BubbleField::InnerRadiusMin,
            BubbleField::InnerRadiusMax,
            BubbleField::ShineStart,
            BubbleField::ShineEnd,
            BubbleField::ShineThickness,
            BubbleField::WobbleSize,
            BubbleField::WobbleFrequency,
            BubbleField::Starting,
            BubbleField::StartingRange,
            BubbleField::Cycle,
            BubbleField::RayAngle,
            BubbleField::RayMinLength,
            BubbleField::RayMaxLength,
            BubbleField::RayThickness,
            BubbleField::RayAlpha,
            BubbleField::RaySpeed,
        ];
        proof {
            assert(list@ =~= BubbleField::all());
        }
        list
    }

    /// Tells the name of the parameter; see [`BubbleField::spec_label`].
    pub fn label(self) -> (r: &'static str)
        ensures
            r == self.spec_label(),
    {
        match self {
            BubbleField::Bubbles => "Bubbles",
            BubbleField::Rays => "Rays",
            BubbleField::Thickness => "Outer",
            BubbleField::OuterRadiusMin => "Outer Min",
            BubbleField::OuterRadiusMax => "Outer Max",
            BubbleField::InnerRadiusMin => "Inner Min",
            BubbleField::InnerRadiusMax => "Inner Max",
            BubbleField::ShineStart => "Start",
            BubbleField::ShineEnd => "End",
            BubbleField::ShineThickness => "Thickness",
            BubbleField::WobbleSize => "Size",
            BubbleField::WobbleFrequency => "Frequency",
            BubbleField::Starting => "Starting",
            BubbleField::StartingRange => "Range",
            BubbleField::Cycle => "Length",
            BubbleField::RayAngle => "Angle",
            BubbleField::RayMinLength => "Min Length",
            BubbleField::RayMaxLength => "Max Length",
            BubbleField::RayThickness => "Thickness",
            BubbleField::RayAlpha => "Alpha",
            BubbleField::RaySpeed => "Speed",
        }
    }
}

/// The angles whose sines and cosines a frame of the scene needs from the
/// host, which alone can compute them.
#[derive(Debug, PartialEq, Eq)]
pub struct BubbleAngles {
    /// For each bubble, the angle of its sway.
    pub wobble: Vec<i128>,
    /// For each ray, the angle of its brightness.
    pub alpha: Vec<i128>,
    /// The angle along which every ray runs.
    pub direction: i32,
}

/// What the host computed from a [`BubbleAngles`], entry for entry.
#[derive(Debug, PartialEq, Eq)]
pub struct BubbleSines {
    /// For each bubble, the sine of the angle of its sway.
    pub wobble: Vec<i32>,
    /// For each ray, the sine of the angle of its brightness.
    pub alpha: Vec<i32>,
    /// Cosine and sine of the angle along which every ray runs.
    pub direction: Rotation,
}

/// The colour behind the bubbles: a pale blue.
pub open spec fn background_color() -> Color {
    Color::opaque(0, 0, SCALE as int).mixed(PASTEL as int)
}

impl BubbleArt {
    /// The value of a parameter; a switch counts 1 when it is on and 0 when
    /// it is off.
    pub open spec fn spec_value(&self, field: BubbleField) -> int {
        match field {
            BubbleField::Bubbles => if self.bubbles.render { 1 } else { 0 },
            BubbleField::Rays => if self.rays.render { 1 } else { 0 },
            BubbleField::Thickness => self.bubbles.thickness as int,
            BubbleField::OuterRadiusMin => self.bubbles.outer_radius_min as int,
            BubbleField::OuterRadiusMax => self.bubbles.outer_radius_max as int,
            BubbleField::InnerRadiusMin => self.bubbles.inner_radius_min as int,
            BubbleField::InnerRadiusMax => self.bubbles.inner_radius_max as int,
            BubbleField::ShineStart => self.bubbles.shine_start as int,
            BubbleField::ShineEnd => self.bubbles.shine_end as int,
            BubbleField::ShineThickness => self.bubbles.shine_thickness as int,
            BubbleField::WobbleSize => self.bubbles.wobble_size as int,
            BubbleField::WobbleFrequency => self.bubbles.wobble_frequency as int,
            BubbleField::Starting => self.bubbles.starting as int,
            BubbleField::StartingRange => self.bubbles.starting_range as int,
            BubbleField::Cycle => self.bubbles.cycle as int,
            BubbleField::RayAngle => self.rays.angle as int,
            BubbleField::RayMinLength => self.rays.min_length as int,
            BubbleField::RayMaxLength => self.rays.max_length as int,
            BubbleField::RayThickness => self.rays.thickness as int,
            BubbleField::RayAlpha => self.rays.alpha as int,
            BubbleField::RaySpeed => self.rays.speed as int,
        }
    }

    /// The least value that a parameter may have as things stand: its
    /// lowest, or the value of the parameter below which it may not fall,
    /// as far as that lies within this parameter's own bounds.
    pub open spec fn spec_min(&self, field: BubbleField) -> int {
        match field.floor() {
            Some(other) => clamp(self.spec_value(other), field.lowest(), field.highest()),
            None => field.lowest(),
        }
    }

    /// The greatest value that a parameter may have as things stand: its
    /// highest, or the value of the parameter that it may not exceed, as far
    /// as that lies within this parameter's own bounds.
    pub open spec fn spec_max(&self, field: BubbleField) -> int {
        match field.ceiling() {
            Some(other) => clamp(self.spec_value(other), field.lowest(), field.highest()),
            None => field.highest(),
        }
    }

    /// Whether a parameter lies within its range as things stand.
    pub open spec fn in_range(&self, field: BubbleField) -> bool {
        self.spec_min(field) <= self.spec_value(field) <= self.spec_max(field)
    }

    /// Whether every parameter lies within its range. Then the cycle is
    /// longer than nothing, and no stretch has its ends the wrong way round.
    pub open spec fn valid(&self) -> bool {
        forall|field: BubbleField| self.in_range(field)
    }

    /// The scene with one parameter set to `value` and every other
    /// parameter, bubble and ray as it is. A switch is on for every value
    /// but 0.
    pub open spec fn with_value(self, field: BubbleField, value: i32) -> BubbleArt {
        match field {
            BubbleField::Bubbles => BubbleArt {
                bubbles: Bubbles { render: value != 0, ..self.bubbles },
                ..self
            },
            BubbleField::Rays => BubbleArt {
                rays: Rays { render: value != 0, ..self.rays },
                ..self
            },
            BubbleField::Thickness => BubbleArt {
                bubbles: Bubbles { thickness: value, ..self.bubbles },
                ..self
            },
            BubbleField::OuterRadiusMin => BubbleArt {
                bubbles: Bubbles { outer_radius_min: value, ..self.bubbles },
                ..self
            },
            BubbleField::OuterRadiusMax => BubbleArt {
                bubbles: Bubbles { outer_radius_max: value, ..self.bubbles },
                ..self
            },
            BubbleField::InnerRadiusMin => BubbleArt {
                bubbles: Bubbles { inner_radius_min: value, ..self.bubbles },
                ..self
            },
            BubbleField::InnerRadiusMax => BubbleArt {
                bubbles: Bubbles { inner_radius_max: value, ..self.bubbles },
                ..self
            },
            BubbleField::ShineStart => BubbleArt {
                bubbles: Bubbles { shine_start: value, ..self.bubbles },
                ..self
            },
            BubbleField::ShineEnd => BubbleArt {
                bubbles: Bubbles { shine_end: value, ..self.bubbles },
                ..self
            },
            BubbleField::ShineThickness => BubbleArt {
                bubbles: Bubbles { shine_thickness: value, ..self.bubbles },
                ..self
            },
            BubbleField::WobbleSize => BubbleArt {
                bubbles: Bubbles { wobble_size: value, ..self.bubbles },
                ..self
            },
            BubbleField::WobbleFrequency => BubbleArt {
                bubbles: Bubbles { wobble_frequency: value, ..self.bubbles },
                ..self
            },
            BubbleField::Starting => BubbleArt {
                bubbles: Bubbles { starting: value, ..self.bubbles },
                ..self
            },
            BubbleField::StartingRange => BubbleArt {
                bubbles: Bubbles { starting_range: value, ..self.bubbles },
                ..self
            },
            BubbleField::Cycle => BubbleArt {
                bubbles: Bubbles { cycle: value, ..self.bubbles },
                ..self
            },
            BubbleField::RayAngle => BubbleArt { rays: Rays { angle: value, ..self.rays }, ..self },
            BubbleField::RayMinLength => BubbleArt {
                rays: Rays { min_length: value, ..self.rays },
                ..self
            },
            BubbleField::RayMaxLength => BubbleArt {
                rays: Rays { max_length: value, ..self.rays },
                ..self
            },
            BubbleField::RayThickness => BubbleArt {
                rays: Rays { thickness: value, ..self.rays },
                ..self
            },
            BubbleField::RayAlpha => BubbleArt { rays: Rays { alpha: value, ..self.rays }, ..self },
            BubbleField::RaySpeed => BubbleArt { rays: Rays { speed: value, ..self.rays }, ..self },
        }
    }

    /// The row of the panel for a parameter.
    pub open spec fn spec_control(&self, field: BubbleField) -> Control<BubbleField> {
        if field.is_switch() {
            Control::Checkbox {
                label: field.spec_label(),
                field,
                checked: self.spec_value(field) != 0,
            }
        } else {
            Control::Slider {
                label: field.spec_label(),
                field,
                value: self.spec_value(field) as i32,
                min: self.spec_min(field) as i32,
                max: self.spec_max(field) as i32,
                step: field.spec_step() as i32,
            }
        }
    }

    /// The panel of the scene: every parameter on a row of its own, under
    /// the titles of the groups.
    pub open spec fn spec_panel(&self) -> Seq<Control<BubbleField>> {
        seq![
            Control::Heading { text: "Steps" },
            self.spec_control(BubbleField::Bubbles),
            self.spec_control(BubbleField::Rays),
            Control::Heading { text: "Thickness" },
            self.spec_control(BubbleField::Thickness),
            Control::Heading { text: "Radius" },
            self.spec_control(BubbleField::OuterRadiusMin),
            self.spec_control(BubbleField::OuterRadiusMax),
            self.spec_control(BubbleField::InnerRadiusMin),
            self.spec_control(BubbleField::InnerRadiusMax),
            Control::Heading { text: "Shine" },
            self.spec_control(BubbleField::ShineStart),
            self.spec_control(BubbleField::ShineEnd),
            self.spec_control(BubbleField::ShineThickness),
            Control::Heading { text: "Wobble" },
            self.spec_control(BubbleField::WobbleSize),
            self.spec_control(BubbleField::WobbleFrequency),
            Control::Heading { text: "Positioning" },
            self.spec_control(BubbleField::Starting),
            self.spec_control(BubbleField::StartingRange),
            Control::Heading { text: "Cycle" },
            self.spec_control(BubbleField::Cycle),
            Control::Heading { text: "Rays" },
            self.spec_control(BubbleField::RayAngle),
            self.spec_control(BubbleField::RayMinLength),
            self.spec_control(BubbleField::RayMaxLength),
            self.spec_control(BubbleField::RayThickness),
            self.spec_control(BubbleField::RayAlpha),
            self.spec_control(BubbleField::RaySpeed),
        ]
    }

    /// The shapes of a frame at the time `seconds`: the background over the
    /// whole window, then the bubbles, then the rays, each of the two only
    /// while its switch is on. `wobble` and `alpha` hold the sines for the
    /// bubbles and for the rays, `direction` the cosine and sine of the
    /// angle of the rays.
    pub open spec fn spec_draw(
        &self,
        seconds: u64,
        window: Point,
        wobble: Seq<i32>,
        alpha: Seq<i32>,
        direction: Rotation,
    ) -> Seq<DrawCommand> {
        let backdrop = DrawCommand::FilledRect { size: window, color: background_color() };
        let bubbles = if self.bubbles.render {
            self.bubbles.spec_draw(seconds, wobble)
        } else {
            Seq::empty()
        };
        let rays = if self.rays.render {
            self.rays.spec_draw(alpha, direction)
        } else {
            Seq::empty()
        };
        seq![backdrop] + bubbles + rays
    }

    /// Whether `angles` are the angles that a frame at the time `seconds`
    /// needs the sines of: for each bubble that of its sway, for each ray
    /// that of its brightness, each list only while the scene is on and the
    /// switch of its part is on, and the angle of the rays.
    pub open spec fn asks_for(
        &self,
        program_state: ProgramState,
        seconds: u64,
        angles: &BubbleAngles,
    ) -> bool {
        &&& angles.direction == self.rays.angle
        &&& angles.wobble@.len() == if program_state.runs(ProgramState::Bubbles)
            && self.bubbles.render {
            self.bubbles.bubbles@.len()
        } else {
            0
        }
        &&& forall|i: int|
            0 <= i < angles.wobble@.len() ==> angles.wobble@[i] == (
            #[trigger] self.bubbles.bubbles@[i]).spec_wobble_angle(seconds, &self.bubbles)
        &&& angles.alpha@.len() == if program_state.runs(ProgramState::Bubbles)
            && self.rays.render {
            self.rays.rays@.len()
        } else {
            0
        }
        &&& forall|i: int|
            0 <= i < angles.alpha@.len() ==> angles.alpha@[i] == (
            #[trigger] self.rays.rays@[i]).spec_alpha_angle(seconds, &self.rays)
    }

    /// Reads a parameter; see [`BubbleArt::spec_value`].
    pub fn value(&self, field: BubbleField) -> (r: i32)
        ensures
            r == self.spec_value(field),
    {
        match field {
            BubbleField::Bubbles => if self.bubbles.render { 1 } else { 0 },
            BubbleField::Rays => if self.rays.render { 1 } else { 0 },
            BubbleField::Thickness => self.bubbles.thickness,
            BubbleField::OuterRadiusMin => self.bubbles.outer_radius_min,
            BubbleField::OuterRadiusMax => self.bubbles.outer_radius_max,
            BubbleField::InnerRadiusMin => self.bubbles.inner_radius_min,
            BubbleField::InnerRadiusMax => self.bubbles.inner_radius_max,
            BubbleField::ShineStart => self.bubbles.shine_start,
            BubbleField::ShineEnd => self.bubbles.shine_end,
            BubbleField::ShineThickness => self.bubbles.shine_thickness,
            BubbleField::WobbleSize => self.bubbles.wobble_size,
            BubbleField::WobbleFrequency => self.bubbles.wobble_frequency,
            BubbleField::Starting => self.bubbles.starting,
            BubbleField::StartingRange => self.bubbles.starting_range,
            BubbleField::Cycle => self.bubbles.cycle,
            BubbleField::RayAngle => self.rays.angle,
            BubbleField::RayMinLength => self.rays.min_length,
            BubbleField::RayMaxLength => self.rays.max_length,
            BubbleField::RayThickness => self.rays.thickness,
            BubbleField::RayAlpha => self.rays.alpha,
            BubbleField::RaySpeed => self.rays.speed,
        }
    }

    /// Tells the range of a parameter as things stand; see
    /// [`BubbleArt::spec_min`] and [`BubbleArt::spec_max`]. The range is
    /// never empty.
    pub fn range(&self, field: BubbleField) -> (r: (i32, i32))
        ensures
            r.0 == self.spec_min(field),
            r.1 == self.spec_max(field),
            r.0 <= r.1,
    {
        let (lowest, highest): (i32, i32) = match field {
            BubbleField::Bubbles | BubbleField::Rays => (0, 1),
            BubbleField::Thickness | BubbleField::ShineThickness => (10_000, 100_000),
            BubbleField::OuterRadiusMin
            | BubbleField::OuterRadiusMax
            | BubbleField::InnerRadiusMin
            | BubbleField::InnerRadiusMax => (200_000, 2_000_000),
            BubbleField::ShineStart | BubbleField::ShineEnd | BubbleField::RayAngle => (0, TAU),
            BubbleField::WobbleSize => (0, 4_000_000),
            BubbleField::WobbleFrequency => (0, 20_000_000),
            BubbleField::Starting => (0, 10_000_000),
            BubbleField::StartingRange => (0, 5_000_000),
            BubbleField::Cycle => (100_000, 60_000_000),
            BubbleField::RayMinLength | BubbleField::RaySpeed => (0, 10_000_000),
            BubbleField::RayMaxLength => (100_000, 10_000_000),
            BubbleField::RayThickness | BubbleField::RayAlpha => (0, 1_000_000),
        };
        match field {
            BubbleField::OuterRadiusMin => (
                lowest,
                clamped(self.bubbles.outer_radius_max, lowest, highest),
            ),
            BubbleField::OuterRadiusMax => (
                clamped(self.bubbles.outer_radius_min, lowest, highest),
                highest,
            ),
            BubbleField::InnerRadiusMin => (
                lowest,
                clamped(self.bubbles.inner_radius_max, lowest, highest),
            ),
            BubbleField::InnerRadiusMax => (
                clamped(self.bubbles.inner_radius_min, lowest, highest),
                highest,
            ),
            BubbleField::RayMinLength => (lowest, clamped(self.rays.max_length, lowest, highest)),
            BubbleField::RayMaxLength => (clamped(self.rays.min_length, lowest, highest), highest),
            _ => (lowest, highest),
        }
    }

    /// Sets a parameter to `value`, or to the end of its range that is
    /// nearest to `value` where `value` lies outside. Everything else stays
    /// as it is. A scene whose parameters were all within their ranges
    /// still has them so.
    pub fn set(&mut self, field: BubbleField, value: i32)
        ensures
            *final(self) == old(self).with_value(
                field,
                clamp(value as int, old(self).spec_min(field), old(self).spec_max(field)) as i32,
            ),
            final(self).in_range(field),
            old(self).valid() ==> final(self).valid(),
    {
        let (min, max) = self.range(field);
        let value: i32 = clamped(value, min, max);
        match field {
            BubbleField::Bubbles => {
                self.bubbles.render = value != 0;
            },
            BubbleField::Rays => {
                self.rays.render = value != 0;
            },
            BubbleField::Thickness => {
                self.bubbles.thickness = value;
            },
            BubbleField::OuterRadiusMin => {
                self.bubbles.outer_radius_min = value;
            },
            BubbleField::OuterRadiusMax => {
                self.bubbles.outer_radius_max = value;
            },
            BubbleField::InnerRadiusMin => {
                self.bubbles.inner_radius_min = value;
            },
            BubbleField::InnerRadiusMax => {
                self.bubbles.inner_radius_max = value;
            },
            BubbleField::ShineStart => {
                self.bubbles.shine_start = value;
            },
            BubbleField::ShineEnd => {
                self.bubbles.shine_end = value;
            },
            BubbleField::ShineThickness => {
                self.bubbles.shine_thickness = value;
            },
            BubbleField::WobbleSize => {
                self.bubbles.wobble_size = value;
            },
            BubbleField::WobbleFrequency => {
                self.bubbles.wobble_frequency = value;
            },
            BubbleField::Starting => {
                self.bubbles.starting = value;
            },
            BubbleField::StartingRange => {
                self.bubbles.starting_range = value;
            },
            BubbleField::Cycle => {
                self.bubbles.cycle = value;
            },
            BubbleField::RayAngle => {
                self.rays.angle = value;
            },
            BubbleField::RayMinLength => {
                self.rays.min_length = value;
            },
            BubbleField::RayMaxLength => {
                self.rays.max_length = value;
            },
            BubbleField::RayThickness => {
                self.rays.thickness = value;
            },
            BubbleField::RayAlpha => {
                self.rays.alpha = value;
            },
            BubbleField::RaySpeed => {
                self.rays.speed = value;
            },
        }
        proof {
            old(self).lemma_set_keeps_ranges(field, value);
        }
    }

    /// Builds the row of the panel for a parameter; see
    /// [`BubbleArt::spec_control`].
    pub fn control(&self, field: BubbleField) -> (row: Control<BubbleField>)
        ensures
            row == self.spec_control(field),
    {
        match field {
            BubbleField::Bubbles | BubbleField::Rays => Control::Checkbox {
                label: field.label(),
                field,
                checked: self.value(field) != 0,
            },
            _ => {
                let (min, max) = self.range(field);
                let step: i32 = match field {
                    BubbleField::RayMinLength | BubbleField::RayMaxLength => 100_000,
                    _ => 0,
                };
                Control::Slider {
                    label: field.label(),
                    field,
                    value: self.value(field),
                    min,
                    max,
                    step,
                }
            },
        }
    }

    /// Looks for a parameter outside its range. The check passes exactly
    /// when the scene is valid. Where it fails, the error holds the first
    /// parameter, in the order of the panel, that lies outside its range,
    /// with its value and that range.
    pub fn validate(&self) -> (r: Result<(), ConfigError<BubbleField>>)
        ensures
            r is Ok <==> self.valid(),
            r is Err ==> {
                let error = r->Err_0;
                &&& !self.in_range(error.field)
                &&& forall|earlier: BubbleField|
                    earlier.position() < error.field.position() ==> self.in_range(earlier)
                &&& error.value == self.spec_value(error.field)
                &&& error.min == self.spec_min(error.field)
                &&& error.max == self.spec_max(error.field)
            },
    {
        let fields = BubbleField::fields();
        let mut i: usize = 0;
        while i < fields.len()
            invariant
                i <= fields@.len(),
                fields@ == BubbleField::all(),
                forall|k: int| 0 <= k < i ==> self.in_range(#[trigger] fields@[k]),
            decreases fields@.len() - i,
        {
            let field = fields[i];
            let value = self.value(field);
            let (min, max) = self.range(field);
            if value < min || value > max {
                proof {
                    assert(!self.in_range(field));
                    field.lemma_all_complete();
                    assert forall|earlier: BubbleField|
                        earlier.position() < field.position() implies self.in_range(earlier) by {
                        earlier.lemma_all_complete();
                        assert(self.in_range(fields@[earlier.position()]));
                    }
                }
                return Err(ConfigError { field, value, min, max });
            }
            i += 1;
        }
        proof {
            assert forall|field: BubbleField| self.in_range(field) by {
                field.lemma_all_complete();
                assert(self.in_range(fields@[field.position()]));
            }
        }
        Ok(())
    }

    /// The panel of the scene for this frame: its rows while the panel is
    /// open and the scene is on, and nothing otherwise. See
    /// [`BubbleArt::spec_panel`].
    pub fn params_ui(&self, ui_state: &UIState, program_state: ProgramState) -> (panel: Vec<
        Control<BubbleField>,
    >)
        ensures
            panel@ == if ui_state.params_panel && program_state.runs(ProgramState::Bubbles) {
                self.spec_panel()
            } else {
                Seq::empty()
            },
    {
        let mut panel: Vec<Control<BubbleField>> = Vec::new();
        if !ui_state.params_panel || !program_state.in_state(ProgramState::Bubbles) {
            return panel;
        }
        panel.push(Control::Heading { text: "Steps" });
        panel.push(self.control(BubbleField::Bubbles));
        panel.push(self.control(BubbleField::Rays));
        panel.push(Control::Heading { text: "Thickness" });
        panel.push(self.control(BubbleField::Thickness));
        panel.push(Control::Heading { text: "Radius" });
        panel.push(self.control(BubbleField::OuterRadiusMin));
        panel.push(self.control(BubbleField::OuterRadiusMax));
        panel.push(self.control(BubbleField::InnerRadiusMin));
        panel.push(self.control(BubbleField::InnerRadiusMax));
        panel.push(Control::Heading { text: "Shine" });
        panel.push(self.control(BubbleField::ShineStart));
        panel.push(self.control(BubbleField::ShineEnd));
        panel.push(self.control(BubbleField::ShineThickness));
        panel.push(Control::Heading { text: "Wobble" });
        panel.push(self.control(BubbleField::WobbleSize));
        panel.push(self.control(BubbleField::WobbleFrequency));
        panel.push(Control::Heading { text: "Positioning" });
        panel.push(self.control(BubbleField::Starting));
        panel.push(self.control(BubbleField::StartingRange));
        panel.push(Control::Heading { text: "Cycle" });
        panel.push(self.control(BubbleField::Cycle));
        panel.push(Control::Heading { text: "Rays" });
        panel.push(self.control(BubbleField::RayAngle));
        panel.push(self.control(BubbleField::RayMinLength));
        panel.push(self.control(BubbleField::RayMaxLength));
        panel.push(self.control(BubbleField::RayThickness));
        panel.push(self.control(BubbleField::RayAlpha));
        panel.push(self.control(BubbleField::RaySpeed));
        proof {
            assert(panel@ =~= self.spec_panel());
        }
        panel
    }

    /// The angles that a frame at the time `seconds` needs the sines of:
    /// those of the bubbles and of the rays, each only while its switch is
    /// on, and none at all while another state is on.
    pub fn angles(&self, program_state: ProgramState, seconds: u64) -> (angles: BubbleAngles)
        ensures
            self.asks_for(program_state, seconds, &angles),
    {
        let active = program_state.in_state(ProgramState::Bubbles);
        let wobble: Vec<i128> = if active && self.bubbles.render {
            self.bubbles.wobble_angles(seconds)
        } else {
            Vec::new()
        };
        let alpha: Vec<i128> = if active && self.rays.render {
            self.rays.alpha_angles(seconds)
        } else {
            Vec::new()
        };
        BubbleAngles { wobble, alpha, direction: self.rays.angle }
    }

    /// The shapes of a frame, in the order in which they are to be painted;
    /// see [`BubbleArt::spec_draw`]. While another state is on there are
    /// none, and nothing is computed. `sines` holds what the host computed
    /// from [`BubbleArt::angles`]. The result depends on the arguments alone:
    /// the same time, scene and sines give the same shapes.
    pub fn draw(
        &self,
        program_state: ProgramState,
        seconds: u64,
        window: Point,
        sines: &BubbleSines,
    ) -> (painter: Vec<DrawCommand>)
        ensures
            painter@ == if program_state.runs(ProgramState::Bubbles) {
                self.spec_draw(seconds, window, sines.wobble@, sines.alpha@, sines.direction)
            } else {
                Seq::empty()
            },
    {
        let mut painter: Vec<DrawCommand> = Vec::new();
        if !program_state.in_state(ProgramState::Bubbles) {
            return painter;
        }
        painter.push(DrawCommand::FilledRect { size: window, color: Color::blue().pastel() });
        if self.bubbles.render {
            self.bubbles.draw(&mut painter, seconds, &sines.wobble);
        }
        if self.rays.render {
            self.rays.draw(&mut painter, &sines.alpha, sines.direction);
        }
        proof {
            assert(painter@ =~= self.spec_draw(
                seconds,
                window,
                sines.wobble@,
                sines.alpha@,
                sines.direction,
            ));
        }
        painter
    }

    /// Setting one parameter leaves the value of every other as it was.
    pub proof fn lemma_set_leaves_others(self, field: BubbleField, value: i32, other: BubbleField)
        ensures
            other != field ==> self.with_value(field, value).spec_value(other) == self.spec_value(
                other,
            ),
            !field.is_switch() ==> self.with_value(field, value).spec_value(field) == value,
            field.is_switch() ==> self.with_value(field, value).spec_value(field) == (if value
                != 0 {
                1int
            } else {
                0int
            }),
    {
    }

    /// A parameter that is set to a value of its range lies within its range
    /// afterwards, and a scene whose parameters were all within their ranges
    /// still has them so.
    pub proof fn lemma_set_keeps_ranges(self, field: BubbleField, value: i32)
        requires
            self.spec_min(field) <= value <= self.spec_max(field),
        ensures
            self.with_value(field, value).in_range(field),
            self.valid() ==> self.with_value(field, value).valid(),
    {
        let after = self.with_value(field, value);
        self.lemma_set_leaves_others(field, value, field);
        if let Some(above) = field.ceiling() {
            self.lemma_set_leaves_others(field, value, above);
        }
        if let Some(below) = field.floor() {
            self.lemma_set_leaves_others(field, value, below);
        }
        assert(after.in_range(field));
        if self.valid() {
            assert forall|other: BubbleField| after.in_range(other) by {
                assert(self.in_range(other));
                assert(self.in_range(field));
                self.lemma_set_leaves_others(field, value, other);
                if let Some(above) = other.ceiling() {
                    assert(self.in_range(above));
                    self.lemma_set_leaves_others(field, value, above);
                }
                if let Some(below) = other.floor() {
                    assert(self.in_range(below));
                    self.lemma_set_leaves_others(field, value, below);
                }
            }
        }
    }
}

impl Default for BubbleArt {
    /// The scene as it starts: 50 bubbles and 60 rays, freshly drawn, under
    /// the parameters that a scene starts with, all within their ranges.
    fn default() -> (art: BubbleArt)
        ensures
            art.bubbles.bubbles@.len() == 50,
            art.bubbles.starts_default(),
            art.bubbles.placed(),
            art.rays.rays@.len() == 60,
            art.rays.starts_default(),
            art.rays.bounded(),
            exists|draws: Seq<RayDraws>| art.rays.lined_up(draws),
            art.valid(),
    {
        BubbleArt { bubbles: Bubbles::default(), rays: Rays::default() }
    }
}

} // verus!
