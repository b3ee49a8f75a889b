//! The scene of rising bubbles under slanting rays of light.
use crate::common::{random_below, Color, Modifier, PASTEL_VERY};
use crate::draw::{DrawCommand, Point};
use crate::fixed::{
    clamp, clamped, lemma_lerp_boundary, lemma_phase_wraps, lemma_product_bounds, lerp, lerp_spec,
    local_phase, phase, pick_sine, scaled, scaled_mul, sine_at, SCALE,
};
use vstd::prelude::*;

verus! {

/// Width of the strip over which bubbles are spread, centred on 0.
pub const BUBBLE_WIDTH: i32 = 20_000_000;

/// Width of the band of bubble sizes, centred on 1.
pub const BUBBLE_SCALE_RANGE: i32 = 400_000;

/// How many bubbles a scene starts with.
pub const BUBBLE_COUNT: usize = 50;

/// The bubbles of the scene, and the parameters that shape how they rise.
/// The parameters are open to be read and written between frames; the
/// bubbles are made once and then only read.
#[derive(Debug, PartialEq, Eq)]
pub struct Bubbles {
    /// The bubbles, in the order in which they are painted.
    pub bubbles: Vec<Bubble>,
    /// Whether the bubbles are painted at all.
    pub render: bool,
    /// Thickness of a bubble's outline.
    pub thickness: i32,
    /// Angle at which the highlight on a bubble begins.
    pub shine_start: i32,
    /// Angle at which the highlight on a bubble ends.
    pub shine_end: i32,
    /// Thickness of the highlight.
    pub shine_thickness: i32,
    /// Radius of the outline at the start of a cycle.
    pub outer_radius_min: i32,
    /// Radius of the outline at the end of a cycle.
    pub outer_radius_max: i32,
    /// Radius of the highlight at the start of a cycle.
    pub inner_radius_min: i32,
    /// Radius of the highlight at the end of a cycle.
    pub inner_radius_max: i32,
    /// How far on in its sway, in angle, a bubble with a sway offset of one
    /// would start.
    pub wobble_frequency: i32,
    /// How far a bubble sways to either side.
    pub wobble_size: i32,
    /// Distance from the middle at which every bubble's path starts and ends.
    pub starting: i32,
    /// Distance added to `starting` for a bubble of size one.
    pub starting_range: i32,
    /// Length of one cycle, in microseconds.
    pub cycle: i32,
}

/// One bubble: what was drawn for it when the field was made, and never
/// again.
#[derive(Clone, Copy, Debug, PartialEq, Eq)]
pub struct Bubble {
    x: i32,
    spawn_offset: u32,
    wobble_offset: u32,
    scale: i32,
}

/// Four random fractions, one for each attribute of a bubble.
#[derive(Clone, Copy, Debug, PartialEq, Eq)]
pub struct BubbleDraws {
    pub x: u32,
    pub spawn_offset: u32,
    pub wobble_offset: u32,
    pub scale: u32,
}

/// The colour of every bubble: a very pale blue.
pub open spec fn bubble_color() -> Color {
    Color::opaque(0, 0, SCALE as int).mixed(PASTEL_VERY as int)
}

impl BubbleDraws {
    /// Whether every draw is a fraction below one.
    pub open spec fn fractions(self) -> bool {
        &&& self.x < SCALE
        &&& self.spawn_offset < SCALE
        &&& self.wobble_offset < SCALE
        &&& self.scale < SCALE
    }
}

impl Bubble {
    #[verifier::type_invariant]
    spec fn well_formed(self) -> bool {
        &&& self.spawn_offset < SCALE
        &&& self.wobble_offset < SCALE
    }

    /// Where the bubble floats, left to right.
    pub closed spec fn spec_x(self) -> i32 {
        self.x
    }

    /// Where in the cycle the bubble starts, as a fraction of the cycle.
    pub closed spec fn spec_spawn_offset(self) -> u32 {
        self.spawn_offset
    }

    /// Where in its sway the bubble starts.
    pub closed spec fn spec_wobble_offset(self) -> u32 {
        self.wobble_offset
    }

    /// The bubble's size, as a factor.
    pub closed spec fn spec_scale(self) -> i32 {
        self.scale
    }

    /// Whether the offsets are fractions below one, as they are in every
    /// bubble that exists.
    pub open spec fn offsets_wrap(self) -> bool {
        &&& self.spec_spawn_offset() < SCALE
        &&& self.spec_wobble_offset() < SCALE
    }

    /// The bubble that the draws `draws` stand for: spread over the strip,
    /// with the drawn offsets, and sized within the band of sizes.
    pub open spec fn drawn(self, draws: BubbleDraws) -> bool {
        &&& self.spec_x() == scaled(draws.x as int, BUBBLE_WIDTH as int) - BUBBLE_WIDTH / 2
        &&& self.spec_spawn_offset() == draws.spawn_offset
        &&& self.spec_wobble_offset() == draws.wobble_offset
        &&& self.spec_scale() == scaled(draws.scale as int, BUBBLE_SCALE_RANGE as int) + (SCALE
            - BUBBLE_SCALE_RANGE / 2)
    }

    /// Whether the bubble lies on the strip and its size within the band.
    pub open spec fn placed(self) -> bool {
        &&& -(BUBBLE_WIDTH / 2) <= self.spec_x() < BUBBLE_WIDTH / 2
        &&& SCALE - BUBBLE_SCALE_RANGE / 2 <= self.spec_scale() < SCALE + BUBBLE_SCALE_RANGE / 2
        &&& self.offsets_wrap()
    }

    /// A bubble with the given attributes. An offset that is not below one
    /// is refused.
    pub fn new(x: i32, spawn_offset: u32, wobble_offset: u32, scale: i32) -> (r: Option<Bubble>)
        ensures
            r is Some <==> spawn_offset < SCALE && wobble_offset < SCALE,
            r is Some ==> {
                let bubble = r->Some_0;
                &&& bubble.spec_x() == x
                &&& bubble.spec_spawn_offset() == spawn_offset
                &&& bubble.spec_wobble_offset() == wobble_offset
                &&& bubble.spec_scale() == scale
            },
    {
        if spawn_offset < SCALE && wobble_offset < SCALE {
            Some(Bubble { x, spawn_offset, wobble_offset, scale })
        } else {
            None
        }
    }

    /// The bubble that four random fractions stand for. A draw that is not
    /// below one is refused.
    pub fn from_draws(draws: BubbleDraws) -> (r: Option<Bubble>)
        ensures
            r is Some <==> draws.fractions(),
            r is Some ==> r->Some_0.drawn(draws) && r->Some_0.placed(),
    {
        if draws.x < SCALE && draws.spawn_offset < SCALE && draws.wobble_offset < SCALE
            && draws.scale < SCALE {
            let width: i64 = BUBBLE_WIDTH as i64;
            let range: i64 = BUBBLE_SCALE_RANGE as i64;
            let one: i64 = SCALE as i64;
            let x: i64 = (draws.x as i64) * width / one - width / 2;
            let scale: i64 = (draws.scale as i64) * range / one + (one - range / 2);
            Some(
                Bubble {
                    x: x as i32,
                    spawn_offset: draws.spawn_offset,
                    wobble_offset: draws.wobble_offset,
                    scale: scale as i32,
                },
            )
        } else {
            None
        }
    }

    /// Local phase of the bubble at the time `seconds`: where it is in its
    /// cycle, as a fraction in `[0, 1)`.
    pub open spec fn spec_t(self, seconds: u64, params: &Bubbles) -> int {
        local_phase(seconds as int, params.cycle as int, self.spec_spawn_offset() as int)
    }

    /// The angle whose sine sways the bubble at the time `seconds`.
    pub open spec fn spec_wobble_angle(self, seconds: u64, params: &Bubbles) -> int {
        seconds + scaled(self.spec_wobble_offset() as int, params.wobble_frequency as int)
    }

    /// How far from the middle the bubble's path starts and ends.
    pub open spec fn spec_reach(self, params: &Bubbles) -> int {
        params.starting + scaled(self.spec_scale() as int, params.starting_range as int)
    }

    /// Where the bubble is, left to right: its own place, swayed by the sine
    /// `wobble_sine`.
    pub open spec fn spec_pos_x(self, params: &Bubbles, wobble_sine: int) -> int {
        self.spec_x() + scaled(
            clamp(wobble_sine, -(SCALE as int), SCALE as int),
            params.wobble_size as int,
        )
    }

    /// How high the bubble is: as far along its path as it is along its
    /// cycle.
    pub open spec fn spec_pos_y(self, seconds: u64, params: &Bubbles) -> int {
        lerp_spec(-self.spec_reach(params), self.spec_reach(params), self.spec_t(seconds, params))
    }

    /// Where the bubble is at the time `seconds`.
    pub open spec fn spec_pos(self, seconds: u64, params: &Bubbles, wobble_sine: int) -> Point {
        Point {
            x: self.spec_pos_x(params, wobble_sine) as i64,
            y: self.spec_pos_y(seconds, params) as i64,
        }
    }

    /// A radius of the bubble at the phase `t`: as far between `min` and
    /// `max` as `t` is between 0 and 1, times the bubble's size.
    pub open spec fn spec_radius(self, min: int, max: int, t: int) -> int {
        scaled(lerp_spec(min, max, t), self.spec_scale() as int)
    }

    /// The shapes of the bubble at the time `seconds`: its outline, then
    /// its highlight.
    pub open spec fn spec_draw(self, seconds: u64, params: &Bubbles, wobble_sine: int) -> Seq<
        DrawCommand,
    > {
        let center = self.spec_pos(seconds, params, wobble_sine);
        let t = self.spec_t(seconds, params);
        seq![
            DrawCommand::Circle {
                center,
                radius: self.spec_radius(
                    params.outer_radius_min as int,
                    params.outer_radius_max as int,
                    t,
                ) as i64,
                hollow: true,
                thickness: params.thickness as i64,
                color: bubble_color(),
            },
            DrawCommand::Arc {
                center,
                radius: self.spec_radius(
                    params.inner_radius_min as int,
                    params.inner_radius_max as int,
                    t,
                ) as i64,
                start_angle: params.shine_start as i64,
                end_angle: params.shine_end as i64,
                thickness: params.shine_thickness as i64,
                color: bubble_color(),
            },
        ]
    }

    /// Whether every number of the bubble's shapes is the whole number that
    /// its formula gives, none cut short to fit.
    pub open spec fn fits(self, seconds: u64, params: &Bubbles, wobble_sine: int) -> bool {
        let shapes = self.spec_draw(seconds, params, wobble_sine);
        let t = self.spec_t(seconds, params);
        &&& shapes[0]->Circle_center.x == self.spec_pos_x(params, wobble_sine)
        &&& shapes[0]->Circle_center.y == self.spec_pos_y(seconds, params)
        &&& shapes[0]->Circle_radius == self.spec_radius(
            params.outer_radius_min as int,
            params.outer_radius_max as int,
            t,
        )
        &&& shapes[1]->Arc_radius == self.spec_radius(
            params.inner_radius_min as int,
            params.inner_radius_max as int,
            t,
        )
    }

    /// Computes the local phase of the bubble; see [`Bubble::spec_t`].
    pub fn t(&self, seconds: u64, params: &Bubbles) -> (t: u32)
        ensures
            t == self.spec_t(seconds, params),
            t < SCALE,
    {
        phase(seconds, params.cycle, self.spawn_offset)
    }

    /// Computes the angle whose sine the host is to hand to [`Bubble::pos`]
    /// and [`Bubble::draw`]; see [`Bubble::spec_wobble_angle`].
    pub fn wobble_angle(&self, seconds: u64, params: &Bubbles) -> (angle: i128)
        ensures
            angle == self.spec_wobble_angle(seconds, params),
    {
        proof {
            lemma_product_bounds(
                self.wobble_offset as int,
                params.wobble_frequency as int,
                0x1_0000_0000,
                0x8000_0000,
            );
        }
        (seconds as i128) + scaled_mul(self.wobble_offset as i64, params.wobble_frequency as i64)
    }

    /// Computes where the bubble is; see [`Bubble::spec_pos`]. No coordinate
    /// is cut short: each is the whole number that its formula gives.
    pub fn pos(&self, seconds: u64, params: &Bubbles, wobble_sine: i32) -> (p: Point)
        ensures
            p == self.spec_pos(seconds, params, wobble_sine as int),
            p.x == self.spec_pos_x(params, wobble_sine as int),
            p.y == self.spec_pos_y(seconds, params),
    {
        let t: u32 = self.t(seconds, params);
        let sine: i32 = clamped(wobble_sine, -1_000_000, 1_000_000);
        proof {
            lemma_product_bounds(sine as int, params.wobble_size as int, 1_000_000, 0x8000_0000);
            lemma_product_bounds(
                self.scale as int,
                params.starting_range as int,
                0x8000_0000,
                0x8000_0000,
            );
        }
        let sway: i128 = scaled_mul(sine as i64, params.wobble_size as i64);
        let x: i64 = ((self.x as i128) + sway) as i64;
        let reach: i64 = ((params.starting as i128) + scaled_mul(
            self.scale as i64,
            params.starting_range as i64,
        )) as i64;
        let y: i64 = lerp(-reach, reach, t);
        Point { x, y }
    }

    /// Computes a radius of the bubble; see [`Bubble::spec_radius`].
    pub fn radius(&self, min: i32, max: i32, t: u32) -> (r: i64)
        ensures
            r == self.spec_radius(min as int, max as int, t as int),
    {
        let between: i64 = lerp(min as i64, max as i64, t);
        proof {
            lemma_product_bounds(between as int, self.scale as int, 0x8000_0000, 0x8000_0000);
        }
        scaled_mul(between, self.scale as i64) as i64
    }

    /// Adds the shapes of the bubble to `painter`; see [`Bubble::spec_draw`].
    /// The result depends on the arguments alone.
    pub fn draw(
        &self,
        painter: &mut Vec<DrawCommand>,
        seconds: u64,
        params: &Bubbles,
        wobble_sine: i32,
    )
        ensures
            final(painter)@ == old(painter)@ + self.spec_draw(seconds, params, wobble_sine as int),
            self.fits(seconds, params, wobble_sine as int),
    {
        let center: Point = self.pos(seconds, params, wobble_sine);
        let t: u32 = self.t(seconds, params);
        let color: Color = Color::blue().pastel_very();
        let r_1: i64 = self.radius(params.outer_radius_min, params.outer_radius_max, t);
        let r_2: i64 = self.radius(params.inner_radius_min, params.inner_radius_max, t);
        painter.push(
            DrawCommand::Circle {
                center,
                radius: r_1,
                hollow: true,
                thickness: params.thickness as i64,
                color,
            },
        );
        painter.push(
            DrawCommand::Arc {
                center,
                radius: r_2,
                start_angle: params.shine_start as i64,
                end_angle: params.shine_end as i64,
                thickness: params.shine_thickness as i64,
                color,
            },
        );
        proof {
            assert(final(painter)@ =~= old(painter)@ + self.spec_draw(
                seconds,
                params,
                wobble_sine as int,
            ));
        }
    }

    pub fn x(&self) -> (r: i32)
        ensures
            r == self.spec_x(),
    {
        self.x
    }

    pub fn spawn_offset(&self) -> (r: u32)
        ensures
            r == self.spec_spawn_offset(),
            r < SCALE,
    {
        proof {
            use_type_invariant(self);
        }
        self.spawn_offset
    }

    pub fn wobble_offset(&self) -> (r: u32)
        ensures
            r == self.spec_wobble_offset(),
            r < SCALE,
    {
        proof {
            use_type_invariant(self);
        }
        self.wobble_offset
    }

    pub fn scale(&self) -> (r: i32)
        ensures
            r == self.spec_scale(),
    {
        self.scale
    }
}

impl Bubbles {
    /// Whether every parameter has the value that a scene starts with.
    pub open spec fn starts_default(&self) -> bool {
        &&& self.render
        &&& self.thickness == 10_000
        &&& self.shine_start == 523_599
        &&& self.shine_end == 1_047_198
        &&& self.shine_thickness == 10_000
        &&& self.outer_radius_min == 400_000
        &&& self.outer_radius_max == 500_000
        &&& self.inner_radius_min == 300_000
        &&& self.inner_radius_max == 400_000
        &&& self.wobble_frequency == 10_000_000
        &&& self.wobble_size == 1_500_000
        &&& self.starting == 7_000_000
        &&& self.starting_range == 5_000_000
        &&& self.cycle == 4_000_000
    }

    /// Whether the bubbles are those that `draws` stand for, one for one.
    pub open spec fn drawn(&self, draws: Seq<BubbleDraws>) -> bool {
        &&& self.bubbles@.len() == draws.len()
        &&& forall|i: int|
            0 <= i < draws.len() ==> (#[trigger] self.bubbles@[i]).drawn(draws[i])
    }

    /// Whether every bubble lies on the strip, with a size within the band
    /// and offsets below one.
    pub open spec fn placed(&self) -> bool {
        forall|i: int| 0 <= i < self.bubbles@.len() ==> (#[trigger] self.bubbles@[i]).placed()
    }

    /// The shapes of the first `count` bubbles at the time `seconds`, in the
    /// order of the bubbles.
    pub open spec fn spec_draw_first(
        &self,
        count: nat,
        seconds: u64,
        wobble_sines: Seq<i32>,
    ) -> Seq<DrawCommand>
        decreases count,
    {
        if count == 0 {
            Seq::empty()
        } else {
            let index = (count - 1) as int;
            let before = self.spec_draw_first(index as nat, seconds, wobble_sines);
            before + self.bubbles@[index].spec_draw(seconds, self, sine_at(wobble_sines, index))
        }
    }

    /// The shapes of all the bubbles at the time `seconds`.
    pub open spec fn spec_draw(&self, seconds: u64, wobble_sines: Seq<i32>) -> Seq<DrawCommand> {
        self.spec_draw_first(self.bubbles@.len(), seconds, wobble_sines)
    }

    /// The given bubbles under the parameters that a scene starts with.
    pub fn with_bubbles(bubbles: Vec<Bubble>) -> (r: Bubbles)
        ensures
            r.bubbles@ == bubbles@,
            r.starts_default(),
    {
        Bubbles {
            bubbles,
            render: true,
            thickness: 10_000,
            shine_start: 523_599,
            shine_end: 1_047_198,
            shine_thickness: 10_000,
            outer_radius_min: 400_000,
            outer_radius_max: 500_000,
            inner_radius_min: 300_000,
            inner_radius_max: 400_000,
            wobble_frequency: 10_000_000,
            wobble_size: 1_500_000,
            starting: 7_000_000,
            starting_range: 5_000_000,
            cycle: 4_000_000,
        }
    }

    /// The field of the bubbles that `draws` stand for, one bubble for each
    /// entry, under the parameters that a scene starts with. A draw that is
    /// not below one is refused.
    pub fn scatter(draws: &Vec<BubbleDraws>) -> (r: Option<Bubbles>)
        ensures
            r is Some <==> forall|i: int| 0 <= i < draws@.len() ==> draws@[i].fractions(),
            r is Some ==> {
                let field = r->Some_0;
                &&& field.starts_default()
                &&& field.drawn(draws@)
                &&& field.placed()
            },
    {
        let mut bubbles: Vec<Bubble> = Vec::new();
        let mut i: usize = 0;
        while i < draws.len()
            invariant
                i <= draws@.len(),
                bubbles@.len() == i,
                forall|k: int| 0 <= k < i ==> draws@[k].fractions(),
                forall|k: int| 0 <= k < i ==> (#[trigger] bubbles@[k]).drawn(draws@[k]),
                forall|k: int| 0 <= k < i ==> (#[trigger] bubbles@[k]).placed(),
            decreases draws@.len() - i,
        {
            match Bubble::from_draws(draws[i]) {
                Some(bubble) => {
                    bubbles.push(bubble);
                },
                None => {
                    return None;
                },
            }
            i += 1;
        }
        Some(Bubbles::with_bubbles(bubbles))
    }

    /// A field of `n` bubbles, each from four fresh random draws, under the
    /// parameters that a scene starts with. The draws are made here and
    /// nowhere else: a field is never drawn again.
    pub fn generate(n: usize) -> (field: Bubbles)
        ensures
            field.bubbles@.len() == n,
            field.starts_default(),
            field.placed(),
    {
        let mut draws: Vec<BubbleDraws> = Vec::new();
        while draws.len() < n
            invariant
                draws@.len() <= n,
                forall|k: int| 0 <= k < draws@.len() ==> draws@[k].fractions(),
            decreases n - draws@.len(),
        {
            let x: u32 = random_below(SCALE);
            let spawn_offset: u32 = random_below(SCALE);
            let wobble_offset: u32 = random_below(SCALE);
            let scale: u32 = random_below(SCALE);
            draws.push(BubbleDraws { x, spawn_offset, wobble_offset, scale });
        }
        Bubbles::scatter(&draws).unwrap()
    }

    /// For each bubble the angle whose sine sways it at the time `seconds`;
    /// see [`Bubble::spec_wobble_angle`]. The host computes the sines and
    /// hands them to [`Bubbles::draw`] in the same order.
    pub fn wobble_angles(&self, seconds: u64) -> (angles: Vec<i128>)
        ensures
            angles@.len() == self.bubbles@.len(),
            forall|i: int|
                0 <= i < angles@.len() ==> angles@[i] == (
                #[trigger] self.bubbles@[i]).spec_wobble_angle(seconds, self),
    {
        let mut angles: Vec<i128> = Vec::new();
        let mut i: usize = 0;
        while i < self.bubbles.len()
            invariant
                i <= self.bubbles@.len(),
                angles@.len() == i,
                forall|k: int|
                    0 <= k < i ==> angles@[k] == (#[trigger] self.bubbles@[k]).spec_wobble_angle(
                        seconds,
                        self,
                    ),
            decreases self.bubbles@.len() - i,
        {
            let angle: i128 = self.bubbles[i].wobble_angle(seconds, self);
            angles.push(angle);
            i += 1;
        }
        angles
    }

    /// Adds the shapes of all the bubbles to `painter`, bubble after bubble;
    /// see [`Bubbles::spec_draw`]. `wobble_sines` holds for each bubble the
    /// sine of its angle from [`Bubbles::wobble_angles`]. The result depends
    /// on the arguments alone: the same time, bubbles and parameters give the
    /// same shapes.
    pub fn draw(&self, painter: &mut Vec<DrawCommand>, seconds: u64, wobble_sines: &Vec<i32>)
        ensures
            final(painter)@ == old(painter)@ + self.spec_draw(seconds, wobble_sines@),
    {
        let mut i: usize = 0;
        while i < self.bubbles.len()
            invariant
                i <= self.bubbles@.len(),
                painter@ == old(painter)@ + self.spec_draw_first(i as nat, seconds, wobble_sines@),
            decreases self.bubbles@.len() - i,
        {
            let ghost before = painter@;
            let sine: i32 = pick_sine(wobble_sines, i);
            self.bubbles[i].draw(painter, seconds, self, sine);
            proof {
                assert(painter@ =~= old(painter)@ + self.spec_draw_first(
                    (i + 1) as nat,
                    seconds,
                    wobble_sines@,
                ));
            }
            i += 1;
        }
    }
}

/// The local phase of a bubble stays in `[0, 1)`, and it is the same again
/// after any whole number of cycles.
pub proof fn lemma_bubble_phase_wraps(
    bubble: Bubble,
    params: &Bubbles,
    seconds: u64,
    later: u64,
    cycles: nat,
)
    requires
        params.cycle > 0,
        later == seconds + cycles * params.cycle,
    ensures
        0 <= bubble.spec_t(seconds, params) < SCALE,
        bubble.spec_t(later, params) == bubble.spec_t(seconds, params),
{
    lemma_phase_wraps(
        seconds as nat,
        params.cycle as int,
        bubble.spec_spawn_offset() as nat,
        cycles,
    );
}

/// A radius of a bubble starts the cycle at the least it can be, times the
/// bubble's size. Where the least is not above the greatest, it would end
/// the cycle at the greatest, times the size; where it is, it stays at the
/// least.
pub proof fn lemma_radius_boundary(bubble: Bubble, min: int, max: int)
    ensures
        bubble.spec_radius(min, max, 0) == scaled(min, bubble.spec_scale() as int),
        min <= max ==> bubble.spec_radius(min, max, SCALE as int) == scaled(
            max,
            bubble.spec_scale() as int,
        ),
        min > max ==> bubble.spec_radius(min, max, SCALE as int) == scaled(
            min,
            bubble.spec_scale() as int,
        ),
{
    lemma_lerp_boundary(min, max);
}

impl Default for Bubbles {
    /// A field of 50 bubbles; see [`Bubbles::generate`].
    fn default() -> (field: Bubbles)
        ensures
            field.bubbles@.len() == BUBBLE_COUNT,
            field.starts_default(),
            field.placed(),
    {
        Bubbles::generate(BUBBLE_COUNT)
    }
}

} // verus!
