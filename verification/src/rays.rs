//! The rays of light that slant across the scene of bubbles.
use crate::common::{random_below, Color, Modifier, PASTEL_VERY};
use crate::draw::{DrawCommand, Point, Rotation};
use crate::fixed::{
    clamp, clamped, div_scale, lemma_product_bounds, pick_sine, scaled, scaled_mul, sine_at, SCALE,
};
use vstd::prelude::*;

verus! {

/// How many rays a scene starts with.
pub const RAY_COUNT: u16 = 60;

/// The farthest that a ray can lie from the first: a field holds at most
/// 65 535 rays, each less than one unit thick.
pub const RAY_SPAN: i64 = 65_535_000_000;

/// One ray: what was drawn for it when the field was made, and where that
/// put it among the others.
#[derive(Clone, Copy, Debug, PartialEq, Eq)]
pub struct Ray {
    x: i64,
    length: u32,
    thickness: u32,
    offset: u32,
    frequency: u32,
}

/// Four random fractions, one for each drawn attribute of a ray.
#[derive(Clone, Copy, Debug, PartialEq, Eq)]
pub struct RayDraws {
    pub thickness: u32,
    pub length: u32,
    pub offset: u32,
    pub frequency: u32,
}

/// The rays of the scene, and the parameters that shape them. The parameters
/// are open to be read and written between frames; the rays are made once
/// and then only read.
#[derive(Debug, PartialEq, Eq)]
pub struct Rays {
    /// The rays, in the order in which they are painted.
    pub rays: Vec<Ray>,
    /// Where the fan of rays starts, left to right.
    pub origin_x: i32,
    /// Where the fan of rays starts, bottom to top.
    pub origin_y: i32,
    /// Whether the rays are painted at all.
    pub render: bool,
    /// Direction of every ray.
    pub angle: i32,
    /// Length of the shortest ray there can be.
    pub min_length: i32,
    /// Length of the longest ray there can be.
    pub max_length: i32,
    /// Thickness of a ray of thickness one; also the step from ray to ray.
    pub thickness: i32,
    /// Opacity of a ray at its brightest.
    pub alpha: i32,
    /// How fast the rays brighten and fade.
    pub speed: i32,
}

/// The colour of every ray before its opacity is set: a very pale yellow.
pub open spec fn ray_color() -> Color {
    Color::opaque(SCALE as int, SCALE as int, 0).mixed(PASTEL_VERY as int)
}

/// Sum of the thicknesses of the first `count` draws: where the ray after
/// them begins.
pub open spec fn width_before(draws: Seq<RayDraws>, count: nat) -> int
    decreases count,
{
    if count == 0 {
        0
    } else {
        width_before(draws, (count - 1) as nat) + draws[count - 1].thickness
    }
}

impl RayDraws {
    /// Whether every draw is a fraction below one.
    pub open spec fn fractions(self) -> bool {
        &&& self.thickness < SCALE
        &&& self.length < SCALE
        &&& self.offset < SCALE
        &&& self.frequency < SCALE
    }
}

impl Ray {
    #[verifier::type_invariant]
    spec fn well_formed(self) -> bool {
        &&& 0 <= self.x <= RAY_SPAN
        &&& self.length < SCALE
        &&& self.thickness < SCALE
        &&& self.offset < SCALE
        &&& self.frequency < SCALE
    }

    /// Where the middle of the ray lies among the rays, before the scene's
    /// thickness stretches the row.
    pub closed spec fn spec_x(self) -> i64 {
        self.x
    }

    /// How long the ray is, as a fraction of the way from the shortest to
    /// the longest.
    pub closed spec fn spec_length(self) -> u32 {
        self.length
    }

    /// How thick the ray is, as a fraction of the scene's thickness.
    pub closed spec fn spec_thickness(self) -> u32 {
        self.thickness
    }

    /// When the ray starts to brighten, in seconds.
    pub closed spec fn spec_offset(self) -> u32 {
        self.offset
    }

    /// How fast the ray brightens and fades, as a fraction of the scene's
    /// speed.
    pub closed spec fn spec_frequency(self) -> u32 {
        self.frequency
    }

    /// What holds of every ray that exists: it lies within the span of a
    /// field, and its drawn attributes are fractions below one.
    pub open spec fn bounded(self) -> bool {
        &&& 0 <= self.spec_x() <= RAY_SPAN
        &&& self.spec_length() < SCALE
        &&& self.spec_thickness() < SCALE
        &&& self.spec_offset() < SCALE
        &&& self.spec_frequency() < SCALE
    }

    /// Whether the ray is the one that `draws` stand for, put where the rays
    /// before it end: its middle lies half its thickness after `start`.
    pub open spec fn drawn(self, start: int, draws: RayDraws) -> bool {
        &&& self.spec_x() == start + draws.thickness / 2
        &&& self.spec_length() == draws.length
        &&& self.spec_thickness() == draws.thickness
        &&& self.spec_offset() == draws.offset
        &&& self.spec_frequency() == draws.frequency
    }

    /// A ray with the given attributes. A place outside `0..=RAY_SPAN` is
    /// refused, and so is any other attribute that is not below one.
    pub fn new(x: i64, length: u32, thickness: u32, offset: u32, frequency: u32) -> (r: Option<Ray>)
        ensures
            r is Some <==> 0 <= x <= RAY_SPAN && length < SCALE && thickness < SCALE && offset
                < SCALE && frequency < SCALE,
            r is Some ==> {
                let ray = r->Some_0;
                &&& ray.spec_x() == x
                &&& ray.spec_length() == length
                &&& ray.spec_thickness() == thickness
                &&& ray.spec_offset() == offset
                &&& ray.spec_frequency() == frequency
            },
    {
        if 0 <= x && x <= RAY_SPAN && length < SCALE && thickness < SCALE && offset < SCALE
            && frequency < SCALE {
            Some(Ray { x, length, thickness, offset, frequency })
        } else {
            None
        }
    }

    /// The ray that four random fractions stand for, put after rays that end
    /// at `start`. A draw that is not below one is refused, and so is a
    /// start that is negative or leaves no room for the ray within the span.
    pub fn from_draws(start: i64, draws: RayDraws) -> (r: Option<Ray>)
        ensures
            r is Some <==> draws.fractions() && 0 <= start <= RAY_SPAN - SCALE,
            r is Some ==> r->Some_0.drawn(start as int, draws) && r->Some_0.bounded(),
    {
        if draws.thickness < SCALE && draws.length < SCALE && draws.offset < SCALE
            && draws.frequency < SCALE && 0 <= start && start <= RAY_SPAN - (SCALE as i64) {
            Some(
                Ray {
                    x: start + (draws.thickness / 2) as i64,
                    length: draws.length,
                    thickness: draws.thickness,
                    offset: draws.offset,
                    frequency: draws.frequency,
                },
            )
        } else {
            None
        }
    }

    /// The angle whose sine brightens and fades the ray at the time
    /// `seconds`: the time since the ray's own start, at the ray's share of
    /// the scene's speed.
    pub open spec fn spec_alpha_angle(self, seconds: u64, params: &Rays) -> int {
        scaled(
            scaled(self.spec_frequency() as int, seconds - self.spec_offset()),
            params.speed as int,
        )
    }

    /// How thick the ray is painted.
    pub open spec fn spec_line_thickness(self, params: &Rays) -> int {
        scaled(params.thickness as int, self.spec_thickness() as int)
    }

    /// How opaque the ray is while the sine of its angle is `alpha_sine`.
    /// Half of the time the value is negative.
    pub open spec fn spec_alpha(params: &Rays, alpha_sine: int) -> int {
        scaled(params.alpha as int, clamp(alpha_sine, -(SCALE as int), SCALE as int))
    }

    /// How long the ray is: its share of the way from the shortest to the
    /// longest.
    pub open spec fn spec_reach(self, params: &Rays) -> int {
        scaled(params.max_length - params.min_length, self.spec_length() as int)
            + params.min_length
    }

    /// Where the ray starts, left to right. The row of rays is laid out from
    /// the origin within a frame that itself sits at the origin, so the
    /// origin counts twice.
    pub open spec fn spec_start_x(self, params: &Rays) -> int {
        2 * params.origin_x + scaled(self.spec_x() as int, params.thickness as int)
    }

    /// Where the ray starts, bottom to top.
    pub open spec fn spec_start_y(params: &Rays) -> int {
        2 * params.origin_y
    }

    /// Where the ray ends, left to right: its length along the cosine of
    /// the scene's angle, held within `-1..=1`.
    pub open spec fn spec_end_x(self, params: &Rays, direction: Rotation) -> int {
        self.spec_start_x(params) + scaled(
            self.spec_reach(params),
            clamp(direction.cos as int, -(SCALE as int), SCALE as int),
        )
    }

    /// Where the ray ends, bottom to top: its length along the sine of the
    /// scene's angle, held within `-1..=1`.
    pub open spec fn spec_end_y(self, params: &Rays, direction: Rotation) -> int {
        Ray::spec_start_y(params) + scaled(
            self.spec_reach(params),
            clamp(direction.sin as int, -(SCALE as int), SCALE as int),
        )
    }

    /// The shape of the ray: one line.
    pub open spec fn spec_draw(
        self,
        params: &Rays,
        alpha_sine: int,
        direction: Rotation,
    ) -> DrawCommand {
        DrawCommand::Line {
            from: Point {
                x: self.spec_start_x(params) as i64,
                y: Ray::spec_start_y(params) as i64,
            },
            to: Point {
                x: self.spec_end_x(params, direction) as i64,
                y: self.spec_end_y(params, direction) as i64,
            },
            thickness: self.spec_line_thickness(params) as i64,
            color: Color { alpha: Ray::spec_alpha(params, alpha_sine) as i64, ..ray_color() },
        }
    }

    /// Computes the angle whose sine the host is to hand to [`Ray::draw`];
    /// see [`Ray::spec_alpha_angle`].
    pub fn alpha_angle(&self, seconds: u64, params: &Rays) -> (angle: i128)
        ensures
            angle == self.spec_alpha_angle(seconds, params),
    {
        proof {
            use_type_invariant(self);
        }
        let since: i128 = (seconds as i128) - (self.offset as i128);
        proof {
            lemma_product_bounds(
                self.frequency as int,
                since as int,
                1_000_000,
                0x1_0000_0000_0000_0000,
            );
        }
        let turns: i128 = div_scale((self.frequency as i128) * since);
        proof {
            lemma_product_bounds(
                turns as int,
                params.speed as int,
                0x1_0000_0000_0000_0000,
                0x8000_0000,
            );
        }
        div_scale(turns * (params.speed as i128))
    }

    /// Adds the shape of the ray to `painter`; see [`Ray::spec_draw`].
    /// `alpha_sine` is the sine of the angle from [`Ray::alpha_angle`], and
    /// `direction` holds the cosine and sine of the scene's angle. No number
    /// is cut short. The result depends on the arguments alone.
    pub fn draw(
        &self,
        painter: &mut Vec<DrawCommand>,
        params: &Rays,
        alpha_sine: i32,
        direction: Rotation,
    )
        ensures
            final(painter)@ == old(painter)@.push(
                self.spec_draw(params, alpha_sine as int, direction),
            ),
            self.fits(params, alpha_sine as int, direction),
    {
        proof {
            use_type_invariant(self);
        }
        let sine: i64 = clamped(alpha_sine, -1_000_000, 1_000_000) as i64;
        let cos: i64 = clamped(direction.cos, -1_000_000, 1_000_000) as i64;
        let sin: i64 = clamped(direction.sin, -1_000_000, 1_000_000) as i64;
        let span: i64 = (params.max_length as i64) - (params.min_length as i64);
        proof {
            lemma_product_bounds(
                params.thickness as int,
                self.thickness as int,
                0x8000_0000,
                1_000_000,
            );
            lemma_product_bounds(params.alpha as int, sine as int, 0x8000_0000, 1_000_000);
            lemma_product_bounds(span as int, self.length as int, 0x1_0000_0000, 1_000_000);
            lemma_product_bounds(
                self.x as int,
                params.thickness as int,
                RAY_SPAN as int,
                0x8000_0000,
            );
        }
        let thickness: i64 = scaled_mul(params.thickness as i64, self.thickness as i64) as i64;
        let alpha: i64 = scaled_mul(params.alpha as i64, sine) as i64;
        let reach: i64 = (scaled_mul(span, self.length as i64) as i64) + (params.min_length as i64);
        proof {
            lemma_product_bounds(reach as int, cos as int, 0x2_0000_0000, 1_000_000);
            lemma_product_bounds(reach as int, sin as int, 0x2_0000_0000, 1_000_000);
        }
        let start_x: i64 = 2 * (params.origin_x as i64) + (scaled_mul(
            self.x,
            params.thickness as i64,
        ) as i64);
        let start_y: i64 = 2 * (params.origin_y as i64);
        let end_x: i64 = start_x + (scaled_mul(reach, cos) as i64);
        let end_y: i64 = start_y + (scaled_mul(reach, sin) as i64);
        let color: Color = Color::yellow().pastel_very().with_alpha(alpha);
        painter.push(
            DrawCommand::Line {
                from: Point { x: start_x, y: start_y },
                to: Point { x: end_x, y: end_y },
                thickness,
                color,
            },
        );
    }

    /// Whether every number of the ray's shape is the whole number that its
    /// formula gives, none cut short to fit.
    pub open spec fn fits(self, params: &Rays, alpha_sine: int, direction: Rotation) -> bool {
        let line = self.spec_draw(params, alpha_sine, direction);
        &&& line->Line_from.x == self.spec_start_x(params)
        &&& line->Line_from.y == Ray::spec_start_y(params)
        &&& line->Line_to.x == self.spec_end_x(params, direction)
        &&& line->Line_to.y == self.spec_end_y(params, direction)
        &&& line->Line_thickness == self.spec_line_thickness(params)
        &&& line->Line_color.alpha == Ray::spec_alpha(params, alpha_sine)
    }

    pub fn x(&self) -> (r: i64)
        ensures
            r == self.spec_x(),
            0 <= r <= RAY_SPAN,
    {
        proof {
            use_type_invariant(self);
        }
        self.x
    }

    pub fn length(&self) -> (r: u32)
        ensures
            r == self.spec_length(),
            r < SCALE,
    {
        proof {
            use_type_invariant(self);
        }
        self.length
    }

    pub fn thickness(&self) -> (r: u32)
        ensures
            r == self.spec_thickness(),
            r < SCALE,
    {
        proof {
            use_type_invariant(self);
        }
        self.thickness
    }

    pub fn offset(&self) -> (r: u32)
        ensures
            r == self.spec_offset(),
            r < SCALE,
    {
        proof {
            use_type_invariant(self);
        }
        self.offset
    }

    pub fn frequency(&self) -> (r: u32)
        ensures
            r == self.spec_frequency(),
            r < SCALE,
    {
        proof {
            use_type_invariant(self);
        }
        self.frequency
    }
}

impl Rays {
    /// Whether every parameter has the value that a scene starts with.
    pub open spec fn starts_default(&self) -> bool {
        &&& self.origin_x == -6_500_000
        &&& self.origin_y == 2_500_000
        &&& self.render
        &&& self.angle == 5_100_000
        &&& self.min_length == 500_000
        &&& self.max_length == 5_500_000
        &&& self.thickness == 1_000_000
        &&& self.alpha == 30_000
        &&& self.speed == 8_500_000
    }

    /// Whether the rays are those that `draws` stand for, one for one, side
    /// by side: each ray begins where the rays before it end.
    pub open spec fn lined_up(&self, draws: Seq<RayDraws>) -> bool {
        &&& self.rays@.len() == draws.len()
        &&& forall|i: int|
            0 <= i < draws.len() ==> (#[trigger] self.rays@[i]).drawn(
                width_before(draws, i as nat),
                draws[i],
            )
    }

    /// What holds of the rays of every field that was made here: each lies
    /// within the span, with drawn attributes below one.
    pub open spec fn bounded(&self) -> bool {
        forall|i: int| 0 <= i < self.rays@.len() ==> (#[trigger] self.rays@[i]).bounded()
    }

    /// The shapes of the first `count` rays, in the order of the rays.
    pub open spec fn spec_draw_first(
        &self,
        count: nat,
        alpha_sines: Seq<i32>,
        direction: Rotation,
    ) -> Seq<DrawCommand>
        decreases count,
    {
        if count == 0 {
            Seq::empty()
        } else {
            let index = (count - 1) as int;
            self.spec_draw_first(index as nat, alpha_sines, direction).push(
                self.rays@[index].spec_draw(self, sine_at(alpha_sines, index), direction),
            )
        }
    }

    /// The shapes of all the rays.
    pub open spec fn spec_draw(&self, alpha_sines: Seq<i32>, direction: Rotation) -> Seq<
        DrawCommand,
    > {
        self.spec_draw_first(self.rays@.len(), alpha_sines, direction)
    }

    /// The given rays under the parameters that a scene starts with.
    pub fn with_rays(rays: Vec<Ray>) -> (r: Rays)
        ensures
            r.rays@ == rays@,
            r.starts_default(),
    {
        Rays {
            rays,
            origin_x: -6_500_000,
            origin_y: 2_500_000,
            render: true,
            angle: 5_100_000,
            min_length: 500_000,
            max_length: 5_500_000,
            thickness: 1_000_000,
            alpha: 30_000,
            speed: 8_500_000,
        }
    }

    /// The field of the rays that `draws` stand for, one ray for each entry
    /// and side by side in that order, under the parameters that a scene
    /// starts with. A draw that is not below one is refused, and so are
    /// more than 65 535 draws.
    pub fn lay_out(draws: &Vec<RayDraws>) -> (r: Option<Rays>)
        ensures
            r is Some <==> draws@.len() <= u16::MAX && forall|i: int|
                0 <= i < draws@.len() ==> draws@[i].fractions(),
            r is Some ==> {
                let field = r->Some_0;
                &&& field.starts_default()
                &&& field.lined_up(draws@)
                &&& field.bounded()
            },
    {
        if draws.len() > u16::MAX as usize {
            return None;
        }
        let mut rays: Vec<Ray> = Vec::new();
        let mut acc: i64 = 0;
        let mut i: usize = 0;
        while i < draws.len()
            invariant
                i <= draws@.len() <= u16::MAX,
                rays@.len() == i,
                acc == width_before(draws@, i as nat),
                0 <= acc <= i * 999_999,
                forall|k: int| 0 <= k < i ==> draws@[k].fractions(),
                forall|k: int|
                    0 <= k < i ==> (#[trigger] rays@[k]).drawn(
                        width_before(draws@, k as nat),
                        draws@[k],
                    ),
                forall|k: int| 0 <= k < i ==> (#[trigger] rays@[k]).bounded(),
            decreases draws@.len() - i,
        {
            match Ray::from_draws(acc, draws[i]) {
                Some(ray) => {
                    rays.push(ray);
                },
                None => {
                    return None;
                },
            }
            acc += draws[i].thickness as i64;
            i += 1;
        }
        Some(Rays::with_rays(rays))
    }

    /// A field of `n` rays side by side, each from four fresh random draws,
    /// under the parameters that a scene starts with. The draws are made
    /// here and nowhere else: a field is never drawn again.
    pub fn generate(n: u16) -> (field: Rays)
        ensures
            field.rays@.len() == n,
            field.starts_default(),
            field.bounded(),
            exists|draws: Seq<RayDraws>| field.lined_up(draws),
    {
        let mut draws: Vec<RayDraws> = Vec::new();
        while draws.len() < n as usize
            invariant
                draws@.len() <= n,
                forall|k: int| 0 <= k < draws@.len() ==> draws@[k].fractions(),
            decreases n - draws@.len(),
        {
            let thickness: u32 = random_below(SCALE);
            let length: u32 = random_below(SCALE);
            let offset: u32 = random_below(SCALE);
            let frequency: u32 = random_below(SCALE);
            draws.push(RayDraws { thickness, length, offset, frequency });
        }
        let field = Rays::lay_out(&draws).unwrap();
        proof {
            assert(field.lined_up(draws@));
        }
        field
    }

    /// For each ray the angle whose sine brightens and fades it at the time
    /// `seconds`; see [`Ray::spec_alpha_angle`]. The host computes the sines
    /// and hands them to [`Rays::draw`] in the same order.
    pub fn alpha_angles(&self, seconds: u64) -> (angles: Vec<i128>)
        ensures
            angles@.len() == self.rays@.len(),
            forall|i: int|
                0 <= i < angles@.len() ==> angles@[i] == (
                #[trigger] self.rays@[i]).spec_alpha_angle(seconds, self),
    {
        let mut angles: Vec<i128> = Vec::new();
        let mut i: usize = 0;
        while i < self.rays.len()
            invariant
                i <= self.rays@.len(),
                angles@.len() == i,
                forall|k: int|
                    0 <= k < i ==> angles@[k] == (#[trigger] self.rays@[k]).spec_alpha_angle(
                        seconds,
                        self,
                    ),
            decreases self.rays@.len() - i,
        {
            let angle: i128 = self.rays[i].alpha_angle(seconds, self);
            angles.push(angle);
            i += 1;
        }
        angles
    }

    /// Adds the shapes of all the rays to `painter`, ray after ray; see
    /// [`Rays::spec_draw`]. `alpha_sines` holds for each ray the sine of its
    /// angle from [`Rays::alpha_angles`], and `direction` the cosine and sine
    /// of the scene's angle. The result depends on the arguments alone.
    pub fn draw(&self, painter: &mut Vec<DrawCommand>, alpha_sines: &Vec<i32>, direction: Rotation)
        ensures
            final(painter)@ == old(painter)@ + self.spec_draw(alpha_sines@, direction),
    {
        let mut i: usize = 0;
        while i < self.rays.len()
            invariant
                i <= self.rays@.len(),
                painter@ == old(painter)@ + self.spec_draw_first(i as nat, alpha_sines@, direction),
            decreases self.rays@.len() - i,
        {
            let sine: i32 = pick_sine(alpha_sines, i);
            self.rays[i].draw(painter, self, sine, direction);
            proof {
                assert(painter@ =~= old(painter)@ + self.spec_draw_first(
                    (i + 1) as nat,
                    alpha_sines@,
                    direction,
                ));
            }
            i += 1;
        }
    }
}

impl Default for Rays {
    /// A field of 60 rays; see [`Rays::generate`].
    fn default() -> (field: Rays)
        ensures
            field.rays@.len() == RAY_COUNT,
            field.starts_default(),
            field.bounded(),
            exists|draws: Seq<RayDraws>| field.lined_up(draws),
    {
        Rays::generate(RAY_COUNT)
    }
}

} // verus!
