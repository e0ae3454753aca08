//! The integer side of the Julia-set picture: its size, the red and blue
//! gradients, the escape-time count, and the assembly of the picture. The orbit
//! itself, `z ← z² + c` on floating-point numbers, is stepped by the caller,
//! which reports to an [`EscapeCounter`] whether each point lies within the
//! escape radius.
use vstd::prelude::*;

use crate::picture::{buffer_height, buffer_width, channels, paint, pixel_at, well_formed, Color, Picture};

verus! {

/// Columns of the picture.
pub const FRACTAL_WIDTH: u32 = 800;

/// Rows of the picture.
pub const FRACTAL_HEIGHT: u32 = 800;

/// The most orbit points counted for one pixel.
pub const ESCAPE_LIMIT: u8 = 255;

/// A gradient channel for a coordinate: 0.3 × `v`, truncated toward zero, and
/// 255 where that exceeds 255 (a float-to-integer conversion saturates).
pub open spec fn gradient(v: int) -> int {
    if v * 3 / 10 > 255 {
        255
    } else {
        v * 3 / 10
    }
}

/// The gradient channel for coordinate `v`.
pub fn gradient_channel(v: u32) -> (r: u8)
    ensures
        r == gradient(v as int),
{
    let scaled: u64 = (v as u64) * 3 / 10;
    if scaled > 255 {
        255
    } else {
        scaled as u8
    }
}

/// How many points lead an orbit while they lie within the escape radius:
/// the index of the first point outside it, or the length if there is none.
pub open spec fn leading_inside(inside: Seq<bool>) -> nat
    decreases inside.len(),
{
    if inside.len() == 0 || !inside[0] {
        0
    } else {
        1 + leading_inside(inside.drop_first())
    }
}

proof fn lemma_leading_inside_push(inside: Seq<bool>, b: bool)
    requires
        forall|i: int| 0 <= i < inside.len() ==> #[trigger] inside[i],
    ensures
        leading_inside(inside) == inside.len(),
        leading_inside(inside.push(b)) == if b {
            inside.len() + 1
        } else {
            inside.len()
        },
    decreases inside.len(),
{
    if inside.len() > 0 {
        let rest = inside.drop_first();
        assert(inside.push(b).drop_first() =~= rest.push(b));
        assert(forall|i: int| 0 <= i < rest.len() ==> #[trigger] rest[i] == inside[i + 1]);
        lemma_leading_inside_push(rest, b);
        assert(inside.push(b)[0] == inside[0]);
    } else {
        assert(inside.push(b)[0] == b);
        assert(leading_inside(inside.push(b).drop_first()) == 0);
    }
}

/// Counts the points of one orbit, in order, while they lie within the escape
/// radius, up to [`ESCAPE_LIMIT`] points.
pub struct EscapeCounter {
    count: u8,
    escaped: bool,
    seen: Ghost<Seq<bool>>,
}

impl EscapeCounter {
    /// For each point reported so far, whether it lay within the escape radius.
    pub closed spec fn observed(&self) -> Seq<bool> {
        self.seen@
    }

    /// The points counted so far.
    pub closed spec fn count_spec(&self) -> nat {
        self.count as nat
    }

    /// Whether the next point of the orbit is to be reported.
    pub closed spec fn running(&self) -> bool {
        !self.escaped && self.count < ESCAPE_LIMIT
    }

    /// The count is the run of inside points that leads what was reported, and
    /// a point outside the radius, or the limit, ends the reports.
    pub closed spec fn wf(&self) -> bool {
        &&& self.seen@.len() == self.count + if self.escaped {
            1int
        } else {
            0
        }
        &&& forall|i: int| 0 <= i < self.count ==> #[trigger] self.seen@[i]
        &&& self.escaped ==> !self.seen@[self.count as int] && self.count < ESCAPE_LIMIT
    }

    /// A counter that has seen no point yet.
    pub fn new() -> (r: EscapeCounter)
        ensures
            r.wf(),
            r.running(),
            r.observed() == Seq::<bool>::empty(),
            r.count_spec() == 0,
    {
        EscapeCounter { count: 0, escaped: false, seen: Ghost(Seq::empty()) }
    }

    /// Reports whether the current point lies within the escape radius. Returns
    /// whether the orbit is to be stepped and its next point reported.
    pub fn observe(&mut self, within_radius: bool) -> (more: bool)
        requires
            old(self).wf(),
            old(self).running(),
        ensures
            final(self).wf(),
            final(self).observed() == old(self).observed().push(within_radius),
            final(self).count_spec() == leading_inside(final(self).observed()),
            final(self).count_spec() <= ESCAPE_LIMIT,
            more == (within_radius && final(self).count_spec() < ESCAPE_LIMIT),
            more == final(self).running(),
    {
        proof {
            lemma_leading_inside_push(self.seen@, within_radius);
        }
        self.seen = Ghost(self.seen@.push(within_radius));
        if within_radius {
            self.count = self.count + 1;
        } else {
            self.escaped = true;
        }
        !self.escaped && self.count < ESCAPE_LIMIT
    }

    /// The points counted: the leading run of points within the escape radius.
    pub fn count(&self) -> (r: u8)
        requires
            self.wf(),
        ensures
            r == self.count_spec(),
            r == leading_inside(self.observed()),
    {
        proof {
            let s = self.seen@;
            let k = self.count as int;
            let prefix = s.subrange(0, k);
            assert(forall|i: int| 0 <= i < prefix.len() ==> #[trigger] prefix[i] == s[i]);
            lemma_leading_inside_push(prefix, false);
            if self.escaped {
                assert(prefix.push(false) =~= s);
            } else {
                assert(prefix =~= s);
            }
        }
        self.count
    }
}

/// The escape count of an orbit, given for each of its points whether it
/// lies within the escape radius: the index of the first point outside, or
/// [`ESCAPE_LIMIT`] when the first that many points all lie inside.
pub open spec fn escape_count_of(orbit: Seq<bool>) -> nat {
    if leading_inside(orbit) < ESCAPE_LIMIT {
        leading_inside(orbit)
    } else {
        ESCAPE_LIMIT as nat
    }
}

proof fn lemma_leading_inside_prefix(orbit: Seq<bool>, k: int)
    requires
        0 <= k <= orbit.len(),
        forall|i: int| 0 <= i < k ==> #[trigger] orbit[i],
        k < orbit.len() ==> !orbit[k],
    ensures
        leading_inside(orbit) == k,
    decreases k,
{
    if k > 0 {
        let rest = orbit.drop_first();
        assert(forall|i: int| 0 <= i < k - 1 ==> #[trigger] rest[i] == orbit[i + 1]);
        lemma_leading_inside_prefix(rest, k - 1);
    }
}

proof fn lemma_leading_inside_at_least(orbit: Seq<bool>, k: int)
    requires
        0 <= k <= orbit.len(),
        forall|i: int| 0 <= i < k ==> #[trigger] orbit[i],
    ensures
        leading_inside(orbit) >= k,
    decreases k,
{
    if k > 0 {
        let rest = orbit.drop_first();
        assert(forall|i: int| 0 <= i < k - 1 ==> #[trigger] rest[i] == orbit[i + 1]);
        lemma_leading_inside_at_least(rest, k - 1);
    }
}

/// Once a counter has stopped on an orbit, having been told of its points in
/// order, its count is the orbit's escape count: the index of the first point
/// outside the escape radius, or exactly [`ESCAPE_LIMIT`] when the first that
/// many points all lie within it. It has been told of at most that many points.
pub proof fn escape_count_is_first_exit(c: EscapeCounter, orbit: Seq<bool>)
    requires
        c.wf(),
        !c.running(),
        c.observed().len() <= orbit.len(),
        c.observed() == orbit.subrange(0, c.observed().len() as int),
    ensures
        c.count_spec() == escape_count_of(orbit),
        c.count_spec() <= ESCAPE_LIMIT,
        c.observed().len() <= ESCAPE_LIMIT,
        forall|i: int| 0 <= i < c.count_spec() ==> #[trigger] orbit[i],
        c.count_spec() < ESCAPE_LIMIT ==> !orbit[c.count_spec() as int],
{
    let k = c.count as int;
    let seen = c.seen@;
    assert forall|i: int| 0 <= i < k implies #[trigger] orbit[i] by {
        assert(seen[i] == orbit[i]);
    }
    if c.escaped {
        assert(seen[k] == orbit[k]);
        lemma_leading_inside_prefix(orbit, k);
    } else {
        lemma_leading_inside_at_least(orbit, k);
    }
}

/// The pixel at column `x` and row `y` whose orbit counted `green` points.
pub open spec fn julia_pixel_spec(x: int, y: int, green: u8) -> Color {
    Color { red: gradient(x) as u8, green, blue: gradient(y) as u8 }
}

/// The pixel at column `x` and row `y`: red and blue from the gradients, green
/// from the escape count.
pub fn julia_pixel(x: u32, y: u32, green: u8) -> (r: Color)
    ensures
        r == julia_pixel_spec(x as int, y as int, green),
{
    Color { red: gradient_channel(x), green, blue: gradient_channel(y) }
}

/// The Julia-set picture, given the escape count of each pixel row by row.
pub fn render_julia(escape_counts: &Vec<u8>) -> (b: Picture)
    requires
        escape_counts@.len() == FRACTAL_WIDTH * FRACTAL_HEIGHT,
    ensures
        well_formed(b),
        buffer_width(b) == FRACTAL_WIDTH,
        buffer_height(b) == FRACTAL_HEIGHT,
        forall|x: int, y: int|
            0 <= x < FRACTAL_WIDTH && 0 <= y < FRACTAL_HEIGHT ==> #[trigger] pixel_at(b, x, y)
                == channels(julia_pixel_spec(x, y, escape_counts@[y * FRACTAL_WIDTH + x])),
{
    let mut colors: Vec<Color> = Vec::new();
    let mut y: u32 = 0;
    while y < FRACTAL_HEIGHT
        invariant
            y <= FRACTAL_HEIGHT,
            colors@.len() == y * FRACTAL_WIDTH,
            escape_counts@.len() == FRACTAL_WIDTH * FRACTAL_HEIGHT,
            forall|i: int, j: int|
                0 <= i < FRACTAL_WIDTH && 0 <= j < y ==> #[trigger] colors@[j * FRACTAL_WIDTH + i]
                    == julia_pixel_spec(i, j, escape_counts@[j * FRACTAL_WIDTH + i]),
        decreases FRACTAL_HEIGHT - y,
    {
        let mut x: u32 = 0;
        while x < FRACTAL_WIDTH
            invariant
                x <= FRACTAL_WIDTH,
                y < FRACTAL_HEIGHT,
                colors@.len() == y * FRACTAL_WIDTH + x,
                escape_counts@.len() == FRACTAL_WIDTH * FRACTAL_HEIGHT,
                forall|i: int, j: int|
                    0 <= i < FRACTAL_WIDTH && 0 <= j < y ==> #[trigger] colors@[j * FRACTAL_WIDTH + i]
                        == julia_pixel_spec(i, j, escape_counts@[j * FRACTAL_WIDTH + i]),
                forall|i: int|
                    0 <= i < x ==> #[trigger] colors@[y * FRACTAL_WIDTH + i] == julia_pixel_spec(
                        i,
                        y as int,
                        escape_counts@[y * FRACTAL_WIDTH + i],
                    ),
            decreases FRACTAL_WIDTH - x,
        {
            let k: usize = (y as usize) * (FRACTAL_WIDTH as usize) + (x as usize);
            let green = escape_counts[k];
            colors.push(julia_pixel(x, y, green));
            x = x + 1;
        }
        y = y + 1;
    }
    paint(FRACTAL_WIDTH, FRACTAL_HEIGHT, &colors)
}

/// The picture depends on the escape counts alone: two pictures drawn from
/// the same counts agree pixel for pixel.
pub proof fn julia_is_determined_by_counts(a: Picture, b: Picture, escape_counts: Seq<u8>)
    requires
        escape_counts.len() == FRACTAL_WIDTH * FRACTAL_HEIGHT,
        buffer_width(a) == FRACTAL_WIDTH && buffer_height(a) == FRACTAL_HEIGHT,
        buffer_width(b) == FRACTAL_WIDTH && buffer_height(b) == FRACTAL_HEIGHT,
        forall|x: int, y: int|
            0 <= x < FRACTAL_WIDTH && 0 <= y < FRACTAL_HEIGHT ==> #[trigger] pixel_at(a, x, y)
                == channels(julia_pixel_spec(x, y, escape_counts[y * FRACTAL_WIDTH + x])),
        forall|x: int, y: int|
            0 <= x < FRACTAL_WIDTH && 0 <= y < FRACTAL_HEIGHT ==> #[trigger] pixel_at(b, x, y)
                == channels(julia_pixel_spec(x, y, escape_counts[y * FRACTAL_WIDTH + x])),
    ensures
        forall|x: int, y: int|
            0 <= x < FRACTAL_WIDTH && 0 <= y < FRACTAL_HEIGHT ==> #[trigger] pixel_at(a, x, y)
                == pixel_at(b, x, y),
{
}

} // verus!

