//! Colours and the table of cached random fractions.
use crate::fixed::SCALE;
use vstd::arithmetic::div_mod::*;
use vstd::prelude::*;

verus! {

/// A colour in sRGB, each channel and the opacity in millionths.
#[derive(Clone, Copy, Debug, PartialEq, Eq)]
pub struct Color {
    pub red: i64,
    pub green: i64,
    pub blue: i64,
    pub alpha: i64,
}

/// `channel` raised by `amount`, stopping at the largest value a channel holds.
pub open spec fn lighten(channel: int, amount: int) -> int {
    if channel + amount > i64::MAX {
        i64::MAX as int
    } else {
        channel + amount
    }
}

/// What [`Modifier::pastel`] adds to each channel: a quarter.
pub const PASTEL: i64 = 250_000;

/// What [`Modifier::pastel_very`] adds to each channel: two fifths.
pub const PASTEL_VERY: i64 = 400_000;

/// Softer variants of a colour.
pub trait Modifier {
    /// The colour mixed with a quarter of white, fully opaque.
    fn pastel(&self) -> Color;

    /// The colour mixed with two fifths of white, fully opaque.
    fn pastel_very(&self) -> Color;
}

impl Color {
    /// The opaque colour with the given channels.
    pub open spec fn opaque(red: int, green: int, blue: int) -> Color {
        Color { red: red as i64, green: green as i64, blue: blue as i64, alpha: SCALE as i64 }
    }

    /// This colour with every channel raised by `amount` and full opacity.
    pub open spec fn mixed(self, amount: int) -> Color {
        Color {
            red: lighten(self.red as int, amount) as i64,
            green: lighten(self.green as int, amount) as i64,
            blue: lighten(self.blue as int, amount) as i64,
            alpha: SCALE as i64,
        }
    }

    pub fn black() -> (c: Color)
        ensures
            c == Color::opaque(0, 0, 0),
    {
        Color { red: 0, green: 0, blue: 0, alpha: 1_000_000 }
    }

    pub fn white() -> (c: Color)
        ensures
            c == Color::opaque(SCALE as int, SCALE as int, SCALE as int),
    {
        Color { red: 1_000_000, green: 1_000_000, blue: 1_000_000, alpha: 1_000_000 }
    }

    pub fn red() -> (c: Color)
        ensures
            c == Color::opaque(SCALE as int, 0, 0),
    {
        Color { red: 1_000_000, green: 0, blue: 0, alpha: 1_000_000 }
    }

    pub fn blue() -> (c: Color)
        ensures
            c == Color::opaque(0, 0, SCALE as int),
    {
        Color { red: 0, green: 0, blue: 1_000_000, alpha: 1_000_000 }
    }

    pub fn yellow() -> (c: Color)
        ensures
            c == Color::opaque(SCALE as int, SCALE as int, 0),
    {
        Color { red: 1_000_000, green: 1_000_000, blue: 0, alpha: 1_000_000 }
    }

    /// The same colour with another opacity.
    pub fn with_alpha(self, alpha: i64) -> (c: Color)
        ensures
            c == (Color { alpha, ..self }),
    {
        Color { red: self.red, green: self.green, blue: self.blue, alpha }
    }

    fn raised(self, amount: i64) -> (c: Color)
        requires
            amount >= 0,
        ensures
            c == self.mixed(amount as int),
    {
        Color {
            red: if self.red > i64::MAX - amount { i64::MAX } else { self.red + amount },
            green: if self.green > i64::MAX - amount { i64::MAX } else { self.green + amount },
            blue: if self.blue > i64::MAX - amount { i64::MAX } else { self.blue + amount },
            alpha: 1_000_000,
        }
    }
}

impl Modifier for Color {
    fn pastel(&self) -> (c: Color)
        ensures
            c == self.mixed(PASTEL as int),
    {
        self.raised(PASTEL)
    }

    fn pastel_very(&self) -> (c: Color)
        ensures
            c == self.mixed(PASTEL_VERY as int),
    {
        self.raised(PASTEL_VERY)
    }
}

/// Why a table of random fractions could not be made.
#[derive(Clone, Copy, Debug, PartialEq, Eq)]
pub enum TableError {
    /// A table holds at least one value.
    Empty,
    /// A value was not below one.
    OutOfRange,
}

/// Random fractions of one, drawn once and then read by index for as long as
/// the table lives, so that a frame never draws again.
pub struct CachedRandom {
    size: usize,
    values: Vec<u32>,
}

/// The entry that `index` stands for in a table read round and round.
pub open spec fn entry(table: Seq<u32>, index: int) -> u32
    recommends
        table.len() > 0,
{
    table[index % (table.len() as int)]
}

/// Every value of `values` is a fraction below one.
pub open spec fn all_fractions(values: Seq<u32>) -> bool {
    forall|i: int| 0 <= i < values.len() ==> values[i] < SCALE
}

/// Draws a whole number below `bound`. The body is `rand::random_range` over
/// `0..bound`, which samples the thread's generator. That function panics on
/// an empty range, which `bound > 0` leaves out, and returns a value of the
/// range; this is all that is taken on trust. Nothing is said of which value
/// comes: that is left to chance. The generator itself gives up where the
/// system cannot seed it, whatever the bound.
#[verifier::external_body]
pub(crate) fn random_below(bound: u32) -> (r: u32)
    requires
        bound > 0,
    ensures
        r < bound,
{
    rand::random_range(0..bound)
}

impl CachedRandom {
    #[verifier::type_invariant]
    spec fn well_formed(&self) -> bool {
        &&& self.size == self.values@.len()
        &&& self.size > 0
        &&& all_fractions(self.values@)
    }

    /// The values of the table, in order.
    pub closed spec fn view(&self) -> Seq<u32> {
        self.values@
    }

    /// Draws `size` fractions, one after another.
    fn filled(size: usize) -> (table: CachedRandom)
        requires
            size > 0,
        ensures
            table@.len() == size,
            all_fractions(table@),
    {
        let mut values: Vec<u32> = Vec::new();
        while values.len() < size
            invariant
                values@.len() <= size,
                all_fractions(values@),
            decreases size - values@.len(),
        {
            let value: u32 = random_below(SCALE);
            values.push(value);
        }
        CachedRandom { size, values }
    }

    /// A table of `size` fresh random fractions. Only the size 0 is refused.
    pub fn new(size: usize) -> (r: Result<CachedRandom, TableError>)
        ensures
            size == 0 <==> r is Err,
            r is Err ==> r == Err::<CachedRandom, TableError>(TableError::Empty),
            r is Ok ==> r->Ok_0@.len() == size && all_fractions(r->Ok_0@),
    {
        if size == 0 {
            Err(TableError::Empty)
        } else {
            Ok(CachedRandom::filled(size))
        }
    }

    /// A table of the given values, in the given order.
    pub fn from_values(values: Vec<u32>) -> (r: Result<CachedRandom, TableError>)
        ensures
            match r {
                Ok(table) => values@.len() > 0 && all_fractions(values@) && table@ == values@,
                Err(TableError::Empty) => values@.len() == 0,
                Err(TableError::OutOfRange) => values@.len() > 0 && !all_fractions(values@),
            },
    {
        if values.len() == 0 {
            return Err(TableError::Empty);
        }
        let mut i: usize = 0;
        while i < values.len()
            invariant
                i <= values@.len(),
                forall|k: int| 0 <= k < i ==> values@[k] < SCALE,
            decreases values@.len() - i,
        {
            if values[i] >= SCALE {
                return Err(TableError::OutOfRange);
            }
            i += 1;
        }
        Ok(CachedRandom { size: values.len(), values })
    }

    /// How many values the table holds; never 0.
    pub fn len(&self) -> (n: usize)
        ensures
            n == self@.len(),
            n > 0,
    {
        proof {
            use_type_invariant(self);
        }
        self.size
    }

    /// The value that `idx` stands for: the table is read round and round, so
    /// every index has one. Nothing is drawn and nothing changes.
    pub fn get(&self, idx: usize) -> (r: u32)
        ensures
            self@.len() > 0,
            r == entry(self@, idx as int),
            r < SCALE,
    {
        proof {
            use_type_invariant(self);
        }
        let idx: usize = idx % self.size;
        self.values[idx]
    }
}

impl Default for CachedRandom {
    /// A table of 1031 values: a prime, so that indices that step evenly take
    /// long to come round to the same values.
    fn default() -> (r: CachedRandom)
        ensures
            r@.len() == 1031,
            all_fractions(r@),
    {
        CachedRandom::filled(1031)
    }
}

/// An index and the same index any number of table lengths further on stand
/// for the same value.
pub proof fn lemma_entry_repeats(table: Seq<u32>, index: nat, rounds: nat)
    requires
        table.len() > 0,
    ensures
        entry(table, (index + rounds * table.len()) as int) == entry(table, index as int),
{
    lemma_mod_multiples_vanish(rounds as int, index as int, table.len() as int);
    assert(table.len() * rounds == rounds * table.len()) by (nonlinear_arith);
}

} // verus!
