use vstd::prelude::*;
use volatile::Volatile;
use crate::color::ColorCode;

verus! {

/// Number of text rows on the screen.
pub const BUFFER_HEIGHT: usize = 25;

/// Number of character columns in a row.
pub const BUFFER_WIDTH: usize = 80;

#[verifier::external_type_specification]
#[verifier::external_body]
#[verifier::reject_recursive_types(T)]
pub struct ExVolatile<T: Copy>(Volatile<T>);

/// One character position: a glyph byte and its attribute byte.
#[derive(Debug, Clone, Copy, PartialEq, Eq, Structural)]
pub struct ScreenChar {
    pub ascii_character: u8,
    pub color_code: ColorCode,
}

/// The 16-bit cell word of a character: the glyph in the low byte and the
/// attribute in the high byte, so that in little-endian memory byte 0 is the
/// glyph and byte 1 the attribute.
pub open spec fn encode(c: ScreenChar) -> u16 {
    (c.ascii_character as int + 256 * c.color_code.0 as int) as u16
}

/// The character that a cell word holds.
pub open spec fn decode(w: u16) -> ScreenChar {
    ScreenChar { ascii_character: (w % 256) as u8, color_code: ColorCode((w / 256) as u8) }
}

impl ScreenChar {
    /// The cell word of this character.
    pub fn to_word(self) -> (r: u16)
        ensures
            r == encode(self),
            decode(r) == self,
        no_unwind
    {
        self.ascii_character as u16 + 256 * (self.color_code.0 as u16)
    }

    /// The character held by a cell word.
    pub fn from_word(w: u16) -> (r: ScreenChar)
        ensures
            r == decode(w),
    {
        ScreenChar { ascii_character: (w % 256) as u8, color_code: ColorCode((w / 256) as u8) }
    }
}

/// The value held by a volatile cell.
pub uninterp spec fn volatile_content(v: Volatile<u16>) -> u16;

/// Relies on `Volatile::read`: a volatile load that returns the value the cell holds.
#[verifier::external_body]
fn load(v: &Volatile<u16>) -> (r: u16)
    ensures
        r == volatile_content(*v),
{
    v.read()
}

/// Relies on `Volatile::write`: a volatile store, after which the cell holds `w`.
#[verifier::external_body]
fn store(v: &mut Volatile<u16>, w: u16)
    ensures
        volatile_content(*final(v)) == w,
    no_unwind
{
    v.write(w)
}

/// The character grid, row-major, one cell word per position, every cell
/// accessed through volatile loads and stores so that no access is elided or
/// reordered.
pub struct Buffer {
    pub chars: [[Volatile<u16>; BUFFER_WIDTH]; BUFFER_HEIGHT],
}

impl Buffer {
    /// The character at row `r`, column `c`.
    pub open spec fn cell(&self, r: int, c: int) -> ScreenChar {
        decode(volatile_content(self.chars@[r]@[c]))
    }

    /// The whole grid as rows of characters.
    pub open spec fn grid(&self) -> Seq<Seq<ScreenChar>> {
        Seq::new(BUFFER_HEIGHT as nat, |r: int| Seq::new(BUFFER_WIDTH as nat, |c: int| self.cell(r, c)))
    }

    /// Reads the character at (`row`, `col`).
    pub fn read(&self, row: usize, col: usize) -> (r: ScreenChar)
        requires
            row < BUFFER_HEIGHT,
            col < BUFFER_WIDTH,
        ensures
            r == self.cell(row as int, col as int),
    {
        ScreenChar::from_word(load(&self.chars[row][col]))
    }

    /// Writes `ch` at (`row`, `col`), leaving every other cell as it was.
    pub fn write(&mut self, row: usize, col: usize, ch: ScreenChar)
        requires
            row < BUFFER_HEIGHT,
            col < BUFFER_WIDTH,
        ensures
            final(self).cell(row as int, col as int) == ch,
            forall|i: int, j: int|
                0 <= i < BUFFER_HEIGHT && 0 <= j < BUFFER_WIDTH && !(i == row && j == col)
                    ==> #[trigger] final(self).cell(i, j) == old(self).cell(i, j),
        no_unwind
    {
        store(&mut self.chars[row][col], ch.to_word());
    }
}

} // verus!
