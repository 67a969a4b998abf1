//! The grid of cells that the display hardware shows, and volatile access
//! to it.

use vstd::prelude::*;
use volatile::Volatile;
use crate::color::ColorCode;

verus! {

/// The number of rows of the display.
pub const BUFFER_H: usize = 25;

/// The number of columns of the display.
pub const BUFFER_W: usize = 80;

/// One position of the display: a character and the colour it is shown in.
#[derive(Copy, Clone, Debug, PartialEq, Eq, Structural)]
pub struct VgaChar {
    pub ascii: u8,
    pub color: ColorCode,
}

impl VgaChar {
    /// The empty cell: a space in the given colour.
    pub open spec fn spec_blank(color: ColorCode) -> VgaChar {
        VgaChar { ascii: 0x20, color }
    }

    /// The empty cell: a space in the given colour.
    #[verifier::when_used_as_spec(spec_blank)]
    pub fn blank(color: ColorCode) -> (cell: VgaChar)
        ensures
            cell == VgaChar::spec_blank(color),
    {
        VgaChar { ascii: 0x20, color }
    }
}

/// The display memory as the hardware lays it out: rows of cells, each cell
/// two bytes, the character first and the colour second.
pub type VgaCells = [[Volatile<[u8; 2]>; BUFFER_W]; BUFFER_H];

/// `volatile::Volatile`, a value in memory that is only read and written by
/// volatile accesses.
#[verifier::external_type_specification]
#[verifier::external_body]
#[verifier::reject_recursive_types(T)]
pub struct ExVolatile<T: Copy>(Volatile<T>);

/// The two bytes that a cell of display memory contains: what
/// `Volatile::read` returns and what `Volatile::write` has put there. It is
/// a function of the cell alone on the understanding that memory is changed
/// through the cell only.
pub uninterp spec fn held(slot: Volatile<[u8; 2]>) -> (u8, u8);

/// `Volatile::read`: returns a copy of the contained value, here as a pair
/// of its two bytes.
#[verifier::external_body]
fn volatile_read(slot: &Volatile<[u8; 2]>) -> (bytes: (u8, u8))
    ensures
        bytes == held(*slot),
{
    let [ascii, color] = slot.read();
    (ascii, color)
}

/// `Volatile::write`: sets the contained value to the given one, here made
/// of the two bytes. It never panics.
#[verifier::external_body]
fn volatile_write(slot: &mut Volatile<[u8; 2]>, ascii: u8, color: u8)
    ensures
        held(*final(slot)) == (ascii, color),
    no_unwind
{
    slot.write([ascii, color]);
}

/// Whether a sequence of rows has the shape of the display: `BUFFER_H` rows
/// of `BUFFER_W` cells.
pub open spec fn is_grid(cells: Seq<Seq<VgaChar>>) -> bool {
    &&& cells.len() == BUFFER_H
    &&& forall|r: int| 0 <= r < BUFFER_H ==> (#[trigger] cells[r]).len() == BUFFER_W
}

/// What a display shows whose memory is `cells`: for each row and column,
/// the character and the colour that the two bytes there give.
pub open spec fn shown(cells: VgaCells) -> Seq<Seq<VgaChar>> {
    Seq::new(
        BUFFER_H as nat,
        |r: int|
            Seq::new(
                BUFFER_W as nat,
                |c: int|
                    VgaChar {
                        ascii: held(cells@[r]@[c]).0,
                        color: ColorCode(held(cells@[r]@[c]).1),
                    },
            ),
    )
}

/// Exclusive access to the memory of one display.
pub struct VgaBuffer {
    chars: &'static mut VgaCells,
}

impl View for VgaBuffer {
    type V = Seq<Seq<VgaChar>>;

    /// What the display shows, by row and then by column.
    closed spec fn view(&self) -> Seq<Seq<VgaChar>> {
        shown(*self.chars)
    }
}

impl VgaBuffer {
    /// Takes over the memory of a display. The cells show whatever the
    /// memory holds.
    pub fn new(chars: &'static mut VgaCells) -> (buffer: VgaBuffer)
        ensures
            buffer@ == shown(*old(chars)),
            is_grid(buffer@),
    {
        VgaBuffer { chars }
    }

    /// Every buffer has the shape of the display.
    pub proof fn lemma_is_grid(&self)
        ensures
            is_grid(self@),
    {
    }

    /// Reads the cell at a row and a column.
    pub fn read(&self, row: usize, col: usize) -> (cell: VgaChar)
        requires
            row < BUFFER_H,
            col < BUFFER_W,
        ensures
            cell == self@[row as int][col as int],
    {
        let bytes: (u8, u8) = volatile_read(&self.chars[row][col]);
        VgaChar { ascii: bytes.0, color: ColorCode(bytes.1) }
    }

    /// Writes a cell at a row and a column, and leaves every other cell as
    /// it was.
    pub fn write(&mut self, row: usize, col: usize, cell: VgaChar)
        requires
            row < BUFFER_H,
            col < BUFFER_W,
        ensures
            final(self)@ == old(self)@.update(
                row as int,
                old(self)@[row as int].update(col as int, cell),
            ),
            is_grid(final(self)@),
        no_unwind
    {
        volatile_write(&mut self.chars[row][col], cell.ascii, cell.color.0);
        assert(self@ =~~= old(self)@.update(
            row as int,
            old(self)@[row as int].update(col as int, cell),
        ));
    }
}

} // verus!
