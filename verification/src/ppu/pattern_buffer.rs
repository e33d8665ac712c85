use vstd::prelude::*;

use crate::ppu::PpuQueryItem;

verus! {

/// The width and the height of a pattern table in pixels: sixteen tiles
/// of eight pixels.
pub const PATTERN_WIDTH: usize = 128;

/// A pattern table drawn out: one value for each of its pixels, row after
/// row.
pub struct PatternBuffer {
    pub table_id: u16,
    pub buffer: [u8; 0x4000],
}

impl PpuQueryItem {
    /// The value of the pixel at column `x` and row `y` of pattern table
    /// `table_id`: the tile is found by the pixel's place, its row's two
    /// bytes are read eight bytes apart, and the value is the sum of the
    /// pixel's bit in each of the two.
    pub open spec fn spec_pattern_pixel(self, table_id: u16, x: int, y: int) -> u8 {
        let tile = table_id * 256 + (y / 8) * 16 + x / 8;
        let at = (tile * 16 + y % 8) as u16;
        let lsb = self.spec_ppu_read(at);
        let msb = self.spec_ppu_read((at + 8) as u16);
        let place = (7 - x % 8) as u8;
        (((lsb >> place) & 1) + ((msb >> place) & 1)) as u8
    }

    pub fn pattern_pixel(&self, table_id: u16, x: usize, y: usize) -> (r: u8)
        requires
            table_id < 2,
            x < 128,
            y < 128,
        ensures
            r == self.spec_pattern_pixel(table_id, x as int, y as int),
            r <= 2,
    {
        let tile: u16 = table_id * 256 + ((y / 8) as u16) * 16 + (x / 8) as u16;
        let at: u16 = tile * 16 + (y % 8) as u16;
        let lsb = self.ppu_read(at);
        let msb = self.ppu_read(at + 8);
        let place: u8 = 7 - (x % 8) as u8;
        let low: u8 = (lsb >> place) & 1;
        let high: u8 = (msb >> place) & 1;
        assert(low <= 1 && high <= 1) by (bit_vector)
            requires
                low == (lsb >> place) & 1,
                high == (msb >> place) & 1,
        ;
        low + high
    }

    /// Draws out the pattern table `table_id`.
    pub fn pattern_buffer(&self, table_id: u16) -> (r: PatternBuffer)
        requires
            table_id < 2,
        ensures
            r.table_id == table_id,
            forall|i: int|
                0 <= i < 0x4000 ==> #[trigger] r.buffer[i] == self.spec_pattern_pixel(
                    table_id,
                    i % 128,
                    i / 128,
                ),
    {
        let mut buffer = [0u8; 0x4000];
        let mut i: usize = 0;
        while i < 0x4000
            invariant
                i <= 0x4000,
                table_id < 2,
                forall|j: int|
                    0 <= j < i ==> #[trigger] buffer[j] == self.spec_pattern_pixel(
                        table_id,
                        j % 128,
                        j / 128,
                    ),
            decreases 0x4000 - i,
        {
            buffer[i] = self.pattern_pixel(table_id, i % PATTERN_WIDTH, i / PATTERN_WIDTH);
            i = i + 1;
        }
        PatternBuffer { table_id, buffer }
    }
}

} // verus!
