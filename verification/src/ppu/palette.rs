use vstd::prelude::*;

verus! {

/// Why a palette cannot be loaded.
#[derive(Debug, Clone, Copy, PartialEq, Eq, Structural)]
pub enum PaletteLoaderError {
    /// The data ends before the sixty-fourth colour.
    UnexpectedEof,
}

/// The master palette: sixty-four colours, each as red, green and blue.
#[derive(Debug, Clone, Copy, PartialEq, Eq)]
pub struct Palette {
    pub colors: [(u8, u8, u8); 64],
}

impl Palette {
    /// The palette holds the first 192 bytes of `bytes`, three to a colour.
    pub open spec fn spec_holds(self, bytes: Seq<u8>) -> bool {
        forall|i: int|
            0 <= i < 64 ==> #[trigger] self.colors[i] == (
                bytes[3 * i],
                bytes[3 * i + 1],
                bytes[3 * i + 2],
            )
    }

    /// Takes sixty-four colours from the start of `bytes`.
    pub fn from_bytes(bytes: &[u8]) -> (r: Result<Self, PaletteLoaderError>)
        ensures
            bytes@.len() < 192 ==> r == Err::<Self, PaletteLoaderError>(
                PaletteLoaderError::UnexpectedEof,
            ),
            bytes@.len() >= 192 ==> r is Ok && r->Ok_0.spec_holds(bytes@),
    {
        if bytes.len() < 192 {
            return Err(PaletteLoaderError::UnexpectedEof);
        }
        let black: (u8, u8, u8) = (0, 0, 0);
        let mut colors = [black; 64];
        let mut i: usize = 0;
        while i < 64
            invariant
                i <= 64,
                bytes@.len() >= 192,
                forall|j: int|
                    0 <= j < i ==> #[trigger] colors[j] == (
                        bytes@[3 * j],
                        bytes@[3 * j + 1],
                        bytes@[3 * j + 2],
                    ),
            decreases 64 - i,
        {
            colors[i] = (bytes[3 * i], bytes[3 * i + 1], bytes[3 * i + 2]);
            i = i + 1;
        }
        Ok(Palette { colors })
    }

    /// The colour with the number `color_id`, of which the low six bits
    /// count.
    pub fn get_color(&self, color_id: u8) -> (r: Option<(u8, u8, u8)>)
        ensures
            r == Some(self.colors[color_id as int % 64]),
    {
        Some(self.colors[(color_id % 64) as usize])
    }
}

} // verus!
