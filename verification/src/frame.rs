//! The display as a frame of RGBA pixels, for a host that paints it.

use vstd::prelude::*;

verus! {

/// The value of colour channel `channel` (red, green, blue, alpha) of a
/// display cell: a pale green where the cell is lit, near black where it
/// is not, both opaque.
pub open spec fn channel_of(lit: bool, channel: int) -> u8 {
    if channel == 3 {
        255
    } else if lit {
        if channel == 1 {
            246
        } else {
            240
        }
    } else {
        if channel == 0 {
            34
        } else {
            35
        }
    }
}

/// The frame of a display: for each cell in order its four channels.
pub open spec fn frame_of(display: Seq<u8>) -> Seq<u8> {
    Seq::new(8192, |k: int| channel_of(display[k / 4] == 1, k % 4))
}

/// Renders the display as RGBA bytes, row by row.
pub fn rgba_pixels(display: &[u8; 2048]) -> (frame: Vec<u8>)
    ensures
        frame@ == frame_of(display@),
{
    let mut frame: Vec<u8> = Vec::with_capacity(8192);
    let mut p: usize = 0;
    while p < 2048
        invariant
            p <= 2048,
            frame@.len() == 4 * p,
            forall|k: int|
                0 <= k < 4 * p ==> #[trigger] frame@[k] == channel_of(display@[k / 4] == 1, k % 4),
        decreases 2048 - p,
    {
        if display[p] == 1 {
            frame.push(240);
            frame.push(246);
            frame.push(240);
            frame.push(255);
        } else {
            frame.push(34);
            frame.push(35);
            frame.push(35);
            frame.push(255);
        }
        p += 1;
    }
    assert(frame@ =~= frame_of(display@));
    frame
}

} // verus!
