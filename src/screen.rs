use crate::frame::FrameHalf;
use vstd::prelude::*;

verus! {

pub const SCREEN_WIDTH: usize = 224;

pub const SCREEN_HEIGHT: usize = 256;

/// Pixels in the framebuffer, one per bit of video memory.
pub const PIXEL_COUNT: usize = 57344;

/// Bytes of video memory.
pub const VMEM_LEN: usize = 7168;

pub const COLOR_OFF: u32 = 0x0000_0000;

pub const COLOR_RED: u32 = 0x00ff_0000;

pub const COLOR_GREEN: u32 = 0x0000_ff00;

pub const COLOR_WHITE: u32 = 0x00ff_ffff;

/// Position of canvas pixel (`cx`, `cy`) in the row-major framebuffer.
pub open spec fn pixel_index(cx: int, cy: int) -> int {
    cx + 224 * cy
}

/// The colour of the overlay film in front of canvas pixel (`cx`, `cy`).
pub open spec fn overlay_color(cx: int, cy: int) -> u32 {
    if 32 <= cy < 64 {
        COLOR_RED
    } else if cy >= 184 && (cy < 240 || (16 <= cx < 134)) {
        COLOR_GREEN
    } else {
        COLOR_WHITE
    }
}

/// Whether the bit of video memory shown at canvas pixel (`cx`, `cy`) is
/// set. The tube is rotated: canvas column `cx` is memory row `cx`, and
/// canvas row `cy` is memory column `255 - cy`, eight columns per byte with
/// the lowest bit first.
pub open spec fn pixel_on(vmem: Seq<u8>, cx: int, cy: int) -> bool {
    let x = 255 - cy;
    (vmem[32 * cx + x / 8] >> ((x % 8) as u8)) & 1u8 == 1u8
}

/// The colour decoded for canvas pixel (`cx`, `cy`).
pub open spec fn decoded_pixel(vmem: Seq<u8>, cx: int, cy: int) -> u32 {
    if pixel_on(vmem, cx, cy) {
        overlay_color(cx, cy)
    } else {
        COLOR_OFF
    }
}

/// Canvas columns `0..112` are drawn from the first half of video memory
/// and belong to the top half of the frame; columns `112..224` to the bottom.
pub open spec fn in_half(cx: int, half: FrameHalf) -> bool {
    match half {
        FrameHalf::Top => cx < 112,
        FrameHalf::Bottom => cx >= 112,
    }
}

/// `after` is `before` with the pixels of `half` decoded from `vmem` and the
/// pixels of the other half left as they were.
pub open spec fn redrawn(before: Seq<u32>, after: Seq<u32>, vmem: Seq<u8>, half: FrameHalf) -> bool {
    &&& after.len() == PIXEL_COUNT
    &&& forall|cx: int, cy: int|
        0 <= cx < 224 && 0 <= cy < 256 ==> #[trigger] after[pixel_index(cx, cy)] == if in_half(
            cx,
            half,
        ) {
            decoded_pixel(vmem, cx, cy)
        } else {
            before[pixel_index(cx, cy)]
        }
}

/// The colour of canvas pixel (`canvas_x`, `canvas_y`) when its bit is `on`.
pub fn pixel_color(canvas_x: usize, canvas_y: usize, on: bool) -> (r: u32)
    ensures
        r == if on {
            overlay_color(canvas_x as int, canvas_y as int)
        } else {
            COLOR_OFF
        },
{
    if !on {
        COLOR_OFF
    } else if canvas_y >= 32 && canvas_y < 64 {
        COLOR_RED
    } else if canvas_y >= 184 && (canvas_y < 240 || (canvas_x >= 16 && canvas_x < 134)) {
        COLOR_GREEN
    } else {
        COLOR_WHITE
    }
}

/// The 224 x 256 framebuffer, row-major, one 32-bit colour per pixel.
pub struct Display {
    pub buf: Vec<u32>,
}

impl Display {
    pub open spec fn wf(&self) -> bool {
        self.buf@.len() == PIXEL_COUNT
    }

    /// A framebuffer with every pixel off.
    pub fn new() -> (r: Display)
        ensures
            r.wf(),
            forall|i: int| 0 <= i < PIXEL_COUNT ==> #[trigger] r.buf@[i] == COLOR_OFF,
    {
        let mut buf: Vec<u32> = Vec::new();
        let mut i: usize = 0;
        while i < PIXEL_COUNT
            invariant
                i <= PIXEL_COUNT,
                buf@.len() == i,
                forall|j: int| 0 <= j < i ==> #[trigger] buf@[j] == COLOR_OFF,
            decreases PIXEL_COUNT - i,
        {
            buf.push(COLOR_OFF);
            i = i + 1;
        }
        Display { buf }
    }

    /// Redraws the pixels of `half` from video memory, leaving the other
    /// half as it was.
    pub fn draw(&mut self, vmem: &[u8; 7168], half: FrameHalf)
        requires
            old(self).wf(),
        ensures
            final(self).wf(),
            redrawn(old(self).buf@, final(self).buf@, vmem@, half),
    {
        let (lo, hi): (usize, usize) = match half {
            FrameHalf::Top => (0, 112),
            FrameHalf::Bottom => (112, 224),
        };
        let mut cx: usize = lo;
        while cx < hi
            invariant
                lo <= cx <= hi <= 224,
                forall|c: int| 0 <= c < 224 ==> (in_half(c, half) <==> lo <= c < hi),
                vmem@.len() == VMEM_LEN,
                self.buf@.len() == PIXEL_COUNT,
                forall|a: int, b: int|
                    0 <= a < 224 && 0 <= b < 256 ==> #[trigger] self.buf@[pixel_index(a, b)] == if lo
                        <= a < cx {
                        decoded_pixel(vmem@, a, b)
                    } else {
                        old(self).buf@[pixel_index(a, b)]
                    },
            decreases hi - cx,
        {
            let mut x: usize = 0;
            while x < 256
                invariant
                    lo <= cx < hi <= 224,
                    x <= 256,
                    vmem@.len() == VMEM_LEN,
                    self.buf@.len() == PIXEL_COUNT,
                    forall|a: int, b: int|
                        0 <= a < 224 && 0 <= b < 256 ==> #[trigger] self.buf@[pixel_index(a, b)]
                            == if (lo <= a < cx) || (a == cx && 255 - b < x) {
                            decoded_pixel(vmem@, a, b)
                        } else {
                            old(self).buf@[pixel_index(a, b)]
                        },
                decreases 256 - x,
            {
                let byte = vmem[cx * 32 + x / 8];
                let on = (byte >> ((x % 8) as u8)) & 1 == 1;
                let cy = 255 - x;
                let color = pixel_color(cx, cy, on);
                let ghost prev = self.buf@;
                self.buf.set(cx + cy * 224, color);
                assert forall|a: int, b: int|
                    0 <= a < 224 && 0 <= b < 256 && !(a == cx && b == cy) implies #[trigger] self.buf@[pixel_index(a, b)]
                        == prev[pixel_index(a, b)] by {
                    assert(pixel_index(a, b) != pixel_index(cx as int, cy as int));
                }
                x = x + 1;
            }
            cx = cx + 1;
        }
    }
}

/// Video memory with every bit clear decodes to a framebuffer with every
/// pixel off.
pub proof fn lemma_blank_memory_is_dark(vmem: Seq<u8>)
    requires
        vmem.len() == VMEM_LEN,
        forall|i: int| 0 <= i < vmem.len() ==> #[trigger] vmem[i] == 0,
    ensures
        forall|cx: int, cy: int|
            0 <= cx < 224 && 0 <= cy < 256 ==> #[trigger] decoded_pixel(vmem, cx, cy) == COLOR_OFF,
{
    assert forall|cx: int, cy: int| 0 <= cx < 224 && 0 <= cy < 256 implies #[trigger] decoded_pixel(
        vmem,
        cx,
        cy,
    ) == COLOR_OFF by {
        let x = 255 - cy;
        let s = (x % 8) as u8;
        assert(vmem[32 * cx + x / 8] == 0);
        assert((0u8 >> s) & 1u8 == 0u8) by (bit_vector);
    }
}

/// Video memory with every bit set decodes to a framebuffer with no pixel
/// off: each pixel shows the colour of its overlay zone.
pub proof fn lemma_full_memory_shows_overlay(vmem: Seq<u8>)
    requires
        vmem.len() == VMEM_LEN,
        forall|i: int| 0 <= i < vmem.len() ==> #[trigger] vmem[i] == 0xff,
    ensures
        forall|cx: int, cy: int|
            0 <= cx < 224 && 0 <= cy < 256 ==> #[trigger] decoded_pixel(vmem, cx, cy)
                == overlay_color(cx, cy) && overlay_color(cx, cy) != COLOR_OFF,
{
    assert forall|cx: int, cy: int| 0 <= cx < 224 && 0 <= cy < 256 implies #[trigger] decoded_pixel(
        vmem,
        cx,
        cy,
    ) == overlay_color(cx, cy) && overlay_color(cx, cy) != COLOR_OFF by {
        let x = 255 - cy;
        let s = (x % 8) as u8;
        assert(vmem[32 * cx + x / 8] == 0xff);
        assert(s < 8);
        assert((0xffu8 >> s) & 1u8 == 1u8) by (bit_vector)
            requires
                s < 8,
        ;
    }
}

/// Every pixel of the framebuffer is canvas pixel (`i % 224`, `i / 224`).
proof fn lemma_pixel_of_index(i: int)
    requires
        0 <= i < PIXEL_COUNT,
    ensures
        0 <= i % 224 < 224,
        0 <= i / 224 < 256,
        pixel_index(i % 224, i / 224) == i,
{
}

/// Redrawing the top half and then the bottom half from the same video
/// memory leaves every pixel decoded from it.
pub proof fn lemma_both_halves_decode_frame(
    before: Seq<u32>,
    mid: Seq<u32>,
    after: Seq<u32>,
    vmem: Seq<u8>,
)
    requires
        redrawn(before, mid, vmem, FrameHalf::Top),
        redrawn(mid, after, vmem, FrameHalf::Bottom),
    ensures
        after.len() == PIXEL_COUNT,
        forall|cx: int, cy: int|
            0 <= cx < 224 && 0 <= cy < 256 ==> #[trigger] after[pixel_index(cx, cy)]
                == decoded_pixel(vmem, cx, cy),
{
    assert forall|cx: int, cy: int| 0 <= cx < 224 && 0 <= cy < 256 implies #[trigger] after[pixel_index(
        cx,
        cy,
    )] == decoded_pixel(vmem, cx, cy) by {
        if cx < 112 {
            assert(mid[pixel_index(cx, cy)] == decoded_pixel(vmem, cx, cy));
        }
    }
}

/// Redrawing both halves from video memory with every bit clear leaves all
/// 57344 pixels off, whatever the framebuffer held before.
pub proof fn lemma_blank_frame(before: Seq<u32>, mid: Seq<u32>, after: Seq<u32>, vmem: Seq<u8>)
    requires
        vmem.len() == VMEM_LEN,
        forall|i: int| 0 <= i < vmem.len() ==> #[trigger] vmem[i] == 0,
        redrawn(before, mid, vmem, FrameHalf::Top),
        redrawn(mid, after, vmem, FrameHalf::Bottom),
    ensures
        after.len() == PIXEL_COUNT,
        forall|i: int| 0 <= i < PIXEL_COUNT ==> #[trigger] after[i] == COLOR_OFF,
{
    lemma_both_halves_decode_frame(before, mid, after, vmem);
    lemma_blank_memory_is_dark(vmem);
    assert forall|i: int| 0 <= i < PIXEL_COUNT implies #[trigger] after[i] == COLOR_OFF by {
        lemma_pixel_of_index(i);
        assert(after[pixel_index(i % 224, i / 224)] == decoded_pixel(vmem, i % 224, i / 224));
    }
}

/// Redrawing both halves from video memory with every bit set leaves no
/// pixel off: each shows the colour of its overlay zone.
pub proof fn lemma_lit_frame(before: Seq<u32>, mid: Seq<u32>, after: Seq<u32>, vmem: Seq<u8>)
    requires
        vmem.len() == VMEM_LEN,
        forall|i: int| 0 <= i < vmem.len() ==> #[trigger] vmem[i] == 0xff,
        redrawn(before, mid, vmem, FrameHalf::Top),
        redrawn(mid, after, vmem, FrameHalf::Bottom),
    ensures
        after.len() == PIXEL_COUNT,
        forall|cx: int, cy: int|
            0 <= cx < 224 && 0 <= cy < 256 ==> #[trigger] after[pixel_index(cx, cy)]
                == overlay_color(cx, cy),
        forall|i: int| 0 <= i < PIXEL_COUNT ==> #[trigger] after[i] != COLOR_OFF,
{
    lemma_both_halves_decode_frame(before, mid, after, vmem);
    lemma_full_memory_shows_overlay(vmem);
    assert forall|i: int| 0 <= i < PIXEL_COUNT implies #[trigger] after[i] != COLOR_OFF by {
        lemma_pixel_of_index(i);
        assert(after[pixel_index(i % 224, i / 224)] == decoded_pixel(vmem, i % 224, i / 224));
    }
}

} // verus!
