//! The in-memory mirror of the panel: one bit per pixel, packed page-major.
//! Byte `page * width + x` holds column `x` of rows `8 * page .. 8 * page + 8`,
//! bit 0 being the topmost of those rows.
use crate::displaysize::DisplaySize;
use vstd::prelude::*;

verus! {

/// Panel width in pixels.
pub open spec fn width_of(size: DisplaySize) -> int {
    size.spec_dimensions().0 as int
}

/// Panel height in pixels.
pub open spec fn height_of(size: DisplaySize) -> int {
    size.spec_dimensions().1 as int
}

/// Number of bytes that mirror a whole panel.
pub open spec fn buffer_len(size: DisplaySize) -> int {
    width_of(size) * size.spec_pages() as int
}

/// Whether (x, y) lies on the panel.
pub open spec fn in_bounds(size: DisplaySize, x: int, y: int) -> bool {
    0 <= x < width_of(size) && 0 <= y < height_of(size)
}

/// Index of the byte that holds pixel (x, y).
pub open spec fn byte_index(size: DisplaySize, x: int, y: int) -> int {
    (y / 8) * width_of(size) + x
}

/// Mask of the bit that holds pixel (x, y) within its byte.
pub open spec fn bit_mask(y: int) -> u8 {
    1u8 << ((y % 8) as u8)
}

/// Whether pixel (x, y) is on in the packed buffer `buf`.
pub open spec fn pixel_of(size: DisplaySize, buf: Seq<u8>, x: int, y: int) -> bool {
    buf[byte_index(size, x, y)] & bit_mask(y) != 0
}

/// `buf` with pixel (x, y) turned on or off; unchanged when (x, y) is off the panel.
pub open spec fn with_pixel(size: DisplaySize, buf: Seq<u8>, x: int, y: int, on: bool) -> Seq<u8> {
    if in_bounds(size, x, y) {
        let i = byte_index(size, x, y);
        let b = if on { buf[i] | bit_mask(y) } else { buf[i] & !bit_mask(y) };
        buf.update(i, b)
    } else {
        buf
    }
}

proof fn lemma_bits(b: u8, k: u8, j: u8) by (bit_vector)
    requires
        k < 8,
        j < 8,
    ensures
        (b | (1u8 << k)) & (1u8 << k) != 0,
        (b & !(1u8 << k)) & (1u8 << k) == 0,
        j != k ==> (((b | (1u8 << k)) & (1u8 << j) != 0) == (b & (1u8 << j) != 0)),
        j != k ==> (((b & !(1u8 << k)) & (1u8 << j) != 0) == (b & (1u8 << j) != 0)),
        (b | (1u8 << k)) | (1u8 << k) == b | (1u8 << k),
        (b & !(1u8 << k)) & !(1u8 << k) == b & !(1u8 << k),
{
}

proof fn lemma_index(size: DisplaySize, x: int, y: int)
    requires
        in_bounds(size, x, y),
    ensures
        0 <= byte_index(size, x, y) < buffer_len(size),
{
    let w = width_of(size);
    let p = y / 8;
    assert(size.spec_pages() == 20);
    assert(0 <= p * w + x < 20 * w) by (nonlinear_arith)
        requires
            0 <= p < 20,
            0 <= x < w,
    ;
}

proof fn lemma_index_injective(size: DisplaySize, x: int, y: int, x2: int, y2: int)
    requires
        in_bounds(size, x, y),
        in_bounds(size, x2, y2),
        byte_index(size, x, y) == byte_index(size, x2, y2),
    ensures
        x == x2,
        y / 8 == y2 / 8,
{
    let w = width_of(size);
    let p = y / 8;
    let p2 = y2 / 8;
    assert(p == p2 && x == x2) by (nonlinear_arith)
        requires
            p * w + x == p2 * w + x2,
            0 <= x < w,
            0 <= x2 < w,
            p >= 0,
            p2 >= 0,
    ;
}

/// Setting a pixel on the panel and reading it back gives the value set, every
/// other pixel keeps its value, and setting it to the same value again
/// changes nothing more.
pub proof fn lemma_set_then_get(size: DisplaySize, buf: Seq<u8>, x: int, y: int, on: bool)
    requires
        buf.len() == buffer_len(size),
        in_bounds(size, x, y),
    ensures
        pixel_of(size, with_pixel(size, buf, x, y, on), x, y) == on,
        forall|x2: int, y2: int|
            in_bounds(size, x2, y2) && (x2 != x || y2 != y) ==> #[trigger] pixel_of(
                size,
                with_pixel(size, buf, x, y, on),
                x2,
                y2,
            ) == pixel_of(size, buf, x2, y2),
        with_pixel(size, with_pixel(size, buf, x, y, on), x, y, on) == with_pixel(size, buf, x, y, on),
{
    lemma_index(size, x, y);
    let i = byte_index(size, x, y);
    let k = (y % 8) as u8;
    lemma_bits(buf[i], k, 0);
    let nb = with_pixel(size, buf, x, y, on);
    assert forall|x2: int, y2: int|
        in_bounds(size, x2, y2) && (x2 != x || y2 != y) implies #[trigger] pixel_of(size, nb, x2, y2)
        == pixel_of(size, buf, x2, y2) by {
        lemma_index(size, x2, y2);
        if byte_index(size, x2, y2) == i {
            lemma_index_injective(size, x, y, x2, y2);
            assert(y2 % 8 != y % 8);
            lemma_bits(buf[i], k, (y2 % 8) as u8);
        }
    }
    assert(with_pixel(size, nb, x, y, on) =~= nb);
}

/// Setting a pixel off the panel leaves every byte of the mirror as it was.
pub proof fn lemma_set_out_of_bounds(size: DisplaySize, buf: Seq<u8>, x: int, y: int, on: bool)
    requires
        !in_bounds(size, x, y),
    ensures
        with_pixel(size, buf, x, y, on) == buf,
{
}

/// The pixel mirror of one panel.
pub struct Framebuffer {
    size: DisplaySize,
    buffer: Vec<u8>,
}

impl Framebuffer {
    pub closed spec fn spec_size(&self) -> DisplaySize {
        self.size
    }

    /// The packed bytes, page-major and column-minor.
    pub closed spec fn bytes(&self) -> Seq<u8> {
        self.buffer@
    }

    /// The buffer holds exactly one byte per column of each page.
    pub open spec fn wf(&self) -> bool {
        self.bytes().len() == buffer_len(self.spec_size())
    }

    /// A mirror of a panel of `size` with every pixel off.
    pub fn new(size: DisplaySize) -> (r: Self)
        ensures
            r.wf(),
            r.spec_size() == size,
            r.bytes() == Seq::new(buffer_len(size) as nat, |i: int| 0u8),
    {
        let (w, _) = size.dimensions();
        let pages = size.pages();
        assert(w as int * pages as int <= 3200) by (nonlinear_arith)
            requires
                w <= 160,
                pages == 20,
        ;
        let len: usize = w as usize * pages as usize;
        let mut buffer: Vec<u8> = Vec::new();
        let mut i: usize = 0;
        while i < len
            invariant
                i <= len,
                len == buffer_len(size),
                buffer@ == Seq::new(i as nat, |j: int| 0u8),
            decreases len - i,
        {
            buffer.push(0);
            i += 1;
            assert(buffer@ =~= Seq::new(i as nat, |j: int| 0u8));
        }
        Framebuffer { size, buffer }
    }

    /// The panel size.
    pub fn get_size(&self) -> (r: DisplaySize)
        ensures
            r == self.spec_size(),
    {
        self.size
    }

    /// The packed bytes, page-major and column-minor.
    pub fn as_bytes(&self) -> (r: &[u8])
        ensures
            r@ == self.bytes(),
    {
        self.buffer.as_slice()
    }

    /// Turn the pixel at (x, y) on or off. A pixel off the panel is ignored.
    pub fn set_pixel(&mut self, x: i32, y: i32, on: bool)
        requires
            old(self).wf(),
        ensures
            final(self).wf(),
            final(self).spec_size() == old(self).spec_size(),
            final(self).bytes() == with_pixel(old(self).spec_size(), old(self).bytes(), x as int, y as int, on),
    {
        let (w, h) = self.size.dimensions();
        if x < 0 || y < 0 || x >= w as i32 || y >= h as i32 {
            return;
        }
        proof {
            lemma_index(self.size, x as int, y as int);
        }
        let idx: usize = (y as usize / 8) * w as usize + x as usize;
        let mask: u8 = 1u8 << ((y % 8) as u8);
        let b = self.buffer[idx];
        if on {
            self.buffer.set(idx, b | mask);
        } else {
            self.buffer.set(idx, b & !mask);
        }
    }

    /// Whether the pixel at (x, y) is on; `None` off the panel.
    pub fn get_pixel(&self, x: i32, y: i32) -> (r: Option<bool>)
        requires
            self.wf(),
        ensures
            in_bounds(self.spec_size(), x as int, y as int) ==> r == Some(
                pixel_of(self.spec_size(), self.bytes(), x as int, y as int),
            ),
            !in_bounds(self.spec_size(), x as int, y as int) ==> r is None,
    {
        let (w, h) = self.size.dimensions();
        if x < 0 || y < 0 || x >= w as i32 || y >= h as i32 {
            return None;
        }
        proof {
            lemma_index(self.size, x as int, y as int);
        }
        let idx: usize = (y as usize / 8) * w as usize + x as usize;
        let mask: u8 = 1u8 << ((y % 8) as u8);
        Some(self.buffer[idx] & mask != 0)
    }
}

} // verus!
