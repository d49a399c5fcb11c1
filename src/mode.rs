//! Display modes: the raw mode that the builder hands out, and the graphics
//! mode that binds the protocol layer to a pixel mirror and flushes it.
use crate::displaysize::DisplaySize;
use crate::framebuffer::{buffer_len, in_bounds, pixel_of, with_pixel, width_of, Framebuffer};
use crate::properties::{
    appended, command_transfer, commands_outcome, data_transfer, sent_ok, window_commands, DisplayProperties, Transfer,
};
use display_interface::{DisplayError, WriteOnlyDataCommand};
use vstd::prelude::*;

verus! {

/// Raw display mode
pub struct RawMode<DI> {
    properties: DisplayProperties<DI>,
}

impl<DI> RawMode<DI> {
    pub closed spec fn spec_properties(&self) -> DisplayProperties<DI> {
        self.properties
    }

    /// Create a new raw display mode
    pub fn new(properties: DisplayProperties<DI>) -> (r: Self)
        ensures
            r.spec_properties() == properties,
    {
        RawMode { properties }
    }

    /// Release all resources used by RawMode
    pub fn release(self) -> (r: DisplayProperties<DI>)
        ensures
            r == self.spec_properties(),
    {
        self.properties
    }
}

/// Bytes of page `page` in the packed buffer `buf`.
pub open spec fn page_row(size: DisplaySize, buf: Seq<u8>, page: int) -> Seq<u8> {
    buf.subrange(page * width_of(size), (page + 1) * width_of(size))
}

/// One windowed write: the windowing commands for (column, page), then
/// `data`, stopping at the first transfer the transport refuses.
pub open spec fn step_outcome(size: DisplaySize, column: u8, page: u8, data: Seq<u8>, t: Seq<Transfer>, ok: bool) -> bool {
    let window = window_commands(size, column, page);
    if ok {
        t == sent_ok(window).push(data_transfer(data, true))
    } else {
        commands_outcome(window, t, false) || t == sent_ok(window).push(data_transfer(data, false))
    }
}

/// The first `n` pages written successfully one by one in page addressing mode.
pub open spec fn pages_ok(size: DisplaySize, buf: Seq<u8>, n: nat) -> Seq<Transfer>
    decreases n,
{
    if n == 0 {
        Seq::empty()
    } else {
        pages_ok(size, buf, (n - 1) as nat) + sent_ok(window_commands(size, 0, (n - 1) as u8)).push(
            data_transfer(page_row(size, buf, n - 1), true),
        )
    }
}

/// What a flush of `buf` hands to the transport. In vertical mode: one window
/// over the whole panel and one write of the whole buffer. In page mode: for
/// each page in order, a window on that page and a write of its row. Either
/// way it stops at the first transfer the transport refuses.
pub open spec fn flush_outcome(size: DisplaySize, vertical: bool, buf: Seq<u8>, t: Seq<Transfer>, ok: bool) -> bool {
    if vertical {
        step_outcome(size, 0, 0, buf, t, ok)
    } else if ok {
        t == pages_ok(size, buf, size.spec_pages())
    } else {
        exists|p: nat|
            p < size.spec_pages() && #[trigger] pages_ok(size, buf, p).is_prefix_of(t) && step_outcome(
                size,
                0,
                p as u8,
                page_row(size, buf, p as int),
                t.skip(pages_ok(size, buf, p).len() as int),
                false,
            )
    }
}

/// One windowed write: point the controller at (column, page) with the window
/// ending at `end`, then send `data`.
fn write_window<DI: WriteOnlyDataCommand>(
    properties: &mut DisplayProperties<DI>,
    column: u8,
    page: u8,
    end: (u8, u8),
    data: &[u8],
) -> (r: Result<(), DisplayError>)
    ensures
        old(properties).transfers().is_prefix_of(final(properties).transfers()),
        step_outcome(
            old(properties).spec_size(),
            column,
            page,
            data@,
            appended(old(properties).transfers(), final(properties).transfers()),
            r is Ok,
        ),
        final(properties).spec_size() == old(properties).spec_size(),
        final(properties).spec_vertical() == old(properties).spec_vertical(),
{
    let ghost before = properties.transfers();
    let r = properties.set_draw_area((column, page), end);
    match r {
        Err(e) => {
            return Err(e);
        },
        Ok(()) => {},
    }
    let ghost mid = properties.transfers();
    let r = properties.draw(data);
    proof {
        let window = window_commands(properties.spec_size(), column, page);
        assert(mid == before + sent_ok(window));
        assert(appended(before, properties.transfers()) =~= sent_ok(window).push(data_transfer(data@, r is Ok)));
        assert(before.is_prefix_of(properties.transfers()));
    }
    r
}

proof fn lemma_pages_ok_shape(size: DisplaySize, buf: Seq<u8>, n: nat)
    ensures
        pages_ok(size, buf, n).len() == 4 * n,
        forall|p: int, k: int|
            0 <= p < n && 0 <= k < 3 ==> #[trigger] pages_ok(size, buf, n)[4 * p + k] == command_transfer(
                window_commands(size, 0, p as u8)[k],
                true,
            ),
        forall|p: int|
            0 <= p < n ==> #[trigger] pages_ok(size, buf, n)[4 * p + 3] == data_transfer(page_row(size, buf, p), true),
    decreases n,
{
    if n > 0 {
        lemma_pages_ok_shape(size, buf, (n - 1) as nat);
        let prev = pages_ok(size, buf, (n - 1) as nat);
        let cur = pages_ok(size, buf, n);
        assert forall|p: int, k: int|
            0 <= p < n && 0 <= k < 3 implies #[trigger] cur[4 * p + k] == command_transfer(
                window_commands(size, 0, p as u8)[k],
                true,
            ) by {
            if p < n - 1 {
                assert(cur[4 * p + k] == prev[4 * p + k]);
            }
        }
        assert forall|p: int| 0 <= p < n implies #[trigger] cur[4 * p + 3] == data_transfer(
            page_row(size, buf, p),
            true,
        ) by {
            if p < n - 1 {
                assert(cur[4 * p + 3] == prev[4 * p + 3]);
            }
        }
    }
}

/// A successful flush makes exactly the writes its addressing mode calls for.
/// In vertical mode: one window of three commands, then one data write of the
/// whole buffer, `width * pages` bytes. In page mode: for each page in order,
/// a window of three commands on that page, then one data write of its
/// `width` bytes.
pub proof fn lemma_flush_shape(size: DisplaySize, vertical: bool, buf: Seq<u8>, t: Seq<Transfer>)
    requires
        buf.len() == buffer_len(size),
        flush_outcome(size, vertical, buf, t, true),
    ensures
        vertical ==> t.len() == 4 && (forall|k: int| 0 <= k < 3 ==> !(#[trigger] t[k]).data) && t[3]
            == data_transfer(buf, true) && buf.len() == width_of(size) * size.spec_pages(),
        !vertical ==> t.len() == 4 * size.spec_pages() && (forall|p: int, k: int|
            0 <= p < size.spec_pages() && 0 <= k < 3 ==> !(#[trigger] t[4 * p + k]).data) && (forall|p: int|
            0 <= p < size.spec_pages() ==> #[trigger] t[4 * p + 3] == data_transfer(page_row(size, buf, p), true)
                && page_row(size, buf, p).len() == width_of(size)),
{
    if !vertical {
        lemma_pages_ok_shape(size, buf, size.spec_pages());
        let n = size.spec_pages();
        let w = width_of(size);
        assert forall|p: int| 0 <= p < n implies #[trigger] page_row(size, buf, p).len() == w by {
            assert(0 <= p * w && (p + 1) * w <= w * n) by (nonlinear_arith)
                requires
                    0 <= p < n,
                    w >= 0,
            ;
            assert(buf.len() == w * n);
            assert((p + 1) * w == p * w + w) by (nonlinear_arith);
        }
    }
}

/// Graphics mode: the protocol layer plus the pixel mirror of its panel.
pub struct GraphicsMode<DI> {
    properties: DisplayProperties<DI>,
    framebuffer: Framebuffer,
}

impl<DI> GraphicsMode<DI> {
    pub closed spec fn spec_properties(&self) -> DisplayProperties<DI> {
        self.properties
    }

    pub closed spec fn spec_framebuffer(&self) -> Framebuffer {
        self.framebuffer
    }

    /// The mirror matches the panel of the protocol layer and has its full size.
    pub open spec fn wf(&self) -> bool {
        &&& self.spec_framebuffer().wf()
        &&& self.spec_framebuffer().spec_size() == self.spec_properties().spec_size()
    }

    /// Whether pixel (x, y) is on in the mirror.
    pub open spec fn pixel(&self, x: int, y: int) -> bool {
        pixel_of(self.spec_properties().spec_size(), self.spec_framebuffer().bytes(), x, y)
    }

    /// Bind the protocol layer to a blank mirror of its panel.
    pub fn new(properties: DisplayProperties<DI>) -> (r: Self)
        ensures
            r.wf(),
            r.spec_properties() == properties,
            r.spec_framebuffer().bytes() == Seq::new(buffer_len(properties.spec_size()) as nat, |i: int| 0u8),
    {
        let framebuffer = Framebuffer::new(properties.get_size());
        GraphicsMode { properties, framebuffer }
    }

    /// Give the protocol layer back, dropping the mirror.
    pub fn release(self) -> (r: DisplayProperties<DI>)
        ensures
            r == self.spec_properties(),
    {
        self.properties
    }

    /// Panel width and height.
    pub fn dimensions(&self) -> (r: (u8, u8))
        ensures
            r == self.spec_properties().spec_size().spec_dimensions(),
    {
        self.properties.get_size().dimensions()
    }

    /// Turn the pixel at (x, y) on or off in the mirror. A pixel off the panel is ignored.
    pub fn set_pixel(&mut self, x: i32, y: i32, on: bool)
        requires
            old(self).wf(),
        ensures
            final(self).wf(),
            final(self).spec_properties() == old(self).spec_properties(),
            final(self).spec_framebuffer().bytes() == with_pixel(
                old(self).spec_properties().spec_size(),
                old(self).spec_framebuffer().bytes(),
                x as int,
                y as int,
                on,
            ),
    {
        self.framebuffer.set_pixel(x, y, on);
    }

    /// Whether the pixel at (x, y) is on in the mirror; `None` off the panel.
    pub fn get_pixel(&self, x: i32, y: i32) -> (r: Option<bool>)
        requires
            self.wf(),
        ensures
            in_bounds(self.spec_properties().spec_size(), x as int, y as int) ==> r == Some(
                self.pixel(x as int, y as int),
            ),
            !in_bounds(self.spec_properties().spec_size(), x as int, y as int) ==> r is None,
    {
        self.framebuffer.get_pixel(x, y)
    }
}

impl<DI: WriteOnlyDataCommand> GraphicsMode<DI> {
    /// Run the controller's power-up sequence.
    pub fn init(&mut self) -> (r: Result<(), DisplayError>)
        requires
            old(self).wf(),
        ensures
            final(self).wf(),
            final(self).spec_framebuffer() == old(self).spec_framebuffer(),
            old(self).spec_properties().transfers().is_prefix_of(final(self).spec_properties().transfers()),
            commands_outcome(
                crate::properties::init_commands(
                    old(self).spec_properties().spec_size(),
                    old(self).spec_properties().spec_vertical(),
                ),
                appended(old(self).spec_properties().transfers(), final(self).spec_properties().transfers()),
                r is Ok,
            ),
            final(self).spec_properties().spec_size() == old(self).spec_properties().spec_size(),
            final(self).spec_properties().spec_vertical() == old(self).spec_properties().spec_vertical(),
    {
        self.properties.init()
    }

    /// Push the whole mirror to the panel.
    pub fn flush(&mut self) -> (r: Result<(), DisplayError>)
        requires
            old(self).wf(),
        ensures
            final(self).wf(),
            final(self).spec_framebuffer() == old(self).spec_framebuffer(),
            final(self).spec_properties().spec_size() == old(self).spec_properties().spec_size(),
            final(self).spec_properties().spec_vertical() == old(self).spec_properties().spec_vertical(),
            old(self).spec_properties().transfers().is_prefix_of(final(self).spec_properties().transfers()),
            flush_outcome(
                old(self).spec_properties().spec_size(),
                old(self).spec_properties().spec_vertical(),
                old(self).spec_framebuffer().bytes(),
                appended(old(self).spec_properties().transfers(), final(self).spec_properties().transfers()),
                r is Ok,
            ),
    {
        let size = self.properties.get_size();
        let (w, _) = size.dimensions();
        let pages = size.pages();
        if self.properties.is_vertical() {
            return write_window(&mut self.properties, 0, 0, (w, pages), self.framebuffer.as_bytes());
        }
        let ghost before = self.properties.transfers();
        let ghost buf = self.framebuffer.bytes();
        let mut p: u8 = 0;
        while p < pages
            invariant
                self.wf(),
                self.spec_framebuffer() == old(self).spec_framebuffer(),
                self.spec_properties().spec_size() == size,
                self.spec_properties().spec_vertical() == old(self).spec_properties().spec_vertical(),
                !old(self).spec_properties().spec_vertical(),
                size == old(self).spec_properties().spec_size(),
                buf == old(self).spec_framebuffer().bytes(),
                before == old(self).spec_properties().transfers(),
                w as int == width_of(size),
                pages as nat == size.spec_pages(),
                pages == 20,
                w <= 160,
                p <= pages,
                self.properties.transfers() == before + pages_ok(size, buf, p as nat),
            decreases pages - p,
        {
            assert((p as int) * (w as int) + (w as int) == (p as int + 1) * (w as int) <= 20 * (w as int) <= 3200)
                by (nonlinear_arith)
                requires
                    p < 20,
                    w <= 160,
            ;
            assert(buffer_len(size) == 20 * (w as int));
            let start: usize = p as usize * w as usize;
            let end: usize = start + w as usize;
            let row = vstd::slice::slice_subrange(self.framebuffer.as_bytes(), start, end);
            assert(row@ == page_row(size, buf, p as int));
            let ghost mid = self.properties.transfers();
            let r = write_window(&mut self.properties, 0, p, (w, p + 1), row);
            proof {
                let s = appended(mid, self.properties.transfers());
                assert(self.properties.transfers() =~= before + pages_ok(size, buf, p as nat) + s);
            }
            match r {
                Err(e) => {
                    proof {
                        let t = appended(before, self.properties.transfers());
                        let s = appended(mid, self.properties.transfers());
                        assert(t =~= pages_ok(size, buf, p as nat) + s);
                        assert(t.skip(pages_ok(size, buf, p as nat).len() as int) =~= s);
                        assert(pages_ok(size, buf, p as nat).is_prefix_of(t));
                        assert(before.is_prefix_of(self.properties.transfers()));
                    }
                    return Err(e);
                },
                Ok(()) => {},
            }
            proof {
                let s = appended(mid, self.properties.transfers());
                assert(pages_ok(size, buf, (p + 1) as nat) == pages_ok(size, buf, p as nat) + s);
            }
            p += 1;
        }
        proof {
            assert(appended(before, self.properties.transfers()) =~= pages_ok(size, buf, p as nat));
            assert(before.is_prefix_of(self.properties.transfers()));
        }
        Ok(())
    }
}

} // verus!
