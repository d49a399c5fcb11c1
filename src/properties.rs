//! The protocol layer: sequences controller commands and pixel data over the
//! transport, and owns the panel's addressing configuration.
use crate::command::Command;
use crate::displaysize::DisplaySize;
use crate::interface::{transmit_commands, transmit_data};
use display_interface::{DisplayError, WriteOnlyDataCommand};
use vstd::prelude::*;

verus! {

/// One transfer handed to the transport: its channel, its bytes, and whether
/// the transport reported success.
pub struct Transfer {
    pub data: bool,
    pub bytes: Seq<u8>,
    pub ok: bool,
}

/// The transfer that sends one command.
pub open spec fn command_transfer(c: Command, ok: bool) -> Transfer {
    Transfer { data: false, bytes: c.encoding(), ok }
}

/// The transfer that sends a block of display data.
pub open spec fn data_transfer(bytes: Seq<u8>, ok: bool) -> Transfer {
    Transfer { data: true, bytes, ok }
}

/// Each command of `cmds` sent in order, every one successfully.
pub open spec fn sent_ok(cmds: Seq<Command>) -> Seq<Transfer> {
    cmds.map_values(|c: Command| command_transfer(c, true))
}

/// `t` is what sending `cmds` one by one, stopping at the first failure, hands
/// to the transport: all of them when `ok`, otherwise a prefix that succeeded
/// followed by the one command that failed.
pub open spec fn commands_outcome(cmds: Seq<Command>, t: Seq<Transfer>, ok: bool) -> bool {
    if ok {
        t == sent_ok(cmds)
    } else {
        exists|n: int|
            0 <= n < cmds.len() && t == sent_ok(cmds.take(n)).push(command_transfer(cmds[n], false))
    }
}

/// What the transport received after `before`, when `before` is a prefix of `after`.
pub open spec fn appended(before: Seq<Transfer>, after: Seq<Transfer>) -> Seq<Transfer> {
    after.skip(before.len() as int)
}

/// The power-up sequence for a panel of `size`, in the given addressing mode.
pub open spec fn init_commands(size: DisplaySize, vertical: bool) -> Seq<Command> {
    seq![
        Command::DisplayOn(false),
        Command::DisplayClockDiv(0x8, 0x0),
        Command::DisplayResolution(size),
        Command::AddressMode(vertical),
        Command::SegmentRemap(false),
        Command::SetCommonScanDir(false),
        Command::Contrast(0x7F),
        Command::PreChargePeriod(0x2, 0x2),
        Command::Invert(false),
        Command::AllOn(false),
        Command::DisplayOn(true),
    ]
}

/// The commands that point the controller at panel column `column` of page
/// `page`: the column is shifted by the panel's offset into controller memory.
pub open spec fn window_commands(size: DisplaySize, column: u8, page: u8) -> Seq<Command> {
    let c = column as int + size.spec_column_offset() as int;
    seq![
        Command::PageAddress(page),
        Command::ColumnAddressLow((c % 16) as u8),
        Command::ColumnAddressHigh((c / 16) as u8),
    ]
}

/// Sending a sequence of commands never skips, repeats or reorders one: on
/// success the transport saw each command once, in order, each succeeding; on
/// failure it saw the first `n` commands succeed, the next one fail, and
/// nothing after it.
pub proof fn lemma_commands_in_order(cmds: Seq<Command>, t: Seq<Transfer>, ok: bool)
    requires
        commands_outcome(cmds, t, ok),
    ensures
        ok ==> t.len() == cmds.len() && forall|i: int|
            0 <= i < cmds.len() ==> #[trigger] t[i] == command_transfer(cmds[i], true),
        !ok ==> exists|n: int|
            0 <= n < cmds.len() && t.len() == n + 1 && t[n] == command_transfer(cmds[n], false) && (forall|i: int|
                0 <= i < n ==> #[trigger] t[i] == command_transfer(cmds[i], true)),
{
    if !ok {
        let n = choose|n: int|
            0 <= n < cmds.len() && t == sent_ok(cmds.take(n)).push(command_transfer(cmds[n], false));
        assert(t.len() == n + 1 && t[n] == command_transfer(cmds[n], false));
        assert forall|i: int| 0 <= i < n implies #[trigger] t[i] == command_transfer(cmds[i], true) by {
            assert(t[i] == sent_ok(cmds.take(n))[i]);
        }
    }
}

proof fn lemma_sent_ok_step(cmds: Seq<Command>, i: int)
    requires
        0 <= i < cmds.len(),
    ensures
        sent_ok(cmds.take(i + 1)) == sent_ok(cmds.take(i)).push(command_transfer(cmds[i], true)),
{
    assert(sent_ok(cmds.take(i + 1)) =~= sent_ok(cmds.take(i)).push(command_transfer(cmds[i], true)));
}

/// Build the power-up sequence for a panel of `size`.
pub fn init_sequence(size: DisplaySize, vertical: bool) -> (r: Vec<Command>)
    ensures
        r@ == init_commands(size, vertical),
{
    let mut v: Vec<Command> = Vec::new();
    v.push(Command::DisplayOn(false));
    v.push(Command::DisplayClockDiv(0x8, 0x0));
    v.push(Command::DisplayResolution(size));
    v.push(Command::AddressMode(vertical));
    v.push(Command::SegmentRemap(false));
    v.push(Command::SetCommonScanDir(false));
    v.push(Command::Contrast(0x7F));
    v.push(Command::PreChargePeriod(0x2, 0x2));
    v.push(Command::Invert(false));
    v.push(Command::AllOn(false));
    v.push(Command::DisplayOn(true));
    assert(v@ =~= init_commands(size, vertical));
    v
}

/// Build the commands that point the controller at panel column `column` of page `page`.
pub fn window_sequence(size: DisplaySize, column: u8, page: u8) -> (r: Vec<Command>)
    ensures
        r@ == window_commands(size, column, page),
{
    let c: u16 = column as u16 + size.column_offset() as u16;
    let mut v: Vec<Command> = Vec::new();
    v.push(Command::PageAddress(page));
    v.push(Command::ColumnAddressLow((c % 16) as u8));
    v.push(Command::ColumnAddressHigh((c / 16) as u8));
    assert(v@ =~= window_commands(size, column, page));
    v
}

/// Display properties: the transport, the panel size, the addressing mode the
/// driver runs the controller in, and the current drawing window.
pub struct DisplayProperties<DI> {
    iface: DI,
    display_size: DisplaySize,
    vertical: bool,
    draw_area_start: (u8, u8),
    draw_area_end: (u8, u8),
    log: Ghost<Seq<Transfer>>,
}

impl<DI> DisplayProperties<DI> {
    /// Every transfer handed to the transport so far, oldest first.
    pub closed spec fn transfers(&self) -> Seq<Transfer> {
        self.log@
    }

    /// The transport this layer writes through.
    pub closed spec fn spec_iface(&self) -> DI {
        self.iface
    }

    pub closed spec fn spec_size(&self) -> DisplaySize {
        self.display_size
    }

    /// `true` for vertical addressing, `false` for page addressing.
    pub closed spec fn spec_vertical(&self) -> bool {
        self.vertical
    }

    /// The window as (column, page) of its first and of its end corner.
    pub closed spec fn spec_draw_area(&self) -> ((u8, u8), (u8, u8)) {
        (self.draw_area_start, self.draw_area_end)
    }

    /// Wrap a transport for a panel of `display_size`, to be run in vertical
    /// (`true`) or page (`false`) addressing mode.
    pub fn new(iface: DI, display_size: DisplaySize, vertical: bool) -> (r: Self)
        ensures
            r.transfers() == Seq::<Transfer>::empty(),
            r.spec_iface() == iface,
            r.spec_size() == display_size,
            r.spec_vertical() == vertical,
            r.spec_draw_area() == ((0u8, 0u8), (0u8, 0u8)),
    {
        DisplayProperties {
            iface,
            display_size,
            vertical,
            draw_area_start: (0, 0),
            draw_area_end: (0, 0),
            log: Ghost(Seq::empty()),
        }
    }

    /// Give the transport back.
    pub fn release(self) -> (r: DI)
        ensures
            r == self.spec_iface(),
    {
        self.iface
    }

    /// The panel size.
    pub fn get_size(&self) -> (r: DisplaySize)
        ensures
            r == self.spec_size(),
    {
        self.display_size
    }

    /// Whether the driver runs the controller in vertical addressing mode.
    pub fn is_vertical(&self) -> (r: bool)
        ensures
            r == self.spec_vertical(),
    {
        self.vertical
    }

    /// The current drawing window.
    pub fn draw_area(&self) -> (r: ((u8, u8), (u8, u8)))
        ensures
            r == self.spec_draw_area(),
    {
        (self.draw_area_start, self.draw_area_end)
    }
}

impl<DI: WriteOnlyDataCommand> DisplayProperties<DI> {
    /// Send one command.
    pub fn send_command(&mut self, cmd: Command) -> (r: Result<(), DisplayError>)
        ensures
            final(self).transfers() == old(self).transfers().push(command_transfer(cmd, r is Ok)),
            final(self).spec_size() == old(self).spec_size(),
            final(self).spec_vertical() == old(self).spec_vertical(),
            final(self).spec_draw_area() == old(self).spec_draw_area(),
    {
        let (data, len) = cmd.encode();
        let bytes = vstd::slice::slice_subrange(vstd::array::array_as_slice(&data), 0, len);
        let r = transmit_commands(&mut self.iface, bytes);
        self.log = Ghost(self.log@.push(Transfer { data: false, bytes: bytes@, ok: r is Ok }));
        r
    }

    /// Send commands in order, stopping at the first one the transport refuses.
    pub fn send_commands(&mut self, cmds: &[Command]) -> (r: Result<(), DisplayError>)
        ensures
            old(self).transfers().is_prefix_of(final(self).transfers()),
            commands_outcome(cmds@, appended(old(self).transfers(), final(self).transfers()), r is Ok),
            final(self).spec_size() == old(self).spec_size(),
            final(self).spec_vertical() == old(self).spec_vertical(),
            final(self).spec_draw_area() == old(self).spec_draw_area(),
    {
        let ghost before = self.transfers();
        let mut i: usize = 0;
        while i < cmds.len()
            invariant
                0 <= i <= cmds@.len(),
                self.transfers() == before + sent_ok(cmds@.take(i as int)),
                before == old(self).transfers(),
                self.spec_size() == old(self).spec_size(),
                self.spec_vertical() == old(self).spec_vertical(),
                self.spec_draw_area() == old(self).spec_draw_area(),
            decreases cmds@.len() - i,
        {
            let r = self.send_command(cmds[i]);
            match r {
                Err(e) => {
                    proof {
                        assert(appended(before, self.transfers()) =~= sent_ok(cmds@.take(i as int)).push(
                            command_transfer(cmds@[i as int], false)));
                        assert(before.is_prefix_of(self.transfers()));
                    }
                    return Err(e);
                },
                Ok(()) => {},
            }
            proof {
                lemma_sent_ok_step(cmds@, i as int);
                assert(self.transfers() =~= before + sent_ok(cmds@.take(i + 1)));
            }
            i += 1;
        }
        proof {
            assert(cmds@.take(i as int) =~= cmds@);
            assert(appended(before, self.transfers()) =~= sent_ok(cmds@));
            assert(before.is_prefix_of(self.transfers()));
        }
        Ok(())
    }

    /// Send a block of display data to the current window.
    pub fn draw(&mut self, buffer: &[u8]) -> (r: Result<(), DisplayError>)
        ensures
            final(self).transfers() == old(self).transfers().push(data_transfer(buffer@, r is Ok)),
            final(self).spec_size() == old(self).spec_size(),
            final(self).spec_vertical() == old(self).spec_vertical(),
            final(self).spec_draw_area() == old(self).spec_draw_area(),
    {
        let r = transmit_data(&mut self.iface, buffer);
        self.log = Ghost(self.log@.push(data_transfer(buffer@, r is Ok)));
        r
    }

    /// Run the power-up sequence, stopping at the first command the transport refuses.
    pub fn init(&mut self) -> (r: Result<(), DisplayError>)
        ensures
            old(self).transfers().is_prefix_of(final(self).transfers()),
            commands_outcome(
                init_commands(old(self).spec_size(), old(self).spec_vertical()),
                appended(old(self).transfers(), final(self).transfers()),
                r is Ok,
            ),
            final(self).spec_size() == old(self).spec_size(),
            final(self).spec_vertical() == old(self).spec_vertical(),
            final(self).spec_draw_area() == old(self).spec_draw_area(),
    {
        let cmds = init_sequence(self.display_size, self.vertical);
        self.send_commands(cmds.as_slice())
    }

    /// Point the controller at the window from `start` to `end`, each given as
    /// (panel column, page). The controller auto-increments from `start`; the
    /// end corner is kept for the caller's bookkeeping.
    pub fn set_draw_area(&mut self, start: (u8, u8), end: (u8, u8)) -> (r: Result<(), DisplayError>)
        ensures
            old(self).transfers().is_prefix_of(final(self).transfers()),
            commands_outcome(
                window_commands(old(self).spec_size(), start.0, start.1),
                appended(old(self).transfers(), final(self).transfers()),
                r is Ok,
            ),
            final(self).spec_size() == old(self).spec_size(),
            final(self).spec_vertical() == old(self).spec_vertical(),
            final(self).spec_draw_area() == (start, end),
    {
        self.draw_area_start = start;
        self.draw_area_end = end;
        let cmds = window_sequence(self.display_size, start.0, start.1);
        self.send_commands(cmds.as_slice())
    }
}

} // verus!
