//! sh1108 Commands
use crate::displaysize::DisplaySize;
use crate::interface::transmit_commands;
use display_interface::{DisplayError, WriteOnlyDataCommand};
use vstd::prelude::*;

verus! {

/// Size of the scratch buffer that holds one encoded command.
pub const MAX_COMMAND_LEN: usize = 7;

/// Commands
#[derive(Clone, Copy, Debug, PartialEq, Eq, Structural)]
pub enum Command {
    /// Set contrast. Higher number is higher contrast. Default = 0x7F
    Contrast(u8),
    /// Turn entire display on. If set, all pixels will
    /// be set to on, if not, the value in memory will be used.
    AllOn(bool),
    /// Invert display.
    Invert(bool),
    /// Set display resolution.
    DisplayResolution(DisplaySize),
    /// Set the addressing mode.
    /// `false` is page addressing mode.
    /// `true` is vertical addressing mode.
    AddressMode(bool),
    /// Turn display on or off.
    DisplayOn(bool),
    /// Set column address lower 4 bits
    ColumnAddressLow(u8),
    /// Set column address higher 4 bits
    ColumnAddressHigh(u8),
    /// Set page address (5 bits; higher bits are dropped)
    PageAddress(u8),
    /// Reverse columns from 127-0
    SegmentRemap(bool),
    /// Set the scan direction of the output.
    /// `false` scans from COM0 to COM[n-1].
    /// `true` scans from COM[n-1] to COM0.
    SetCommonScanDir(bool),
    /// Set up display clock.
    /// First value is oscillator frequency, increasing with higher value
    /// Second value is divide ratio - 1
    DisplayClockDiv(u8, u8),
    /// Set up phase 1 and 2 of precharge period. each value is from 0-63
    PreChargePeriod(u8, u8),
    /// NOOP
    Noop,
}

/// The flag bit that a boolean command ORs into its opcode.
pub open spec fn flag(b: bool) -> u8 {
    if b { 1 } else { 0 }
}

fn flag_exec(b: bool) -> (r: u8)
    ensures
        r == flag(b),
{
    if b { 1 } else { 0 }
}

impl Command {
    /// The controller's opcode table: the bytes that make up this command on the wire.
    pub open spec fn encoding(self) -> Seq<u8> {
        match self {
            Command::Contrast(val) => seq![0x81u8, val],
            Command::AllOn(on) => seq![0xA4u8 | flag(on)],
            Command::Invert(inv) => seq![0xA6u8 | flag(inv)],
            Command::DisplayResolution(size) => seq![0xA9u8, size.spec_code()],
            Command::AddressMode(mode) => seq![0x20u8 | flag(mode)],
            Command::DisplayOn(on) => seq![0xAEu8 | flag(on)],
            Command::ColumnAddressLow(addr) => seq![0xFu8 & addr],
            Command::ColumnAddressHigh(addr) => seq![0x10u8 | (0xFu8 & addr)],
            Command::PageAddress(page) => seq![0xB0u8, page & 0x1Fu8],
            Command::SegmentRemap(remap) => seq![0xA0u8 | flag(remap)],
            Command::SetCommonScanDir(rev) => seq![0xC0u8 | (flag(rev) << 3u8)],
            Command::DisplayClockDiv(fosc, div) => seq![0xD5u8, ((0xFu8 & fosc) << 4u8) | (0xFu8 & div)],
            Command::PreChargePeriod(phase1, phase2) => seq![0xD9u8, ((0xFu8 & phase2) << 4u8) | (0xFu8 & phase1)],
            Command::Noop => seq![0xE3u8],
        }
    }

    /// Encode the command into a fixed scratch buffer and the number of
    /// bytes of it that are meaningful.
    pub fn encode(self) -> (r: ([u8; 7], usize))
        ensures
            r.1 == self.encoding().len(),
            1 <= r.1 <= MAX_COMMAND_LEN,
            r.0@.subrange(0, r.1 as int) == self.encoding(),
    {
        let (data, len): ([u8; 7], usize) = match self {
            Command::Contrast(val) => ([0x81, val, 0, 0, 0, 0, 0], 2),
            Command::AllOn(on) => ([0xA4 | flag_exec(on), 0, 0, 0, 0, 0, 0], 1),
            Command::Invert(inv) => ([0xA6 | flag_exec(inv), 0, 0, 0, 0, 0, 0], 1),
            Command::DisplayResolution(size) => ([0xA9, size.code(), 0, 0, 0, 0, 0], 2),
            Command::AddressMode(mode) => ([0x20 | flag_exec(mode), 0, 0, 0, 0, 0, 0], 1),
            Command::DisplayOn(on) => ([0xAE | flag_exec(on), 0, 0, 0, 0, 0, 0], 1),
            Command::ColumnAddressLow(addr) => ([0xF & addr, 0, 0, 0, 0, 0, 0], 1),
            Command::ColumnAddressHigh(addr) => ([0x10 | (0xF & addr), 0, 0, 0, 0, 0, 0], 1),
            Command::PageAddress(page) => ([0xB0, page & 0x1F, 0, 0, 0, 0, 0], 2),
            Command::SegmentRemap(remap) => ([0xA0 | flag_exec(remap), 0, 0, 0, 0, 0, 0], 1),
            Command::SetCommonScanDir(rev) => ([0xC0 | (flag_exec(rev) << 3u8), 0, 0, 0, 0, 0, 0], 1),
            Command::DisplayClockDiv(fosc, div) => {
                ([0xD5, ((0xF & fosc) << 4u8) | (0xF & div), 0, 0, 0, 0, 0], 2)
            },
            Command::PreChargePeriod(phase1, phase2) => (
                [0xD9, ((0xF & phase2) << 4u8) | (0xF & phase1), 0, 0, 0, 0, 0],
                2,
            ),
            Command::Noop => ([0xE3, 0, 0, 0, 0, 0, 0], 1),
        };
        assert(data@.subrange(0, len as int) =~= self.encoding());
        (data, len)
    }

    /// Encode the command into exactly its wire bytes.
    pub fn to_bytes(self) -> (r: Vec<u8>)
        ensures
            r@ == self.encoding(),
    {
        let (data, len) = self.encode();
        let all = vstd::array::array_as_slice(&data);
        vstd::slice::slice_to_vec(vstd::slice::slice_subrange(all, 0, len))
    }

    /// Send command to sh1108
    pub fn send<DI>(self, iface: &mut DI) -> Result<(), DisplayError> where DI: WriteOnlyDataCommand {
        // Transform command into a fixed size array of 7 u8 and the real length for sending
        let (data, len) = self.encode();
        let all = vstd::array::array_as_slice(&data);
        transmit_commands(iface, vstd::slice::slice_subrange(all, 0, len))
    }
}

/// Every command encodes to the same one or two opcode bytes each time, never
/// more than the scratch buffer holds.
pub proof fn lemma_encoding_bounded(c: Command, d: Command)
    requires
        c == d,
    ensures
        c.encoding() == d.encoding(),
        1 <= c.encoding().len() <= 2,
        c.encoding().len() <= MAX_COMMAND_LEN,
{
}

/// Frame interval
#[derive(Debug, Clone, Copy, PartialEq, Eq, Structural)]
pub enum NFrames {
    /// 2 Frames
    F2,
    /// 3 Frames
    F3,
    /// 4 Frames
    F4,
    /// 5 Frames
    F5,
    /// 25 Frames
    F25,
    /// 64 Frames
    F64,
    /// 128 Frames
    F128,
    /// 256 Frames
    F256,
}

impl NFrames {
    /// The 3-bit field that selects this interval.
    pub open spec fn spec_bits(self) -> u8 {
        match self {
            NFrames::F2 => 0b111,
            NFrames::F3 => 0b100,
            NFrames::F4 => 0b101,
            NFrames::F5 => 0b000,
            NFrames::F25 => 0b110,
            NFrames::F64 => 0b001,
            NFrames::F128 => 0b010,
            NFrames::F256 => 0b011,
        }
    }

    /// The 3-bit field that selects this interval.
    pub fn bits(self) -> (r: u8)
        ensures
            r == self.spec_bits(),
            r < 8,
    {
        match self {
            NFrames::F2 => 0b111,
            NFrames::F3 => 0b100,
            NFrames::F4 => 0b101,
            NFrames::F5 => 0b000,
            NFrames::F25 => 0b110,
            NFrames::F64 => 0b001,
            NFrames::F128 => 0b010,
            NFrames::F256 => 0b011,
        }
    }
}

/// Vcom Deselect level
#[derive(Debug, Clone, Copy, PartialEq, Eq, Structural)]
pub enum VcomLevel {
    /// 0.77 * Vcc
    V077,
    /// 0.43 * Vcc
    V043,
    /// 0.834 * Vcc
    V0834,
}

impl VcomLevel {
    /// The register value that selects this level.
    pub open spec fn spec_bits(self) -> u8 {
        match self {
            VcomLevel::V077 => 0x35,
            VcomLevel::V043 => 0x00,
            VcomLevel::V0834 => 0x3f,
        }
    }

    /// The register value that selects this level.
    pub fn bits(self) -> (r: u8)
        ensures
            r == self.spec_bits(),
            r < 0x40,
    {
        match self {
            VcomLevel::V077 => 0x35,
            VcomLevel::V043 => 0x00,
            VcomLevel::V0834 => 0x3f,
        }
    }
}

} // verus!
