use vstd::prelude::*;

verus! {

/// The I/O port of the first serial line.
pub const COM1: u16 = 0x3F8;

/// A UART 16550 serial port, by its base I/O port.
#[derive(Clone, Copy, Debug, PartialEq, Eq, Structural)]
pub struct SerialPort {
    pub port: u16,
}

impl SerialPort {
    pub fn new(port: u16) -> (r: SerialPort)
        ensures
            r.port == port,
    {
        SerialPort { port }
    }

    /// The port of register `offset` (0 data, 1 interrupt enable, 2 FIFO
    /// control, 3 line control, 4 modem control, 5 line status).
    pub fn register(&self, offset: u16) -> (r: u16)
        requires
            offset <= 7,
            self.port <= 0xFFF8,
        ensures
            r == self.port + offset,
    {
        self.port + offset
    }

    /// The line-status byte says a byte can be sent.
    pub fn can_send(line_status: u8) -> (r: bool)
        ensures
            r == (line_status & 0x20 != 0),
    {
        line_status & 0x20 != 0
    }

    /// The line-status byte says a byte has arrived.
    pub fn has_data(line_status: u8) -> (r: bool)
        ensures
            r == (line_status & 0x01 != 0),
    {
        line_status & 0x01 != 0
    }
}

/// Offsets of the local APIC registers.
pub struct LapicRegister;

pub const LAPIC_TPR: u32 = 0x080;

pub const LAPIC_SVR: u32 = 0x0F0;

pub const LAPIC_ESR: u32 = 0x280;

pub const LAPIC_LVT_TIMER: u32 = 0x320;

pub const LAPIC_LVT_PCINT: u32 = 0x340;

pub const LAPIC_LVT_LINT0: u32 = 0x350;

pub const LAPIC_LVT_LINT1: u32 = 0x360;

pub const LAPIC_LVT_ERROR: u32 = 0x370;

pub const LAPIC_ICR: u32 = 0x380;

pub const LAPIC_DCR: u32 = 0x3E0;

/// Default physical address of the local APIC.
pub const LAPIC_ADDR: u64 = 0xFEE00000;

/// A memory-mapped local APIC.
#[derive(Clone, Copy, Debug, PartialEq, Eq, Structural)]
pub struct XApic {
    pub addr: u64,
}

impl XApic {
    pub fn new(addr: u64) -> (r: XApic)
        ensures
            r.addr == addr,
    {
        XApic { addr }
    }

    /// The address of register `reg`.
    pub fn register_address(&self, reg: u32) -> (r: u64)
        requires
            self.addr + reg <= u64::MAX,
        ensures
            r == self.addr + reg,
    {
        self.addr + reg as u64
    }
}

/// The free-running count of timer interrupts.
#[derive(Clone, Copy, Debug, PartialEq, Eq, Structural)]
pub struct Clock {
    pub ticks: u64,
}

impl Clock {
    pub fn new() -> (r: Clock)
        ensures
            r.ticks == 0,
    {
        Clock { ticks: 0 }
    }

    /// Counts one timer interrupt, wrapping at `u64::MAX`.
    pub fn inc_counter(&mut self) -> (r: u64)
        ensures
            final(self).ticks == (old(self).ticks as int + 1) % 0x1_0000_0000_0000_0000,
            r == final(self).ticks,
    {
        self.ticks = self.ticks.wrapping_add(1);
        self.ticks
    }

    pub fn read_counter(&self) -> (r: u64)
        ensures
            r == self.ticks,
    {
        self.ticks
    }
}

} // verus!
