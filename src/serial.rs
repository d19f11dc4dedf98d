use vstd::prelude::*;

verus! {

/// The serial-link registers: a transfer data byte (`0xFF01`) and a transfer
/// control byte (`0xFF02`), stored as written.
#[derive(Debug, Clone, Copy, PartialEq, Eq, Structural)]
pub struct Serial {
    pub data: u8,
    pub control: u8,
}

/// What reading serial register `addr` gives: the data byte at `0xFF01`, the
/// control byte otherwise.
pub open spec fn serial_read(s: Serial, addr: u16) -> u8 {
    if addr == 0xFF01 {
        s.data
    } else {
        s.control
    }
}

/// The registers after writing `value` to serial register `addr`.
pub open spec fn serial_written(s: Serial, addr: u16, value: u8) -> Serial {
    if addr == 0xFF01 {
        Serial { data: value, ..s }
    } else {
        Serial { control: value, ..s }
    }
}

impl Serial {
    /// Both registers cleared.
    pub fn new() -> (r: Self)
        ensures
            r == (Serial { data: 0, control: 0 }),
    {
        Serial { data: 0, control: 0 }
    }

    /// Reads serial register `addr`.
    pub fn read(&self, addr: u16) -> (r: u8)
        ensures
            r == serial_read(*self, addr),
    {
        if addr == 0xFF01 {
            self.data
        } else {
            self.control
        }
    }

    /// Writes serial register `addr`.
    pub fn write(&mut self, addr: u16, value: u8)
        ensures
            *final(self) == serial_written(*old(self), addr, value),
    {
        if addr == 0xFF01 {
            self.data = value;
        } else {
            self.control = value;
        }
    }
}

} // verus!
