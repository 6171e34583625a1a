use vstd::prelude::*;

use crate::memory::MemoryAccess;

verus! {

/// The serial port: transfer data (SB, 0xFF01) and transfer control (SC, 0xFF02).
///
/// A transfer started with the internal clock (control value 0x81) sends the data byte out;
/// the bytes sent are kept in `output` until the host drains them.
pub struct Serial {
    pub data: u8,
    pub control: u8,
    pub interrupt: bool,
    pub output: Vec<u8>,
}

impl Serial {
    /// Sends the data byte out.
    fn display(&mut self)
        ensures
            final(self).output@ == old(self).output@.push(old(self).data),
            final(self).data == old(self).data,
            final(self).control == old(self).control,
            final(self).interrupt == old(self).interrupt,
    {
        let data = self.data;
        self.output.push(data);
    }

    /// Hands out the bytes sent so far and forgets them.
    pub fn take_output(&mut self) -> (r: Vec<u8>)
        ensures
            r@ == old(self).output@,
            final(self).output@ == Seq::<u8>::empty(),
            final(self).data == old(self).data,
            final(self).control == old(self).control,
            final(self).interrupt == old(self).interrupt,
    {
        let mut taken = Vec::new();
        core::mem::swap(&mut taken, &mut self.output);
        taken
    }
}

impl Default for Serial {
    fn default() -> (r: Serial)
        ensures
            r.data == 0,
            r.control == 0,
            !r.interrupt,
            r.output@ == Seq::<u8>::empty(),
    {
        Serial { data: 0, control: 0, interrupt: false, output: Vec::new() }
    }
}

/// The serial port as data: the two registers, the interrupt request and the bytes sent.
pub struct SerialView {
    pub data: u8,
    pub control: u8,
    pub interrupt: bool,
    pub output: Seq<u8>,
}

impl View for Serial {
    type V = SerialView;

    open spec fn view(&self) -> SerialView {
        SerialView {
            data: self.data,
            control: self.control,
            interrupt: self.interrupt,
            output: self.output@,
        }
    }
}

impl MemoryAccess for Serial {
    open spec fn inv(v: SerialView) -> bool {
        true
    }

    open spec fn readable(v: SerialView, addr: u16) -> bool {
        addr == 0xFF01 || addr == 0xFF02
    }

    open spec fn read_spec(v: SerialView, addr: u16) -> u8 {
        if addr == 0xFF01 {
            v.data
        } else {
            v.control
        }
    }

    open spec fn writable(v: SerialView, addr: u16, value: u8) -> bool {
        addr == 0xFF01 || addr == 0xFF02
    }

    open spec fn write_spec(v: SerialView, addr: u16, value: u8) -> SerialView {
        if addr == 0xFF01 {
            SerialView { data: value, ..v }
        } else if value == 0x81 {
            SerialView { data: value, interrupt: true, output: v.output.push(v.data), ..v }
        } else {
            v
        }
    }

    fn mem_read(&self, addr: u16) -> (r: u8) {
        match addr {
            0xFF01 => self.data,
            _ => self.control,
        }
    }

    fn mem_write(&mut self, addr: u16, value: u8) {
        match addr {
            0xFF01 => self.data = value,
            _ => {
                if value == 0x81 {
                    self.display();

                    self.data = value;
                    self.interrupt = true;
                }
            },
        }
    }
}

} // verus!
