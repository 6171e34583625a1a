use vstd::prelude::*;

use crate::memory::MemoryAccess;

verus! {

/// The kind of a Game Boy Color VRAM transfer.
#[derive(Clone, Copy, Debug, PartialEq, Eq, Structural)]
pub enum DmaMode {
    /// General purpose: the whole block at once.
    Gdma,
    /// During horizontal blanks: 16 bytes per blank.
    Hdma,
}

/// The VRAM transfer registers (HDMA1 to HDMA5, 0xFF51..=0xFF55).
pub struct Dma {
    /// hdma1..hdma4
    pub regs: [u8; 4],
    /// hdma5: the transfer length, in 16-byte blocks, minus one (0x00..=0x7F)
    pub dma_length: u8,
    pub dma_mode: Option<DmaMode>,
    pub src: u16,
    pub dst: u16,
}

/// The transfer registers as data.
pub struct DmaView {
    pub regs: Seq<u8>,
    pub dma_length: u8,
    pub dma_mode: Option<DmaMode>,
    pub src: u16,
    pub dst: u16,
}

impl View for Dma {
    type V = DmaView;

    open spec fn view(&self) -> DmaView {
        DmaView {
            regs: self.regs@,
            dma_length: self.dma_length,
            dma_mode: self.dma_mode,
            src: self.src,
            dst: self.dst,
        }
    }
}

impl DmaView {
    /// The source address the registers give.
    pub open spec fn spec_src(self) -> u16 {
        (self.regs[0] as int * 256 + self.regs[1] as int) as u16
    }

    /// The destination address the registers give (always in VRAM).
    pub open spec fn spec_dst(self) -> u16 {
        (self.regs[2] as int * 256 + self.regs[3] as int + 0x8000) as u16
    }

    /// True when the registers give a source the hardware can copy from.
    pub open spec fn source_ok(self) -> bool {
        self.spec_src() <= 0x7FF0 || (0xA000 <= self.spec_src() <= 0xDFF0)
    }
}

impl Default for Dma {
    fn default() -> (r: Dma)
        ensures
            r@.regs == seq![0u8, 0u8, 0u8, 0u8],
            r.dma_length == 0,
            r.dma_mode is None,
            r.src == 0,
            r.dst == 0,
    {
        let r = Dma { regs: [0; 4], dma_length: 0, dma_mode: None, src: 0, dst: 0 };
        assert(r@.regs =~= seq![0u8, 0u8, 0u8, 0u8]);
        r
    }
}

impl Dma {
    /// Tells whether a write to `addr` is one the transfer unit accepts: a transfer can only
    /// start from a source the hardware can copy from.
    pub fn accepts(&self, addr: u16) -> (r: bool)
        requires
            Dma::inv(self@),
        ensures
            r == (0xFF51 <= addr <= 0xFF55 && (addr == 0xFF55 && self@.dma_mode != Some(
                DmaMode::Hdma,
            ) ==> self@.source_ok())),
            forall|value: u8| r == #[trigger] Dma::writable(self@, addr, value),
    {
        if addr < 0xFF51 || addr > 0xFF55 {
            return false;
        }
        if addr != 0xFF55 {
            return true;
        }
        if let Some(DmaMode::Hdma) = self.dma_mode {
            return true;
        }
        let (r0, r1) = (self.regs[0], self.regs[1]);
        let src = ((r0 as u16) << 8) | (r1 as u16);
        assert(src == r0 as int * 256 + r1 as int) by (bit_vector)
            requires
                src == ((r0 as u16) << 8) | (r1 as u16),
        ;
        src <= 0x7FF0 || (0xA000 <= src && src <= 0xDFF0)
    }
}

impl MemoryAccess for Dma {
    open spec fn inv(v: DmaView) -> bool {
        v.regs.len() == 4 && v.regs[2] <= 0x1F && v.regs[1] & 0x0F == 0 && v.regs[3] & 0x0F == 0
    }

    open spec fn readable(v: DmaView, addr: u16) -> bool {
        0xFF51 <= addr <= 0xFF55
    }

    open spec fn read_spec(v: DmaView, addr: u16) -> u8 {
        if addr < 0xFF55 {
            v.regs[addr - 0xFF51]
        } else {
            v.dma_length | if v.dma_mode == Some(DmaMode::Hdma) {
                0x80u8
            } else {
                0x00u8
            }
        }
    }

    open spec fn writable(v: DmaView, addr: u16, value: u8) -> bool {
        &&& 0xFF51 <= addr <= 0xFF55
        &&& addr == 0xFF55 && v.dma_mode != Some(DmaMode::Hdma) ==> v.source_ok()
    }

    open spec fn write_spec(v: DmaView, addr: u16, value: u8) -> DmaView {
        if addr == 0xFF51 {
            DmaView { regs: v.regs.update(0, value), ..v }
        } else if addr == 0xFF52 {
            DmaView { regs: v.regs.update(1, value & 0xF0), ..v }
        } else if addr == 0xFF53 {
            DmaView { regs: v.regs.update(2, value & 0x1F), ..v }
        } else if addr == 0xFF54 {
            DmaView { regs: v.regs.update(3, value & 0xF0), ..v }
        } else if v.dma_mode == Some(DmaMode::Hdma) {
            if value & 0x80 == 0 {
                DmaView { dma_mode: None, ..v }
            } else {
                v
            }
        } else {
            DmaView {
                src: v.spec_src(),
                dst: v.spec_dst(),
                dma_mode: Some(
                    if value & 0x80 == 0x80 {
                        DmaMode::Hdma
                    } else {
                        DmaMode::Gdma
                    },
                ),
                dma_length: value & 0x7F,
                ..v
            }
        }
    }

    fn mem_write(&mut self, addr: u16, value: u8) {
        if addr == 0xff51 {
            self.regs[0] = value;
        } else if addr == 0xff52 {
            assert((value & 0xF0) & 0x0F == 0) by (bit_vector);
            self.regs[1] = value & 0xF0;
        } else if addr == 0xff53 {
            assert(value & 0x1F <= 0x1F) by (bit_vector);
            self.regs[2] = value & 0x1F;
        } else if addr == 0xff54 {
            assert((value & 0xF0) & 0x0F == 0) by (bit_vector);
            self.regs[3] = value & 0xF0;
        } else {
            if let Some(DmaMode::Hdma) = self.dma_mode {
                if value & 0x80 == 0 {
                    self.dma_mode = None;
                }
                return;
            }
            let (r0, r1, r2, r3) = (self.regs[0], self.regs[1], self.regs[2], self.regs[3]);
            let src = ((r0 as u16) << 8) | (r1 as u16);
            let dst = ((r2 as u16) << 8) | (r3 as u16) | 0x8000;
            assert(src == r0 as int * 256 + r1 as int && dst == r2 as int * 256 + r3 as int
                + 0x8000) by (bit_vector)
                requires
                    src == ((r0 as u16) << 8) | (r1 as u16),
                    dst == ((r2 as u16) << 8) | (r3 as u16) | 0x8000,
                    r2 <= 0x1F,
            ;
            self.src = src;
            self.dst = dst;
            self.dma_mode = Some(
                if value & 0x80 == 0x80 {
                    DmaMode::Hdma
                } else {
                    DmaMode::Gdma
                },
            );
            self.dma_length = value & 0x7F;
        }
    }

    fn mem_read(&self, addr: u16) -> (r: u8) {
        if addr < 0xff55 {
            self.regs[(addr - 0xFF51) as usize]
        } else {
            self.dma_length | if let Some(DmaMode::Hdma) = self.dma_mode {
                0x80
            } else {
                0x00
            }
        }
    }
}

} // verus!
