use vstd::prelude::*;

use crate::cpu::lowest_bit;

verus! {

/// Facts about masks and address decoding that the devices rely on.
pub proof fn lemma_masks()
    by (bit_vector)
    ensures
        forall|x: u8, m: u8| #[trigger] (x & m) <= m,
        forall|x: u16, m: u16| #[trigger] (x & m) <= m,
        forall|x: usize, m: usize| #[trigger] (x & m) <= m,
        forall|x: u8| #[trigger] ((x as u16) << 8u16) <= 0xFF00,
        forall|a: u16| 0xA000 <= a <= 0xBFFF ==> #[trigger] (a & 0x5FFF) < 0x2000,
        forall|a: u16| 0xFF00 <= a <= 0xFF7F ==> #[trigger] (a & 0xFF) < 0x80,
        forall|a: u16| 0xFF80 <= a <= 0xFFFE ==> #[trigger] (a & 0x7F) < 0x7F,
        forall|a: u16| 0xFE00 <= a <= 0xFE9F ==> #[trigger] (a & 0x01FF) < 0xA0,
        forall|a: u16| #[trigger] ((a & 0x0FFF) | 0x1000) < 0x2000,
        forall|x: usize, y: usize| x <= 1 && (y == 0 || y == 2) ==> #[trigger] (x | y) < 4,
        forall|bank: usize, low: usize|
            bank < 0x80 && low < 32 ==> #[trigger] ((bank & 0x60) | low) == ((bank / 32) * 32
                + low) as usize,
        0u8 & 0x0F == 0,
        forall|x: u8, y: u8| #[trigger] ((x | y) & 1) == 1 <==> (x & 1 == 1 || y & 1 == 1),
        1u8 & 1 == 1,
{
}

/// Facts about bits that the laws of the processor, the timer and the bank controllers rest on.
pub proof fn lemma_bit_laws()
    by (bit_vector)
    ensures
        forall|x: u8|
            x != 0 ==> (#[trigger] (x >> lowest_bit(x)) & 1) == 1 && x & (((1u8 << lowest_bit(
                x,
            )) - 1) as u8) == 0,
        forall|x: u8| #[trigger] lowest_bit(x) >= 5 ==> x & 0x1F == 0,
        forall|x: u8| #[trigger] lowest_bit(x) < 8,
        forall|l: u16| l < 8 ==> #[trigger] (0x40u16 | (l << 3u16)) == (0x40 + 8 * l) as u16,
        forall|g: u8| #[trigger] (((g | 0x10) & 0xF0) & 0x10) == 0x10,
        forall|g: u8| #[trigger] ((g & !0x10u8) & 0x10) == 0,
        forall|r: u8| #[trigger] (((r >> 1u8) | (r & 0x80)) & 0x80) == r & 0x80,
        forall|r: u8| #[trigger] (((r >> 1u8) | (r & 0x80)) & 0x7F) == (r / 2) as u8,
        forall|r: u8| #[trigger] (r & 1) == 1 <==> (r % 2) as u8 == 1,
        forall|v: u8| #[trigger] (v & 0x07) == (if v & 0x04 != 0 { 4u8 } else { 0u8 }) | (v & 0x03),
        forall|k: u8| k < 4 ==> #[trigger] (4u8 | k) == (4 + k) as u8 && (0u8 | k) == k,
        forall|value: u8| #[trigger] ((value as usize) & 0x1F) == ((value & 0x1F) as usize),
        forall|rb: usize, addr: u16|
            rb < 0x80 && 0x4000 <= addr < 0x8000 ==> #[trigger] (((rb * 0x4000) as usize) | ((addr
                & 0x3FFF) as usize)) == (rb * 0x4000 + ((addr as usize) - 0x4000)) as usize,
        forall|w: u16| w <= 166 ==> #[trigger] (w >> 3u16) <= 31,
{
}

} // verus!
