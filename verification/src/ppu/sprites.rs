use vstd::prelude::*;

verus! {

/// The attributes of one of the 40 sprites of the object attribute memory.
#[derive(Debug, Clone, Copy, Default, PartialEq, Eq, Structural)]
pub struct Sprite {
    pub x: i32,
    pub y: i32,
    pub tile_number: u16,
    pub priority: bool,
    pub flip_x: bool,
    pub flip_y: bool,
    pub palette: bool,
    /// Game Boy Color: the VRAM bank of the tile (attribute bit 3).
    pub vram_bank: usize,
    /// Game Boy Color: the color palette (attribute bits 0 to 2).
    pub paletten: usize,
}

impl Sprite {
    /// A sprite with every attribute zero.
    pub open spec fn spec_zero() -> Sprite {
        Sprite {
            x: 0,
            y: 0,
            tile_number: 0,
            priority: false,
            flip_x: false,
            flip_y: false,
            palette: false,
            vram_bank: 0,
            paletten: 0,
        }
    }

    /// A sprite with every attribute zero.
    pub fn zero() -> (r: Sprite)
        ensures
            r == Sprite::spec_zero(),
    {
        Sprite {
            x: 0,
            y: 0,
            tile_number: 0,
            priority: false,
            flip_x: false,
            flip_y: false,
            palette: false,
            vram_bank: 0,
            paletten: 0,
        }
    }
}

/// The sprite after byte `sprite_addr % 4` of its four attribute bytes is set to `value`.
pub open spec fn spec_update_sprite(sprite: Sprite, sprite_addr: usize, value: u8) -> Sprite {
    if sprite_addr % 4 == 0 {
        Sprite { y: (value as int - 16) as i32, ..sprite }
    } else if sprite_addr % 4 == 1 {
        Sprite { x: (value as int - 8) as i32, ..sprite }
    } else if sprite_addr % 4 == 2 {
        Sprite { tile_number: value as u16, ..sprite }
    } else {
        Sprite {
            priority: value & 0x80 == 0x80,
            flip_y: value & 0x40 == 0x40,
            flip_x: value & 0x20 == 0x20,
            palette: value & 0x10 == 0x10,
            vram_bank: if value & 0x08 == 0x08 {
                1usize
            } else {
                0usize
            },
            paletten: (value & 0x07) as usize,
            ..sprite
        }
    }
}

/// A sprite after byte `sprite_addr % 4` of its attributes is set to `value`.
pub(crate) fn updated_sprite(sprite: Sprite, sprite_addr: usize, sprite_value: u8) -> (r: Sprite)
    ensures
        r == spec_update_sprite(sprite, sprite_addr, sprite_value),
{
    let a = sprite_addr & 0x03;
    assert(a == sprite_addr % 4) by (bit_vector)
        requires
            a == sprite_addr & 0x03,
    ;
    let mut sprite = sprite;
    if a == 0 {
        sprite.y = sprite_value as u16 as i32 - 16;
    } else if a == 1 {
        sprite.x = sprite_value as u16 as i32 - 8;
    } else if a == 2 {
        sprite.tile_number = sprite_value as u16;
    } else {
        sprite.priority = (sprite_value & 0x80) == 0x80;
        sprite.flip_y = (sprite_value & 0x40) == 0x40;
        sprite.flip_x = (sprite_value & 0x20) == 0x20;
        sprite.palette = (sprite_value & 0x10) == 0x10;
        sprite.vram_bank = if (sprite_value & 0x08) == 0x08 {
            1
        } else {
            0
        };
        sprite.paletten = (sprite_value & 0x07) as usize;
    }
    sprite
}

/// Records a write of `sprite_value` to byte `sprite_addr` of the object attribute memory.
pub fn update_sprites(sprites: &mut [Sprite], sprite_addr: usize, sprite_value: u8)
    requires
        sprite_addr / 4 < old(sprites)@.len(),
    ensures
        final(sprites)@ == old(sprites)@.update(
            (sprite_addr / 4) as int,
            spec_update_sprite(old(sprites)@[(sprite_addr / 4) as int], sprite_addr, sprite_value),
        ),
{
    let i = sprite_addr >> 2;
    assert(i == sprite_addr / 4) by (bit_vector)
        requires
            i == sprite_addr >> 2,
    ;
    let sprite = updated_sprite(sprites[i], sprite_addr, sprite_value);
    sprites[i] = sprite;
}

} // verus!
