use vstd::prelude::*;

verus! {

/// A value that is either a byte or a word.
#[derive(Debug, Clone, Copy, PartialEq, Eq, Structural)]
pub enum UnsignedValue {
    U8(u8),
    U16(u16),
}

impl UnsignedValue {
    pub fn is_u8(&self) -> (r: bool)
        ensures
            r == (*self is U8),
    {
        matches!(self, Self::U8(_))
    }

    pub fn is_u16(&self) -> (r: bool)
        ensures
            r == (*self is U16),
    {
        matches!(self, Self::U16(_))
    }

    /// The byte; the value must be a byte.
    pub fn unwrap_u8(&self) -> (r: u8)
        requires
            *self is U8,
        ensures
            r == self->U8_0,
    {
        match self {
            Self::U8(v) => *v,
            Self::U16(_) => 0,
        }
    }

    /// The word; the value must be a word.
    pub fn unwrap_u16(&self) -> (r: u16)
        requires
            *self is U16,
        ensures
            r == self->U16_0,
    {
        match self {
            Self::U16(v) => *v,
            Self::U8(_) => 0,
        }
    }
}

impl vstd::std_specs::convert::FromSpecImpl<u8> for UnsignedValue {
    open spec fn obeys_from_spec() -> bool {
        true
    }

    open spec fn from_spec(v: u8) -> UnsignedValue {
        UnsignedValue::U8(v)
    }
}

impl From<u8> for UnsignedValue {
    fn from(v: u8) -> (r: UnsignedValue)
        ensures
            r == UnsignedValue::U8(v),
    {
        Self::U8(v)
    }
}

impl vstd::std_specs::convert::FromSpecImpl<u16> for UnsignedValue {
    open spec fn obeys_from_spec() -> bool {
        true
    }

    open spec fn from_spec(v: u16) -> UnsignedValue {
        UnsignedValue::U16(v)
    }
}

impl From<u16> for UnsignedValue {
    fn from(v: u16) -> (r: UnsignedValue)
        ensures
            r == UnsignedValue::U16(v),
    {
        Self::U16(v)
    }
}

} // verus!
