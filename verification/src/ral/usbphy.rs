//! USB PHY registers and field definitions.

use vstd::prelude::*;

verus! {

/// CTRL: enable the high-speed disconnect detector.
pub const CTRL_ENHOSTDISCONDETECT: u32 = 1 << 1;

/// CTRL: enable UTMI+ level 2.
pub const CTRL_ENUTMILEVEL2: u32 = 1 << 14;

/// CTRL: enable UTMI+ level 3.
pub const CTRL_ENUTMILEVEL3: u32 = 1 << 15;

/// CTRL: gate the UTMI clocks.
pub const CTRL_CLKGATE: u32 = 1 << 30;

/// CTRL: soft reset.
pub const CTRL_SFTRST: u32 = 1 << 31;

/// The registers of the USB PHY that the driver writes.
#[derive(Debug, Clone, Copy, PartialEq, Eq, Structural)]
pub enum Reg {
    /// Power-down.
    Pwd,
    /// Sets the bits of CTRL that are written as one.
    CtrlSet,
    /// Clears the bits of CTRL that are written as one.
    CtrlClr,
}

/// A USB PHY register instance.
///
/// The driver only writes to the PHY, so there are no values to keep.
#[derive(Debug, Clone, Copy, PartialEq, Eq)]
pub struct Instance {
    /// Base address of the register block.
    pub addr: u32,
}

impl Instance {
    /// An instance over the PHY register block at `addr`.
    pub fn from_ral(addr: u32) -> (instance: Self)
        ensures
            instance.addr == addr,
    {
        Instance { addr }
    }
}

/// Where the bits of CTRL are.
pub proof fn lemma_ctrl_bits()
    ensures
        CTRL_ENHOSTDISCONDETECT == 0x2,
        CTRL_ENUTMILEVEL2 == 0x4000,
        CTRL_ENUTMILEVEL3 == 0x8000,
        CTRL_CLKGATE == 0x4000_0000,
        CTRL_SFTRST == 0x8000_0000,
{
    assert(CTRL_ENHOSTDISCONDETECT == 0x2
        && CTRL_ENUTMILEVEL2 == 0x4000
        && CTRL_ENUTMILEVEL3 == 0x8000
        && CTRL_CLKGATE == 0x4000_0000
        && CTRL_SFTRST == 0x8000_0000) by (bit_vector);
}

} // verus!
