//! What the library takes from the `xcb` bindings: the bit values of the
//! protocol's masks. Nothing here is proved; each contract repeats what the
//! bindings define.

use vstd::prelude::*;

verus! {

/// The bit of the fourth modifier key, commonly Super, in a modifier mask.
pub open spec fn super_bits() -> u32 {
    0x40
}

/// The bit of the Shift key in a modifier mask.
pub open spec fn shift_bits() -> u32 {
    0x01
}

/// The modifier mask of Super and Shift held together.
pub open spec fn super_shift_bits() -> u32 {
    0x41
}

/// The bit that selects notifications about the children of a window.
pub open spec fn substructure_notify_bits() -> u32 {
    0x0008_0000
}

/// Reads `xcb::x::ModMask::N4` through `bits()`. The bindings define the
/// flag as bit 6 of the mask, and `bits()` hands out the raw value.
#[verifier::external_body]
pub(crate) fn mod_mask_n4() -> (bits: u32)
    ensures
        bits == super_bits(),
{
    xcb::x::ModMask::N4.bits()
}

/// Reads `xcb::x::ModMask::SHIFT` through `bits()`. The bindings define the
/// flag as bit 0 of the mask, and `bits()` hands out the raw value.
#[verifier::external_body]
pub(crate) fn mod_mask_shift() -> (bits: u32)
    ensures
        bits == shift_bits(),
{
    xcb::x::ModMask::SHIFT.bits()
}

/// Reads `xcb::x::EventMask::SUBSTRUCTURE_NOTIFY` through `bits()`. The
/// bindings define the flag as bit 19 of the mask, and `bits()` hands out the
/// raw value.
#[verifier::external_body]
pub(crate) fn event_mask_substructure_notify() -> (bits: u32)
    ensures
        bits == substructure_notify_bits(),
{
    xcb::x::EventMask::SUBSTRUCTURE_NOTIFY.bits()
}

} // verus!
