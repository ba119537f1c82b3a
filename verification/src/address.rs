//! Bus address of a TCA9554(A) chip instance.
//!
//! The chip answers on a 7-bit address made of a fixed per-variant base and
//! three hardware-strapped selector bits OR-ed onto its low end.

use vstd::prelude::*;

verus! {

/// The three selector bits `(a2, a1, a0)` as the value they contribute to the
/// low three bits of a bus address.
pub open spec fn spec_selector_bits(a2: bool, a1: bool, a0: bool) -> u8 {
    (((a2 as u8) << 2) | ((a1 as u8) << 1) | (a0 as u8)) as u8
}

/// A 7-bit bus address for a TCA9554(A) I/O expander.
///
/// Use [`Address::standard`] for the standard variant (model TCA9554) and
/// [`Address::alternate`] for the alternate variant (model TCA9554A), then OR
/// in the strapped selector bits with [`Address::with_selectable_bits`].
#[derive(Debug, Clone, Copy)]
pub struct Address {
    value: u8,
}

impl View for Address {
    type V = u8;

    closed spec fn view(&self) -> u8 {
        self.value
    }
}

impl Address {
    /// The address value always fits in 7 bits: bit 7 is never set.
    pub open spec fn wf(&self) -> bool {
        self@ < 0x80
    }

    /// Address for the standard variant of the chip (model TCA9554).
    pub fn standard() -> (r: Self)
        ensures
            r@ == 0x20,
            r.wf(),
    {
        // Datasheet value 0x40 right-shifted by one: 0x20.
        Self { value: 0x20 }
    }

    /// Address for the alternate variant of the chip (model TCA9554A).
    pub fn alternate() -> (r: Self)
        ensures
            r@ == 0x38,
            r.wf(),
    {
        // Datasheet value 0x70 right-shifted by one: 0x38.
        Self { value: 0x38 }
    }

    /// Returns a new address with the user-selectable, rightmost bits
    /// `(a2, a1, a0)` OR-ed onto this one.
    ///
    /// Bits already set are preserved, so repeated calls accumulate selector
    /// bits rather than replacing them.
    pub fn with_selectable_bits(self, ax: (bool, bool, bool)) -> (r: Self)
        ensures
            r@ == self@ | spec_selector_bits(ax.0, ax.1, ax.2),
            self.wf() ==> r.wf(),
    {
        let (a2, a1, a0) = ax;
        let bits: u8 = ((a2 as u8) << 2) | ((a1 as u8) << 1) | (a0 as u8);
        let base: u8 = self.value;
        proof {
            assert(base < 0x80 ==> (base | bits) < 0x80) by (bit_vector)
                requires
                    bits == (((a2 as u8) << 2) | ((a1 as u8) << 1) | (a0 as u8)),
            ;
        }
        Self { value: base | bits }
    }
}

impl From<Address> for u8 {
    /// The raw 7-bit value used to address the chip on the bus.
    fn from(val: Address) -> (r: u8)
        ensures
            r == val@,
    {
        val.value
    }
}

impl vstd::std_specs::convert::FromSpecImpl<Address> for u8 {
    open spec fn obeys_from_spec() -> bool {
        true
    }

    open spec fn from_spec(v: Address) -> u8 {
        v@
    }
}

} // verus!
