//! The chip's four control registers: their one-byte command codes and their
//! power-on default values.

use vstd::prelude::*;

verus! {

/// Command code of the input register.
pub const INPUT_REGISTER: u8 = 0x00;

/// Command code of the output register.
pub const OUTPUT_REGISTER: u8 = 0x01;

/// Command code of the polarity inversion register.
pub const POLARITY_REGISTER: u8 = 0x02;

/// Command code of the direction register.
pub const DIRECTION_REGISTER: u8 = 0x03;

/// Power-on default of the output register.
pub const OUTPUT_REGISTER_DEFAULT: u8 = 0xFF;

/// Power-on default of the polarity inversion register.
pub const POLARITY_REGISTER_DEFAULT: u8 = 0x00;

/// Power-on default of the direction register.
pub const DIRECTION_REGISTER_DEFAULT: u8 = 0xFF;

/// One of the chip's four registers.
///
/// The code of each register is fixed by the datasheet and is the first byte
/// of every bus exchange the driver makes.
#[derive(Debug, Clone, Copy, PartialEq, Eq, Structural)]
pub enum Register {
    /// Reflects the state of the pins; read-only.
    Input,
    /// Holds the levels driven on pins configured as outputs.
    Output,
    /// Selects, per pin, whether the input value is inverted.
    Polarity,
    /// Selects, per pin, input (bit set) or output (bit clear).
    Direction,
}

impl Register {
    /// The register's one-byte command code.
    pub open spec fn spec_code(self) -> u8 {
        match self {
            Register::Input => INPUT_REGISTER,
            Register::Output => OUTPUT_REGISTER,
            Register::Polarity => POLARITY_REGISTER,
            Register::Direction => DIRECTION_REGISTER,
        }
    }

    /// The register's one-byte command code.
    #[verifier::when_used_as_spec(spec_code)]
    pub fn code(self) -> (r: u8)
        ensures
            r == self.spec_code(),
    {
        match self {
            Register::Input => INPUT_REGISTER,
            Register::Output => OUTPUT_REGISTER,
            Register::Polarity => POLARITY_REGISTER,
            Register::Direction => DIRECTION_REGISTER,
        }
    }
}

} // verus!
