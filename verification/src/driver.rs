//! Driver for a TCA9554(A) I/O expander.

use vstd::prelude::*;

use crate::address::Address;
use crate::chip::default_state_probe;
use crate::chip::default_state_probe_failed;
use crate::chip::read_txn;
use crate::chip::reset_writes;
use crate::registers::DIRECTION_REGISTER;
use crate::registers::DIRECTION_REGISTER_DEFAULT;
use crate::registers::INPUT_REGISTER;
use crate::registers::OUTPUT_REGISTER;
use crate::registers::OUTPUT_REGISTER_DEFAULT;
use crate::registers::POLARITY_REGISTER;
use crate::registers::POLARITY_REGISTER_DEFAULT;
use crate::registers::Register;
use crate::transport::Transaction;
use crate::transport::Transport;

verus! {

/// Driver for a TCA9554(A) I/O expander.
///
/// It owns its transport handle exclusively and holds the chip's bus address
/// by value; it keeps no other state — the chip itself holds all persistent
/// register state, and every operation is one stateless protocol exchange
/// (three, for [`Self::reset`]) against the addressed chip.
pub struct Tca9554<I2C> {
    i2c: I2C,
    address: Address,
}

impl<I2C> Tca9554<I2C> {
    /// The raw 7-bit value of the stored address.
    pub closed spec fn spec_address(&self) -> u8 {
        self.address@
    }

    /// The stored transport handle.
    pub closed spec fn spec_transport(&self) -> I2C {
        self.i2c
    }

    /// Creates a new driver with the given transport handle and address.
    ///
    /// Performs no bus traffic: chip state is neither assumed nor verified
    /// until an explicit call is made.
    pub fn new(i2c: I2C, address: Address) -> (r: Self)
        ensures
            r.spec_transport() == i2c,
            r.spec_address() == address@,
    {
        Self { i2c, address }
    }

    /// Gets the address used by the driver.
    pub fn address(&self) -> (r: Address)
        ensures
            r@ == self.spec_address(),
    {
        self.address
    }

    /// Releases the driver, returning ownership of the transport handle.
    pub fn release(self) -> (r: I2C)
        ensures
            r == self.spec_transport(),
    {
        self.i2c
    }
}

impl<I2C: Transport> Tca9554<I2C> {
    /// The history of exchanges the driver's transport completed.
    pub open spec fn bus_log(&self) -> Seq<Transaction> {
        self.spec_transport().log()
    }

    /// Reads the value of the input register.
    pub fn read_input(&mut self) -> (r: Result<u8, I2C::Error>)
        ensures
            final (self).spec_address() == old(self).spec_address(),
            r matches Ok(b) ==> final (self).bus_log() == old(self).bus_log().push(
                read_txn(old(self).spec_address(), INPUT_REGISTER, b),
            ),
            r is Err ==> final (self).bus_log() == old(self).bus_log(),
    {
        self.read_register(Register::Input)
    }

    /// Reads the value of the output register.
    pub fn read_output(&mut self) -> (r: Result<u8, I2C::Error>)
        ensures
            final (self).spec_address() == old(self).spec_address(),
            r matches Ok(b) ==> final (self).bus_log() == old(self).bus_log().push(
                read_txn(old(self).spec_address(), OUTPUT_REGISTER, b),
            ),
            r is Err ==> final (self).bus_log() == old(self).bus_log(),
    {
        self.read_register(Register::Output)
    }

    /// Writes the value of the output register.
    pub fn write_output(&mut self, state: u8) -> (r: Result<(), I2C::Error>)
        ensures
            final (self).spec_address() == old(self).spec_address(),
            r is Ok ==> final (self).bus_log() == old(self).bus_log().push(
                Transaction::Write {
                    address: old(self).spec_address(),
                    command: OUTPUT_REGISTER,
                    value: state,
                },
            ),
            r is Err ==> final (self).bus_log() == old(self).bus_log(),
    {
        self.write_register(Register::Output, state)
    }

    /// Reads the value of the polarity inversion register.
    pub fn read_polarity(&mut self) -> (r: Result<u8, I2C::Error>)
        ensures
            final (self).spec_address() == old(self).spec_address(),
            r matches Ok(b) ==> final (self).bus_log() == old(self).bus_log().push(
                read_txn(old(self).spec_address(), POLARITY_REGISTER, b),
            ),
            r is Err ==> final (self).bus_log() == old(self).bus_log(),
    {
        self.read_register(Register::Polarity)
    }

    /// Writes the value of the polarity inversion register.
    pub fn write_polarity(&mut self, state: u8) -> (r: Result<(), I2C::Error>)
        ensures
            final (self).spec_address() == old(self).spec_address(),
            r is Ok ==> final (self).bus_log() == old(self).bus_log().push(
                Transaction::Write {
                    address: old(self).spec_address(),
                    command: POLARITY_REGISTER,
                    value: state,
                },
            ),
            r is Err ==> final (self).bus_log() == old(self).bus_log(),
    {
        self.write_register(Register::Polarity, state)
    }

    /// Reads the value of the direction register.
    pub fn read_direction(&mut self) -> (r: Result<u8, I2C::Error>)
        ensures
            final (self).spec_address() == old(self).spec_address(),
            r matches Ok(b) ==> final (self).bus_log() == old(self).bus_log().push(
                read_txn(old(self).spec_address(), DIRECTION_REGISTER, b),
            ),
            r is Err ==> final (self).bus_log() == old(self).bus_log(),
    {
        self.read_register(Register::Direction)
    }

    /// Writes the value of the direction register.
    pub fn write_direction(&mut self, state: u8) -> (r: Result<(), I2C::Error>)
        ensures
            final (self).spec_address() == old(self).spec_address(),
            r is Ok ==> final (self).bus_log() == old(self).bus_log().push(
                Transaction::Write {
                    address: old(self).spec_address(),
                    command: DIRECTION_REGISTER,
                    value: state,
                },
            ),
            r is Err ==> final (self).bus_log() == old(self).bus_log(),
    {
        self.write_register(Register::Direction, state)
    }

    /// Writes the state of the registers to the chip's power-on defaults: in
    /// order, direction, then polarity, then output.
    ///
    /// Stops at the first transport failure and surfaces it unchanged; the
    /// writes already made are not rolled back, so a failed reset leaves the
    /// chip in a mixed state — the history then holds a strict prefix of the
    /// three writes.
    pub fn reset(&mut self) -> (r: Result<(), I2C::Error>)
        ensures
            final (self).spec_address() == old(self).spec_address(),
            r is Ok ==> final (self).bus_log() == old(self).bus_log() + reset_writes(
                old(self).spec_address(),
            ),
            r is Err ==> exists|n: int|
                0 <= n < 3 && final (self).bus_log() == old(self).bus_log() + #[trigger] reset_writes(
                    old(self).spec_address(),
                ).take(n),
    {
        let ghost pre = old(self).bus_log();
        let ghost a = old(self).spec_address();
        if let Err(e) = self.write_direction(DIRECTION_REGISTER_DEFAULT) {
            proof {
                assert(self.bus_log() == pre + reset_writes(a).take(0)) by {
                    assert(pre + reset_writes(a).take(0) =~= pre);
                }
            }
            return Err(e);
        }
        if let Err(e) = self.write_polarity(POLARITY_REGISTER_DEFAULT) {
            proof {
                assert(self.bus_log() == pre + reset_writes(a).take(1)) by {
                    assert(pre + reset_writes(a).take(1) =~= pre.push(reset_writes(a)[0]));
                }
            }
            return Err(e);
        }
        if let Err(e) = self.write_output(OUTPUT_REGISTER_DEFAULT) {
            proof {
                assert(self.bus_log() == pre + reset_writes(a).take(2)) by {
                    assert(pre + reset_writes(a).take(2) =~= pre.push(reset_writes(a)[0]).push(
                        reset_writes(a)[1],
                    ));
                }
            }
            return Err(e);
        }
        proof {
            assert(self.bus_log() =~= pre + reset_writes(a));
        }
        Ok(())
    }

    /// Returns whether the current state of the registers matches the chip's
    /// power-on defaults.
    ///
    /// Reads direction, polarity and output, in that order, and compares each
    /// against its power-on default; a mismatch settles the verdict, so the
    /// remaining reads are skipped. The input register is deliberately
    /// excluded: it reflects external pin state, not a chip-settable default.
    /// A transport failure aborts the check and is surfaced unchanged.
    ///
    /// When the chip is functioning properly, the registers match the
    /// power-on defaults after power has been applied or after a call to
    /// [`Self::reset`].
    pub fn is_in_default_state(&mut self) -> (r: Result<bool, I2C::Error>)
        ensures
            final (self).spec_address() == old(self).spec_address(),
            r matches Ok(b) ==> default_state_probe(
                old(self).bus_log(),
                final (self).bus_log(),
                old(self).spec_address(),
                b,
            ),
            r is Err ==> default_state_probe_failed(
                old(self).bus_log(),
                final (self).bus_log(),
                old(self).spec_address(),
            ),
    {
        let ghost pre = old(self).bus_log();
        let ghost a = old(self).spec_address();
        let direction = match self.read_direction() {
            Ok(b) => b,
            Err(e) => {
                return Err(e);
            },
        };
        if direction != DIRECTION_REGISTER_DEFAULT {
            proof {
                assert(self.bus_log() == pre.push(read_txn(a, DIRECTION_REGISTER, direction)));
            }
            return Ok(false);
        }
        let polarity = match self.read_polarity() {
            Ok(b) => b,
            Err(e) => {
                return Err(e);
            },
        };
        if polarity != POLARITY_REGISTER_DEFAULT {
            proof {
                assert(self.bus_log() == pre.push(
                    read_txn(a, DIRECTION_REGISTER, DIRECTION_REGISTER_DEFAULT),
                ).push(read_txn(a, POLARITY_REGISTER, polarity)));
            }
            return Ok(false);
        }
        let output = match self.read_output() {
            Ok(b) => b,
            Err(e) => {
                return Err(e);
            },
        };
        proof {
            assert(self.bus_log() == pre.push(
                read_txn(a, DIRECTION_REGISTER, DIRECTION_REGISTER_DEFAULT),
            ).push(read_txn(a, POLARITY_REGISTER, POLARITY_REGISTER_DEFAULT)).push(
                read_txn(a, OUTPUT_REGISTER, output),
            ));
        }
        Ok(output == OUTPUT_REGISTER_DEFAULT)
    }

    /// Writes a value to a register: one addressed write of the two-byte
    /// payload `[register code, value]`.
    fn write_register(&mut self, register: Register, value: u8) -> (r: Result<(), I2C::Error>)
        ensures
            final (self).spec_address() == old(self).spec_address(),
            r is Ok ==> final (self).bus_log() == old(self).bus_log().push(
                Transaction::Write {
                    address: old(self).spec_address(),
                    command: register.spec_code(),
                    value,
                },
            ),
            r is Err ==> final (self).bus_log() == old(self).bus_log(),
    {
        let a = u8::from(self.address);
        self.i2c.write(a, register.code(), value)
    }

    /// Reads the value from a register: one addressed exchange that writes
    /// the one-byte payload `[register code]` and reads back one byte.
    fn read_register(&mut self, register: Register) -> (r: Result<u8, I2C::Error>)
        ensures
            final (self).spec_address() == old(self).spec_address(),
            r matches Ok(b) ==> final (self).bus_log() == old(self).bus_log().push(
                read_txn(old(self).spec_address(), register.spec_code(), b),
            ),
            r is Err ==> final (self).bus_log() == old(self).bus_log(),
    {
        let a = u8::from(self.address);
        self.i2c.write_read(a, register.code())
    }
}

} // verus!
