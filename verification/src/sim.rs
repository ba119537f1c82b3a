//! A verified in-memory transport: one simulated chip on an otherwise empty
//! bus.
//!
//! [`SimBus`] records every completed exchange and answers reads of the
//! settable registers from the history of writes, exactly as
//! [`crate::chip::register_value`] says a well-functioning chip would; its
//! history is chip-consistent at all times. Reads of the input register
//! answer a pin state that test code sets directly, and a `failing` switch
//! makes every exchange report a no-acknowledge, to exercise error paths.

use vstd::prelude::*;

use crate::address::Address;
use crate::chip::chip_consistent;
use crate::chip::is_settable_register;
use crate::chip::lemma_chip_consistent_push;
use crate::chip::register_value;
use crate::registers::DIRECTION_REGISTER;
use crate::registers::DIRECTION_REGISTER_DEFAULT;
use crate::registers::INPUT_REGISTER;
use crate::registers::OUTPUT_REGISTER;
use crate::registers::OUTPUT_REGISTER_DEFAULT;
use crate::registers::POLARITY_REGISTER;
use crate::registers::POLARITY_REGISTER_DEFAULT;
use crate::transport::Transaction;
use crate::transport::Transport;

verus! {

/// The simulated transport's failure report: the addressed chip did not
/// acknowledge the exchange.
#[derive(Debug, Clone, Copy, PartialEq, Eq, Structural)]
pub enum SimError {
    /// No chip acknowledged the addressed exchange.
    NoAcknowledge,
}

/// A simulated two-wire bus carrying one simulated chip.
///
/// Exchanges addressed to the chip complete and are recorded; exchanges to
/// any other address, or made while `failing` is set, report
/// [`SimError::NoAcknowledge`] and leave no trace.
pub struct SimBus {
    address: u8,
    input: u8,
    failing: bool,
    log: Vec<Transaction>,
}

impl SimBus {
    /// The simulated history is chip-consistent at all times: every read of a
    /// settable register answered the value the writes before it establish.
    #[verifier::type_invariant]
    spec fn wf(self) -> bool {
        chip_consistent(self.log@, self.address)
    }

    /// The simulated chip's bus address.
    pub closed spec fn spec_address(&self) -> u8 {
        self.address
    }

    /// The pin state the simulated chip's input register reflects.
    pub closed spec fn spec_input(&self) -> u8 {
        self.input
    }

    /// Whether every exchange currently reports a no-acknowledge.
    pub closed spec fn spec_failing(&self) -> bool {
        self.failing
    }

    /// A new bus carrying one chip at `address`, fresh from power-on: no
    /// exchanges yet, all pins low, acknowledging normally.
    pub fn new(address: Address) -> (r: Self)
        ensures
            r.spec_address() == address@,
            r.spec_input() == 0,
            r.spec_failing() == false,
            r.log() == Seq::<Transaction>::empty(),
    {
        let a = u8::from(address);
        Self { address: a, input: 0, failing: false, log: Vec::new() }
    }

    /// Sets the pin state the chip's input register reflects.
    pub fn set_input(&mut self, value: u8)
        ensures
            final (self).spec_address() == old(self).spec_address(),
            final (self).spec_input() == value,
            final (self).spec_failing() == old(self).spec_failing(),
            final (self).log() == old(self).log(),
    {
        proof {
            use_type_invariant(&*self);
        }
        self.input = value;
    }

    /// Sets whether exchanges are answered or report a no-acknowledge.
    pub fn set_failing(&mut self, failing: bool)
        ensures
            final (self).spec_address() == old(self).spec_address(),
            final (self).spec_input() == old(self).spec_input(),
            final (self).spec_failing() == failing,
            final (self).log() == old(self).log(),
    {
        proof {
            use_type_invariant(&*self);
        }
        self.failing = failing;
    }

    /// The exchanges completed so far, oldest first.
    pub fn transactions(&self) -> (r: &Vec<Transaction>)
        ensures
            r@ == self.log(),
    {
        &self.log
    }

    /// The value a read of register `command` answers: the pin state for the
    /// input register, and the last written value (or the power-on default)
    /// for every other register.
    pub open spec fn spec_answer(&self, command: u8) -> u8 {
        if command == INPUT_REGISTER {
            self.spec_input()
        } else {
            register_value(self.log(), self.spec_address(), command)
        }
    }

    /// Computes the answer to a read of register `command` from the recorded
    /// history of writes.
    fn answer(&self, command: u8) -> (r: u8)
        ensures
            r == self.spec_answer(command),
    {
        if command == INPUT_REGISTER {
            return self.input;
        }
        let ghost whole = self.log@;
        let mut i: usize = self.log.len();
        proof {
            assert(whole.take(i as int) =~= whole);
        }
        while i > 0
            invariant
                i <= self.log.len(),
                whole == self.log@,
                command != INPUT_REGISTER,
                register_value(whole, self.address, command) == register_value(
                    whole.take(i as int),
                    self.address,
                    command,
                ),
            decreases i,
        {
            i = i - 1;
            let txn = self.log[i];
            proof {
                assert(whole.take(i as int + 1).drop_last() =~= whole.take(i as int));
                assert(whole.take(i as int + 1).last() == whole[i as int]);
            }
            match txn {
                Transaction::Write { address, command: c, value } => {
                    if address == self.address && c == command {
                        proof {
                            assert(register_value(whole.take(i as int + 1), self.address, command)
                                == value);
                        }
                        return value;
                    }
                },
                Transaction::WriteRead { .. } => {},
            }
        }
        proof {
            assert(whole.take(0) =~= Seq::<Transaction>::empty());
        }
        if command == OUTPUT_REGISTER {
            OUTPUT_REGISTER_DEFAULT
        } else if command == POLARITY_REGISTER {
            POLARITY_REGISTER_DEFAULT
        } else if command == DIRECTION_REGISTER {
            DIRECTION_REGISTER_DEFAULT
        } else {
            0
        }
    }
}

impl Transport for SimBus {
    type Error = SimError;

    closed spec fn log(&self) -> Seq<Transaction> {
        self.log@
    }

    fn write(&mut self, address: u8, command: u8, value: u8) -> (r: Result<(), SimError>)
        ensures
            r is Ok <==> (!old(self).spec_failing() && address == old(self).spec_address()),
            final (self).spec_address() == old(self).spec_address(),
            final (self).spec_input() == old(self).spec_input(),
            final (self).spec_failing() == old(self).spec_failing(),
    {
        proof {
            use_type_invariant(&*self);
        }
        if self.failing || address != self.address {
            return Err(SimError::NoAcknowledge);
        }
        let txn = Transaction::Write { address, command, value };
        proof {
            lemma_chip_consistent_push(self.log@, self.address, txn);
        }
        let mut log: Vec<Transaction> = Vec::new();
        std::mem::swap(&mut log, &mut self.log);
        log.push(txn);
        std::mem::swap(&mut log, &mut self.log);
        Ok(())
    }

    fn write_read(&mut self, address: u8, command: u8) -> (r: Result<u8, SimError>)
        ensures
            r is Ok <==> (!old(self).spec_failing() && address == old(self).spec_address()),
            r matches Ok(response) ==> response == old(self).spec_answer(command),
            final (self).spec_address() == old(self).spec_address(),
            final (self).spec_input() == old(self).spec_input(),
            final (self).spec_failing() == old(self).spec_failing(),
    {
        proof {
            use_type_invariant(&*self);
        }
        if self.failing || address != self.address {
            return Err(SimError::NoAcknowledge);
        }
        let response = self.answer(command);
        let txn = Transaction::WriteRead { address, command, response };
        proof {
            lemma_chip_consistent_push(self.log@, self.address, txn);
        }
        let mut log: Vec<Transaction> = Vec::new();
        std::mem::swap(&mut log, &mut self.log);
        log.push(txn);
        std::mem::swap(&mut log, &mut self.log);
        Ok(response)
    }
}

} // verus!
