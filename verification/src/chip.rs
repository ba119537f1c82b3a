//! Model of a well-functioning chip behind a bus history.
//!
//! The driver's contracts say which [`Transaction`]s an operation appends to
//! its transport's history. This module says what those histories mean: the
//! value each settable register holds after a history of writes, and when a
//! history is *chip-consistent* — every read in it was answered with the
//! register value the preceding writes establish, the way a well-functioning
//! chip answers. The laws at the end connect the two: a reset establishes the
//! power-on defaults, reads report the written state, and reads without an
//! intervening write agree.

use vstd::prelude::*;

use crate::registers::DIRECTION_REGISTER;
use crate::registers::DIRECTION_REGISTER_DEFAULT;
use crate::registers::OUTPUT_REGISTER;
use crate::registers::OUTPUT_REGISTER_DEFAULT;
use crate::registers::POLARITY_REGISTER;
use crate::registers::POLARITY_REGISTER_DEFAULT;
use crate::transport::Transaction;

verus! {

/// The power-on default of the settable register with command code `command`.
///
/// Only the output, polarity and direction registers are settable; the input
/// register reflects the pins and has no default. Other codes are given an
/// arbitrary fixed value so the function is total.
pub open spec fn default_of(command: u8) -> u8 {
    if command == OUTPUT_REGISTER {
        OUTPUT_REGISTER_DEFAULT
    } else if command == POLARITY_REGISTER {
        POLARITY_REGISTER_DEFAULT
    } else if command == DIRECTION_REGISTER {
        DIRECTION_REGISTER_DEFAULT
    } else {
        0
    }
}

/// The value the settable register `command` of the chip at `address` holds
/// after the bus history `log`: the value of the last write addressed to it,
/// or its power-on default if it was never written.
pub open spec fn register_value(log: Seq<Transaction>, address: u8, command: u8) -> u8
    decreases log.len(),
{
    if log.len() == 0 {
        default_of(command)
    } else {
        match log.last() {
            Transaction::Write { address: a, command: c, value } => {
                if a == address && c == command {
                    value
                } else {
                    register_value(log.drop_last(), address, command)
                }
            },
            Transaction::WriteRead { .. } => register_value(log.drop_last(), address, command),
        }
    }
}

/// Whether `command` is the code of one of the three settable registers —
/// output, polarity or direction. The input register is not among them: it
/// reflects the pins and cannot be written.
pub open spec fn is_settable_register(command: u8) -> bool {
    command == OUTPUT_REGISTER || command == POLARITY_REGISTER || command == DIRECTION_REGISTER
}

/// Whether `txn` is a write to the settable register `command` of the chip at
/// `address`.
pub open spec fn is_write_to(txn: Transaction, address: u8, command: u8) -> bool {
    txn matches Transaction::Write { address: a, command: c, value: _ } && a == address && c
        == command
}

/// Whether every read in the history `log` addressed to a settable register
/// of the chip at `address` was answered with the value the preceding history
/// establishes for that register.
///
/// This is how a well-functioning chip behaves; reads of the input register
/// are left unconstrained, since the pins, not the written history, decide
/// them.
pub open spec fn chip_consistent(log: Seq<Transaction>, address: u8) -> bool {
    forall|i: int|
        0 <= i < log.len() ==> match #[trigger] log[i] {
            Transaction::WriteRead { address: a, command: c, response } => (a == address
                && is_settable_register(c)) ==> response == register_value(log.take(i), address, c),
            Transaction::Write { .. } => true,
        }
}

/// A read exchange: the one-byte payload `[command]` answered by `response`.
pub open spec fn read_txn(address: u8, command: u8, response: u8) -> Transaction {
    Transaction::WriteRead { address, command, response }
}

/// The bus traffic of one successful default-state check, and its verdict.
///
/// The check reads direction, polarity and output in that order, comparing
/// each against its power-on default; since one mismatch already settles the
/// verdict, later reads may be skipped. `post` extends the prior history
/// `pre` by the reads performed, and `verdict` is true iff every register
/// read answered its default.
pub open spec fn default_state_probe(
    pre: Seq<Transaction>,
    post: Seq<Transaction>,
    address: u8,
    verdict: bool,
) -> bool {
    ||| (exists|d: u8|
        #![trigger pre.push(read_txn(address, DIRECTION_REGISTER, d))]
        d != DIRECTION_REGISTER_DEFAULT && verdict == false && post == pre.push(
            read_txn(address, DIRECTION_REGISTER, d),
        ))
    ||| (exists|p: u8|
        #![trigger pre.push(read_txn(address, DIRECTION_REGISTER, DIRECTION_REGISTER_DEFAULT)).push(read_txn(address, POLARITY_REGISTER, p))]
        p != POLARITY_REGISTER_DEFAULT && verdict == false && post == pre.push(
            read_txn(address, DIRECTION_REGISTER, DIRECTION_REGISTER_DEFAULT),
        ).push(read_txn(address, POLARITY_REGISTER, p)))
    ||| (exists|o: u8|
        #![trigger pre.push(read_txn(address, DIRECTION_REGISTER, DIRECTION_REGISTER_DEFAULT)).push(read_txn(address, POLARITY_REGISTER, POLARITY_REGISTER_DEFAULT)).push(read_txn(address, OUTPUT_REGISTER, o))]
        verdict == (o == OUTPUT_REGISTER_DEFAULT) && post == pre.push(
            read_txn(address, DIRECTION_REGISTER, DIRECTION_REGISTER_DEFAULT),
        ).push(read_txn(address, POLARITY_REGISTER, POLARITY_REGISTER_DEFAULT)).push(
            read_txn(address, OUTPUT_REGISTER, o),
        ))
}

/// The bus traffic of a default-state check that a transport failure cut
/// short: only the reads before the failure stand in the history, and each of
/// them answered its default, else the check would already have concluded.
pub open spec fn default_state_probe_failed(
    pre: Seq<Transaction>,
    post: Seq<Transaction>,
    address: u8,
) -> bool {
    ||| post == pre
    ||| post == pre.push(read_txn(address, DIRECTION_REGISTER, DIRECTION_REGISTER_DEFAULT))
    ||| post == pre.push(read_txn(address, DIRECTION_REGISTER, DIRECTION_REGISTER_DEFAULT)).push(
        read_txn(address, POLARITY_REGISTER, POLARITY_REGISTER_DEFAULT),
    )
}

/// The three writes a reset of the chip at `address` performs, in order:
/// direction, polarity, output, each to its power-on default.
pub open spec fn reset_writes(address: u8) -> Seq<Transaction> {
    seq![
        Transaction::Write {
            address,
            command: DIRECTION_REGISTER,
            value: DIRECTION_REGISTER_DEFAULT,
        },
        Transaction::Write { address, command: POLARITY_REGISTER, value: POLARITY_REGISTER_DEFAULT },
        Transaction::Write { address, command: OUTPUT_REGISTER, value: OUTPUT_REGISTER_DEFAULT },
    ]
}

/// The command and value of each of the three reset writes, in order, as
/// plain bytes: what a caller that drives its own transport must put on the
/// bus, one two-byte write per pair, stopping at the first failure.
pub fn reset_sequence() -> (r: Vec<(u8, u8)>)
    ensures
        r@ == seq![
            (DIRECTION_REGISTER, DIRECTION_REGISTER_DEFAULT),
            (POLARITY_REGISTER, POLARITY_REGISTER_DEFAULT),
            (OUTPUT_REGISTER, OUTPUT_REGISTER_DEFAULT),
        ],
        forall|address: u8, i: int|
            0 <= i < 3 ==> #[trigger] reset_writes(address)[i] == (Transaction::Write {
                address,
                command: r@[i].0,
                value: r@[i].1,
            }),
{
    let mut r: Vec<(u8, u8)> = Vec::new();
    r.push((DIRECTION_REGISTER, DIRECTION_REGISTER_DEFAULT));
    r.push((POLARITY_REGISTER, POLARITY_REGISTER_DEFAULT));
    r.push((OUTPUT_REGISTER, OUTPUT_REGISTER_DEFAULT));
    proof {
        assert(r@ =~= seq![
            (DIRECTION_REGISTER, DIRECTION_REGISTER_DEFAULT),
            (POLARITY_REGISTER, POLARITY_REGISTER_DEFAULT),
            (OUTPUT_REGISTER, OUTPUT_REGISTER_DEFAULT),
        ]);
    }
    r
}

/// Whether three values read from the direction, polarity and output
/// registers all match the chip's power-on defaults.
pub fn defaults_match(direction: u8, polarity: u8, output: u8) -> (r: bool)
    ensures
        r == (direction == DIRECTION_REGISTER_DEFAULT && polarity == POLARITY_REGISTER_DEFAULT
            && output == OUTPUT_REGISTER_DEFAULT),
{
    direction == DIRECTION_REGISTER_DEFAULT && polarity == POLARITY_REGISTER_DEFAULT && output
        == OUTPUT_REGISTER_DEFAULT
}

/// Appending an exchange to a chip-consistent history keeps it consistent,
/// provided a read of a settable register was answered with the value the
/// history establishes for it.
pub(crate) proof fn lemma_chip_consistent_push(log: Seq<Transaction>, address: u8, t: Transaction)
    requires
        chip_consistent(log, address),
        match t {
            Transaction::WriteRead { address: a, command: c, response } => (a == address
                && is_settable_register(c)) ==> response == register_value(log, address, c),
            Transaction::Write { .. } => true,
        },
    ensures
        chip_consistent(log.push(t), address),
{
    let post = log.push(t);
    assert forall|i: int| 0 <= i < post.len() implies match #[trigger] post[i] {
        Transaction::WriteRead { address: a, command: c, response } => (a == address
            && is_settable_register(c)) ==> response == register_value(post.take(i), address, c),
        Transaction::Write { .. } => true,
    } by {
        if i < log.len() {
            assert(post[i] == log[i]);
            assert(post.take(i) =~= log.take(i));
        } else {
            assert(post[i] == t);
            assert(post.take(i) =~= log);
        }
    }
}

/// Appending an exchange that is not a write to register `command` of the
/// chip at `address` leaves that register's value unchanged; in particular
/// reads never change register state.
proof fn lemma_register_value_push_skips(
    log: Seq<Transaction>,
    address: u8,
    command: u8,
    t: Transaction,
)
    requires
        !is_write_to(t, address, command),
    ensures
        register_value(log.push(t), address, command) == register_value(log, address, command),
{
    assert(log.push(t).drop_last() =~= log);
    assert(log.push(t).last() == t);
}

/// A stretch of history without a write to register `command` of the chip at
/// `address` leaves that register's value unchanged.
proof fn lemma_register_value_unwritten_segment(
    log: Seq<Transaction>,
    address: u8,
    command: u8,
    m: int,
    n: int,
)
    requires
        0 <= m <= n <= log.len(),
        forall|k: int| m <= k < n ==> !is_write_to(#[trigger] log[k], address, command),
    ensures
        register_value(log.take(n), address, command) == register_value(
            log.take(m),
            address,
            command,
        ),
    decreases n - m,
{
    if m < n {
        assert(log.take(n) =~= log.take(n - 1).push(log[n - 1]));
        lemma_register_value_push_skips(log.take(n - 1), address, command, log[n - 1]);
        lemma_register_value_unwritten_segment(log, address, command, m, n - 1);
    } else {
        assert(log.take(n) =~= log.take(m));
    }
}

/// After the three writes of a reset, each settable register of the chip at
/// `address` holds its power-on default, whatever was written before.
pub proof fn lemma_reset_establishes_defaults(pre: Seq<Transaction>, address: u8)
    ensures
        register_value(pre + reset_writes(address), address, DIRECTION_REGISTER)
            == DIRECTION_REGISTER_DEFAULT,
        register_value(pre + reset_writes(address), address, POLARITY_REGISTER)
            == POLARITY_REGISTER_DEFAULT,
        register_value(pre + reset_writes(address), address, OUTPUT_REGISTER)
            == OUTPUT_REGISTER_DEFAULT,
{
    let s1 = pre.push(reset_writes(address)[0]);
    let s2 = s1.push(reset_writes(address)[1]);
    let s3 = s2.push(reset_writes(address)[2]);
    assert(pre + reset_writes(address) =~= s3);
    lemma_register_value_push_skips(s2, address, DIRECTION_REGISTER, reset_writes(address)[2]);
    lemma_register_value_push_skips(s2, address, POLARITY_REGISTER, reset_writes(address)[2]);
    lemma_register_value_push_skips(s1, address, DIRECTION_REGISTER, reset_writes(address)[1]);
    assert(s2.drop_last() =~= s1);
    assert(s2.last() == reset_writes(address)[1]);
    assert(register_value(s2, address, POLARITY_REGISTER) == POLARITY_REGISTER_DEFAULT);
    assert(s1.drop_last() =~= pre);
    assert(s1.last() == reset_writes(address)[0]);
    assert(register_value(s1, address, DIRECTION_REGISTER) == DIRECTION_REGISTER_DEFAULT);
}

/// A successful default-state check over a chip-consistent history reports
/// exactly whether the three settable registers held their power-on defaults
/// when the check began.
pub proof fn lemma_default_check_reports_registers(
    pre: Seq<Transaction>,
    post: Seq<Transaction>,
    address: u8,
    verdict: bool,
)
    requires
        chip_consistent(post, address),
        default_state_probe(pre, post, address, verdict),
    ensures
        verdict == (register_value(pre, address, DIRECTION_REGISTER) == DIRECTION_REGISTER_DEFAULT
            && register_value(pre, address, POLARITY_REGISTER) == POLARITY_REGISTER_DEFAULT
            && register_value(pre, address, OUTPUT_REGISTER) == OUTPUT_REGISTER_DEFAULT),
{
    let i = pre.len() as int;
    if exists|d: u8|
        #![trigger pre.push(read_txn(address, DIRECTION_REGISTER, d))]
        d != DIRECTION_REGISTER_DEFAULT && verdict == false && post == pre.push(
            read_txn(address, DIRECTION_REGISTER, d),
        ) {
        let d = choose|d: u8|
            d != DIRECTION_REGISTER_DEFAULT && verdict == false && post == pre.push(
                read_txn(address, DIRECTION_REGISTER, d),
            );
        assert(post[i] == read_txn(address, DIRECTION_REGISTER, d));
        assert(post.take(i) =~= pre);
    } else if exists|p: u8|
        #![trigger pre.push(read_txn(address, DIRECTION_REGISTER, DIRECTION_REGISTER_DEFAULT)).push(read_txn(address, POLARITY_REGISTER, p))]
        p != POLARITY_REGISTER_DEFAULT && verdict == false && post == pre.push(
            read_txn(address, DIRECTION_REGISTER, DIRECTION_REGISTER_DEFAULT),
        ).push(read_txn(address, POLARITY_REGISTER, p)) {
        let p = choose|p: u8|
            p != POLARITY_REGISTER_DEFAULT && verdict == false && post == pre.push(
                read_txn(address, DIRECTION_REGISTER, DIRECTION_REGISTER_DEFAULT),
            ).push(read_txn(address, POLARITY_REGISTER, p));
        assert(post[i] == read_txn(address, DIRECTION_REGISTER, DIRECTION_REGISTER_DEFAULT));
        assert(post[i + 1] == read_txn(address, POLARITY_REGISTER, p));
        assert(post.take(i) =~= pre);
        assert(post.take(i + 1) =~= pre.push(
            read_txn(address, DIRECTION_REGISTER, DIRECTION_REGISTER_DEFAULT),
        ));
        lemma_register_value_push_skips(
            pre,
            address,
            POLARITY_REGISTER,
            read_txn(address, DIRECTION_REGISTER, DIRECTION_REGISTER_DEFAULT),
        );
    } else {
        let o = choose|o: u8|
            verdict == (o == OUTPUT_REGISTER_DEFAULT) && post == pre.push(
                read_txn(address, DIRECTION_REGISTER, DIRECTION_REGISTER_DEFAULT),
            ).push(read_txn(address, POLARITY_REGISTER, POLARITY_REGISTER_DEFAULT)).push(
                read_txn(address, OUTPUT_REGISTER, o),
            );
        let s1 = pre.push(read_txn(address, DIRECTION_REGISTER, DIRECTION_REGISTER_DEFAULT));
        let s2 = s1.push(read_txn(address, POLARITY_REGISTER, POLARITY_REGISTER_DEFAULT));
        assert(post[i] == read_txn(address, DIRECTION_REGISTER, DIRECTION_REGISTER_DEFAULT));
        assert(post[i + 1] == read_txn(address, POLARITY_REGISTER, POLARITY_REGISTER_DEFAULT));
        assert(post[i + 2] == read_txn(address, OUTPUT_REGISTER, o));
        assert(post.take(i) =~= pre);
        assert(post.take(i + 1) =~= s1);
        assert(post.take(i + 2) =~= s2);
        lemma_register_value_push_skips(
            pre,
            address,
            POLARITY_REGISTER,
            read_txn(address, DIRECTION_REGISTER, DIRECTION_REGISTER_DEFAULT),
        );
        lemma_register_value_push_skips(
            pre,
            address,
            OUTPUT_REGISTER,
            read_txn(address, DIRECTION_REGISTER, DIRECTION_REGISTER_DEFAULT),
        );
        lemma_register_value_push_skips(
            s1,
            address,
            OUTPUT_REGISTER,
            read_txn(address, POLARITY_REGISTER, POLARITY_REGISTER_DEFAULT),
        );
    }
}

/// A default-state check that follows an uninterrupted reset over a
/// chip-consistent history reports true.
pub proof fn lemma_reset_then_default_check(
    pre: Seq<Transaction>,
    post: Seq<Transaction>,
    address: u8,
    verdict: bool,
)
    requires
        chip_consistent(post, address),
        default_state_probe(pre + reset_writes(address), post, address, verdict),
    ensures
        verdict,
{
    lemma_reset_establishes_defaults(pre, address);
    lemma_default_check_reports_registers(pre + reset_writes(address), post, address, verdict);
}

/// Two reads of the same settable register with no intervening write to it
/// answer the same value, over a chip-consistent history.
pub proof fn lemma_reads_agree_without_intervening_write(
    log: Seq<Transaction>,
    address: u8,
    command: u8,
    i: int,
    j: int,
    r1: u8,
    r2: u8,
)
    requires
        chip_consistent(log, address),
        is_settable_register(command),
        0 <= i < j < log.len(),
        log[i] == read_txn(address, command, r1),
        log[j] == read_txn(address, command, r2),
        forall|k: int| i < k < j ==> !is_write_to(#[trigger] log[k], address, command),
    ensures
        r1 == r2,
{
    assert(r1 == register_value(log.take(i), address, command));
    assert(r2 == register_value(log.take(j), address, command));
    assert(forall|k: int| i <= k < j ==> !is_write_to(#[trigger] log[k], address, command));
    lemma_register_value_unwritten_segment(log, address, command, i, j);
}

} // verus!
