//! The register-protocol traces: which transaction sequences a driver
//! operation may leave on the bus, and the laws that hold of them.
//!
//! A *stop* quiesces the device: one write of zero to the mode-control
//! register, then polls of the system-mode status register until the device
//! answers zero. A *mode change* is a completed stop followed by exactly one
//! write of the new control byte. The predicates here pin those shapes down;
//! the driver's contracts state that every operation appends such a trace to
//! the bus log and nothing else.

use vstd::prelude::*;

use crate::bus::Transaction;
use crate::registers::ADDRESS;
use crate::registers::Register;
use crate::sampling::DataRate;
use crate::sampling::Oversampling;
use crate::sampling::encode_spec;

verus! {

/// The write that commands standby: zero to the mode-control register.
pub open spec fn is_standby_write(t: Transaction) -> bool {
    &&& t matches Transaction::Write { addr, data }
    &&& addr == ADDRESS
    &&& data == seq![Register::CTRL_REG1.addr_spec(), 0u8]
}

/// A poll of the system-mode status register: a write-then-read of exactly
/// one response byte.
pub open spec fn is_sysmod_read(t: Transaction) -> bool {
    &&& t matches Transaction::WriteRead { addr, command, response }
    &&& addr == ADDRESS
    &&& command == seq![Register::SYSMOD.addr_spec()]
    &&& response.len() == 1
}

/// The system-mode byte a poll was answered with. Zero means standby;
/// nonzero means the device is still actively sampling.
pub open spec fn read_byte(t: Transaction) -> u8 {
    match t {
        Transaction::WriteRead { response, .. } => response[0],
        _ => 0,
    }
}

/// The write that reconfigures sampling: the control byte `control` to the
/// mode-control register.
pub open spec fn is_mode_write(t: Transaction, control: u8) -> bool {
    &&& t matches Transaction::Write { addr, data }
    &&& addr == ADDRESS
    &&& data == seq![Register::CTRL_REG1.addr_spec(), control]
}

/// The trace of a completed stop: the standby write, then one or more polls
/// of the system-mode register, every poll but the last answered nonzero and
/// the last answered zero.
pub open spec fn is_stop_trace(t: Seq<Transaction>) -> bool {
    &&& t.len() >= 2
    &&& is_standby_write(t[0])
    &&& forall|i: int| 1 <= i < t.len() ==> is_sysmod_read(#[trigger] t[i])
    &&& forall|i: int| 1 <= i < t.len() - 1 ==> read_byte(#[trigger] t[i]) != 0
    &&& read_byte(t[t.len() - 1]) == 0
}

/// The trace of a stop cut short by a transport failure: nothing (the
/// standby write itself failed), or the standby write followed by polls that
/// were all answered nonzero (the poll after them failed). The device was
/// never observed in standby, and no restart was issued.
pub open spec fn is_interrupted_stop_trace(t: Seq<Transaction>) -> bool {
    t.len() == 0 || {
        &&& is_standby_write(t[0])
        &&& forall|i: int| 1 <= i < t.len() ==> is_sysmod_read(#[trigger] t[i])
        &&& forall|i: int| 1 <= i < t.len() ==> read_byte(#[trigger] t[i]) != 0
    }
}

/// The trace of a completed mode change: a completed stop, then exactly one
/// write of the control byte encoding (`rate`, `oversampling`, enabled).
pub open spec fn is_set_mode_trace(
    t: Seq<Transaction>,
    rate: DataRate,
    oversampling: Oversampling,
) -> bool {
    &&& t.len() >= 3
    &&& is_stop_trace(t.take(t.len() - 1))
    &&& is_mode_write(t[t.len() - 1], encode_spec(rate, oversampling, true))
}

/// A control byte with the enabled bit set is never zero, so a mode write
/// that restarts sampling is never the standby write.
pub proof fn lemma_enabled_control_nonzero(rate: DataRate, oversampling: Oversampling)
    ensures
        encode_spec(rate, oversampling, true) != 0,
{
    let r = rate.bits_spec();
    let o = oversampling.bits_spec();
    assert((r | o | 1u8) != 0u8) by (bit_vector);
}

/// In a completed stop, the standby write comes before any poll, every later
/// element is a poll, and a first poll answered zero ends the stop at once:
/// the trace then holds exactly one poll.
pub proof fn lemma_stop_trace_shape(t: Seq<Transaction>)
    requires
        is_stop_trace(t),
    ensures
        is_standby_write(t[0]),
        forall|i: int| 1 <= i < t.len() ==> is_sysmod_read(#[trigger] t[i]),
        read_byte(t[1]) == 0 ==> t.len() == 2,
{
    if read_byte(t[1]) == 0 && t.len() > 2 {
        assert(read_byte(t[1]) != 0);
    }
}

/// In a completed mode change, the mode write is the final transaction, the
/// transaction just before it is the poll that confirmed standby, and the
/// mode write is issued nowhere earlier in the trace.
pub proof fn lemma_set_mode_trace_shape(
    t: Seq<Transaction>,
    rate: DataRate,
    oversampling: Oversampling,
)
    requires
        is_set_mode_trace(t, rate, oversampling),
    ensures
        is_mode_write(t[t.len() - 1], encode_spec(rate, oversampling, true)),
        is_sysmod_read(t[t.len() - 2]),
        read_byte(t[t.len() - 2]) == 0,
        forall|i: int| 0 <= i < t.len() - 1 ==> !is_mode_write(
            #[trigger] t[i],
            encode_spec(rate, oversampling, true),
        ),
{
    let control = encode_spec(rate, oversampling, true);
    let stop = t.take(t.len() - 1);
    assert(stop[stop.len() - 1] == t[t.len() - 2]);
    lemma_enabled_control_nonzero(rate, oversampling);
    assert forall|i: int| 0 <= i < t.len() - 1 implies !is_mode_write(
        #[trigger] t[i],
        control,
    ) by {
        assert(t[i] == stop[i]);
        if i == 0 {
            if is_mode_write(t[i], control) {
                let standby_data = seq![Register::CTRL_REG1.addr_spec(), 0u8];
                let mode_data = seq![Register::CTRL_REG1.addr_spec(), control];
                assert(standby_data[1] == mode_data[1]);
            }
        } else {
            assert(is_sysmod_read(stop[i]));
        }
    }
}

/// A stop that was interrupted by a transport failure, or that completed but
/// was never followed up, contains no mode write at all: sampling is never
/// restarted by a failed mode change.
pub proof fn lemma_no_restart_without_mode_write(t: Seq<Transaction>, control: u8)
    requires
        is_interrupted_stop_trace(t) || is_stop_trace(t),
        control != 0,
    ensures
        forall|i: int| 0 <= i < t.len() ==> !is_mode_write(#[trigger] t[i], control),
{
    assert forall|i: int| 0 <= i < t.len() implies !is_mode_write(#[trigger] t[i], control) by {
        if i == 0 {
            if is_mode_write(t[i], control) {
                let standby_data = seq![Register::CTRL_REG1.addr_spec(), 0u8];
                let mode_data = seq![Register::CTRL_REG1.addr_spec(), control];
                assert(standby_data[1] == mode_data[1]);
            }
        } else {
            assert(is_sysmod_read(t[i]));
        }
    }
}

} // verus!
