//! The driver: owns the bus transport exclusively and orchestrates
//! initialization, mode changes, and measurement reads.

use vstd::prelude::*;

use crate::bus::BusTransport;
use crate::bus::Transaction;
use crate::protocol::is_interrupted_stop_trace;
use crate::protocol::is_set_mode_trace;
use crate::protocol::is_standby_write;
use crate::protocol::is_stop_trace;
use crate::protocol::is_sysmod_read;
use crate::protocol::read_byte;
use crate::registers::ADDRESS;
use crate::registers::Register;
use crate::sampling::DataRate;
use crate::sampling::Oversampling;
use crate::sampling::encode;

verus! {

/// A 16-bit measurement reconstructed from two consecutive response bytes,
/// most-significant byte first, interpreted as a two's-complement value.
pub open spec fn decode_axis_spec(msb: u8, lsb: u8) -> int {
    let unsigned = (msb as int) * 256 + (lsb as int);
    if unsigned >= 32768 {
        unsigned - 65536
    } else {
        unsigned
    }
}

/// A single byte reinterpreted as a two's-complement 8-bit signed value.
pub open spec fn decode_temperature_spec(byte: u8) -> int {
    if byte >= 128 {
        byte - 256
    } else {
        byte as int
    }
}

/// Reconstructs one axis measurement from its two response bytes,
/// most-significant byte first, as a signed two's-complement value.
pub fn decode_axis(msb: u8, lsb: u8) -> (r: i16)
    ensures
        r as int == decode_axis_spec(msb, lsb),
{
    let unsigned: u32 = (msb as u32) * 256 + (lsb as u32);
    if unsigned >= 32768 {
        let magnitude: i32 = 65536 - (unsigned as i32);
        (-magnitude) as i16
    } else {
        unsigned as i16
    }
}

/// Reinterprets a temperature byte as a signed two's-complement value in
/// degrees Celsius.
pub fn decode_temperature(byte: u8) -> (r: i8)
    ensures
        r as int == decode_temperature_spec(byte),
{
    if byte >= 128 {
        let magnitude: i16 = 256 - (byte as i16);
        (-magnitude) as i8
    } else {
        byte as i8
    }
}

/// How many polls of the system-mode register a stop waits for standby
/// before giving up with [`DriverError::Timeout`].
pub const POLL_LIMIT: usize = 65536;

/// Why a driver operation failed.
#[derive(PartialEq, Eq, Debug)]
pub enum DriverError<E> {
    /// A bus transaction failed: the transport's own error, carried
    /// verbatim, with no retry.
    Bus(E),
    /// The device never reported standby within [`POLL_LIMIT`] polls.
    /// Every verified loop must terminate, so the wait for standby is
    /// capped and surfaces this error instead of blocking forever.
    Timeout,
}

/// The magnetometer driver. It exclusively owns one bus transport for its
/// lifetime; no other component talks to the bus.
pub struct Mag3110<B: BusTransport> {
    bus: B,
}

impl<B: BusTransport> Mag3110<B> {
    /// The sequence of transactions the owned bus has completed so far.
    pub closed spec fn log(&self) -> Seq<Transaction> {
        self.bus.log()
    }

    /// Constructs the driver and immediately configures the device into the
    /// default sampling mode: maximum data rate, minimum oversampling,
    /// enabled. On success the device is therefore left actively sampling at
    /// 80 Hz with 16 times oversampling, and the transactions issued are
    /// exactly those of `set_sampling_mode(HZ80, OV16)`. On failure the
    /// partially constructed handle is discarded.
    pub fn new(bus: B) -> (r: Result<Self, DriverError<B::Error>>)
        ensures
            r matches Ok(driver) ==> exists|t: Seq<Transaction>|
                #[trigger] is_set_mode_trace(t, DataRate::HZ80, Oversampling::OV16)
                    && driver.log() == bus.log() + t,
    {
        let mut driver = Mag3110 { bus };
        match driver.set_sampling_mode(DataRate::HZ80, Oversampling::OV16) {
            Ok(()) => {
                proof {
                    let t = choose|t: Seq<Transaction>|
                        #[trigger] is_set_mode_trace(t, DataRate::HZ80, Oversampling::OV16)
                            && driver.log() == bus.log() + t;
                    assert(is_set_mode_trace(t, DataRate::HZ80, Oversampling::OV16));
                }
                Ok(driver)
            },
            Err(e) => Err(e),
        }
    }

    /// Reconfigures sampling in two steps, not atomic with respect to device
    /// state: first a stop quiesces the device (writing a new mode while the
    /// device is mid-sample would produce an invalid measurement), then one
    /// write of the new control byte restarts sampling.
    ///
    /// On success the bus log grows by exactly a mode-change trace: a
    /// completed stop followed by the mode write. On failure the log grows
    /// by an interrupted or completed stop trace and no mode write ever
    /// completed — if the stop had already succeeded, the device is left in
    /// standby with no rollback, and the caller may retry.
    pub fn set_sampling_mode(&mut self, rate: DataRate, oversampling: Oversampling) -> (r: Result<
        (),
        DriverError<B::Error>,
    >)
        ensures
            r is Ok ==> exists|t: Seq<Transaction>|
                #[trigger] is_set_mode_trace(t, rate, oversampling)
                    && final(self).log() == old(self).log() + t,
            r is Err ==> (exists|t: Seq<Transaction>|
                #[trigger] is_interrupted_stop_trace(t)
                    && final(self).log() == old(self).log() + t) || (exists|t: Seq<Transaction>|
                #[trigger] is_stop_trace(t) && final(self).log() == old(self).log() + t),
            r matches Err(DriverError::Timeout) ==> exists|t: Seq<Transaction>|
                #[trigger] is_interrupted_stop_trace(t) && t.len() == POLL_LIMIT + 1
                    && final(self).log() == old(self).log() + t,
    {
        match self.stop_sampling() {
            Ok(()) => {},
            Err(e) => {
                return Err(e);
            },
        }
        let ghost stop = choose|t: Seq<Transaction>|
            #[trigger] is_stop_trace(t) && self.log() == old(self).log() + t;
        let control: u8 = encode(rate, oversampling, true);
        match self.write_register(Register::CTRL_REG1, control) {
            Ok(()) => {
                proof {
                    let mode_write = Transaction::Write {
                        addr: ADDRESS,
                        data: seq![Register::CTRL_REG1.addr_spec(), control],
                    };
                    let t = stop.push(mode_write);
                    assert(t.take(t.len() - 1) =~= stop);
                    assert(is_set_mode_trace(t, rate, oversampling));
                    assert(self.log() =~= old(self).log() + t);
                }
                Ok(())
            },
            Err(e) => {
                proof {
                    assert(is_stop_trace(stop));
                    assert(self.log() == old(self).log() + stop);
                }
                Err(DriverError::Bus(e))
            },
        }
    }

    /// Commands standby, then polls the system-mode status register until
    /// the device confirms it: the device's own report is the ground truth,
    /// not a locally cached state. Returns as soon as a zero is observed,
    /// including on the very first poll. The wait is capped at
    /// [`POLL_LIMIT`] polls — every verified loop must terminate — and a
    /// device that never reports standby surfaces
    /// [`DriverError::Timeout`] instead of blocking the caller forever.
    ///
    /// On success the bus log grows by exactly a stop trace. On a transport
    /// failure the error is the transport's, carried verbatim, and the log
    /// grows by an interrupted stop trace: the device was never observed in
    /// standby. On a timeout the log grows by the standby write and exactly
    /// [`POLL_LIMIT`] polls, all answered nonzero.
    pub fn stop_sampling(&mut self) -> (r: Result<(), DriverError<B::Error>>)
        ensures
            r is Ok ==> exists|t: Seq<Transaction>|
                #[trigger] is_stop_trace(t) && t.len() <= POLL_LIMIT + 1
                    && final(self).log() == old(self).log() + t,
            r is Err ==> exists|t: Seq<Transaction>|
                #[trigger] is_interrupted_stop_trace(t)
                    && final(self).log() == old(self).log() + t,
            r matches Err(DriverError::Timeout) ==> exists|t: Seq<Transaction>|
                #[trigger] is_interrupted_stop_trace(t) && t.len() == POLL_LIMIT + 1
                    && final(self).log() == old(self).log() + t,
    {
        match self.write_register(Register::CTRL_REG1, 0u8) {
            Ok(()) => {},
            Err(e) => {
                proof {
                    let t = Seq::<Transaction>::empty();
                    assert(is_interrupted_stop_trace(t));
                    assert(self.log() =~= old(self).log() + t);
                }
                return Err(DriverError::Bus(e));
            },
        }
        let ghost standby = Transaction::Write {
            addr: ADDRESS,
            data: seq![Register::CTRL_REG1.addr_spec(), 0u8],
        };
        let ghost mut polls: Seq<Transaction> = Seq::empty();
        let mut attempts: usize = 0;
        while attempts < POLL_LIMIT
            invariant
                attempts <= POLL_LIMIT,
                polls.len() == attempts,
                self.log() == old(self).log().push(standby) + polls,
                is_standby_write(standby),
                forall|i: int| 0 <= i < polls.len() ==> is_sysmod_read(#[trigger] polls[i]),
                forall|i: int| 0 <= i < polls.len() ==> read_byte(#[trigger] polls[i]) != 0,
            decreases POLL_LIMIT - attempts,
        {
            let command: Vec<u8> = vec![Register::SYSMOD.addr()];
            match self.bus.write_read(ADDRESS, command.as_slice(), 1) {
                Err(e) => {
                    proof {
                        let t = seq![standby] + polls;
                        assert(t[0] == standby);
                        assert forall|i: int| 1 <= i < t.len() implies is_sysmod_read(
                            #[trigger] t[i],
                        ) && read_byte(t[i]) != 0 by {
                            assert(t[i] == polls[i - 1]);
                        }
                        assert(is_interrupted_stop_trace(t));
                        assert(self.log() =~= old(self).log() + t);
                    }
                    return Err(DriverError::Bus(e));
                },
                Ok(response) => {
                    let ghost poll = Transaction::WriteRead {
                        addr: ADDRESS,
                        command: command@,
                        response: response@,
                    };
                    proof {
                        assert(command@ =~= seq![Register::SYSMOD.addr_spec()]);
                        assert(is_sysmod_read(poll));
                    }
                    if response[0] == 0 {
                        proof {
                            let t = seq![standby] + polls + seq![poll];
                            assert(t[0] == standby);
                            assert(t[t.len() - 1] == poll);
                            assert(read_byte(poll) == 0);
                            assert forall|i: int| 1 <= i < t.len() implies is_sysmod_read(
                                #[trigger] t[i],
                            ) by {
                                if i < t.len() - 1 {
                                    assert(t[i] == polls[i - 1]);
                                }
                            }
                            assert forall|i: int| 1 <= i < t.len() - 1 implies read_byte(
                                #[trigger] t[i],
                            ) != 0 by {
                                assert(t[i] == polls[i - 1]);
                            }
                            assert(is_stop_trace(t));
                            assert(self.log() =~= old(self).log() + t);
                        }
                        return Ok(());
                    }
                    proof {
                        assert(read_byte(poll) != 0);
                        polls = polls.push(poll);
                        assert(self.log() =~= old(self).log().push(standby) + polls);
                    }
                    attempts = attempts + 1;
                },
            }
        }
        proof {
            let t = seq![standby] + polls;
            assert(t[0] == standby);
            assert forall|i: int| 1 <= i < t.len() implies is_sysmod_read(#[trigger] t[i])
                && read_byte(t[i]) != 0 by {
                assert(t[i] == polls[i - 1]);
            }
            assert(is_interrupted_stop_trace(t));
            assert(t.len() == POLL_LIMIT + 1);
            assert(self.log() =~= old(self).log() + t);
        }
        Err(DriverError::Timeout)
    }

    /// Issues one write-then-read transaction requesting the six measurement
    /// bytes starting at the X-axis high byte, and decodes each axis as a
    /// signed two's-complement 16-bit value, most-significant byte first.
    /// No particular sampling state is required: reading while stopped
    /// returns the last latched measurement.
    ///
    /// On success the bus log grows by exactly that one transaction and the
    /// result is the decoding of its six response bytes, in X, Y, Z order.
    /// On failure the error is the transport's, propagated verbatim, and the
    /// log is unchanged.
    pub fn mag(&mut self) -> (r: Result<(i16, i16, i16), B::Error>)
        ensures
            r matches Ok(sample) ==> final(self).log() == old(self).log().push(
                final(self).log().last(),
            ) && (final(self).log().last() matches Transaction::WriteRead {
                addr,
                command,
                response,
            } && addr == ADDRESS && command == seq![Register::OUT_X_MSB.addr_spec()]
                && response.len() == 6 && sample.0 as int == decode_axis_spec(
                response[0],
                response[1],
            ) && sample.1 as int == decode_axis_spec(response[2], response[3])
                && sample.2 as int == decode_axis_spec(response[4], response[5])),
            r is Err ==> final(self).log() == old(self).log(),
    {
        let command: Vec<u8> = vec![Register::OUT_X_MSB.addr()];
        match self.bus.write_read(ADDRESS, command.as_slice(), 6) {
            Ok(buffer) => {
                let x: i16 = decode_axis(buffer[0], buffer[1]);
                let y: i16 = decode_axis(buffer[2], buffer[3]);
                let z: i16 = decode_axis(buffer[4], buffer[5]);
                proof {
                    assert(command@ =~= seq![Register::OUT_X_MSB.addr_spec()]);
                }
                Ok((x, y, z))
            },
            Err(e) => Err(e),
        }
    }

    /// Issues one write-then-read transaction for the single temperature
    /// byte and reinterprets it as a signed two's-complement value in
    /// degrees Celsius.
    ///
    /// On success the bus log grows by exactly that one transaction and the
    /// result is the decoding of its response byte. On failure the error is
    /// the transport's, propagated verbatim, and the log is unchanged.
    pub fn temp(&mut self) -> (r: Result<i8, B::Error>)
        ensures
            r matches Ok(celsius) ==> final(self).log() == old(self).log().push(
                final(self).log().last(),
            ) && (final(self).log().last() matches Transaction::WriteRead {
                addr,
                command,
                response,
            } && addr == ADDRESS && command == seq![Register::DIE_TEMP.addr_spec()]
                && response.len() == 1 && celsius as int == decode_temperature_spec(response[0])),
            r is Err ==> final(self).log() == old(self).log(),
    {
        let command: Vec<u8> = vec![Register::DIE_TEMP.addr()];
        match self.bus.write_read(ADDRESS, command.as_slice(), 1) {
            Ok(buffer) => {
                let celsius: i8 = decode_temperature(buffer[0]);
                proof {
                    assert(command@ =~= seq![Register::DIE_TEMP.addr_spec()]);
                }
                Ok(celsius)
            },
            Err(e) => Err(e),
        }
    }

    /// Releases the bus transport, consuming the driver. There is no
    /// teardown protocol: the device is left in whatever mode it was last
    /// set to.
    pub fn release(self) -> (r: B)
        ensures
            r.log() == self.log(),
    {
        self.bus
    }

    /// Writes one byte to one register: a single two-byte bus write of the
    /// register's address followed by the byte.
    fn write_register(&mut self, register: Register, byte: u8) -> (r: Result<(), B::Error>)
        ensures
            r is Ok ==> final(self).log() == old(self).log().push(
                Transaction::Write { addr: ADDRESS, data: seq![register.addr_spec(), byte] },
            ),
            r is Err ==> final(self).log() == old(self).log(),
    {
        let data: Vec<u8> = vec![register.addr(), byte];
        proof {
            assert(data@ =~= seq![register.addr_spec(), byte]);
        }
        self.bus.write(ADDRESS, data.as_slice())
    }
}

} // verus!
