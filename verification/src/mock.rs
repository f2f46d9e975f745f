//! A scripted, in-memory bus: a [`BusTransport`] whose outcomes are laid
//! down in advance and whose transactions are recorded for inspection.
//!
//! Each transaction consumes one script step, which either fails it or, for
//! a write-then-read, supplies the response bytes (truncated or padded with
//! zeros to the requested length). Once the script is exhausted every
//! transaction succeeds and reads are answered with zeros.

use vstd::prelude::*;
use vstd::slice::slice_to_vec;

use crate::bus::BusTransport;
use crate::bus::Transaction;

verus! {

/// The scripted bus's failure kind: a transaction the script failed.
#[derive(Copy, Clone, PartialEq, Eq, Structural, Debug)]
pub struct BusFault;

/// The scripted outcome of one transaction.
pub struct ScriptStep {
    /// Fail the transaction instead of completing it.
    pub fail: bool,
    /// The response bytes a write-then-read is answered with.
    pub response: Vec<u8>,
}

impl ScriptStep {
    /// A step that lets the transaction succeed, answering a write-then-read
    /// with `response`.
    pub fn answer(response: Vec<u8>) -> (r: ScriptStep)
        ensures
            !r.fail,
            r.response == response,
    {
        ScriptStep { fail: false, response }
    }

    /// A step that fails the transaction.
    pub fn failure() -> (r: ScriptStep)
        ensures
            r.fail,
    {
        ScriptStep { fail: true, response: Vec::new() }
    }
}

/// One recorded transaction, in executable form; its view is the
/// [`Transaction`] the contracts speak of.
#[derive(PartialEq, Eq, Debug)]
pub enum BusRecord {
    /// Bytes sent to a device address.
    Write { addr: u8, data: Vec<u8> },
    /// Command bytes sent to a device address, then response bytes read
    /// back.
    WriteRead { addr: u8, command: Vec<u8>, response: Vec<u8> },
}

impl View for BusRecord {
    type V = Transaction;

    closed spec fn view(&self) -> Transaction {
        match self {
            BusRecord::Write { addr, data } => Transaction::Write { addr: *addr, data: data@ },
            BusRecord::WriteRead { addr, command, response } => Transaction::WriteRead {
                addr: *addr,
                command: command@,
                response: response@,
            },
        }
    }
}

/// The byte a scripted write-then-read answers at position `j`: the step's
/// byte where the script supplies one, and zero beyond it or once the
/// script is exhausted.
pub open spec fn scripted_byte(step: Option<(bool, Seq<u8>)>, j: int) -> u8 {
    match step {
        Some(s) => if j < s.1.len() {
            s.1[j]
        } else {
            0
        },
        None => 0,
    }
}

/// A bus whose outcomes follow a script and whose log is kept as a vector
/// of [`BusRecord`]s.
pub struct ScriptedBus {
    steps: Vec<ScriptStep>,
    cursor: usize,
    records: Vec<BusRecord>,
}

impl ScriptedBus {
    /// The scripted outcome of the next transaction, as (fail, response
    /// bytes); `None` once the script is exhausted, after which every
    /// transaction succeeds and reads are answered with zeros.
    pub closed spec fn next_step(&self) -> Option<(bool, Seq<u8>)> {
        if self.cursor < self.steps.len() {
            Some((self.steps@[self.cursor as int].fail, self.steps@[self.cursor as int].response@))
        } else {
            None
        }
    }

    /// A fresh bus that will play out `steps`, one per transaction, then
    /// succeed forever. Its log starts empty.
    pub fn new(steps: Vec<ScriptStep>) -> (r: ScriptedBus)
        ensures
            r.log() == Seq::<Transaction>::empty(),
            r.next_step() == (if steps@.len() > 0 {
                Some((steps@[0].fail, steps@[0].response@))
            } else {
                None::<(bool, Seq<u8>)>
            }),
    {
        let bus = ScriptedBus { steps, cursor: 0, records: Vec::new() };
        proof {
            assert(bus.log() =~= Seq::<Transaction>::empty());
        }
        bus
    }

    /// The transactions completed so far, in order.
    pub fn records(&self) -> (r: &Vec<BusRecord>)
        ensures
            r@.map_values(|b: BusRecord| b@) == self.log(),
    {
        &self.records
    }
}

impl BusTransport for ScriptedBus {
    type Error = BusFault;

    closed spec fn log(&self) -> Seq<Transaction> {
        self.records@.map_values(|b: BusRecord| b@)
    }

    fn write(&mut self, addr: u8, data: &[u8]) -> (r: Result<(), BusFault>)
        ensures
            r is Err <==> (old(self).next_step() matches Some(s) && s.0),
    {
        let has_step: bool = self.cursor < self.steps.len();
        let step_index: usize = self.cursor;
        if has_step {
            self.cursor = self.cursor + 1;
        }
        if has_step && self.steps[step_index].fail {
            proof {
                assert(self.log() =~= old(self).log());
            }
            return Err(BusFault);
        }
        let record = BusRecord::Write { addr, data: slice_to_vec(data) };
        proof {
            assert(record@ == Transaction::Write { addr, data: data@ });
        }
        self.records.push(record);
        proof {
            assert(self.log() =~= old(self).log().push(Transaction::Write { addr, data: data@ }));
        }
        Ok(())
    }

    fn write_read(&mut self, addr: u8, command: &[u8], len: usize) -> (r: Result<
        Vec<u8>,
        BusFault,
    >)
        ensures
            r is Err <==> (old(self).next_step() matches Some(s) && s.0),
            r matches Ok(response) ==> forall|j: int|
                0 <= j < len ==> response@[j] == scripted_byte(old(self).next_step(), j),
    {
        let ghost scripted = self.next_step();
        let has_step: bool = self.cursor < self.steps.len();
        let step_index: usize = self.cursor;
        if has_step {
            self.cursor = self.cursor + 1;
        }
        if has_step && self.steps[step_index].fail {
            proof {
                assert(self.log() =~= old(self).log());
            }
            return Err(BusFault);
        }
        let mut response: Vec<u8> = Vec::new();
        let mut i: usize = 0;
        while i < len
            invariant
                i <= len,
                response@.len() == i,
                has_step ==> step_index < self.steps.len(),
                has_step <==> scripted is Some,
                has_step ==> (scripted matches Some(s) && self.steps@[step_index as int].response@
                    == s.1),
                forall|j: int| 0 <= j < i ==> response@[j] == scripted_byte(scripted, j),
            decreases len - i,
        {
            let byte: u8 = if has_step && i < self.steps[step_index].response.len() {
                self.steps[step_index].response[i]
            } else {
                0u8
            };
            response.push(byte);
            i = i + 1;
        }
        let stored: Vec<u8> = slice_to_vec(response.as_slice());
        let record = BusRecord::WriteRead { addr, command: slice_to_vec(command), response: stored };
        proof {
            assert(record@ == Transaction::WriteRead {
                addr,
                command: command@,
                response: response@,
            });
        }
        self.records.push(record);
        proof {
            assert(self.log() =~= old(self).log().push(
                Transaction::WriteRead { addr, command: command@, response: response@ },
            ));
        }
        Ok(response)
    }
}

} // verus!
