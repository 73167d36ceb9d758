//! Work units: named entities holding a finite amount of required runtime,
//! consumed in ticks by the scheduler's dispatch loop.

use crate::errors::SchedError;
use crate::textfmt::{dec_str, push_decimal};
use vstd::prelude::*;

verus! {

/// Ticks: the dimensionless unit of simulated time and work.
pub type Dtq = u64;

/// The mathematical model of a work unit: everything its contracts speak of.
pub ghost struct ThreadModel {
    /// Identifier, unique within a run.
    pub id: u8,
    /// Human-readable name.
    pub name: Seq<char>,
    /// Ticks of work still required.
    pub runtime: Dtq,
}

/// The ticks a unit with `rt` remaining actually consumes when asked to run
/// for `dur` ticks: the full request if more work remains afterwards, else
/// everything that is left (the "finished early" signal).
pub open spec fn consumed_ticks(rt: Dtq, dur: Dtq) -> Dtq {
    if rt > dur {
        dur
    } else {
        rt
    }
}

/// The rendered description of a unit: its fields as `key: value` lines.
pub open spec fn thread_desc(m: ThreadModel) -> Seq<char> {
    "id: "@ + dec_str(m.id as nat) + "\nname: "@ + m.name + "\nruntime: "@ + dec_str(
        m.runtime as nat,
    )
}

/// A schedulable work unit: anything that can consume ticks and render
/// itself for the dispatch log. The scheduler depends only on this contract,
/// never on a unit's concrete fields.
pub trait Thread: Sized {
    /// The model this unit currently presents.
    spec fn model(&self) -> ThreadModel;

    /// Runs the unit for at most `dur` ticks and reports the ticks actually
    /// consumed.
    ///
    /// A zero-length interval is rejected with [`SchedError::InvalidInterval`]
    /// and changes nothing. Otherwise the unit consumes
    /// [`consumed_ticks`]`(runtime, dur)`: a result smaller than `dur` means
    /// the remaining runtime reached zero. Only the remaining runtime ever
    /// changes, and it never increases.
    fn do_work(&mut self, dur: Dtq) -> (r: Result<Dtq, SchedError>)
        ensures
            dur == 0 ==> ({
                &&& r == Err::<Dtq, SchedError>(SchedError::InvalidInterval)
                &&& final(self).model() == old(self).model()
            }),
            dur > 0 ==> ({
                let used = consumed_ticks(old(self).model().runtime, dur);
                &&& r == Ok::<Dtq, SchedError>(used)
                &&& final(self).model() == (ThreadModel {
                    id: old(self).model().id,
                    name: old(self).model().name,
                    runtime: (old(self).model().runtime - used) as Dtq,
                })
            }),
    ;

    /// Renders the unit for the dispatch log.
    fn describe(&self) -> (r: String)
        ensures
            r@ == thread_desc(self.model()),
    ;
}

/// Retirement finality: a consume call that returned fewer ticks than it
/// requested has exhausted the unit's runtime. Nothing remains, so a
/// dispatch step retires such a unit instead of re-enqueueing it, and a
/// retired unit is never dispatched again.
pub proof fn lemma_retired_unit_done(rt: Dtq, dur: Dtq)
    requires
        consumed_ticks(rt, dur) < dur,
    ensures
        consumed_ticks(rt, dur) == rt,
        rt - consumed_ticks(rt, dur) == 0,
{
}

/// The one concrete work unit of this crate.
pub struct MyThread {
    id: u8,
    name: String,
    runtime: Dtq,
}

impl MyThread {
    /// Creates a unit with the given identifier, name, and required runtime.
    pub fn new(id: u8, name: &str, runtime: Dtq) -> (t: MyThread)
        ensures
            t.model() == (ThreadModel { id, name: name@, runtime }),
    {
        MyThread { id, name: String::from_str(name), runtime }
    }

    /// The ticks of work this unit still requires.
    pub fn remaining_runtime(&self) -> (r: Dtq)
        ensures
            r == self.model().runtime,
    {
        self.runtime
    }
}

impl Thread for MyThread {
    closed spec fn model(&self) -> ThreadModel {
        ThreadModel { id: self.id, name: self.name@, runtime: self.runtime }
    }

    fn do_work(&mut self, dur: Dtq) -> (r: Result<Dtq, SchedError>) {
        if dur == 0 {
            return Err(SchedError::InvalidInterval);
        }
        let used: Dtq = if self.runtime > dur {
            self.runtime = self.runtime - dur;
            dur
        } else {
            let left: Dtq = self.runtime;
            self.runtime = 0;
            left
        };
        Ok(used)
    }

    fn describe(&self) -> (r: String) {
        let mut r = String::from_str("id: ");
        push_decimal(&mut r, self.id as u64);
        r.append("\nname: ");
        r.append(self.name.as_str());
        r.append("\nruntime: ");
        push_decimal(&mut r, self.runtime);
        proof {
            assert(r@ =~= thread_desc(self.model()));
        }
        r
    }
}

} // verus!
