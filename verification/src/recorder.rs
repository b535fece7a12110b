//! A connection that sends nothing and keeps a list of what it was asked to do.

use crate::chimp::ChimpConnection;
use crate::script::{elapsed, Event};
use vstd::prelude::*;

verus! {

/// One thing that a recorder was asked to do.
#[derive(Debug, PartialEq, Eq)]
pub enum Step {
    /// Send `value` to `addr`.
    Toggle { addr: String, value: bool },
    /// Send a message without arguments to `addr`.
    Trigger { addr: String },
    /// Let `millis` milliseconds pass.
    Delay { millis: u64 },
}

impl View for Step {
    type V = Event;

    open spec fn view(&self) -> Event {
        match self {
            Step::Toggle { addr, value } => Event::Toggle { addr: addr@, value: *value },
            Step::Trigger { addr } => Event::Trigger { addr: addr@ },
            Step::Delay { millis } => Event::Delay { millis: *millis },
        }
    }
}

/// The events that the steps stand for.
pub open spec fn step_views(steps: Seq<Step>) -> Seq<Event> {
    steps.map_values(|s: Step| s@)
}

/// A connection to no console: it keeps every step, in order, and its
/// clock moves only by the pauses it is asked for.
#[derive(Debug)]
pub struct Recorder {
    pub steps: Vec<Step>,
}

impl Recorder {
    /// A recorder on which nothing has happened yet.
    pub fn new() -> (recorder: Recorder)
        ensures
            recorder.history() == Seq::<Event>::empty(),
    {
        Recorder { steps: Vec::new() }
    }

    /// The milliseconds that have passed on this recorder's clock.
    pub fn elapsed_millis(&self) -> (millis: u128)
        ensures
            millis == elapsed(self.history()),
    {
        let mut millis: u128 = 0;
        let mut i: usize = 0;
        while i < self.steps.len()
            invariant
                i <= self.steps@.len(),
                millis == elapsed(self.history().take(i as int)),
                millis <= i * 0xffff_ffff_ffff_ffff,
            decreases self.steps@.len() - i,
        {
            assert(self.history().take(i + 1).drop_last() =~= self.history().take(i as int));
            match &self.steps[i] {
                Step::Delay { millis: pause } => {
                    assert(millis + *pause <= (i + 1) * 0xffff_ffff_ffff_ffff) by (nonlinear_arith)
                        requires
                            millis <= i * 0xffff_ffff_ffff_ffff,
                            *pause <= 0xffff_ffff_ffff_ffff,
                    ;
                    assert((i + 1) * 0xffff_ffff_ffff_ffff <= u128::MAX) by (nonlinear_arith)
                        requires
                            i + 1 <= 0xffff_ffff_ffff_ffff,
                    ;
                    millis = millis + *pause as u128;
                },
                _ => {
                    assert(millis <= (i + 1) * 0xffff_ffff_ffff_ffff) by (nonlinear_arith)
                        requires
                            millis <= i * 0xffff_ffff_ffff_ffff,
                    ;
                },
            }
            i += 1;
        }
        assert(self.history().take(i as int) =~= self.history());
        millis
    }
}

impl ChimpConnection for Recorder {
    open spec fn history(&self) -> Seq<Event> {
        step_views(self.steps@)
    }

    fn send_bool(&mut self, msg: String, value: bool) {
        self.steps.push(Step::Toggle { addr: msg, value });
    }

    fn send_msg(&mut self, msg: String) {
        self.steps.push(Step::Trigger { addr: msg });
    }

    fn delay(&mut self, millis: u64) {
        self.steps.push(Step::Delay { millis });
    }
}

} // verus!
