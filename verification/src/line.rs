//! The digital-output-line boundary: the capability the driver consumes to
//! drive its three hardware lines, plus a simulated line that records every
//! commanded transition for inspection.

use vstd::prelude::*;

verus! {

/// The error a digital output line may report when it fails to take a state.
#[derive(Clone, Copy, Debug, PartialEq, Eq, Structural)]
pub struct LineError;

/// A digital output line.
///
/// `history()` is the abstract trace of states the line has been commanded
/// to take, oldest first. Every implementation must record a commanded
/// transition in its history whether or not the physical operation succeeds;
/// the driver's flush protocol is specified over these traces.
pub trait OutputLine: Sized {
    spec fn history(&self) -> Seq<bool>;

    fn set_high(&mut self) -> (r: Result<(), LineError>)
        ensures
            final(self).history() == old(self).history().push(true),
    ;

    fn set_low(&mut self) -> (r: Result<(), LineError>)
        ensures
            final(self).history() == old(self).history().push(false),
    ;

    /// Drive the line to the given logical state: high for `true`.
    fn set_state(&mut self, high: bool) -> (r: Result<(), LineError>)
        ensures
            final(self).history() == old(self).history().push(high),
    {
        if high {
            self.set_high()
        } else {
            self.set_low()
        }
    }
}

/// A simulated output line that stores every commanded state and never
/// fails. Tests drive the device with three of these and read the captured
/// transitions back.
pub struct RecordingLine {
    log: Vec<bool>,
}

impl RecordingLine {
    pub fn new() -> (r: Self)
        ensures
            r.history() == Seq::<bool>::empty(),
    {
        RecordingLine { log: Vec::new() }
    }

    /// The captured transitions, oldest first.
    pub fn transitions(&self) -> (r: &Vec<bool>)
        ensures
            r@ == self.history(),
    {
        &self.log
    }
}

impl OutputLine for RecordingLine {
    closed spec fn history(&self) -> Seq<bool> {
        self.log@
    }

    fn set_high(&mut self) -> (r: Result<(), LineError>) {
        self.log.push(true);
        Ok(())
    }

    fn set_low(&mut self) -> (r: Result<(), LineError>) {
        self.log.push(false);
        Ok(())
    }
}

} // verus!
