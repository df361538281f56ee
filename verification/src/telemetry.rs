//! An append-only log of what the tool did. Events are collected in
//! memory, each stamped with the time at which it was logged.

use std::path::PathBuf;
use std::time::Duration;
use std::time::SystemTime;
use vstd::prelude::*;

verus! {

/// `std::path::PathBuf`, carried through without looking inside.
#[verifier::external_type_specification]
#[verifier::external_body]
pub struct ExPathBuf(PathBuf);

/// `std::time::SystemTime`, carried through without looking inside.
#[verifier::external_type_specification]
#[verifier::external_body]
pub struct ExSystemTime(SystemTime);

/// What happened.
#[derive(Debug)]
pub enum EventDetails {
    InitialInstall,
    RustcRun(Duration, i32),
    CargoRun(Duration, i32),
    RustcErrorCode(String),
    ComponentDownload { name: String, target: String, version: String },
}

/// The version of the event format that [`Telemeter::log`] writes.
pub const EVENT_VERSION: u8 = 0;

/// One entry of the log.
#[derive(Debug)]
pub struct Event {
    pub version: u8,
    pub time: SystemTime,
    pub details: EventDetails,
}

/// Collects events for the log directory it was made for.
#[derive(Debug)]
pub struct Telemeter {
    logdir: PathBuf,
    events: Vec<Event>,
}

/// Calls `SystemTime::now`. Nothing is promised of the time it returns.
#[verifier::external_body]
fn now() -> SystemTime {
    SystemTime::now()
}

impl View for Telemeter {
    type V = Seq<Event>;

    /// The events logged so far, oldest first.
    closed spec fn view(&self) -> Seq<Event> {
        self.events@
    }
}

impl Telemeter {
    /// The directory that the log belongs to.
    pub closed spec fn spec_logdir(&self) -> PathBuf {
        self.logdir
    }

    /// A telemeter for `logdir`, with an empty log.
    pub fn new(logdir: PathBuf) -> (telemeter: Telemeter)
        ensures
            telemeter@ == Seq::<Event>::empty(),
            telemeter.spec_logdir() == logdir,
    {
        Telemeter { logdir, events: Vec::new() }
    }

    /// The directory that the log belongs to.
    pub fn logdir(&self) -> (logdir: &PathBuf)
        ensures
            *logdir == self.spec_logdir(),
    {
        &self.logdir
    }

    /// The events logged so far, oldest first.
    pub fn events(&self) -> (events: &Vec<Event>)
        ensures
            events@ == self@,
    {
        &self.events
    }

    /// Appends an event that happened at `time`. Earlier events stay as
    /// they are.
    pub fn log_at(&mut self, time: SystemTime, deets: EventDetails)
        ensures
            final(self)@ == old(self)@.push(
                (Event { version: EVENT_VERSION, time, details: deets }),
            ),
            final(self).spec_logdir() == old(self).spec_logdir(),
    {
        self.events.push(Event { version: EVENT_VERSION, time, details: deets });
    }

    /// Appends an event, stamped with the current time. Earlier events stay
    /// as they are; of the new one everything but the time is determined.
    pub fn log(&mut self, deets: EventDetails)
        ensures
            final(self)@.len() == old(self)@.len() + 1,
            final(self)@.drop_last() == old(self)@,
            final(self)@.last().version == EVENT_VERSION,
            final(self)@.last().details == deets,
            final(self).spec_logdir() == old(self).spec_logdir(),
    {
        let time = now();
        self.log_at(time, deets);
        assert(self@.drop_last() =~= old(self)@);
    }
}

} // verus!
