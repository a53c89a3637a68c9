use vstd::prelude::*;

verus! {

use crate::geom::Vec3;

/// The summary figures the slicer reports for a finished job, in
/// thousandths of their display units so that they stay exact integers.
#[derive(Clone, Copy, PartialEq, Eq, Structural, Debug)]
pub struct CalculatedValues {
    pub plastic_volume_milli: u64,
    pub plastic_weight_milli: u64,
    pub total_time_milli: u64,
}

impl CalculatedValues {
    /// The print time split into hours, minutes, seconds and leftover
    /// thousandths of a second.
    pub fn get_hours_minutes_seconds_fract_time(&self) -> (r: (u64, u64, u64, u64))
        ensures
            r.0 == self.total_time_milli / 1000 / 3600,
            r.1 == (self.total_time_milli / 1000 % 3600) / 60,
            r.2 == self.total_time_milli / 1000 % 60,
            r.3 == self.total_time_milli % 1000,
    {
        let secs = self.total_time_milli / 1000;
        (secs / 3600, (secs % 3600) / 60, secs % 60, self.total_time_milli % 1000)
    }
}

/// One toolpath command streamed back by the slicer, reduced to the fields
/// the viewer reads; anything else is carried as `Other`.
#[derive(Clone, Copy, PartialEq, Eq, Structural, Debug)]
pub enum ToolCommand {
    MoveAndExtrude { start: Vec3, end: Vec3, width_milli: i64 },
    LayerChange { z_milli: i64, index: u64 },
    Other,
}

/// Everything that can go wrong around a slicing job.
#[derive(Clone, Debug)]
pub enum Errors {
    /// The slicer executable could not be spawned at all.
    SlicerApplicationIssue,
    /// The slicer wrote to its error stream; its words are not inspected.
    SlicerCommunicationIssue,
    /// A structured error the slicer itself reported.
    SlicerError { code: u32, message: String },
    /// A mesh file could not be loaded.
    LoadError { message: String },
}

pub const APPLICATION_ISSUE_CODE: u32 = 0x8000;

pub const COMMUNICATION_ISSUE_CODE: u32 = 0x8001;

pub const LOAD_ERROR_CODE: u32 = 0x8002;

impl Errors {
    /// Return the error code and pretty error message.
    pub fn get_code_and_message(&self) -> (r: (u32, String))
        ensures
            self is SlicerApplicationIssue ==> r.0 == APPLICATION_ISSUE_CODE && r.1@
                == "Slicing Application could not be found."@,
            self is SlicerCommunicationIssue ==> r.0 == COMMUNICATION_ISSUE_CODE && r.1@
                == "Error found in communication between GUI and slicer application."@,
            self matches Errors::SlicerError { code, message } ==> r.0 == code && r.1@ == message@,
            self matches Errors::LoadError { message } ==> r.0 == LOAD_ERROR_CODE && r.1@
                == message@,
    {
        match self {
            Errors::SlicerApplicationIssue => (
                APPLICATION_ISSUE_CODE,
                "Slicing Application could not be found.".to_owned(),
            ),
            Errors::SlicerCommunicationIssue => (
                COMMUNICATION_ISSUE_CODE,
                "Error found in communication between GUI and slicer application.".to_owned(),
            ),
            Errors::SlicerError { code, message } => (*code, message.clone()),
            Errors::LoadError { message } => (LOAD_ERROR_CODE, message.clone()),
        }
    }
}

/// One binary message of the slicer's streaming protocol, after decoding.
#[derive(Clone, Debug)]
pub enum Message {
    CalculatedValues(CalculatedValues),
    Commands(Vec<ToolCommand>),
    GCode(String),
    Error { code: u32, message: String },
    StateUpdate(String),
    Warning(String),
}

/// The state of the single in-flight or completed slicing attempt.  The
/// fields are mutated only through the transition functions below: a reset
/// when an attempt starts, one update per decoded message, and a single
/// terminal transition that clears `running`.
pub struct Job {
    pub running: bool,
    pub calculated_values: Option<CalculatedValues>,
    pub gcode: Option<String>,
    pub commands: Option<Vec<ToolCommand>>,
    pub error: Option<Errors>,
    pub status_text: String,
    pub refresh_pending: bool,
}

/// The effect of one decoded protocol message on the job state: each kind
/// overwrites its own slot, a warning is discarded, and every message sets
/// the refresh flag; nothing stops the stream, not even an error message.
pub open spec fn spec_apply_message(j: Job, m: Message) -> Job {
    let updated = match m {
        Message::CalculatedValues(cv) => Job { calculated_values: Some(cv), ..j },
        Message::Commands(c) => Job { commands: Some(c), ..j },
        Message::GCode(s) => Job { gcode: Some(s), ..j },
        Message::Error { code, message } => Job {
            error: Some(Errors::SlicerError { code, message }),
            ..j
        },
        Message::StateUpdate(s) => Job { status_text: s, ..j },
        Message::Warning(_) => j,
    };
    Job { refresh_pending: true, ..updated }
}

/// The terminal transition after the stream has ended: a failed spawn
/// reports the missing application, otherwise any words on the error
/// stream report a communication issue (superseding whatever error a
/// message put there), and `running` falls in every case.
pub open spec fn spec_finish(j: Job, spawned: bool, stderr_nonempty: bool) -> Job {
    if !spawned {
        Job { running: false, error: Some(Errors::SlicerApplicationIssue), ..j }
    } else if stderr_nonempty {
        Job { running: false, error: Some(Errors::SlicerCommunicationIssue), ..j }
    } else {
        Job { running: false, ..j }
    }
}

impl Job {
    /// A fresh controller: idle, with every result slot empty.
    pub fn new() -> (r: Job)
        ensures
            r.running == false,
            r.calculated_values is None,
            r.gcode is None,
            r.commands is None,
            r.error is None,
            r.status_text@ == Seq::<char>::empty(),
            r.refresh_pending == false,
    {
        Job {
            running: false,
            calculated_values: None,
            gcode: None,
            commands: None,
            error: None,
            status_text: String::new(),
            refresh_pending: false,
        }
    }

    /// The reset that begins a slice attempt: all result and error slots
    /// are cleared and the running flag rises.  The status text and the
    /// refresh flag keep their values, as they always did.
    pub fn reset_for_start(&mut self)
        ensures
            final(self).running == true,
            final(self).calculated_values is None,
            final(self).gcode is None,
            final(self).commands is None,
            final(self).error is None,
            final(self).status_text@ == old(self).status_text@,
            final(self).refresh_pending == old(self).refresh_pending,
    {
        self.calculated_values = None;
        self.gcode = None;
        self.error = None;
        self.commands = None;
        self.running = true;
    }

    /// Apply one decoded protocol message.
    pub fn apply_message(&mut self, msg: Message)
        ensures
            *final(self) == spec_apply_message(*old(self), msg),
            final(self).running == old(self).running,
            final(self).refresh_pending == true,
    {
        match msg {
            Message::CalculatedValues(cv) => {
                self.calculated_values = Some(cv);
            },
            Message::Commands(c) => {
                self.commands = Some(c);
            },
            Message::GCode(s) => {
                self.gcode = Some(s);
            },
            Message::Error { code, message } => {
                self.error = Some(Errors::SlicerError { code, message });
            },
            Message::StateUpdate(s) => {
                self.status_text = s;
            },
            Message::Warning(_) => {},
        }
        self.refresh_pending = true;
    }

    /// The terminal transition back to idle.
    pub fn finish(&mut self, spawned: bool, stderr_nonempty: bool)
        ensures
            *final(self) == spec_finish(*old(self), spawned, stderr_nonempty),
            final(self).running == false,
            !spawned ==> (final(self).error matches Some(e) && e is SlicerApplicationIssue),
            spawned && stderr_nonempty ==> (final(self).error matches Some(e)
                && e is SlicerCommunicationIssue),
            spawned && !stderr_nonempty ==> final(self).error == old(self).error,
    {
        if !spawned {
            self.error = Some(Errors::SlicerApplicationIssue);
        } else if stderr_nonempty {
            self.error = Some(Errors::SlicerCommunicationIssue);
        }
        self.running = false;
    }
}

} // verus!
