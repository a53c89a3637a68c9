use gladius_gui::job::{CalculatedValues, Errors, Job, Message, ToolCommand};
use gladius_gui::geom::Vec3;

fn values() -> CalculatedValues {
    CalculatedValues {
        plastic_volume_milli: 10_000,
        plastic_weight_milli: 12_000,
        total_time_milli: 3_725_500,
    }
}

// Scenario: the subprocess cannot be spawned at all.  The final state is
// the missing-application error with the running flag down and every
// result slot still empty.
#[test]
fn spawn_failure_reports_missing_application() {
    let mut job = Job::new();
    job.reset_for_start();
    assert!(job.running);
    job.finish(false, false);
    assert!(!job.running);
    assert!(matches!(job.error, Some(Errors::SlicerApplicationIssue)));
    assert!(job.calculated_values.is_none());
    assert!(job.gcode.is_none());
    assert!(job.commands.is_none());
}

// Scenario: the happy path.  A state update, the calculated values and
// the final text arrive; the stream closes with a silent error channel.
#[test]
fn happy_path_collects_results() {
    let mut job = Job::new();
    job.reset_for_start();
    job.apply_message(Message::StateUpdate("slicing".to_string()));
    assert_eq!(job.status_text, "slicing");
    job.apply_message(Message::CalculatedValues(values()));
    job.apply_message(Message::GCode("G1 X0".to_string()));
    job.finish(true, false);
    assert!(!job.running);
    assert!(job.error.is_none());
    let cv = job.calculated_values.expect("values were streamed");
    assert_eq!(cv.plastic_volume_milli, 10_000);
    assert_eq!(cv.plastic_weight_milli, 12_000);
    assert_eq!(job.gcode.as_deref(), Some("G1 X0"));
}

// Scenario: the subprocess reports a structured error and then words
// appear on its error stream.  The later stream-derived error supersedes
// the domain error.
#[test]
fn stderr_supersedes_domain_error() {
    let mut job = Job::new();
    job.reset_for_start();
    job.apply_message(Message::Error { code: 0x1234, message: "bad".to_string() });
    assert!(matches!(job.error, Some(Errors::SlicerError { code: 0x1234, .. })));
    job.finish(true, true);
    assert!(!job.running);
    assert!(matches!(job.error, Some(Errors::SlicerCommunicationIssue)));
}

// Each message kind overwrites its own slot and raises the refresh flag;
// a warning raises only the flag.
#[test]
fn message_slots_and_refresh() {
    let mut job = Job::new();
    job.reset_for_start();
    assert!(!job.refresh_pending);
    job.apply_message(Message::Warning("ignored".to_string()));
    assert!(job.refresh_pending);
    assert!(job.calculated_values.is_none());
    assert!(job.gcode.is_none());
    assert!(job.commands.is_none());
    assert!(job.error.is_none());
    assert_eq!(job.status_text, "");
    let cmds = vec![
        ToolCommand::LayerChange { z_milli: 200, index: 1 },
        ToolCommand::MoveAndExtrude {
            start: Vec3::new(0, 0, 0),
            end: Vec3::new(10, 0, 0),
            width_milli: 450,
        },
    ];
    job.apply_message(Message::Commands(cmds.clone()));
    assert_eq!(job.commands.as_deref(), Some(&cmds[..]));
    // a later message overwrites the slot
    job.apply_message(Message::Commands(vec![ToolCommand::Other]));
    assert_eq!(job.commands.as_deref(), Some(&[ToolCommand::Other][..]));
}

// A new attempt clears the previous attempt's results and errors.
#[test]
fn reset_clears_previous_attempt() {
    let mut job = Job::new();
    job.reset_for_start();
    job.apply_message(Message::GCode("G1".to_string()));
    job.apply_message(Message::Error { code: 7, message: "x".to_string() });
    job.finish(true, false);
    job.reset_for_start();
    assert!(job.running);
    assert!(job.gcode.is_none());
    assert!(job.error.is_none());
    assert!(job.calculated_values.is_none());
    assert!(job.commands.is_none());
}

// The error taxonomy's codes and messages.
#[test]
fn error_codes_and_messages() {
    let (c, m) = Errors::SlicerApplicationIssue.get_code_and_message();
    assert_eq!(c, 0x8000);
    assert_eq!(m, "Slicing Application could not be found.");
    let (c, m) = Errors::SlicerCommunicationIssue.get_code_and_message();
    assert_eq!(c, 0x8001);
    assert_eq!(m, "Error found in communication between GUI and slicer application.");
    let (c, m) = Errors::SlicerError { code: 0x1234, message: "boom".to_string() }
        .get_code_and_message();
    assert_eq!(c, 0x1234);
    assert_eq!(m, "boom");
    let (c, m) = Errors::LoadError { message: "nope".to_string() }.get_code_and_message();
    assert_eq!(c, 0x8002);
    assert_eq!(m, "nope");
}

// The print time decomposes exactly into hours, minutes, seconds and
// leftover milliseconds.
#[test]
fn print_time_decomposition() {
    let (h, m, s, f) = values().get_hours_minutes_seconds_fract_time();
    assert_eq!((h, m, s, f), (1, 2, 5, 500));
    let zero = CalculatedValues {
        plastic_volume_milli: 0,
        plastic_weight_milli: 0,
        total_time_milli: 0,
    };
    assert_eq!(zero.get_hours_minutes_seconds_fract_time(), (0, 0, 0, 0));
}
