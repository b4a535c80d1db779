use launcher_update::platform::Platform;
use launcher_update::replace::{replace_plan, replace_strategy, ReplaceStep, ReplaceStrategy};

#[test]
fn strategy_per_platform() {
    assert_eq!(
        replace_strategy(Platform::Windows),
        ReplaceStrategy::DeferredMove
    );
    assert_eq!(
        replace_strategy(Platform::Linux),
        ReplaceStrategy::DirectOverwrite
    );
    assert_eq!(
        replace_strategy(Platform::Macos),
        ReplaceStrategy::DirectOverwrite
    );
}

#[test]
fn direct_overwrite_writes_payload_then_marks_executable() {
    let payload = vec![0x7f, b'E', b'L', b'F'];
    let steps = replace_plan(
        ReplaceStrategy::DirectOverwrite,
        "/opt/launcher/launcher",
        "/tmp/update.bin",
        payload.clone(),
    );
    assert_eq!(
        steps,
        vec![
            ReplaceStep::WriteFile {
                path: String::from("/opt/launcher/launcher"),
                contents: payload,
            },
            ReplaceStep::SetExecutable {
                path: String::from("/opt/launcher/launcher"),
            },
        ]
    );
}

#[test]
fn deferred_move_writes_temp_then_schedules_move() {
    let payload = vec![b'M', b'Z', 0, 1];
    let steps = replace_plan(
        ReplaceStrategy::DeferredMove,
        "C:\\launcher\\launcher.exe",
        "C:\\temp\\update.exe",
        payload.clone(),
    );
    assert_eq!(
        steps,
        vec![
            ReplaceStep::WriteFile {
                path: String::from("C:\\temp\\update.exe"),
                contents: payload,
            },
            ReplaceStep::ScheduleMove {
                from: String::from("C:\\temp\\update.exe"),
                to: String::from("C:\\launcher\\launcher.exe"),
            },
        ]
    );
}

#[test]
fn empty_payload_is_written_as_given() {
    let steps = replace_plan(
        ReplaceStrategy::DirectOverwrite,
        "/opt/launcher/launcher",
        "/tmp/update.bin",
        Vec::new(),
    );
    match &steps[0] {
        ReplaceStep::WriteFile { path, contents } => {
            assert_eq!(path, "/opt/launcher/launcher");
            assert!(contents.is_empty());
        }
        other => panic!("expected a write step, got {:?}", other),
    }
}
