use rede::accessibility::text_insertion::{
    insert, InsertionAction, InsertionError, InsertionPhase, InsertionRun, StepReport,
    CLIPBOARD_RESTORE_DELAY_MS,
};

struct Desktop {
    clipboard: Option<String>,
    focused_field: String,
    accessibility: Result<(), InsertionError>,
    snapshot: Result<(), InsertionError>,
    write: Result<(), InsertionError>,
    paste: Result<(), InsertionError>,
    restore: Result<(), InsertionError>,
    performed: Vec<&'static str>,
}

fn desktop(clipboard: Option<&str>) -> Desktop {
    Desktop {
        clipboard: clipboard.map(|text| text.to_string()),
        focused_field: String::new(),
        accessibility: Ok(()),
        snapshot: Ok(()),
        write: Ok(()),
        paste: Ok(()),
        restore: Ok(()),
        performed: Vec::new(),
    }
}

fn report(outcome: &Result<(), InsertionError>) -> StepReport {
    match outcome {
        Ok(()) => StepReport::Done,
        Err(error) => StepReport::Failed(error.clone()),
    }
}

fn drive(desktop: &mut Desktop, text: &str) -> Result<(), InsertionError> {
    let (mut run, mut action) = insert(text);
    let mut steps = 0;
    loop {
        steps += 1;
        assert!(steps <= 6);
        let reported = match action {
            InsertionAction::AttemptAccessibility => {
                desktop.performed.push("accessibility");
                if desktop.accessibility.is_ok() {
                    desktop.focused_field.push_str(&run.text);
                }
                report(&desktop.accessibility)
            }
            InsertionAction::SnapshotClipboard => {
                desktop.performed.push("snapshot");
                match (&desktop.snapshot, &desktop.clipboard) {
                    (Err(error), _) => StepReport::Failed(error.clone()),
                    (Ok(()), Some(contents)) => StepReport::Contents(contents.clone()),
                    (Ok(()), None) => StepReport::Done,
                }
            }
            InsertionAction::WriteClipboard => {
                desktop.performed.push("write");
                if desktop.write.is_ok() {
                    desktop.clipboard = Some(run.text.clone());
                }
                report(&desktop.write)
            }
            InsertionAction::SendPaste => {
                desktop.performed.push("paste");
                if desktop.paste.is_ok() {
                    let pasted = desktop.clipboard.clone().unwrap_or_default();
                    desktop.focused_field.push_str(&pasted);
                }
                report(&desktop.paste)
            }
            InsertionAction::RestoreClipboard(saved) => {
                desktop.performed.push("restore");
                if desktop.restore.is_ok() {
                    desktop.clipboard = saved;
                }
                report(&desktop.restore)
            }
            InsertionAction::Finish(outcome) => {
                assert!(run.is_finished());
                return outcome;
            }
            InsertionAction::Nothing => panic!("a run that is not finished asked for nothing"),
        };
        let (next_run, next_action) = run.advance(reported);
        run = next_run;
        action = next_action;
    }
}

fn failed(detail: &str) -> InsertionError {
    InsertionError::InsertionFailed(detail.to_string())
}

#[test]
fn insert_begins_with_accessibility() {
    let (run, action) = insert("hello");
    assert_eq!(run.text, "hello");
    assert_eq!(run.phase, InsertionPhase::Accessibility);
    assert_eq!(action, InsertionAction::AttemptAccessibility);
    assert!(!run.is_finished());
}

#[test]
fn accessibility_success_leaves_clipboard_alone() {
    let mut desktop = desktop(Some("kept"));
    assert_eq!(drive(&mut desktop, "hello"), Ok(()));
    assert_eq!(desktop.performed, vec!["accessibility"]);
    assert_eq!(desktop.focused_field, "hello");
    assert_eq!(desktop.clipboard, Some("kept".to_string()));
}

#[test]
fn clipboard_fallback_succeeds_and_restores_clipboard() {
    let mut desktop = desktop(Some("before"));
    desktop.accessibility = Err(failed("AX API unavailable"));
    assert_eq!(drive(&mut desktop, "dictated text"), Ok(()));
    assert_eq!(
        desktop.performed,
        vec!["accessibility", "snapshot", "write", "paste", "restore"]
    );
    assert_eq!(desktop.focused_field, "dictated text");
    assert_eq!(desktop.clipboard, Some("before".to_string()));
}

#[test]
fn clipboard_fallback_restores_an_empty_clipboard() {
    let mut desktop = desktop(None);
    desktop.accessibility = Err(InsertionError::PermissionDenied);
    assert_eq!(drive(&mut desktop, "text"), Ok(()));
    assert_eq!(desktop.focused_field, "text");
    assert_eq!(desktop.clipboard, None);
}

#[test]
fn failed_restore_is_not_an_error() {
    let mut desktop = desktop(Some("before"));
    desktop.accessibility = Err(InsertionError::NoTextField);
    desktop.restore = Err(failed("clipboard busy"));
    assert_eq!(drive(&mut desktop, "text"), Ok(()));
    assert_eq!(desktop.focused_field, "text");
    assert_eq!(desktop.clipboard, Some("text".to_string()));
}

#[test]
fn failed_paste_surfaces_after_restore() {
    let mut desktop = desktop(Some("before"));
    desktop.accessibility = Err(failed("AX API unavailable"));
    desktop.paste = Err(InsertionError::PermissionDenied);
    assert_eq!(drive(&mut desktop, "text"), Err(InsertionError::PermissionDenied));
    assert_eq!(
        desktop.performed,
        vec!["accessibility", "snapshot", "write", "paste", "restore"]
    );
    assert_eq!(desktop.focused_field, "");
    assert_eq!(desktop.clipboard, Some("before".to_string()));
}

#[test]
fn failed_write_surfaces_after_restore() {
    let mut desktop = desktop(Some("before"));
    desktop.accessibility = Err(InsertionError::PermissionDenied);
    desktop.write = Err(failed("clipboard locked"));
    assert_eq!(drive(&mut desktop, "text"), Err(failed("clipboard locked")));
    assert_eq!(desktop.performed, vec!["accessibility", "snapshot", "write", "restore"]);
    assert_eq!(desktop.clipboard, Some("before".to_string()));
}

#[test]
fn failed_snapshot_surfaces_at_once() {
    let mut desktop = desktop(Some("before"));
    desktop.accessibility = Err(InsertionError::PermissionDenied);
    desktop.snapshot = Err(InsertionError::NoTextField);
    assert_eq!(drive(&mut desktop, "text"), Err(InsertionError::NoTextField));
    assert_eq!(desktop.performed, vec!["accessibility", "snapshot"]);
    assert_eq!(desktop.clipboard, Some("before".to_string()));
}

#[test]
fn finished_run_asks_for_nothing() {
    let (run, _) = insert("x");
    let (run, action) = run.advance(StepReport::Done);
    assert_eq!(action, InsertionAction::Finish(Ok(())));
    assert!(run.is_finished());
    let (run, action) = run.advance(StepReport::Failed(InsertionError::NoTextField));
    assert_eq!(action, InsertionAction::Nothing);
    assert_eq!(run, InsertionRun { text: "x".to_string(), phase: InsertionPhase::Finished });
}

#[test]
fn advance_follows_the_table() {
    let run = InsertionRun { text: "t".to_string(), phase: InsertionPhase::Snapshot };
    let (run, action) = run.advance(StepReport::Contents("old".to_string()));
    assert_eq!(action, InsertionAction::WriteClipboard);
    assert_eq!(run.phase, InsertionPhase::Write(Some("old".to_string())));
    let (run, action) = run.advance(StepReport::Done);
    assert_eq!(action, InsertionAction::SendPaste);
    assert_eq!(run.phase, InsertionPhase::Paste(Some("old".to_string())));
    let (run, action) = run.advance(StepReport::Done);
    assert_eq!(action, InsertionAction::RestoreClipboard(Some("old".to_string())));
    assert_eq!(run.phase, InsertionPhase::Restore(Ok(())));
    assert_eq!(run.text, "t");
}

#[test]
fn insertion_error_messages() {
    assert_eq!(failed("boom").message(), "Failed to insert text: boom");
    assert_eq!(InsertionError::NoTextField.message(), "No focused text field found");
    assert_eq!(
        InsertionError::PermissionDenied.message(),
        "Accessibility permission not granted"
    );
}

#[test]
fn restore_delay_is_short() {
    assert_eq!(CLIPBOARD_RESTORE_DELAY_MS, 100);
}
