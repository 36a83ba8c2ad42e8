use serial_flash::orchestrator::begin_upload;
use serial_flash::orchestrator::board_from_name;
use serial_flash::orchestrator::fqbn_of;
use serial_flash::orchestrator::upload_step;
use serial_flash::orchestrator::Board;
use serial_flash::orchestrator::Outcome;
use serial_flash::orchestrator::StepEvent;
use serial_flash::orchestrator::UploadAction;
use serial_flash::orchestrator::UploadError;
use serial_flash::orchestrator::UploadJob;
use serial_flash::orchestrator::UploadPhase;
use serial_flash::orchestrator::UPLOAD_SETTLE_MS;
use serial_flash::registry::PortRegistry;

fn job() -> UploadJob {
    UploadJob {
        source: "void setup() {}\nvoid loop() {}\n".to_string(),
        board: Board::Uno,
        port: "/dev/ttyACM0".to_string(),
    }
}

#[test]
fn board_names_resolve_with_fallback() {
    assert_eq!(board_from_name("uno"), Board::Uno);
    assert_eq!(board_from_name("nano"), Board::Nano);
    assert_eq!(board_from_name("esp32"), Board::Esp32);
    assert_eq!(board_from_name("teensy"), Board::Other);
    assert_eq!(fqbn_of(Board::Uno), "arduino:avr:uno");
    assert_eq!(fqbn_of(Board::Nano), "arduino:avr:nano");
    assert_eq!(fqbn_of(Board::Esp32), "esp32:esp32:esp32");
    // unknown identifiers fall back to the default target
    assert_eq!(fqbn_of(Board::Other), "arduino:avr:uno");
}

#[test]
fn beginning_an_upload_stops_the_monitor_before_anything_else() {
    let mut registry = PortRegistry::new();
    registry.activate();
    assert!(registry.is_active());
    let (session, acts) = begin_upload(&mut registry, job());
    // the monitor's flag is observably false before any later step
    assert!(!registry.is_active());
    assert_eq!(session.phase, UploadPhase::Staging);
    assert_eq!(acts.len(), 2);
    match &acts[0] {
        UploadAction::Settle(ms) => assert_eq!(*ms, UPLOAD_SETTLE_MS),
        _ => panic!("expected the settle delay first"),
    }
    match &acts[1] {
        UploadAction::WriteSketch(src) => assert_eq!(src, &job().source),
        _ => panic!("expected the sketch staging next"),
    }
}

#[test]
fn successful_run_compiles_then_uploads_then_finishes() {
    let mut registry = PortRegistry::new();
    let (mut session, _) = begin_upload(&mut registry, job());
    let act = upload_step(&mut session, StepEvent::Staged(Outcome::Success));
    match &act {
        UploadAction::RunCompile(fqbn) => assert_eq!(fqbn, "arduino:avr:uno"),
        _ => panic!("expected the compile step after staging"),
    }
    assert_eq!(session.phase, UploadPhase::Compiling);
    let act = upload_step(&mut session, StepEvent::CompileDone(Outcome::Success));
    match &act {
        UploadAction::RunUpload(fqbn, port) => {
            assert_eq!(fqbn, "arduino:avr:uno");
            assert_eq!(port, "/dev/ttyACM0");
        },
        _ => panic!("expected the upload step after a successful compile"),
    }
    assert_eq!(session.phase, UploadPhase::Uploading);
    let act = upload_step(&mut session, StepEvent::UploadDone(Outcome::Success));
    match act {
        UploadAction::Finish(Ok(m)) => assert_eq!(m, "upload completed successfully"),
        _ => panic!("expected a successful finish"),
    }
    assert_eq!(session.phase, UploadPhase::Finished);
}

#[test]
fn failed_compile_never_reaches_the_upload_step() {
    let mut registry = PortRegistry::new();
    let (mut session, _) = begin_upload(&mut registry, job());
    upload_step(&mut session, StepEvent::Staged(Outcome::Success));
    let act = upload_step(
        &mut session,
        StepEvent::CompileDone(Outcome::Failure("exit status 1: expected ';'".to_string())),
    );
    // the run is over: no upload action, the compile error carries the
    // tool's diagnostic verbatim
    assert!(!matches!(act, UploadAction::RunUpload(_, _)));
    match act {
        UploadAction::Finish(Err(UploadError::Compile(diag))) => {
            assert_eq!(diag, "exit status 1: expected ';'");
        },
        _ => panic!("expected the compile error to finish the run"),
    }
    assert_eq!(session.phase, UploadPhase::Finished);
}

#[test]
fn failed_write_finishes_with_file_write_error() {
    let mut registry = PortRegistry::new();
    let (mut session, _) = begin_upload(&mut registry, job());
    let act = upload_step(
        &mut session,
        StepEvent::Staged(Outcome::Failure("permission denied".to_string())),
    );
    match act {
        UploadAction::Finish(Err(UploadError::FileWrite(e))) => {
            assert_eq!(e, "permission denied");
        },
        _ => panic!("expected the write failure to finish the run"),
    }
    assert_eq!(session.phase, UploadPhase::Finished);
}

#[test]
fn failed_upload_reports_port_and_hint() {
    let mut registry = PortRegistry::new();
    let (mut session, _) = begin_upload(&mut registry, job());
    upload_step(&mut session, StepEvent::Staged(Outcome::Success));
    upload_step(&mut session, StepEvent::CompileDone(Outcome::Success));
    let act = upload_step(
        &mut session,
        StepEvent::UploadDone(Outcome::Failure("avrdude: stk500_recv()".to_string())),
    );
    match act {
        UploadAction::Finish(Err(err)) => {
            match &err {
                UploadError::Upload(port, diag) => {
                    assert_eq!(port, "/dev/ttyACM0");
                    assert_eq!(diag, "avrdude: stk500_recv()");
                },
                _ => panic!("expected the upload error variant"),
            }
            let msg = err.message();
            assert_eq!(
                msg,
                "upload to port /dev/ttyACM0 failed (check that the device is connected and the port is not busy):\navrdude: stk500_recv()"
            );
        },
        _ => panic!("expected the upload failure to finish the run"),
    }
}

#[test]
fn error_messages_are_exact() {
    let e = UploadError::FileWrite("disk full".to_string());
    assert_eq!(e.message(), "failed to write sketch file: disk full");
    let e = UploadError::Compile("boom".to_string());
    assert_eq!(e.message(), "compile failed:\nboom");
}
