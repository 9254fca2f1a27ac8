use part_mount::session::{LoopCmd, LoopEvent, LoopOutcome, LoopPhase, LoopSession};

#[test]
fn failed_body_still_detaches_exactly_once() {
    // A failure inside the body: the device is still detached, once and
    // only once, and the body's failure is what the session reports.
    let mut session = LoopSession::start();
    let cmd = session.step(LoopEvent::AcquireOk("/dev/loop7".to_owned()));
    assert_eq!(cmd, LoopCmd::RunBody("/dev/loop7".to_owned()));

    let cmd = session.step(LoopEvent::BodyDone(false));
    assert_eq!(cmd, LoopCmd::Detach("/dev/loop7".to_owned()));

    let cmd = session.step(LoopEvent::DetachOk);
    assert_eq!(
        cmd,
        LoopCmd::Finish(LoopOutcome::Completed { body_ok: false, detach_warning: false })
    );

    assert_eq!(session.phase, LoopPhase::Done);
    assert_eq!(session.body_runs, 1);
    assert_eq!(session.detach_cmds, 1);
}

#[test]
fn successful_body_detaches_exactly_once() {
    let mut session = LoopSession::start();
    session.step(LoopEvent::AcquireOk("/dev/loop0".to_owned()));
    let cmd = session.step(LoopEvent::BodyDone(true));
    assert_eq!(cmd, LoopCmd::Detach("/dev/loop0".to_owned()));
    let cmd = session.step(LoopEvent::DetachOk);
    assert_eq!(
        cmd,
        LoopCmd::Finish(LoopOutcome::Completed { body_ok: true, detach_warning: false })
    );
    assert_eq!(session.detach_cmds, 1);
}

#[test]
fn failed_acquire_runs_no_body_and_no_detach() {
    let mut session = LoopSession::start();
    let cmd = session.step(LoopEvent::AcquireFailed);
    assert_eq!(cmd, LoopCmd::Finish(LoopOutcome::AcquireError));
    assert_eq!(session.phase, LoopPhase::Done);
    assert_eq!(session.body_runs, 0);
    assert_eq!(session.detach_cmds, 0);
}

#[test]
fn failed_detach_is_a_warning_not_an_override() {
    // The body succeeded; a failing detach afterwards is reported as a
    // warning while the body's success stands.
    let mut session = LoopSession::start();
    session.step(LoopEvent::AcquireOk("/dev/loop1".to_owned()));
    session.step(LoopEvent::BodyDone(true));
    let cmd = session.step(LoopEvent::DetachFailed);
    assert_eq!(
        cmd,
        LoopCmd::Finish(LoopOutcome::Completed { body_ok: true, detach_warning: true })
    );
    assert_eq!(session.detach_cmds, 1);
}
