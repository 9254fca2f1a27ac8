use part_mount::mount::{MountCmd, MountEvent, MountFlow, MountOutcome, MountPhase};

#[test]
fn test_mount_subcommand() {
    // The partition region starts at byte 0 of the image, as with an
    // image file standing in for a whole partition: the flow treats the
    // zero offset as "no valid region" and finishes without error and
    // without ever commanding a mount call.
    let mut flow = MountFlow::start();
    let cmd = flow.step(MountEvent::ResolveOk(0));
    assert_eq!(cmd, MountCmd::Finish(MountOutcome::SkippedZeroOffset));
    assert_eq!(flow.phase, MountPhase::Done);
    assert_eq!(flow.mount_calls, 0);
}

#[test]
fn mount_flow_happy_path_sets_autoclear() {
    let mut flow = MountFlow::start();
    let cmd = flow.step(MountEvent::ResolveOk(1048576));
    assert_eq!(cmd, MountCmd::DoMount(1048576));

    let cmd = flow.step(MountEvent::MountOk(Some("/dev/loop2".to_owned())));
    assert_eq!(cmd, MountCmd::SetAutoClear("/dev/loop2".to_owned()));

    let cmd = flow.step(MountEvent::AutoClearOk);
    assert_eq!(cmd, MountCmd::Finish(MountOutcome::Mounted { autoclear_set: true }));
    assert_eq!(flow.mount_calls, 1);
}

#[test]
fn mount_flow_without_backing_device_still_succeeds() {
    // The mount succeeded but no backing loop device could be queried:
    // reported, not fatal.
    let mut flow = MountFlow::start();
    flow.step(MountEvent::ResolveOk(4096));
    let cmd = flow.step(MountEvent::MountOk(None));
    assert_eq!(cmd, MountCmd::Finish(MountOutcome::Mounted { autoclear_set: false }));
}

#[test]
fn mount_flow_autoclear_failure_is_not_fatal() {
    let mut flow = MountFlow::start();
    flow.step(MountEvent::ResolveOk(4096));
    flow.step(MountEvent::MountOk(Some("/dev/loop9".to_owned())));
    let cmd = flow.step(MountEvent::AutoClearFailed);
    assert_eq!(cmd, MountCmd::Finish(MountOutcome::Mounted { autoclear_set: false }));
}

#[test]
fn mount_flow_resolve_failure_mounts_nothing() {
    let mut flow = MountFlow::start();
    let cmd = flow.step(MountEvent::ResolveFailed);
    assert_eq!(cmd, MountCmd::Finish(MountOutcome::ResolveError));
    assert_eq!(flow.mount_calls, 0);
}

#[test]
fn mount_flow_mount_failure_is_reported() {
    let mut flow = MountFlow::start();
    flow.step(MountEvent::ResolveOk(2048));
    let cmd = flow.step(MountEvent::MountFailed);
    assert_eq!(cmd, MountCmd::Finish(MountOutcome::MountError));
    assert_eq!(flow.mount_calls, 1);
}
