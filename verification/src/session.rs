use vstd::prelude::*;

use crate::decimal::{decimal_digits, u64_to_decimal};

verus! {

/// The arguments for the loop-setup utility to acquire a device: find a
/// free one, print its path, and bind it to `device` starting at byte
/// `offset`.
pub fn losetup_attach_args(offset: u64, device: &str) -> (r: Vec<String>)
    ensures
        r@.len() == 5,
        r@[0]@ == "--find"@,
        r@[1]@ == "--show"@,
        r@[2]@ == "-o"@,
        r@[3]@ == decimal_digits(offset as nat),
        r@[4]@ == device@,
{
    let mut args: Vec<String> = Vec::new();
    args.push("--find".to_owned());
    args.push("--show".to_owned());
    args.push("-o".to_owned());
    args.push(u64_to_decimal(offset));
    args.push(device.to_owned());
    args
}

/// The arguments for the loop-setup utility to detach `loop_device`.
pub fn losetup_detach_args(loop_device: &str) -> (r: Vec<String>)
    ensures
        r@.len() == 2,
        r@[0]@ == "-d"@,
        r@[1]@ == loop_device@,
{
    let mut args: Vec<String> = Vec::new();
    args.push("-d".to_owned());
    args.push(loop_device.to_owned());
    args
}

/// How a finished loopback session ended.
#[derive(Clone, Copy, PartialEq, Eq, Structural, Debug)]
pub enum LoopOutcome {
    /// No loop device could be acquired; the body never ran and there
    /// was nothing to detach.
    AcquireError,
    /// The body ran; `body_ok` is its result. `detach_warning` records a
    /// failed detach afterwards — reported, never escalated over the
    /// body's own result.
    Completed { body_ok: bool, detach_warning: bool },
}

/// Where a loopback session stands.
#[derive(Clone, Copy, PartialEq, Eq, Structural, Debug)]
pub enum LoopPhase {
    /// Waiting for the outcome of the acquire step.
    Acquiring,
    /// A device is attached and the body is running.
    Running,
    /// The body has finished and a detach has been commanded.
    Detaching,
    /// The session is over.
    Done,
}

/// What the driver reports back to the session: the outcome of the step
/// it was last commanded to perform.
#[derive(PartialEq, Eq, Debug)]
pub enum LoopEvent {
    /// A loop device was acquired at this path.
    AcquireOk(String),
    /// No loop device could be acquired.
    AcquireFailed,
    /// The body returned, successfully or not.
    BodyDone(bool),
    /// The commanded detach succeeded.
    DetachOk,
    /// The commanded detach failed.
    DetachFailed,
}

/// What the session tells the driver to do next.
#[derive(PartialEq, Eq, Debug)]
pub enum LoopCmd {
    /// Run the body once against this device path.
    RunBody(String),
    /// Detach this loop device.
    Detach(String),
    /// The session is over with this outcome.
    Finish(LoopOutcome),
}

/// `ev` is an answer to what a session in phase `phase` last commanded.
pub open spec fn session_accepts(phase: LoopPhase, ev: LoopEvent) -> bool {
    match phase {
        LoopPhase::Acquiring => ev matches LoopEvent::AcquireOk(_) || ev
            matches LoopEvent::AcquireFailed,
        LoopPhase::Running => ev matches LoopEvent::BodyDone(_),
        LoopPhase::Detaching => ev matches LoopEvent::DetachOk || ev
            matches LoopEvent::DetachFailed,
        LoopPhase::Done => false,
    }
}

/// One loopback session: scoped acquisition of a loop device. The
/// session is a protocol between this library and a driver that performs
/// the attach, the body and the detach, and reports each outcome as an
/// event. The counters record what has been commanded so far, so the
/// scoped-acquisition guarantee — one body run and exactly one detach
/// per attach, on every path — is part of the session's invariant.
pub struct LoopSession {
    pub phase: LoopPhase,
    /// The acquired device path; meaningful from the attach on.
    pub device_path: String,
    /// Whether a loop device was ever attached.
    pub attached: bool,
    /// How many times the body has been commanded to run.
    pub body_runs: u64,
    /// How many detaches have been commanded.
    pub detach_cmds: u64,
    /// The body's reported result; meaningful from the body's return on.
    pub body_ok: bool,
}

impl LoopSession {
    /// The session's invariant: the body runs exactly once per attach,
    /// a detach is commanded exactly once per attach, and neither ever
    /// happens without an attach.
    pub open spec fn wf(self) -> bool {
        match self.phase {
            LoopPhase::Acquiring => !self.attached && self.body_runs == 0 && self.detach_cmds == 0,
            LoopPhase::Running => self.attached && self.body_runs == 1 && self.detach_cmds == 0,
            LoopPhase::Detaching => self.attached && self.body_runs == 1 && self.detach_cmds == 1,
            LoopPhase::Done => (self.attached ==> self.body_runs == 1 && self.detach_cmds == 1) && (
            !self.attached ==> self.body_runs == 0 && self.detach_cmds == 0),
        }
    }

    /// Open a session; the driver's first step is to attempt the acquire.
    pub fn start() -> (s: LoopSession)
        ensures
            s.wf(),
            s.phase == LoopPhase::Acquiring,
            !s.attached,
    {
        LoopSession {
            phase: LoopPhase::Acquiring,
            device_path: String::new(),
            attached: false,
            body_runs: 0,
            detach_cmds: 0,
            body_ok: false,
        }
    }

    /// Advance the session on the driver's report and command its next
    /// step. A failed acquire finishes at once, body never run; a body
    /// that returns — well or badly — is followed by exactly one detach;
    /// a failed detach after the body is a warning, never an override of
    /// the body's result.
    pub fn step(&mut self, ev: LoopEvent) -> (cmd: LoopCmd)
        requires
            old(self).wf(),
            session_accepts(old(self).phase, ev),
        ensures
            final(self).wf(),
            final(self).attached == (old(self).attached || ev matches LoopEvent::AcquireOk(_)),
            ev matches LoopEvent::AcquireOk(dev) ==> {
                &&& final(self).phase == LoopPhase::Running
                &&& final(self).device_path == dev
                &&& final(self).body_runs == 1
                &&& final(self).detach_cmds == 0
                &&& cmd == LoopCmd::RunBody(dev)
            },
            ev matches LoopEvent::AcquireFailed ==> {
                &&& final(self).phase == LoopPhase::Done
                &&& final(self).body_runs == 0
                &&& final(self).detach_cmds == 0
                &&& cmd == LoopCmd::Finish(LoopOutcome::AcquireError)
            },
            ev matches LoopEvent::BodyDone(ok) ==> {
                &&& final(self).phase == LoopPhase::Detaching
                &&& final(self).body_ok == ok
                &&& final(self).body_runs == 1
                &&& final(self).detach_cmds == 1
                &&& cmd == LoopCmd::Detach(old(self).device_path)
            },
            ev matches LoopEvent::DetachOk ==> {
                &&& final(self).phase == LoopPhase::Done
                &&& final(self).detach_cmds == 1
                &&& cmd == LoopCmd::Finish(
                    LoopOutcome::Completed { body_ok: old(self).body_ok, detach_warning: false },
                )
            },
            ev matches LoopEvent::DetachFailed ==> {
                &&& final(self).phase == LoopPhase::Done
                &&& final(self).detach_cmds == 1
                &&& cmd == LoopCmd::Finish(
                    LoopOutcome::Completed { body_ok: old(self).body_ok, detach_warning: true },
                )
            },
    {
        match ev {
            LoopEvent::AcquireOk(dev) => {
                self.phase = LoopPhase::Running;
                self.device_path = dev.clone();
                self.attached = true;
                self.body_runs = 1;
                LoopCmd::RunBody(dev)
            },
            LoopEvent::AcquireFailed => {
                self.phase = LoopPhase::Done;
                LoopCmd::Finish(LoopOutcome::AcquireError)
            },
            LoopEvent::BodyDone(ok) => {
                self.phase = LoopPhase::Detaching;
                self.body_ok = ok;
                self.detach_cmds = 1;
                LoopCmd::Detach(self.device_path.clone())
            },
            LoopEvent::DetachOk => {
                self.phase = LoopPhase::Done;
                LoopCmd::Finish(
                    LoopOutcome::Completed { body_ok: self.body_ok, detach_warning: false },
                )
            },
            LoopEvent::DetachFailed => {
                self.phase = LoopPhase::Done;
                LoopCmd::Finish(
                    LoopOutcome::Completed { body_ok: self.body_ok, detach_warning: true },
                )
            },
        }
    }
}

/// Scoped acquisition: however a session ended — body failed, detach
/// failed, or everything succeeded — a finished session has commanded
/// exactly one detach and one body run when a device was attached, and
/// neither when acquisition failed. No leaked device, no double detach.
pub proof fn lemma_session_detach_balanced(s: LoopSession)
    requires
        s.wf(),
        s.phase == LoopPhase::Done,
    ensures
        s.attached ==> s.detach_cmds == 1 && s.body_runs == 1,
        !s.attached ==> s.detach_cmds == 0 && s.body_runs == 0,
{
}

} // verus!
