use vstd::prelude::*;

verus! {

/// How a mount flow ended.
#[derive(Clone, Copy, PartialEq, Eq, Structural, Debug)]
pub enum MountOutcome {
    /// The resolved offset was zero: treated as "no valid region", the
    /// flow returns without error and without calling mount at all.
    SkippedZeroOffset,
    /// The partition's region could not be resolved; nothing was done.
    ResolveError,
    /// The OS mount call failed; nothing further was attempted.
    MountError,
    /// The partition is mounted. `autoclear_set` tells whether its loop
    /// device was converted to auto-clearing; failing to was reported
    /// but never undoes the mount.
    Mounted { autoclear_set: bool },
}

/// Where a mount flow stands.
#[derive(Clone, Copy, PartialEq, Eq, Structural, Debug)]
pub enum MountPhase {
    /// Waiting for the geometry resolver's answer.
    Resolving,
    /// Waiting for the OS mount call on the resolved offset.
    Mounting,
    /// Waiting for the auto-clear detach of the backing loop device.
    AutoClearing,
    /// The flow is over.
    Done,
}

/// What the driver reports back to the mount flow.
#[derive(PartialEq, Eq, Debug)]
pub enum MountEvent {
    /// The resolver produced this byte offset for the partition.
    ResolveOk(u64),
    /// The resolver failed, or found no such partition.
    ResolveFailed,
    /// The OS mount succeeded; the path of the backing loop device it
    /// created, where one could be queried.
    MountOk(Option<String>),
    /// The OS mount failed.
    MountFailed,
    /// The commanded auto-clear detach succeeded.
    AutoClearOk,
    /// The commanded auto-clear detach failed.
    AutoClearFailed,
}

/// What the mount flow tells the driver to do next.
#[derive(PartialEq, Eq, Debug)]
pub enum MountCmd {
    /// Call the OS mount with this loopback byte offset.
    DoMount(u64),
    /// Detach this loop device so it becomes auto-clearing.
    SetAutoClear(String),
    /// The flow is over with this outcome.
    Finish(MountOutcome),
}

/// `ev` is an answer to what a flow in phase `phase` last commanded.
pub open spec fn mount_accepts(phase: MountPhase, ev: MountEvent) -> bool {
    match phase {
        MountPhase::Resolving => ev matches MountEvent::ResolveOk(_) || ev
            matches MountEvent::ResolveFailed,
        MountPhase::Mounting => ev matches MountEvent::MountOk(_) || ev
            matches MountEvent::MountFailed,
        MountPhase::AutoClearing => ev matches MountEvent::AutoClearOk || ev
            matches MountEvent::AutoClearFailed,
        MountPhase::Done => false,
    }
}

/// The mount orchestrator: resolve the partition's byte offset, call the
/// OS mount with that loopback offset, then mark the loop device the
/// mount created as auto-clearing. A protocol between this library and
/// a driver that performs the calls and reports each outcome.
pub struct MountFlow {
    pub phase: MountPhase,
    /// The resolved byte offset; meaningful from resolution on.
    pub offset: u64,
    /// How many mount calls have been commanded.
    pub mount_calls: u64,
    /// The flow's result; meaningful once the phase is `Done`.
    pub outcome: MountOutcome,
}

impl MountFlow {
    /// The flow's invariant: mount is called at most once, never for a
    /// zero offset, and a skipped or failed resolution means it was
    /// never called at all.
    pub open spec fn wf(self) -> bool {
        match self.phase {
            MountPhase::Resolving => self.mount_calls == 0,
            MountPhase::Mounting => self.mount_calls == 1 && self.offset != 0,
            MountPhase::AutoClearing => self.mount_calls == 1 && self.offset != 0,
            MountPhase::Done => match self.outcome {
                MountOutcome::SkippedZeroOffset => self.mount_calls == 0 && self.offset == 0,
                MountOutcome::ResolveError => self.mount_calls == 0,
                MountOutcome::MountError => self.mount_calls == 1,
                MountOutcome::Mounted { .. } => self.mount_calls == 1,
            },
        }
    }

    /// Open a flow; the driver's first step is to resolve the region.
    pub fn start() -> (f: MountFlow)
        ensures
            f.wf(),
            f.phase == MountPhase::Resolving,
            f.mount_calls == 0,
    {
        MountFlow {
            phase: MountPhase::Resolving,
            offset: 0,
            mount_calls: 0,
            outcome: MountOutcome::ResolveError,
        }
    }

    /// Advance the flow on the driver's report and command its next
    /// step. A zero offset finishes at once, without error and without
    /// any mount call; a failed auto-clear step still leaves the flow
    /// mounted, since the mount itself already succeeded.
    pub fn step(&mut self, ev: MountEvent) -> (cmd: MountCmd)
        requires
            old(self).wf(),
            mount_accepts(old(self).phase, ev),
        ensures
            final(self).wf(),
            ev matches MountEvent::ResolveOk(off) ==> {
                &&& off == 0 ==> {
                    &&& final(self).phase == MountPhase::Done
                    &&& final(self).mount_calls == 0
                    &&& cmd == MountCmd::Finish(MountOutcome::SkippedZeroOffset)
                }
                &&& off != 0 ==> {
                    &&& final(self).phase == MountPhase::Mounting
                    &&& final(self).offset == off
                    &&& final(self).mount_calls == 1
                    &&& cmd == MountCmd::DoMount(off)
                }
            },
            ev matches MountEvent::ResolveFailed ==> {
                &&& final(self).phase == MountPhase::Done
                &&& final(self).mount_calls == 0
                &&& cmd == MountCmd::Finish(MountOutcome::ResolveError)
            },
            ev matches MountEvent::MountOk(backing) ==> {
                &&& backing matches Some(path) ==> {
                    &&& final(self).phase == MountPhase::AutoClearing
                    &&& cmd == MountCmd::SetAutoClear(path)
                }
                &&& backing is None ==> {
                    &&& final(self).phase == MountPhase::Done
                    &&& cmd == MountCmd::Finish(MountOutcome::Mounted { autoclear_set: false })
                }
            },
            ev matches MountEvent::MountFailed ==> {
                &&& final(self).phase == MountPhase::Done
                &&& cmd == MountCmd::Finish(MountOutcome::MountError)
            },
            ev matches MountEvent::AutoClearOk ==> {
                &&& final(self).phase == MountPhase::Done
                &&& cmd == MountCmd::Finish(MountOutcome::Mounted { autoclear_set: true })
            },
            ev matches MountEvent::AutoClearFailed ==> {
                &&& final(self).phase == MountPhase::Done
                &&& cmd == MountCmd::Finish(MountOutcome::Mounted { autoclear_set: false })
            },
    {
        match ev {
            MountEvent::ResolveOk(off) => {
                if off == 0 {
                    self.phase = MountPhase::Done;
                    self.offset = 0;
                    self.outcome = MountOutcome::SkippedZeroOffset;
                    MountCmd::Finish(MountOutcome::SkippedZeroOffset)
                } else {
                    self.phase = MountPhase::Mounting;
                    self.offset = off;
                    self.mount_calls = 1;
                    MountCmd::DoMount(off)
                }
            },
            MountEvent::ResolveFailed => {
                self.phase = MountPhase::Done;
                self.outcome = MountOutcome::ResolveError;
                MountCmd::Finish(MountOutcome::ResolveError)
            },
            MountEvent::MountOk(backing) => {
                match backing {
                    Some(path) => {
                        self.phase = MountPhase::AutoClearing;
                        MountCmd::SetAutoClear(path)
                    },
                    None => {
                        self.phase = MountPhase::Done;
                        self.outcome = MountOutcome::Mounted { autoclear_set: false };
                        MountCmd::Finish(MountOutcome::Mounted { autoclear_set: false })
                    },
                }
            },
            MountEvent::MountFailed => {
                self.phase = MountPhase::Done;
                self.outcome = MountOutcome::MountError;
                MountCmd::Finish(MountOutcome::MountError)
            },
            MountEvent::AutoClearOk => {
                self.phase = MountPhase::Done;
                self.outcome = MountOutcome::Mounted { autoclear_set: true };
                MountCmd::Finish(MountOutcome::Mounted { autoclear_set: true })
            },
            MountEvent::AutoClearFailed => {
                self.phase = MountPhase::Done;
                self.outcome = MountOutcome::Mounted { autoclear_set: false };
                MountCmd::Finish(MountOutcome::Mounted { autoclear_set: false })
            },
        }
    }
}

/// A zero resolved offset is a documented no-op: a finished flow that
/// skipped on it never commanded a mount call and carries no error.
pub proof fn lemma_zero_offset_never_mounts(f: MountFlow)
    requires
        f.wf(),
        f.phase == MountPhase::Done,
        f.outcome == MountOutcome::SkippedZeroOffset,
    ensures
        f.mount_calls == 0,
{
}

} // verus!
