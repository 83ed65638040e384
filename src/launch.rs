use vstd::prelude::*;

use crate::environ::{compose_env, env_overlay};
use crate::error::ErrorKind;
use crate::inspect::{target_verdict, validate_target, FileFacts};
use crate::locate::{artifact_candidates, candidate_paths, first_found, first_present};

verus! {

/// The status the launcher ends with when it stops before the target exits,
/// or when the target leaves no exit code.
pub const FAILURE_STATUS: u8 = 1;

/// What the caller asked for: the target, whether the inspector opens at
/// start, and the arguments handed to the target verbatim.
#[derive(Clone, Debug, PartialEq, Eq)]
pub struct LaunchRequest {
    pub target: String,
    pub auto_open: bool,
    pub args: Vec<String>,
}

/// Where a launch stands. `Terminated` and `Aborted` are final.
#[derive(Clone, Debug, PartialEq, Eq)]
pub enum Phase {
    Start,
    Validating,
    Locating,
    /// The injection library was found at the path held.
    ComposingEnv(String),
    Spawning,
    Running,
    /// The target exited; holds the launcher's own exit status.
    Terminated(u8),
    Aborted(ErrorKind),
}

/// What the outside world reports back to a launch.
#[derive(Clone, Debug)]
pub enum Event {
    /// The launch is asked to begin.
    Begin,
    /// The target's file-system facts and leading bytes (empty if unreadable).
    TargetInspected(FileFacts, Vec<u8>),
    /// For each candidate path, in order, its resolved form if it exists.
    ArtifactProbed(Vec<Option<String>>),
    /// The parent's own preload list, if set.
    PreloadRead(Option<String>),
    Spawned,
    /// The target could not be started; holds the system's message.
    SpawnFailed(String),
    /// The target ended, with its exit code if it left one.
    Exited(Option<i32>),
}

/// What a launch asks the outside world to do next.
#[derive(Clone, Debug, PartialEq, Eq)]
pub enum Action {
    /// Gather the target's file-system facts and leading bytes.
    InspectTarget,
    /// Look for the injection library at these paths, in order.
    ProbeArtifact(Vec<String>),
    /// Read the parent's preload list.
    ReadPreload,
    /// Start the target with these variables set on top of the inherited ones.
    Spawn(Vec<(String, String)>),
    /// Wait for the target to end.
    Wait,
    /// Exit with this status.
    Exit(u8),
    /// Report the error held by the phase and exit with the failure status.
    Abort,
    /// The event does not belong to this phase; nothing to do.
    Ignore,
}

/// One launch of a target, driven by events.
pub struct Launch {
    pub request: LaunchRequest,
    /// The directory that holds the launcher's own executable.
    pub launcher_dir: String,
    pub phase: Phase,
}

/// The exit status that mirrors a target's exit code.
pub open spec fn exit_status_of(code: Option<i32>) -> u8 {
    match code {
        Some(c) => c as u8,
        None => FAILURE_STATUS,
    }
}

/// The phase after an event; events foreign to a phase leave it as it is.
pub open spec fn next_phase(p: Phase, e: Event) -> Phase {
    match (p, e) {
        (Phase::Start, Event::Begin) => Phase::Validating,
        (Phase::Validating, Event::TargetInspected(f, b)) => match target_verdict(f, b@) {
            Ok(_) => Phase::Locating,
            Err(k) => Phase::Aborted(k),
        },
        (Phase::Locating, Event::ArtifactProbed(found)) => match first_present(found@) {
            Some(a) => Phase::ComposingEnv(a),
            None => Phase::Aborted(ErrorKind::LibraryNotFound),
        },
        (Phase::ComposingEnv(_), Event::PreloadRead(_)) => Phase::Spawning,
        (Phase::Spawning, Event::Spawned) => Phase::Running,
        (Phase::Spawning, Event::SpawnFailed(t)) => Phase::Aborted(ErrorKind::LaunchFailed(t)),
        (Phase::Running, Event::Exited(c)) => Phase::Terminated(exit_status_of(c)),
        (p, _) => p,
    }
}

/// Whether `r` is the action that answers event `e` in phase `p`.
pub open spec fn action_fits(p: Phase, e: Event, dir: Seq<char>, auto_open: bool, r: Action) -> bool {
    match (p, e) {
        (Phase::Start, Event::Begin) => r is InspectTarget,
        (Phase::Validating, Event::TargetInspected(f, b)) => match target_verdict(f, b@) {
            Ok(_) => r matches Action::ProbeArtifact(c) && c.deep_view() == candidate_paths(dir),
            Err(_) => r is Abort,
        },
        (Phase::Locating, Event::ArtifactProbed(found)) => match first_present(found@) {
            Some(_) => r is ReadPreload,
            None => r is Abort,
        },
        (Phase::ComposingEnv(a), Event::PreloadRead(x)) => r matches Action::Spawn(env)
            && env.deep_view() == env_overlay(a@, x, auto_open),
        (Phase::Spawning, Event::Spawned) => r is Wait,
        (Phase::Spawning, Event::SpawnFailed(_)) => r is Abort,
        (Phase::Running, Event::Exited(c)) => r == Action::Exit(exit_status_of(c)),
        (_, _) => r is Ignore,
    }
}

pub open spec fn is_final(p: Phase) -> bool {
    p is Terminated || p is Aborted
}

/// The launcher's exit status once the launch is over.
pub open spec fn final_status(p: Phase) -> Option<u8> {
    match p {
        Phase::Terminated(c) => Some(c),
        Phase::Aborted(_) => Some(FAILURE_STATUS),
        _ => None,
    }
}

/// The phase reached from `p` after the events in order.
pub open spec fn phase_after(p: Phase, events: Seq<Event>) -> Phase
    decreases events.len(),
{
    if events.len() == 0 {
        p
    } else {
        phase_after(next_phase(p, events[0]), events.drop_first())
    }
}

/// The classified outcome of a launch, from what the target and the artifact
/// search show and how the target ends.
pub open spec fn classified_outcome(
    f: FileFacts,
    b: Seq<u8>,
    found: Seq<Option<String>>,
    code: Option<i32>,
) -> Phase {
    match target_verdict(f, b) {
        Err(k) => Phase::Aborted(k),
        Ok(_) => match first_present(found) {
            None => Phase::Aborted(ErrorKind::LibraryNotFound),
            Some(_) => Phase::Terminated(exit_status_of(code)),
        },
    }
}

/// The exit status that mirrors a target's exit code: the code itself when
/// it fits a status, its low eight bits otherwise, and the failure status
/// when the target left no code.
pub fn exit_status(code: Option<i32>) -> (r: u8)
    ensures
        r == exit_status_of(code),
        forall|c: i32| code == Some(c) && 0 <= c <= 255 ==> r == c,
{
    match code {
        Some(c) => {
            if 0 <= c && c <= 255 {
                c as u8
            } else {
                #[verifier::truncate]
                (c as u8)
            }
        },
        None => FAILURE_STATUS,
    }
}

impl Launch {
    /// A launch of `request` by a launcher installed in `launcher_dir`, not yet begun.
    pub fn new(request: LaunchRequest, launcher_dir: String) -> (r: Launch)
        ensures
            r.request == request,
            r.launcher_dir == launcher_dir,
            r.phase == Phase::Start,
    {
        Launch { request, launcher_dir, phase: Phase::Start }
    }

    /// Takes in one event, moves to the next phase and says what to do next.
    pub fn step(&mut self, e: Event) -> (r: Action)
        ensures
            final(self).request == old(self).request,
            final(self).launcher_dir == old(self).launcher_dir,
            final(self).phase == next_phase(old(self).phase, e),
            action_fits(old(self).phase, e, old(self).launcher_dir@, old(self).request.auto_open, r),
    {
        match (&self.phase, e) {
            (Phase::Start, Event::Begin) => {
                self.phase = Phase::Validating;
                Action::InspectTarget
            },
            (Phase::Validating, Event::TargetInspected(f, b)) => {
                match validate_target(&f, b.as_slice()) {
                    Ok(()) => {
                        self.phase = Phase::Locating;
                        Action::ProbeArtifact(artifact_candidates(self.launcher_dir.as_str()))
                    },
                    Err(k) => {
                        self.phase = Phase::Aborted(k);
                        Action::Abort
                    },
                }
            },
            (Phase::Locating, Event::ArtifactProbed(found)) => {
                match first_found(&found) {
                    Some(a) => {
                        self.phase = Phase::ComposingEnv(a);
                        Action::ReadPreload
                    },
                    None => {
                        self.phase = Phase::Aborted(ErrorKind::LibraryNotFound);
                        Action::Abort
                    },
                }
            },
            (Phase::ComposingEnv(a), Event::PreloadRead(x)) => {
                let env = compose_env(a.as_str(), &x, self.request.auto_open);
                self.phase = Phase::Spawning;
                Action::Spawn(env)
            },
            (Phase::Spawning, Event::Spawned) => {
                self.phase = Phase::Running;
                Action::Wait
            },
            (Phase::Spawning, Event::SpawnFailed(t)) => {
                self.phase = Phase::Aborted(ErrorKind::LaunchFailed(t));
                Action::Abort
            },
            (Phase::Running, Event::Exited(c)) => {
                let status = exit_status(c);
                self.phase = Phase::Terminated(status);
                Action::Exit(status)
            },
            (_, _) => Action::Ignore,
        }
    }

    /// The launcher's exit status, once the launch is over.
    pub fn exit_code(&self) -> (r: Option<u8>)
        ensures
            r == final_status(self.phase),
    {
        match &self.phase {
            Phase::Terminated(c) => Some(*c),
            Phase::Aborted(_) => Some(FAILURE_STATUS),
            _ => None,
        }
    }

    /// Whether the launch is over.
    pub fn is_finished(&self) -> (r: bool)
        ensures
            r == is_final(self.phase),
    {
        match &self.phase {
            Phase::Terminated(_) => true,
            Phase::Aborted(_) => true,
            _ => false,
        }
    }
}

/// No event leads out of a final phase.
pub proof fn lemma_final_phases_stay(p: Phase, e: Event)
    requires
        is_final(p),
    ensures
        next_phase(p, e) == p,
{
}

/// A target is only started from a phase that holds a found injection
/// library, and that phase is only reached when the target passed every
/// check and the library was found.
pub proof fn lemma_spawn_needs_validated_target_and_artifact(
    p: Phase,
    e: Event,
    dir: Seq<char>,
    auto_open: bool,
    r: Action,
    q: Phase,
    e0: Event,
)
    requires
        action_fits(p, e, dir, auto_open, r),
        r is Spawn,
        p == next_phase(q, e0),
        q != p,
    ensures
        p is ComposingEnv,
        e0 matches Event::ArtifactProbed(found) && first_present(found@) == Some(p->ComposingEnv_0),
        q is Locating,
{
}

/// The artifact search is only reached by a target that passed every check.
pub proof fn lemma_locating_needs_valid_target(q: Phase, e: Event)
    requires
        next_phase(q, e) is Locating,
        !(q is Locating),
    ensures
        q is Validating,
        e matches Event::TargetInspected(f, b) && target_verdict(f, b@) is Ok,
{
}

/// Running a launch twice against the same target, the same artifact search
/// result and the same target behaviour gives the same classified outcome,
/// whatever preload list each run inherited.
pub proof fn lemma_launch_outcome_repeatable(
    f: FileFacts,
    b: Vec<u8>,
    found: Vec<Option<String>>,
    preload: Option<String>,
    code: Option<i32>,
)
    ensures
        phase_after(
            Phase::Start,
            seq![
                Event::Begin,
                Event::TargetInspected(f, b),
                Event::ArtifactProbed(found),
                Event::PreloadRead(preload),
                Event::Spawned,
                Event::Exited(code),
            ],
        ) == classified_outcome(f, b@, found@, code),
{
    let events = seq![
        Event::Begin,
        Event::TargetInspected(f, b),
        Event::ArtifactProbed(found),
        Event::PreloadRead(preload),
        Event::Spawned,
        Event::Exited(code),
    ];
    let t1 = events.drop_first();
    let t2 = t1.drop_first();
    let t3 = t2.drop_first();
    let t4 = t3.drop_first();
    let t5 = t4.drop_first();
    let t6 = t5.drop_first();
    assert(t6.len() == 0);
    let after1 = next_phase(Phase::Start, events[0]);
    let after2 = next_phase(after1, t1[0]);
    let after3 = next_phase(after2, t2[0]);
    let after4 = next_phase(after3, t3[0]);
    let after5 = next_phase(after4, t4[0]);
    let after6 = next_phase(after5, t5[0]);
    assert(phase_after(after6, t6) == after6);
    assert(phase_after(after5, t5) == after6);
    assert(phase_after(after4, t4) == after6);
    assert(phase_after(after3, t3) == after6);
    assert(phase_after(after2, t2) == after6);
    assert(phase_after(after1, t1) == after6);
    assert(phase_after(Phase::Start, events) == after6);
}

} // verus!
