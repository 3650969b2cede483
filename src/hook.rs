use vstd::prelude::*;

use crate::launch::{build_launch, launch_args, LaunchDescriptor, LaunchError};

verus! {

/// The lowest descriptor number that is not one of the three standard
/// streams (input, output, error).
pub const FIRST_NONSTANDARD_FD: u32 = 3;

/// The largest descriptor number a close-range request can name.
pub const LAST_FD: u32 = 0xffff_ffff;

/// Where the exit hook stands in the life of the process.
#[derive(Debug, Clone, Copy, PartialEq, Eq, Structural)]
pub enum HookState {
    /// No hook has been registered with the process runtime.
    Unregistered,
    /// The hook is registered and waits for normal termination.
    Registered,
    /// The hook has run.
    Fired,
}

/// What the hook asks of the process when it runs.
#[derive(Debug)]
pub enum ExitAction {
    /// Nothing: the process ends with its own exit code.
    Nothing,
    /// Close every descriptor from `close_from` to `close_to` (inclusive),
    /// then replace the process image with `launch`.
    Exec { close_from: u32, close_to: u32, launch: LaunchDescriptor },
}

/// Whether a descriptor is left open by an action: one that the action does
/// not close.
pub open spec fn survives(a: ExitAction, fd: u32) -> bool {
    match a {
        ExitAction::Nothing => true,
        ExitAction::Exec { close_from, close_to, .. } => !(close_from <= fd && fd <= close_to),
    }
}

/// The process-wide launch state: a write-once slot for the launch
/// descriptor, and the state of the exit hook that consumes it.
#[derive(Debug)]
pub struct ExitHook {
    state: HookState,
    slot: Option<LaunchDescriptor>,
}

/// The view of a stored descriptor: its program and its arguments.
pub open spec fn descriptor_view(d: LaunchDescriptor) -> (Seq<char>, Seq<Seq<char>>) {
    (d.spec_program(), d.spec_args())
}

/// The slot after a write of `d`: a write fills an empty slot and leaves a
/// filled one as it was.
pub open spec fn after_set(
    slot: Option<(Seq<char>, Seq<Seq<char>>)>,
    d: (Seq<char>, Seq<Seq<char>>),
) -> Option<(Seq<char>, Seq<Seq<char>>)> {
    match slot {
        Some(v) => Some(v),
        None => Some(d),
    }
}

/// The hook state after a registration: an unregistered hook becomes
/// registered; otherwise the state stays.
pub open spec fn after_register(s: HookState) -> HookState {
    match s {
        HookState::Unregistered => HookState::Registered,
        _ => s,
    }
}

/// Writing the slot twice keeps the first value: the second write is a
/// no-op, and an empty slot ends up holding the first value written.
pub proof fn lemma_first_write_kept(
    slot: Option<(Seq<char>, Seq<Seq<char>>)>,
    first: (Seq<char>, Seq<Seq<char>>),
    second: (Seq<char>, Seq<Seq<char>>),
)
    ensures
        after_set(after_set(slot, first), second) == after_set(slot, first),
        slot is None ==> after_set(after_set(slot, first), second) == Some(first),
{
}

/// When the hook replaces the process, the descriptors that stay open are
/// exactly the three standard streams.
pub proof fn lemma_exec_keeps_only_standard_streams(a: ExitAction)
    requires
        a matches ExitAction::Exec { close_from, close_to, .. } ==> close_from
            == FIRST_NONSTANDARD_FD && close_to == LAST_FD,
        a is Exec,
    ensures
        forall|fd: u32| #[trigger] survives(a, fd) <==> fd < FIRST_NONSTANDARD_FD,
{
}

impl ExitHook {
    pub closed spec fn spec_state(&self) -> HookState {
        self.state
    }

    /// The stored descriptor, if any, as program and arguments.
    pub closed spec fn stored(&self) -> Option<(Seq<char>, Seq<Seq<char>>)> {
        match self.slot {
            Some(d) => Some(descriptor_view(d)),
            None => None,
        }
    }

    /// A fresh state: nothing stored, no hook registered.
    pub fn new() -> (r: ExitHook)
        ensures
            r.spec_state() == HookState::Unregistered,
            r.stored() is None,
    {
        ExitHook { state: HookState::Unregistered, slot: None }
    }

    /// The state of the hook.
    pub fn state(&self) -> (r: HookState)
        ensures
            r == self.spec_state(),
    {
        self.state
    }

    /// Whether a descriptor has been stored.
    pub fn is_set(&self) -> (r: bool)
        ensures
            r == self.stored() is Some,
    {
        self.slot.is_some()
    }

    /// Stores `d` unless a descriptor is already stored, in which case the
    /// call changes nothing. Returns whether `d` was stored.
    pub fn set(&mut self, d: LaunchDescriptor) -> (r: bool)
        ensures
            r == old(self).stored() is None,
            final(self).stored() == after_set(old(self).stored(), descriptor_view(d)),
            final(self).spec_state() == old(self).spec_state(),
    {
        if self.slot.is_some() {
            false
        } else {
            self.slot = Some(d);
            true
        }
    }

    /// Records that the hook is registered with the process runtime. Returns
    /// whether the caller must register it now: only on the first call, as
    /// the runtime cannot take it back or take it twice.
    pub fn register(&mut self) -> (r: bool)
        ensures
            r == (old(self).spec_state() == HookState::Unregistered),
            final(self).spec_state() == after_register(old(self).spec_state()),
            final(self).stored() == old(self).stored(),
    {
        match self.state {
            HookState::Unregistered => {
                self.state = HookState::Registered;
                true
            },
            _ => false,
        }
    }

    /// Runs the hook at normal termination. A registered hook with a stored
    /// descriptor closes every non-standard descriptor and replaces the
    /// process with the stored launch; otherwise it does nothing. The hook
    /// runs once: a registered hook becomes fired, and a fired one does
    /// nothing.
    pub fn fire(&mut self) -> (r: ExitAction)
        ensures
            final(self).stored() == old(self).stored(),
            final(self).spec_state() == (if old(self).spec_state() == HookState::Registered {
                HookState::Fired
            } else {
                old(self).spec_state()
            }),
            (old(self).spec_state() == HookState::Registered && old(self).stored() is Some) <==> (
            r is Exec),
            r matches ExitAction::Exec { close_from, close_to, launch } ==> close_from
                == FIRST_NONSTANDARD_FD && close_to == LAST_FD && old(self).stored() == Some(
                descriptor_view(launch),
            ),
    {
        match self.state {
            HookState::Registered => {
                self.state = HookState::Fired;
                match &self.slot {
                    Some(d) => ExitAction::Exec {
                        close_from: FIRST_NONSTANDARD_FD,
                        close_to: LAST_FD,
                        launch: d.duplicate(),
                    },
                    None => ExitAction::Nothing,
                }
            },
            _ => ExitAction::Nothing,
        }
    }

    /// Builds the server's launch descriptor from the runtime executable
    /// `program`, the extra `flags` and the server archive path `artifact`,
    /// stores it unless one is stored already, and registers the hook.
    /// Returns whether the caller must now register the hook with the process
    /// runtime (the first registration only); on an error nothing changes.
    pub fn prepare_launch(&mut self, program: &str, flags: &str, artifact: &str) -> (r: Result<
        bool,
        LaunchError,
    >)
        ensures
            match build_launch_outcome(program@, artifact@) {
                Some(e) => r == Err::<bool, LaunchError>(e) && *final(self) == *old(self),
                None => r == Ok::<bool, LaunchError>(
                    old(self).spec_state() == HookState::Unregistered,
                ) && final(self).stored() == after_set(
                    old(self).stored(),
                    (program@, launch_args(program@, flags@, artifact@)),
                ) && final(self).spec_state() == after_register(old(self).spec_state()),
            },
    {
        match build_launch(program, flags, artifact) {
            Ok(d) => {
                self.set(d);
                Ok(self.register())
            },
            Err(e) => Err(e),
        }
    }
}

/// The error building a launch descriptor gives for these paths, if any.
pub open spec fn build_launch_outcome(program: Seq<char>, artifact: Seq<char>) -> Option<
    LaunchError,
> {
    if crate::text::has_nul(program) {
        Some(LaunchError::NulInProgram)
    } else if crate::text::has_nul(artifact) {
        Some(LaunchError::NulInArtifact)
    } else {
        None
    }
}

} // verus!
