//! Start-up of the overlay as a machine: the five entry points are resolved,
//! hooked and enabled one after the other, then the overlay is started.
//! The caller does the work and reports how it went; a failure of any step
//! before the overlay is applied ends start-up for good.

use vstd::prelude::*;
use crate::intercept::{EntryPoint, ENTRY_POINT_COUNT};

verus! {

/// Why start-up was given up.
#[derive(Clone, Copy, Debug, PartialEq, Eq, Structural)]
pub enum InitError {
    /// The offset of the entry point lies outside the host's image.
    Unresolved(EntryPoint),
    /// The detour could not be installed.
    NotInstalled(EntryPoint),
    /// The detour could not be enabled.
    NotEnabled(EntryPoint),
    /// The host never signalled that its systems are ready.
    SystemNotReady,
}

/// How far start-up has come.
#[derive(Clone, Copy, Debug, PartialEq, Eq, Structural)]
pub enum InstallState {
    /// Nothing was done yet.
    Ready,
    /// The address of entry point `index` was asked for.
    Resolving { index: usize },
    /// The detour of entry point `index` is being installed.
    Installing { index: usize },
    /// The detour of entry point `index` is being enabled.
    Enabling { index: usize },
    /// All hooks are in place; the host's systems are awaited.
    AwaitingSystem,
    /// The overlay is being applied.
    Applying,
    /// Start-up is over; `overlay` says whether the overlay could be applied.
    Running { overlay: bool },
    /// Start-up was given up.
    Failed { error: InitError },
}

/// What the caller reports.
#[derive(Clone, Copy, Debug, PartialEq, Eq, Structural)]
pub enum InstallEvent {
    /// The library was attached to the host.
    Attached,
    /// The absolute address of the entry point asked for, or `None` where
    /// it has none.
    Resolved(Option<u64>),
    /// Whether the detour was installed.
    Installed(bool),
    /// Whether the detour was enabled.
    Enabled(bool),
    /// Whether the host signalled its systems ready.
    SystemReady(bool),
    /// Whether the overlay was applied.
    OverlayApplied(bool),
}

/// What the caller is asked to do next.
#[derive(Clone, Copy, Debug, PartialEq, Eq, Structural)]
pub enum InstallAction {
    /// Turn the offset of `entry` into an absolute address.
    Resolve { entry: EntryPoint, rva: u32 },
    /// Install the detour of `entry` at `address`.
    Install { entry: EntryPoint, address: u64 },
    /// Enable the detour of `entry`.
    Enable { entry: EntryPoint },
    /// Wait on a thread of its own until the host's systems are ready.
    AwaitSystem,
    /// Apply the overlay with a fresh coordinator.
    ApplyOverlay,
    /// Nothing is left to do; without `overlay` the hooks run unseen.
    Complete { overlay: bool },
    /// Give up start-up.
    Abort { error: InitError },
    /// The event answers nothing that was asked for; nothing changed.
    Rejected,
}

/// A state and the action that leads on from it.
pub struct InstallStep {
    pub state: InstallState,
    pub action: InstallAction,
}

/// The request to resolve entry point `index`.
pub open spec fn resolve_step(index: int) -> InstallStep {
    InstallStep {
        state: InstallState::Resolving { index: index as usize },
        action: InstallAction::Resolve { entry: EntryPoint::at(index), rva: EntryPoint::at(index).offset() },
    }
}

/// The end of start-up by `error`.
pub open spec fn abort_step(error: InitError) -> InstallStep {
    InstallStep { state: InstallState::Failed { error }, action: InstallAction::Abort { error } }
}

/// A state of start-up that can be reached.
pub open spec fn install_wf(state: InstallState) -> bool {
    match state {
        InstallState::Resolving { index } => index < ENTRY_POINT_COUNT,
        InstallState::Installing { index } => index < ENTRY_POINT_COUNT,
        InstallState::Enabling { index } => index < ENTRY_POINT_COUNT,
        _ => true,
    }
}

/// What start-up does on `event` in `state`.
pub open spec fn install_step(state: InstallState, event: InstallEvent) -> InstallStep {
    match (state, event) {
        (InstallState::Ready, InstallEvent::Attached) => resolve_step(0),
        (InstallState::Resolving { index }, InstallEvent::Resolved(Some(address))) => InstallStep {
            state: InstallState::Installing { index },
            action: InstallAction::Install { entry: EntryPoint::at(index as int), address },
        },
        (InstallState::Resolving { index }, InstallEvent::Resolved(None)) => abort_step(
            InitError::Unresolved(EntryPoint::at(index as int)),
        ),
        (InstallState::Installing { index }, InstallEvent::Installed(true)) => InstallStep {
            state: InstallState::Enabling { index },
            action: InstallAction::Enable { entry: EntryPoint::at(index as int) },
        },
        (InstallState::Installing { index }, InstallEvent::Installed(false)) => abort_step(
            InitError::NotInstalled(EntryPoint::at(index as int)),
        ),
        (InstallState::Enabling { index }, InstallEvent::Enabled(true)) => if index + 1 < ENTRY_POINT_COUNT {
            resolve_step(index + 1)
        } else {
            InstallStep { state: InstallState::AwaitingSystem, action: InstallAction::AwaitSystem }
        },
        (InstallState::Enabling { index }, InstallEvent::Enabled(false)) => abort_step(
            InitError::NotEnabled(EntryPoint::at(index as int)),
        ),
        (InstallState::AwaitingSystem, InstallEvent::SystemReady(true)) => InstallStep {
            state: InstallState::Applying,
            action: InstallAction::ApplyOverlay,
        },
        (InstallState::AwaitingSystem, InstallEvent::SystemReady(false)) => abort_step(
            InitError::SystemNotReady,
        ),
        (InstallState::Applying, InstallEvent::OverlayApplied(overlay)) => InstallStep {
            state: InstallState::Running { overlay },
            action: InstallAction::Complete { overlay },
        },
        _ => InstallStep { state, action: InstallAction::Rejected },
    }
}

/// The entry point at place `index`; the last one for a place past the end.
fn entry_at(index: usize) -> (entry: EntryPoint)
    ensures
        entry == EntryPoint::at(index as int),
{
    match EntryPoint::nth(index) {
        Some(entry) => entry,
        None => EntryPoint::DrawTextWithSize,
    }
}

/// The request to resolve entry point `index`.
fn resolve(index: usize) -> (step: (InstallState, InstallAction))
    ensures
        step.0 == resolve_step(index as int).state,
        step.1 == resolve_step(index as int).action,
{
    let entry = entry_at(index);
    (InstallState::Resolving { index }, InstallAction::Resolve { entry, rva: entry.rva() })
}

/// One step of start-up: the state after `event` and what to do next.
pub fn init(state: InstallState, event: InstallEvent) -> (step: (InstallState, InstallAction))
    ensures
        step.0 == install_step(state, event).state,
        step.1 == install_step(state, event).action,
        install_wf(state) ==> install_wf(step.0),
{
    match (state, event) {
        (InstallState::Ready, InstallEvent::Attached) => resolve(0),
        (InstallState::Resolving { index }, InstallEvent::Resolved(Some(address))) => (
            InstallState::Installing { index },
            InstallAction::Install { entry: entry_at(index), address },
        ),
        (InstallState::Resolving { index }, InstallEvent::Resolved(None)) => {
            let error = InitError::Unresolved(entry_at(index));
            (InstallState::Failed { error }, InstallAction::Abort { error })
        },
        (InstallState::Installing { index }, InstallEvent::Installed(true)) => (
            InstallState::Enabling { index },
            InstallAction::Enable { entry: entry_at(index) },
        ),
        (InstallState::Installing { index }, InstallEvent::Installed(false)) => {
            let error = InitError::NotInstalled(entry_at(index));
            (InstallState::Failed { error }, InstallAction::Abort { error })
        },
        (InstallState::Enabling { index }, InstallEvent::Enabled(true)) => {
            if index < ENTRY_POINT_COUNT - 1 {
                resolve(index + 1)
            } else {
                (InstallState::AwaitingSystem, InstallAction::AwaitSystem)
            }
        },
        (InstallState::Enabling { index }, InstallEvent::Enabled(false)) => {
            let error = InitError::NotEnabled(entry_at(index));
            (InstallState::Failed { error }, InstallAction::Abort { error })
        },
        (InstallState::AwaitingSystem, InstallEvent::SystemReady(true)) => (
            InstallState::Applying,
            InstallAction::ApplyOverlay,
        ),
        (InstallState::AwaitingSystem, InstallEvent::SystemReady(false)) => {
            let error = InitError::SystemNotReady;
            (InstallState::Failed { error }, InstallAction::Abort { error })
        },
        (InstallState::Applying, InstallEvent::OverlayApplied(overlay)) => (
            InstallState::Running { overlay },
            InstallAction::Complete { overlay },
        ),
        (state, _) => (state, InstallAction::Rejected),
    }
}

/// Start-up that was given up stays given up: whatever is reported after
/// a failure is rejected.
pub proof fn lemma_failure_is_final(error: InitError, event: InstallEvent)
    ensures
        install_step(InstallState::Failed { error }, event) == (InstallStep {
            state: InstallState::Failed { error },
            action: InstallAction::Rejected,
        }),
{
}

/// The state from which entry point `entry` is resolved on `event`: the
/// start for the first one, else the enabling of the one before it.
pub open spec fn leads_to_resolve(state: InstallState, event: InstallEvent, entry: EntryPoint) -> bool {
    match state {
        InstallState::Ready => event == InstallEvent::Attached && entry == EntryPoint::at(0),
        InstallState::Enabling { index } => {
            &&& index + 1 < ENTRY_POINT_COUNT
            &&& event == InstallEvent::Enabled(true)
            &&& entry == EntryPoint::at(index + 1)
        },
        _ => false,
    }
}

/// A report that something did not succeed.
pub open spec fn reports_failure(event: InstallEvent) -> bool {
    ||| event == InstallEvent::Resolved(None)
    ||| event == InstallEvent::Installed(false)
    ||| event == InstallEvent::Enabled(false)
    ||| event == InstallEvent::SystemReady(false)
}

/// No hook is resolved before the one before it was enabled, the host's
/// systems are not awaited before the last hook was enabled, and a report
/// of failure, where it is not out of turn, ends start-up.
pub proof fn lemma_hooks_in_order(state: InstallState, event: InstallEvent)
    requires
        install_wf(state),
    ensures
        install_step(state, event).action matches InstallAction::Resolve { entry, rva } ==> rva
            == entry.offset() && leads_to_resolve(state, event, entry),
        install_step(state, event).action is AwaitSystem ==> state == (InstallState::Enabling {
            index: (ENTRY_POINT_COUNT - 1) as usize,
        }),
        reports_failure(event) ==> install_step(state, event).state is Failed || install_step(
            state,
            event,
        ).action is Rejected,
{
}

} // verus!
