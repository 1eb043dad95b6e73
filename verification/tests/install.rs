use debug_text_view::install::{init, InitError, InstallAction, InstallEvent, InstallState};
use debug_text_view::intercept::EntryPoint;

const ORDER: [EntryPoint; 5] = [
    EntryPoint::TextRenderRequest,
    EntryPoint::SetFontSize,
    EntryPoint::SetTextScale,
    EntryPoint::ResetTextScale,
    EntryPoint::DrawTextWithSize,
];

fn hook_all() -> InstallState {
    let (mut state, mut action) = init(InstallState::Ready, InstallEvent::Attached);
    for (index, entry) in ORDER.iter().enumerate() {
        assert_eq!(state, InstallState::Resolving { index });
        assert_eq!(action, InstallAction::Resolve { entry: *entry, rva: entry.rva() });
        let address = 0x1_4000_0000u64 + entry.rva() as u64;
        (state, action) = init(state, InstallEvent::Resolved(Some(address)));
        assert_eq!(state, InstallState::Installing { index });
        assert_eq!(action, InstallAction::Install { entry: *entry, address });
        (state, action) = init(state, InstallEvent::Installed(true));
        assert_eq!(state, InstallState::Enabling { index });
        assert_eq!(action, InstallAction::Enable { entry: *entry });
        (state, action) = init(state, InstallEvent::Enabled(true));
    }
    assert_eq!(action, InstallAction::AwaitSystem);
    state
}

#[test]
fn start_up_hooks_the_five_entry_points_in_order() {
    assert_eq!(hook_all(), InstallState::AwaitingSystem);
}

#[test]
fn start_up_ends_with_the_overlay() {
    let state = hook_all();
    let (state, action) = init(state, InstallEvent::SystemReady(true));
    assert_eq!((state, action), (InstallState::Applying, InstallAction::ApplyOverlay));
    let (state, action) = init(state, InstallEvent::OverlayApplied(true));
    assert_eq!((state, action), (InstallState::Running { overlay: true }, InstallAction::Complete { overlay: true }));
}

#[test]
fn overlay_that_cannot_be_applied_is_not_fatal() {
    let state = hook_all();
    let (state, _) = init(state, InstallEvent::SystemReady(true));
    let (state, action) = init(state, InstallEvent::OverlayApplied(false));
    assert_eq!(
        (state, action),
        (InstallState::Running { overlay: false }, InstallAction::Complete { overlay: false })
    );
}

#[test]
fn unresolved_offset_is_fatal() {
    let (state, _) = init(InstallState::Ready, InstallEvent::Attached);
    let error = InitError::Unresolved(EntryPoint::TextRenderRequest);
    assert_eq!(
        init(state, InstallEvent::Resolved(None)),
        (InstallState::Failed { error }, InstallAction::Abort { error })
    );
}

#[test]
fn failed_install_is_fatal() {
    let error = InitError::NotInstalled(EntryPoint::SetTextScale);
    assert_eq!(
        init(InstallState::Installing { index: 2 }, InstallEvent::Installed(false)),
        (InstallState::Failed { error }, InstallAction::Abort { error })
    );
}

#[test]
fn failed_enable_is_fatal() {
    let error = InitError::NotEnabled(EntryPoint::DrawTextWithSize);
    assert_eq!(
        init(InstallState::Enabling { index: 4 }, InstallEvent::Enabled(false)),
        (InstallState::Failed { error }, InstallAction::Abort { error })
    );
}

#[test]
fn system_that_never_gets_ready_is_fatal() {
    let error = InitError::SystemNotReady;
    assert_eq!(
        init(InstallState::AwaitingSystem, InstallEvent::SystemReady(false)),
        (InstallState::Failed { error }, InstallAction::Abort { error })
    );
}

#[test]
fn nothing_follows_a_failure() {
    let failed = InstallState::Failed { error: InitError::SystemNotReady };
    for event in [
        InstallEvent::Attached,
        InstallEvent::Resolved(Some(1)),
        InstallEvent::Resolved(None),
        InstallEvent::Installed(true),
        InstallEvent::Enabled(true),
        InstallEvent::SystemReady(true),
        InstallEvent::OverlayApplied(true),
    ] {
        assert_eq!(init(failed, event), (failed, InstallAction::Rejected));
    }
}

#[test]
fn event_out_of_turn_is_rejected() {
    assert_eq!(
        init(InstallState::Ready, InstallEvent::Enabled(true)),
        (InstallState::Ready, InstallAction::Rejected)
    );
    assert_eq!(
        init(InstallState::Resolving { index: 1 }, InstallEvent::Installed(true)),
        (InstallState::Resolving { index: 1 }, InstallAction::Rejected)
    );
    assert_eq!(
        init(InstallState::Running { overlay: true }, InstallEvent::Attached),
        (InstallState::Running { overlay: true }, InstallAction::Rejected)
    );
}
