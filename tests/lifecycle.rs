use bevy_text_popup::{
    cleanup_expired_text_popups, cleanup_frame_expired_text_popups, generate_text_popup_from_event,
    text_popup_button_system, ActionCall, ButtonChange, ButtonSlot, Interaction, PopupNodeKind,
    TextPopupExpires, TextPopupExpiresInFrames, TextPopupExpiry, TextPopupLocation,
    TextPopupNeverExpires, TextPopupShape, TextPopupTimeout, TrackedPopup, NANOS_PER_SECOND,
};

fn shape(timeout: TextPopupTimeout, confirm: bool, dismiss: bool) -> TextPopupShape {
    TextPopupShape {
        location: TextPopupLocation::Center,
        timeout,
        has_confirm_button: confirm,
        has_dismiss_button: dismiss,
    }
}

/// Runs both reapers once, wall clock first, and returns what they despawned.
fn tick(popups: &mut Vec<TrackedPopup>, now: u64) -> Vec<u64> {
    let mut gone = cleanup_expired_text_popups(popups, now);
    gone.extend(cleanup_frame_expired_text_popups(popups));
    gone
}

fn alive(popups: &[TrackedPopup], entity: u64) -> bool {
    popups.iter().any(|p| p.entity == entity)
}

fn secs(s: u64) -> u64 {
    s * NANOS_PER_SECOND
}

#[test]
fn timeout_stamps_one_marker() {
    assert_eq!(
        TextPopupTimeout::Never.expiry_at(secs(4)),
        TextPopupExpiry::Never(TextPopupNeverExpires)
    );
    assert_eq!(
        TextPopupTimeout::Seconds(2).expiry_at(secs(10)),
        TextPopupExpiry::At(TextPopupExpires { expiration_time: 12_000_000_000 })
    );
    assert_eq!(
        TextPopupTimeout::Frames(3).expiry_at(secs(10)),
        TextPopupExpiry::InFrames(TextPopupExpiresInFrames { frames_remaining: 3 })
    );
}

#[test]
fn seconds_deadline_saturates() {
    assert_eq!(
        TextPopupTimeout::Seconds(u32::MAX).expiry_at(u64::MAX - 5),
        TextPopupExpiry::At(TextPopupExpires { expiration_time: u64::MAX })
    );
}

#[test]
fn wall_clock_marker_expires_strictly_after_deadline() {
    let m = TextPopupExpires { expiration_time: 100 };
    assert!(!m.is_expired(99));
    assert!(!m.is_expired(100));
    assert!(m.is_expired(101));
}

#[test]
fn frame_counter_saturates_at_zero() {
    let mut m = TextPopupExpiresInFrames { frames_remaining: 2 };
    assert!(!m.tick());
    assert_eq!(m.frames_remaining, 1);
    assert!(m.tick());
    assert_eq!(m.frames_remaining, 0);
    assert!(m.tick());
    assert_eq!(m.frames_remaining, 0);
}

#[test]
fn plan_without_buttons_keeps_empty_action_row() {
    let plan = generate_text_popup_from_event(&shape(TextPopupTimeout::Never, false, false), 0);
    let kinds: Vec<PopupNodeKind> = plan.nodes.iter().map(|n| n.kind).collect();
    assert_eq!(
        kinds,
        vec![PopupNodeKind::Root, PopupNodeKind::Frame, PopupNodeKind::Text, PopupNodeKind::ActionRow]
    );
    let parents: Vec<Option<usize>> = plan.nodes.iter().map(|n| n.parent).collect();
    assert_eq!(parents, vec![None, Some(0), Some(1), Some(1)]);
}

#[test]
fn plan_attaches_confirm_then_dismiss() {
    let plan = generate_text_popup_from_event(&shape(TextPopupTimeout::Never, true, true), 0);
    let kinds: Vec<PopupNodeKind> = plan.nodes.iter().map(|n| n.kind).collect();
    assert_eq!(
        kinds,
        vec![
            PopupNodeKind::Root,
            PopupNodeKind::Frame,
            PopupNodeKind::Text,
            PopupNodeKind::ActionRow,
            PopupNodeKind::Button(ButtonSlot::Confirm),
            PopupNodeKind::ButtonLabel(ButtonSlot::Confirm),
            PopupNodeKind::Button(ButtonSlot::Dismiss),
            PopupNodeKind::ButtonLabel(ButtonSlot::Dismiss),
        ]
    );
    let parents: Vec<Option<usize>> = plan.nodes.iter().map(|n| n.parent).collect();
    assert_eq!(
        parents,
        vec![None, Some(0), Some(1), Some(1), Some(3), Some(4), Some(3), Some(6)]
    );
}

#[test]
fn plan_with_dismiss_only() {
    let plan = generate_text_popup_from_event(&shape(TextPopupTimeout::Frames(1), false, true), 0);
    assert_eq!(plan.nodes.len(), 6);
    assert_eq!(plan.nodes[4].kind, PopupNodeKind::Button(ButtonSlot::Dismiss));
    assert_eq!(plan.nodes[4].parent, Some(3));
    assert_eq!(plan.nodes[5].kind, PopupNodeKind::ButtonLabel(ButtonSlot::Dismiss));
    assert_eq!(plan.nodes[5].parent, Some(4));
    assert_eq!(
        plan.expiry,
        TextPopupExpiry::InFrames(TextPopupExpiresInFrames { frames_remaining: 1 })
    );
}

#[test]
fn plan_has_exactly_one_root() {
    for (c, d) in [(false, false), (true, false), (false, true), (true, true)] {
        let plan = generate_text_popup_from_event(&shape(TextPopupTimeout::Never, c, d), 0);
        let roots = plan.nodes.iter().filter(|n| n.kind == PopupNodeKind::Root).count();
        assert_eq!(roots, 1);
        assert_eq!(plan.nodes[0].kind, PopupNodeKind::Root);
    }
}

#[test]
fn despawning_the_root_reaches_every_node() {
    let plan = generate_text_popup_from_event(&shape(TextPopupTimeout::Never, true, true), 0);
    let mut gone = vec![false; plan.nodes.len()];
    gone[0] = true;
    for (i, n) in plan.nodes.iter().enumerate().skip(1) {
        let p = n.parent.unwrap();
        assert!(p < i);
        gone[i] = gone[p];
    }
    assert!(gone.iter().all(|g| *g));
}

#[test]
fn centered_never_popup_survives_ten_thousand_ticks() {
    let plan = generate_text_popup_from_event(&shape(TextPopupTimeout::Never, false, false), 0);
    assert_eq!(plan.nodes.len(), 4);
    assert_eq!(plan.expiry, TextPopupExpiry::Never(TextPopupNeverExpires));
    let mut popups = vec![TrackedPopup { entity: 1, expiry: plan.expiry }];
    for t in 1..=10_000u64 {
        assert!(tick(&mut popups, t * 16_000_000).is_empty());
    }
    assert_eq!(popups, vec![TrackedPopup { entity: 1, expiry: plan.expiry }]);
}

#[test]
fn three_frame_popup() {
    let plan = generate_text_popup_from_event(&shape(TextPopupTimeout::Frames(3), false, false), 0);
    let mut popups = vec![TrackedPopup { entity: 9, expiry: plan.expiry }];
    assert!(tick(&mut popups, 1).is_empty());
    assert!(alive(&popups, 9));
    assert!(tick(&mut popups, 2).is_empty());
    assert!(alive(&popups, 9));
    assert_eq!(tick(&mut popups, 3), vec![9]);
    assert!(!alive(&popups, 9));
    assert!(tick(&mut popups, 4).is_empty());
}

#[test]
fn seconds_reap() {
    let created = secs(10);
    let plan = generate_text_popup_from_event(&shape(TextPopupTimeout::Seconds(2), false, false), created);
    let mut popups = vec![TrackedPopup { entity: 4, expiry: plan.expiry }];
    assert!(tick(&mut popups, secs(11)).is_empty());
    assert!(tick(&mut popups, secs(12) - 1).is_empty());
    assert!(tick(&mut popups, secs(12)).is_empty());
    assert!(alive(&popups, 4));
    assert_eq!(tick(&mut popups, secs(12) + 16_000_000), vec![4]);
    assert!(popups.is_empty());
}

#[test]
fn zero_second_popup_lives_one_tick() {
    let created = secs(5);
    let mut popups = vec![TrackedPopup { entity: 2, expiry: TextPopupTimeout::Seconds(0).expiry_at(created) }];
    assert!(tick(&mut popups, created).is_empty());
    assert_eq!(tick(&mut popups, created + 1), vec![2]);
}

#[test]
fn zero_frame_popup_lives_one_tick() {
    let mut popups = vec![TrackedPopup { entity: 3, expiry: TextPopupTimeout::Frames(0).expiry_at(0) }];
    assert_eq!(tick(&mut popups, 1), vec![3]);
    assert!(popups.is_empty());
}

#[test]
fn reapers_commute() {
    let start = vec![
        TrackedPopup { entity: 1, expiry: TextPopupTimeout::Seconds(1).expiry_at(0) },
        TrackedPopup { entity: 2, expiry: TextPopupTimeout::Frames(1).expiry_at(0) },
        TrackedPopup { entity: 3, expiry: TextPopupTimeout::Never.expiry_at(0) },
        TrackedPopup { entity: 4, expiry: TextPopupTimeout::Frames(5).expiry_at(0) },
        TrackedPopup { entity: 5, expiry: TextPopupTimeout::Seconds(9).expiry_at(0) },
    ];
    let now = secs(2);
    let mut a = start.clone();
    cleanup_expired_text_popups(&mut a, now);
    cleanup_frame_expired_text_popups(&mut a);
    let mut b = start.clone();
    cleanup_frame_expired_text_popups(&mut b);
    cleanup_expired_text_popups(&mut b, now);
    assert_eq!(a, b);
    let left: Vec<u64> = a.iter().map(|p| p.entity).collect();
    assert_eq!(left, vec![3, 4, 5]);
    assert_eq!(
        a[1].expiry,
        TextPopupExpiry::InFrames(TextPopupExpiresInFrames { frames_remaining: 4 })
    );
}

#[test]
fn same_request_twice_gives_independent_popups() {
    let request = shape(TextPopupTimeout::Frames(2), true, false);
    let first = generate_text_popup_from_event(&request, 0);
    let second = generate_text_popup_from_event(&request, 0);
    assert_eq!(first, second);
    let mut popups = vec![
        TrackedPopup { entity: 10, expiry: first.expiry },
        TrackedPopup { entity: 11, expiry: second.expiry },
    ];
    assert!(tick(&mut popups, 1).is_empty());
    // Pressing a button of the first despawns it alone.
    popups.retain(|p| p.entity != 10);
    assert!(alive(&popups, 11));
    assert_eq!(tick(&mut popups, 2), vec![11]);
}

#[test]
fn press_invokes_bound_action_once() {
    let changes = vec![
        ButtonChange { interaction: Interaction::Pressed, root_id: 7 },
        ButtonChange { interaction: Interaction::Hovered, root_id: 7 },
        ButtonChange { interaction: Interaction::Idle, root_id: 8 },
        ButtonChange { interaction: Interaction::Pressed, root_id: 8 },
    ];
    assert_eq!(
        text_popup_button_system(&changes),
        vec![ActionCall { button: 0, root_id: 7 }, ActionCall { button: 3, root_id: 8 }]
    );
}

#[test]
fn hover_never_invokes_an_action() {
    let changes = vec![
        ButtonChange { interaction: Interaction::Hovered, root_id: 1 },
        ButtonChange { interaction: Interaction::Idle, root_id: 1 },
    ];
    assert!(text_popup_button_system(&changes).is_empty());
    assert!(Interaction::Pressed.invokes_action());
    assert!(!Interaction::Hovered.invokes_action());
    assert!(!Interaction::Idle.invokes_action());
}

#[test]
fn confirm_and_dismiss_both_bound_to_root() {
    let plan = generate_text_popup_from_event(&shape(TextPopupTimeout::Never, true, true), 0);
    let root_id: u64 = 42;
    let changes: Vec<ButtonChange> = plan
        .nodes
        .iter()
        .filter(|n| matches!(n.kind, PopupNodeKind::Button(_)))
        .map(|_| ButtonChange { interaction: Interaction::Pressed, root_id })
        .collect();
    assert_eq!(changes.len(), 2);
    let calls = text_popup_button_system(&changes);
    assert_eq!(
        calls,
        vec![ActionCall { button: 0, root_id: 42 }, ActionCall { button: 1, root_id: 42 }]
    );
}
