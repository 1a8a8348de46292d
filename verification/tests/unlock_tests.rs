use caffeine_core::settings::{UnlockKey, UnlockMouse};
use caffeine_core::unlock::{
    key_unlocks, keyboard_event, mouse_event, InputEvent, ShakeTracker, HC_ACTION, MOVE_UNLOCK_PX, VK_ESCAPE,
    VK_RETURN, VK_SPACE, WM_KEYDOWN, WM_LBUTTONDOWN, WM_MBUTTONDOWN, WM_MOUSEMOVE, WM_RBUTTONDOWN, WM_SYSKEYDOWN,
};

#[test]
fn key_matrix() {
    assert!(key_unlocks(UnlockKey::Any, 0x41));
    assert!(key_unlocks(UnlockKey::Esc, VK_ESCAPE));
    assert!(!key_unlocks(UnlockKey::Esc, VK_SPACE));
    assert!(key_unlocks(UnlockKey::Space, VK_SPACE));
    assert!(key_unlocks(UnlockKey::Enter, VK_RETURN));
    assert!(!key_unlocks(UnlockKey::Enter, VK_ESCAPE));
}

#[test]
fn straight_line_is_not_a_shake() {
    let mut t = ShakeTracker::new();
    let mut unlocked = false;
    // Long straight horizontal drag: no direction reversals.
    for i in 0..40 {
        unlocked = t.feed(UnlockMouse::Shake, i * 30, 500);
    }
    assert!(!unlocked, "AI-like straight paths must not unlock");
    assert!(!t.feed(UnlockMouse::Off, 9999, 9999));
}

#[test]
fn human_shake_unlocks() {
    let mut t = ShakeTracker::new();
    let mut unlocked = false;
    // Deliberate side-to-side shake with ample strokes.
    let mut x = 500;
    let mut dir = 1;
    for _ in 0..10 {
        for _ in 0..4 {
            x += dir * 60;
            unlocked = t.feed(UnlockMouse::Shake, x, 500);
            if unlocked {
                break;
            }
        }
        if unlocked {
            break;
        }
        dir = -dir;
    }
    assert!(unlocked, "a real shake must unlock");
}

#[test]
fn move_threshold() {
    let mut t = ShakeTracker::new();
    assert!(!t.feed(UnlockMouse::Move, 100, 100)); // anchor
    assert!(!t.feed(UnlockMouse::Move, 110, 105)); // small jitter
    assert!(t.feed(UnlockMouse::Move, 100 + MOVE_UNLOCK_PX + 5, 100));
}

#[test]
fn move_threshold_is_inclusive_at_sixty_px() {
    let mut t = ShakeTracker::new();
    assert!(!t.feed_at(UnlockMouse::Move, 0, 0, 10));
    // 36^2 + 48^2 = 60^2: exactly at the threshold.
    assert!(t.feed_at(UnlockMouse::Move, 36, 48, 20));
    let mut t = ShakeTracker::new();
    assert!(!t.feed_at(UnlockMouse::Move, 0, 0, 10));
    assert!(!t.feed_at(UnlockMouse::Move, 36, 47, 20));
}

#[test]
fn shake_needs_its_samples_inside_the_window() {
    // Four 60px strokes with three reversals, 800 ms apart: by the last
    // sample the first ones are older than 2 s and drop out of the trail.
    let mut t = ShakeTracker::new();
    let xs = [500, 560, 500, 560, 500];
    let mut last = false;
    for (i, &x) in xs.iter().enumerate() {
        last = t.feed_at(UnlockMouse::Shake, x, 500, 1_000 + 800 * i as u128);
    }
    assert!(!last, "stale strokes do not count");
    // 100 px strokes 10 ms apart: three reversals, then a shake once the
    // path reaches 450 px.
    let mut t = ShakeTracker::new();
    let xs = [500, 600, 500, 600, 500, 600];
    let mut results = Vec::new();
    for (i, &x) in xs.iter().enumerate() {
        results.push(t.feed_at(UnlockMouse::Shake, x, 500, 1_000 + 10 * i as u128));
    }
    assert_eq!(results, vec![false, false, false, false, false, true]);
}

#[test]
fn click_and_off_modes_never_unlock_on_moves() {
    let mut t = ShakeTracker::new();
    let mut x = 0;
    for i in 0..20 {
        x = if i % 2 == 0 { x + 200 } else { x - 200 };
        assert!(!t.feed_at(UnlockMouse::Click, x, 0, i));
        assert!(!t.feed_at(UnlockMouse::Off, x, 0, i));
    }
}

#[test]
fn reset_forgets_the_anchor() {
    let mut t = ShakeTracker::new();
    assert!(!t.feed_at(UnlockMouse::Move, 0, 0, 1));
    t.reset();
    // After a reset the next sample is the new anchor.
    assert!(!t.feed_at(UnlockMouse::Move, 1000, 1000, 2));
    assert!(t.feed_at(UnlockMouse::Move, 0, 0, 3));
}

#[test]
fn hook_messages_decode_to_events() {
    assert_eq!(keyboard_event(HC_ACTION, WM_KEYDOWN, 0x1B), Some(InputEvent::Key(0x1B)));
    assert_eq!(keyboard_event(HC_ACTION, WM_SYSKEYDOWN, 0x41), Some(InputEvent::Key(0x41)));
    assert_eq!(keyboard_event(HC_ACTION, 257, 0x41), None, "key-up is ignored");
    assert_eq!(keyboard_event(3, WM_KEYDOWN, 0x41), None, "non-action codes are ignored");
    assert_eq!(mouse_event(HC_ACTION, WM_MOUSEMOVE, -5, 7), Some(InputEvent::Move(-5, 7)));
    for msg in [WM_LBUTTONDOWN, WM_RBUTTONDOWN, WM_MBUTTONDOWN] {
        assert_eq!(mouse_event(HC_ACTION, msg, 0, 0), Some(InputEvent::Click));
    }
    assert_eq!(mouse_event(HC_ACTION, 514, 0, 0), None, "button-up is ignored");
    assert_eq!(mouse_event(1, WM_MOUSEMOVE, 0, 0), None);
}
