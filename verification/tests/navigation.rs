use copper::navigation::{BrowserAction, BrowserEvent, ComponentBrowser, Key};

fn key(key: Key, released: bool, ctrl: bool) -> BrowserEvent {
    BrowserEvent::KeyboardInput { key: Some(key), released, ctrl }
}

#[test]
fn starts_at_first_component_running() {
    let b = ComponentBrowser::new(3);
    assert_eq!(b.index(), 0);
    assert_eq!(b.count(), 3);
    assert!(b.is_running());
}

#[test]
fn right_then_left_returns() {
    let mut b = ComponentBrowser::new(3);
    assert_eq!(b.handle(key(Key::Right, true, false)), BrowserAction::ShowComponent(1));
    assert_eq!(b.index(), 1);
    assert_eq!(b.handle(key(Key::Left, true, false)), BrowserAction::ShowComponent(0));
    assert_eq!(b.index(), 0);
}

#[test]
fn left_at_first_component_does_nothing() {
    let mut b = ComponentBrowser::new(3);
    assert_eq!(b.handle(key(Key::Left, true, false)), BrowserAction::Nothing);
    assert_eq!(b.index(), 0);
}

#[test]
fn right_at_last_component_does_nothing() {
    let mut b = ComponentBrowser::new(2);
    assert_eq!(b.handle(key(Key::Right, true, false)), BrowserAction::ShowComponent(1));
    assert_eq!(b.handle(key(Key::Right, true, false)), BrowserAction::Nothing);
    assert_eq!(b.index(), 1);
}

#[test]
fn single_component_never_moves() {
    let mut b = ComponentBrowser::new(1);
    assert!(!b.next());
    assert!(!b.previous());
    assert_eq!(b.index(), 0);
}

#[test]
fn pressed_arrow_keys_are_ignored() {
    let mut b = ComponentBrowser::new(3);
    assert_eq!(b.handle(key(Key::Right, false, false)), BrowserAction::Nothing);
    assert_eq!(b.index(), 0);
}

#[test]
fn ctrl_q_quits_and_stays_stopped() {
    let mut b = ComponentBrowser::new(3);
    assert_eq!(b.handle(key(Key::Q, false, true)), BrowserAction::Quit);
    assert!(!b.is_running());
    assert_eq!(b.handle(key(Key::Right, true, false)), BrowserAction::ShowComponent(1));
    assert!(!b.is_running());
}

#[test]
fn q_without_ctrl_does_not_quit() {
    let mut b = ComponentBrowser::new(3);
    assert_eq!(b.handle(key(Key::Q, true, false)), BrowserAction::Nothing);
    assert!(b.is_running());
}

#[test]
fn closing_the_window_quits() {
    let mut b = ComponentBrowser::new(3);
    assert_eq!(b.handle(BrowserEvent::Closed), BrowserAction::Quit);
    assert!(!b.is_running());
}

#[test]
fn pass_through_events() {
    let mut b = ComponentBrowser::new(3);
    assert_eq!(
        b.handle(BrowserEvent::Resized { width: 640, height: 480 }),
        BrowserAction::Resize { width: 640, height: 480 }
    );
    assert_eq!(b.handle(BrowserEvent::CursorMoved), BrowserAction::UpdateCursor);
    assert_eq!(b.handle(BrowserEvent::LeftButtonPressed), BrowserAction::ReportCursor);
    assert_eq!(b.handle(BrowserEvent::Other), BrowserAction::Nothing);
    assert_eq!(
        b.handle(BrowserEvent::KeyboardInput { key: None, released: true, ctrl: true }),
        BrowserAction::Nothing
    );
    assert_eq!(b.index(), 0);
    assert!(b.is_running());
}
