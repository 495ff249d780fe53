use raycaster::controls::{Control, Pressed};

#[test]
fn new_holds_nothing() {
    let p = Pressed::new();
    assert_eq!(p, Pressed { w: false, a: false, s: false, d: false });
}

#[test]
fn press_and_release_each_movement_key() {
    let mut p = Pressed::new();
    assert!(!p.press(Control::W));
    assert!(p.w && !p.a && !p.s && !p.d);
    assert!(!p.press(Control::D));
    assert!(p.w && p.d && !p.a && !p.s);
    p.release(Control::W);
    assert!(!p.w && p.d);
    assert!(!p.press(Control::A));
    assert!(!p.press(Control::S));
    assert_eq!(p, Pressed { w: false, a: true, s: true, d: true });
    p.release(Control::A);
    p.release(Control::S);
    p.release(Control::D);
    assert_eq!(p, Pressed::new());
}

#[test]
fn space_fires_and_holds_nothing() {
    let mut p = Pressed::new();
    assert!(p.press(Control::Space));
    assert_eq!(p, Pressed::new());
    p.release(Control::Space);
    assert_eq!(p, Pressed::new());
}

#[test]
fn other_keys_are_ignored() {
    let mut p = Pressed { w: true, a: false, s: true, d: false };
    assert!(!p.press(Control::Other));
    p.release(Control::Other);
    assert_eq!(p, Pressed { w: true, a: false, s: true, d: false });
}

#[test]
fn release_undoes_press() {
    let before = Pressed { w: false, a: true, s: false, d: true };
    let mut p = before;
    p.press(Control::W);
    p.release(Control::W);
    assert_eq!(p, before);
}
