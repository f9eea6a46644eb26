use drop_bomb::{DebugDropBomb, DropBomb};
use std::borrow::Cow;

#[test]
fn armed_bomb_faults_with_its_message() {
    let b = DropBomb::new("must close before drop");
    let fault = b.drop_fault(false).map(|m| m.to_string());
    assert_eq!(fault, Some("must close before drop".to_string()));
}

#[test]
fn owned_message_is_kept() {
    let b = DropBomb::new(format!("closed {} times", 0));
    assert!(!b.is_defused());
    let fault = b.drop_fault(false).map(|m| m.to_string());
    assert_eq!(fault, Some("closed 0 times".to_string()));
}

#[test]
fn defused_bomb_has_no_fault() {
    let mut b = DropBomb::new("X");
    b.defuse();
    assert!(b.drop_fault(false).is_none());
    assert!(b.drop_fault(true).is_none());
}

#[test]
fn no_second_fault_while_panicking() {
    let b = DropBomb::new("X");
    assert!(b.drop_fault(true).is_none());
}

#[test]
fn defuse_twice_then_rearm() {
    let mut b = DropBomb::new("X");
    b.defuse();
    b.defuse();
    assert!(b.is_defused());
    b.set_defused(false);
    assert!(!b.is_defused());
    assert_eq!(b.drop_fault(false).map(|m| m.to_string()), Some("X".to_string()));
    b.set_defused(true);
    assert!(b.is_defused());
}

#[test]
fn reduced_bomb_is_always_defused() {
    let mut d = DebugDropBomb::new("X");
    assert!(d.is_defused());
    d.set_defused(false);
    assert!(d.is_defused());
    assert!(d.drop_fault(false).is_none());
    assert!(d.drop_fault(true).is_none());
    let owned = DebugDropBomb::new(String::from("Y"));
    assert!(owned.is_defused());
}

#[test]
fn cow_message_is_kept() {
    let b = DropBomb::new(Cow::Borrowed("borrowed"));
    assert_eq!(b.drop_fault(false).map(|m| m.to_string()), Some("borrowed".to_string()));
    let c = DropBomb::new(Cow::<'static, str>::Owned("owned".to_string()));
    assert_eq!(c.drop_fault(false).map(|m| m.to_string()), Some("owned".to_string()));
}
