use bsk::daemon::session_interrupt::SessionInterruptRegistry;
use bsk::daemon::sessions::SessionId;

fn sid(s: &str) -> SessionId {
    SessionId(s.to_string())
}

#[test]
fn new_registry_is_empty() {
    let reg = SessionInterruptRegistry::new();
    assert_eq!(reg.len(), 0);
}

#[test]
fn mark_inserts_an_entry() {
    let mut reg = SessionInterruptRegistry::new();
    reg.mark(&sid("A"));
    assert!(reg.is_pending(&sid("A")));
}

#[test]
fn mark_is_idempotent_per_session() {
    let mut reg = SessionInterruptRegistry::new();
    reg.mark(&sid("A"));
    reg.mark(&sid("A"));
    assert_eq!(reg.len(), 1);
}

#[test]
fn mark_distinguishes_sessions() {
    let mut reg = SessionInterruptRegistry::new();
    reg.mark(&sid("A"));
    reg.mark(&sid("B"));
    assert_eq!(reg.len(), 2);
}

#[test]
fn is_pending_reflects_mark_without_consuming() {
    let mut reg = SessionInterruptRegistry::new();
    assert!(!reg.is_pending(&sid("A")));
    reg.mark(&sid("A"));
    assert!(reg.is_pending(&sid("A")));
    assert!(reg.try_consume(&sid("A")));
    assert!(!reg.is_pending(&sid("A")));
}

#[test]
fn try_consume_on_unmarked_session_returns_false() {
    let mut reg = SessionInterruptRegistry::new();
    assert!(!reg.try_consume(&sid("ghost")));
    assert_eq!(reg.len(), 0);
}

#[test]
fn try_consume_after_mark_returns_true_and_removes() {
    let mut reg = SessionInterruptRegistry::new();
    reg.mark(&sid("A"));
    assert!(reg.try_consume(&sid("A")));
    assert!(!reg.is_pending(&sid("A")));
}

#[test]
fn try_consume_is_single_use() {
    // Two consecutive consumes: only the first wins.
    let mut reg = SessionInterruptRegistry::new();
    reg.mark(&sid("A"));
    assert!(reg.try_consume(&sid("A")));
    assert!(!reg.try_consume(&sid("A")));
}

#[test]
fn try_consume_does_not_affect_other_sessions() {
    let mut reg = SessionInterruptRegistry::new();
    reg.mark(&sid("A"));
    reg.mark(&sid("B"));
    assert!(reg.try_consume(&sid("A")));
    assert!(reg.is_pending(&sid("B")));
}

#[test]
fn drop_session_clears_pending_entry() {
    let mut reg = SessionInterruptRegistry::new();
    reg.mark(&sid("A"));
    reg.drop_session(&sid("A"));
    assert!(!reg.is_pending(&sid("A")));
}

#[test]
fn drop_session_on_unknown_session_is_noop() {
    let mut reg = SessionInterruptRegistry::new();
    reg.drop_session(&sid("ghost"));
    assert_eq!(reg.len(), 0);
}

#[test]
fn drop_session_does_not_affect_other_sessions() {
    let mut reg = SessionInterruptRegistry::new();
    reg.mark(&sid("A"));
    reg.mark(&sid("B"));
    reg.drop_session(&sid("A"));
    assert!(!reg.is_pending(&sid("A")));
    assert!(reg.is_pending(&sid("B")));
}

#[test]
fn drop_session_after_mark_makes_subsequent_try_consume_return_false() {
    let mut reg = SessionInterruptRegistry::new();
    reg.mark(&sid("A"));
    reg.drop_session(&sid("A"));
    assert!(!reg.try_consume(&sid("A")));
}

#[test]
fn is_pending_does_not_consume() {
    let mut reg = SessionInterruptRegistry::new();
    reg.mark(&sid("A"));
    assert!(reg.is_pending(&sid("A")));
    assert!(reg.is_pending(&sid("A")));
    assert_eq!(reg.len(), 1);
    assert!(reg.try_consume(&sid("A")));
}
