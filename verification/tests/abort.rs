use bsk::daemon::abort::{AbortRegisterError, AbortRegistry, AbortToken};
use bsk::daemon::cancel_forward::cancel_request;
use bsk::protocol::method::Method;
use std::time::Duration;

/// Resolves once `token` is cancelled, as the daemon's handlers wait.
async fn cancelled(token: &AbortToken) {
    if token.is_cancelled() {
        return;
    }
    let notified = token.notifier().notified();
    if token.is_cancelled() {
        return;
    }
    notified.await;
}

fn runtime() -> tokio::runtime::Runtime {
    tokio::runtime::Builder::new_current_thread().enable_all().build().unwrap()
}

#[test]
fn cancel_propagates_through_token() {
    runtime().block_on(async {
        let token = AbortToken::new();
        assert!(!token.is_cancelled());
        let t2 = token.clone();
        let task = tokio::spawn(async move {
            cancelled(&t2).await;
            true
        });
        token.cancel();
        let res = tokio::time::timeout(Duration::from_millis(200), task)
            .await
            .expect("task should complete")
            .unwrap();
        assert!(res);
        assert!(token.is_cancelled());
    });
}

#[test]
fn waiter_parked_before_cancel_is_woken() {
    runtime().block_on(async {
        let token = AbortToken::new();
        let t2 = token.clone();
        let task = tokio::spawn(async move {
            cancelled(&t2).await;
            true
        });
        tokio::task::yield_now().await;
        token.cancel();
        let res = tokio::time::timeout(Duration::from_millis(200), task)
            .await
            .expect("task should complete")
            .unwrap();
        assert!(res);
    });
}

#[test]
fn cancel_before_await_resolves_immediately() {
    runtime().block_on(async {
        let token = AbortToken::new();
        token.cancel();
        let res = tokio::time::timeout(Duration::from_millis(50), cancelled(&token)).await;
        assert!(res.is_ok());
    });
}

#[test]
fn drop_guard_removes_entry() {
    let mut reg = AbortRegistry::new();
    let guard = reg.register("rpc-1".into()).expect("register rpc-1");
    assert_eq!(reg.len(), 1);
    reg.release(&guard);
    assert_eq!(reg.len(), 0);
}

#[test]
fn token_starts_clear_and_trips_for_all_clones() {
    let token = AbortToken::new();
    assert!(!token.is_cancelled());
    let t2 = token.clone();
    token.cancel();
    assert!(t2.is_cancelled());
}

#[test]
fn registry_cancels_by_rpc_id() {
    let mut reg = AbortRegistry::new();
    let guard = reg.register("rpc-1".into()).expect("register rpc-1");
    let token = guard.token().clone();
    assert_eq!(reg.len(), 1);
    assert!(reg.contains(&"rpc-1".to_string()));
    assert!(reg.cancel(&"rpc-1".to_string()));
    assert!(token.is_cancelled());
    reg.release(&guard);
    assert!(reg.is_empty());
}

#[test]
fn cancel_unknown_id_is_noop() {
    let reg = AbortRegistry::new();
    assert!(!reg.cancel(&"missing".to_string()));
}

#[test]
fn duplicate_rpc_id_is_rejected_without_replacing_original_token() {
    let mut reg = AbortRegistry::new();
    let first = reg.register("rpc-1".into()).expect("first register");
    let first_token = first.token().clone();
    match reg.register("rpc-1".into()) {
        Err(AbortRegisterError::DuplicateRpcId(id)) => assert_eq!(id, "rpc-1"),
        Ok(_) => panic!("duplicate accepted"),
    }
    assert_eq!(reg.len(), 1);
    assert!(reg.cancel(&"rpc-1".to_string()));
    assert!(first_token.is_cancelled());
    reg.release(&first);
    assert!(reg.is_empty());
}

#[test]
fn stale_guard_does_not_remove_newer_registration() {
    let mut reg = AbortRegistry::new();
    let old = reg.register("rpc-1".into()).unwrap();
    reg.release(&old);
    let newer = reg.register("rpc-1".into()).unwrap();
    reg.release(&old);
    assert!(reg.contains(&"rpc-1".to_string()));
    reg.release(&newer);
    assert!(!reg.contains(&"rpc-1".to_string()));
}

#[test]
fn cancel_frame_for_browser() {
    let r = cancel_request(&"ws-9".to_string());
    assert_eq!(r.id, "cancel-ws-9");
    assert_eq!(r.method, Method::Cancel);
    assert_eq!(r.params.rpc_id, "ws-9");
}
