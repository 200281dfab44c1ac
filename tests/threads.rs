use canvas::channel::{webgl_channel, WebGLReceiver, WebGLSender};
use canvas::processor::{ContextInfo, Size2D, WebGLContextId};
use canvas::threads::{exit_summary, WebGLExternalImages, WebGLMsg, WebGLThreads};

fn worker() -> (WebGLSender<WebGLMsg<()>>, WebGLReceiver<WebGLMsg<()>>) {
    webgl_channel().unwrap()
}

#[test]
fn exit_counts_one_unreachable_worker() {
    let mut threads: WebGLThreads<()> = WebGLThreads::new();
    let mut receivers = Vec::new();
    for i in 0..4u32 {
        let (tx, rx) = worker();
        assert_eq!(threads.pipeline(tx), Some(i));
        receivers.push(rx);
    }
    drop(receivers.remove(2));
    assert_eq!(threads.exit(), Err(1));
    for rx in &receivers {
        assert!(matches!(rx.recv(), Ok(WebGLMsg::Exit)));
    }
}

#[test]
fn exit_with_every_worker_reachable_succeeds() {
    let mut threads: WebGLThreads<()> = WebGLThreads::new();
    let (tx, rx) = worker();
    threads.pipeline(tx);
    assert_eq!(threads.exit(), Ok(()));
    assert!(matches!(rx.recv(), Ok(WebGLMsg::Exit)));
    let empty: WebGLThreads<()> = WebGLThreads::new();
    assert_eq!(empty.exit(), Ok(()));
}

#[test]
fn exit_summary_counts_failures() {
    assert_eq!(exit_summary(&vec![]), Ok(()));
    assert_eq!(exit_summary(&vec![true, true]), Ok(()));
    assert_eq!(exit_summary(&vec![true, false, true]), Err(1));
    assert_eq!(exit_summary(&vec![false, false, true, false]), Err(3));
}

#[test]
fn lock_of_unknown_context_fails_at_once() {
    let mut threads: WebGLThreads<()> = WebGLThreads::new();
    let (tx, rx) = worker();
    let t = threads.pipeline(tx).unwrap();
    let ctx = WebGLContextId(0);
    assert_eq!(threads.lock(ctx), None);
    assert!(!threads.unlock(ctx));
    threads.on_context_create(ctx, t);
    assert_eq!(threads.owner(ctx), Some(t));
    assert!(threads.unlock(ctx));
    assert!(matches!(rx.recv(), Ok(WebGLMsg::Unlock(WebGLContextId(0)))));
    threads.on_context_delete(ctx);
    assert_eq!(threads.owner(ctx), None);
    assert_eq!(threads.lock(ctx), None);
}

#[test]
fn lock_fails_when_the_owner_is_gone() {
    let mut threads: WebGLThreads<()> = WebGLThreads::new();
    let (tx, rx) = worker();
    let t = threads.pipeline(tx).unwrap();
    threads.on_context_create(WebGLContextId(3), t);
    drop(rx);
    assert_eq!(threads.lock(WebGLContextId(3)), None);
}

#[test]
fn synchronous_locks_read_the_latest_info() {
    let mut images = WebGLExternalImages::new();
    let ctx = WebGLContextId(0);
    let first = ContextInfo { texture_id: 1, size: Size2D::new(64, 64) };
    let second = ContextInfo { texture_id: 2, size: Size2D::new(128, 128) };
    assert_eq!(images.lock(ctx), None);
    images.on_context_create(ctx, first);
    assert_eq!(images.lock(ctx), Some(first));
    images.on_context_resize(ctx, second);
    assert_eq!(images.lock(ctx), Some(second));
    images.unlock(ctx);
    images.on_context_delete(ctx);
    assert_eq!(images.lock(ctx), None);
}

#[test]
fn channel_round_trip_and_disconnects() {
    let (tx, rx) = webgl_channel::<u32>().unwrap();
    let tx2 = tx.clone();
    assert!(tx.send(1).is_ok());
    assert!(tx2.send(2).is_ok());
    assert_eq!(rx.recv().ok(), Some(1));
    assert_eq!(rx.recv().ok(), Some(2));
    drop(tx);
    drop(tx2);
    assert!(rx.recv().is_err());
    let (tx, rx) = webgl_channel::<u32>().unwrap();
    drop(rx);
    let err = tx.send(5).unwrap_err();
    assert_eq!(err.0, 5);
}

#[test]
fn route_picks_the_owning_worker() {
    let mut threads: WebGLThreads<()> = WebGLThreads::new();
    let (tx0, rx0) = worker();
    let (tx1, rx1) = worker();
    let t0 = threads.pipeline(tx0).unwrap();
    let t1 = threads.pipeline(tx1).unwrap();
    threads.on_context_create(WebGLContextId(5), t1);
    threads.on_context_create(WebGLContextId(6), t0);
    assert!(threads.route(WebGLContextId(7)).is_none());
    assert!(threads.unlock(WebGLContextId(5)));
    assert!(matches!(rx1.recv(), Ok(WebGLMsg::Unlock(WebGLContextId(5)))));
    assert!(threads.unlock(WebGLContextId(6)));
    assert!(matches!(rx0.recv(), Ok(WebGLMsg::Unlock(WebGLContextId(6)))));
    let route = threads.route(WebGLContextId(5)).unwrap();
    assert!(route.webgl_channel.send(WebGLMsg::Exit).is_ok());
    assert!(matches!(rx1.recv(), Ok(WebGLMsg::Exit)));
}
