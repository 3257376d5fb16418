use correlation_broker::entity::Entity;
use correlation_broker::errors::BrokerError;
use correlation_broker::errors::TrainingError;
use correlation_broker::registry::CorrelationRegistry;
use correlation_broker::waiter::Waiter;

use futures::channel::oneshot;
use std::sync::Arc;
use std::sync::Mutex;
use std::time::Duration;

type SharedRegistry = Arc<Mutex<CorrelationRegistry<oneshot::Sender<String>>>>;

fn new_shared() -> SharedRegistry {
    Arc::new(Mutex::new(CorrelationRegistry::new()))
}

fn runtime() -> tokio::runtime::Runtime {
    tokio::runtime::Builder::new_multi_thread()
        .worker_threads(4)
        .enable_time()
        .build()
        .expect("runtime")
}

#[test]
fn subscribe_then_send_delivers_exactly_once() {
    let rt = runtime();
    rt.block_on(async {
        let registry = new_shared();
        let (tx, rx) = oneshot::channel::<String>();
        assert_eq!(registry.lock().unwrap().subscribe("id-1", tx), Ok(()));
        assert_eq!(
            registry
                .lock()
                .unwrap()
                .send("id-1", "payload-1".to_string()),
            Ok(())
        );
        let got = rx.await.expect("delivery");
        assert_eq!(got, "payload-1");
        assert_eq!(
            registry
                .lock()
                .unwrap()
                .send("id-1", "payload-2".to_string()),
            Err(BrokerError::NotFound)
        );
    });
}

#[test]
fn send_unknown_id_returns_not_found() {
    let registry: CorrelationRegistry<oneshot::Sender<String>> = CorrelationRegistry::new();
    let mut registry = registry;
    assert_eq!(
        registry.send("never-subscribed", "p".to_string()),
        Err(BrokerError::NotFound)
    );
    assert!(!registry.contains_id("never-subscribed"));
}

#[test]
fn duplicate_subscribe_rejected_first_stays_deliverable() {
    let rt = runtime();
    rt.block_on(async {
        let registry = new_shared();
        let (tx1, rx1) = oneshot::channel::<String>();
        let (tx2, rx2) = oneshot::channel::<String>();
        assert_eq!(registry.lock().unwrap().subscribe("dup", tx1), Ok(()));
        assert_eq!(
            registry.lock().unwrap().subscribe("dup", tx2),
            Err(BrokerError::AlreadyRegistered)
        );
        assert_eq!(
            registry.lock().unwrap().send("dup", "first wins".to_string()),
            Ok(())
        );
        assert_eq!(rx1.await.expect("first delivery"), "first wins");
        assert!(rx2.await.is_err());
    });
}

#[test]
fn interleaved_concurrent_delivery_no_crossing() {
    let rt = runtime();
    rt.block_on(async {
        let registry = new_shared();
        let n: usize = 8;
        let mut receivers = Vec::new();
        for i in 0..n {
            let (tx, rx) = oneshot::channel::<String>();
            let id = format!("task-{}", i);
            assert_eq!(registry.lock().unwrap().subscribe(&id, tx), Ok(()));
            receivers.push((i, rx));
        }
        let mut producers = Vec::new();
        for i in 0..n {
            let registry = registry.clone();
            producers.push(tokio::spawn(async move {
                let jitter = (i * 7919 + 104729) % 23;
                tokio::time::sleep(Duration::from_millis(jitter as u64)).await;
                let id = format!("task-{}", i);
                let payload = format!("payload-{}", i);
                registry.lock().unwrap().send(&id, payload)
            }));
        }
        let mut consumers = Vec::new();
        for (i, rx) in receivers {
            consumers.push(tokio::spawn(async move {
                let got = rx.await.expect("delivery");
                (i, got)
            }));
        }
        for handle in producers {
            assert_eq!(handle.await.expect("producer task"), Ok(()));
        }
        for handle in consumers {
            let (i, got) = handle.await.expect("consumer task");
            assert_eq!(got, format!("payload-{}", i));
        }
    });
}

#[test]
fn cancel_before_send_removes_entry() {
    let rt = runtime();
    rt.block_on(async {
        let registry = new_shared();
        let (tx, rx) = oneshot::channel::<String>();
        assert_eq!(registry.lock().unwrap().subscribe("gone", tx), Ok(()));
        assert_eq!(registry.lock().unwrap().cancel("gone"), Ok(()));
        assert!(!registry.lock().unwrap().contains_id("gone"));
        assert_eq!(
            registry.lock().unwrap().send("gone", "late".to_string()),
            Err(BrokerError::NotFound)
        );
        assert!(rx.await.is_err());
    });
}

#[test]
fn early_send_is_a_defined_loss() {
    let rt = runtime();
    rt.block_on(async {
        let registry = new_shared();
        assert_eq!(
            registry.lock().unwrap().send("early", "too soon".to_string()),
            Err(BrokerError::NotFound)
        );
        let (tx, rx) = oneshot::channel::<String>();
        assert_eq!(registry.lock().unwrap().subscribe("early", tx), Ok(()));
        assert_eq!(
            registry.lock().unwrap().send("early", "on time".to_string()),
            Ok(())
        );
        assert_eq!(rx.await.expect("delivery"), "on time");
    });
}

#[test]
fn cancel_is_idempotent() {
    let mut registry: CorrelationRegistry<oneshot::Sender<String>> = CorrelationRegistry::new();
    assert_eq!(registry.cancel("unknown"), Ok(()));
    assert_eq!(registry.cancel("unknown"), Ok(()));
}

#[test]
fn channel_closed_when_consumer_abandoned() {
    let rt = runtime();
    rt.block_on(async {
        let registry = new_shared();
        let (tx, rx) = oneshot::channel::<String>();
        assert_eq!(registry.lock().unwrap().subscribe("abandoned", tx), Ok(()));
        drop(rx);
        assert_eq!(
            registry
                .lock()
                .unwrap()
                .send("abandoned", "nobody listens".to_string()),
            Err(BrokerError::ChannelClosed)
        );
        assert!(!registry.lock().unwrap().contains_id("abandoned"));
    });
}

#[test]
fn scenario_ping_pong() {
    let rt = runtime();
    rt.block_on(async {
        let registry = new_shared();
        let (tx, rx) = oneshot::channel::<String>();
        assert_eq!(registry.lock().unwrap().subscribe("123", tx), Ok(()));
        let producer = registry.clone();
        tokio::spawn(async move {
            tokio::time::sleep(Duration::from_millis(10)).await;
            producer
                .lock()
                .unwrap()
                .send("123", "pong".to_string())
                .expect("send");
        });
        let got = tokio::time::timeout(Duration::from_secs(5), rx)
            .await
            .expect("no timeout")
            .expect("delivery");
        assert_eq!(got, "pong");
    });
}

#[test]
fn scenario_two_ids_delivered_regardless_of_send_order() {
    let rt = runtime();
    rt.block_on(async {
        let registry = new_shared();

        let reg_a = registry.clone();
        let consumer_a = tokio::spawn(async move {
            let (tx, rx) = oneshot::channel::<String>();
            assert_eq!(reg_a.lock().unwrap().subscribe("a", tx), Ok(()));
            rx.await.expect("delivery for a")
        });
        let reg_b = registry.clone();
        let consumer_b = tokio::spawn(async move {
            let (tx, rx) = oneshot::channel::<String>();
            assert_eq!(reg_b.lock().unwrap().subscribe("b", tx), Ok(()));
            rx.await.expect("delivery for b")
        });

        while !(registry.lock().unwrap().contains_id("a")
            && registry.lock().unwrap().contains_id("b"))
        {
            tokio::time::sleep(Duration::from_millis(1)).await;
        }
        assert_eq!(registry.lock().unwrap().send("b", "2".to_string()), Ok(()));
        assert_eq!(registry.lock().unwrap().send("a", "1".to_string()), Ok(()));

        assert_eq!(consumer_a.await.expect("consumer a"), "1");
        assert_eq!(consumer_b.await.expect("consumer b"), "2");
    });
}

#[test]
fn scenario_timeout_then_cancel() {
    let rt = runtime();
    rt.block_on(async {
        let registry = new_shared();
        let (tx, rx) = oneshot::channel::<String>();
        assert_eq!(registry.lock().unwrap().subscribe("x", tx), Ok(()));
        let waited = tokio::time::timeout(Duration::from_millis(30), rx).await;
        assert!(waited.is_err());
        assert_eq!(registry.lock().unwrap().cancel("x"), Ok(()));
        assert!(!registry.lock().unwrap().contains_id("x"));
    });
}

#[test]
fn sequential_waiter_backed_delivery() {
    let mut registry: CorrelationRegistry<Waiter> = CorrelationRegistry::new();
    assert_eq!(registry.subscribe("seq", Waiter::new()), Ok(()));
    let mut claimed = registry.claim("seq").expect("pending entry");
    assert_eq!(claimed.fulfill("42".to_string()), Ok(()));
    assert!(!registry.contains_id("seq"));
    assert!(matches!(registry.claim("seq"), Err(BrokerError::NotFound)));
    assert_eq!(claimed.resolve(), Ok("42".to_string()));
}

#[test]
fn waiter_delivers_exactly_once() {
    let mut w = Waiter::new();
    assert_eq!(w.fulfill("pong".to_string()), Ok(()));
    assert_eq!(
        w.fulfill("again".to_string()),
        Err(BrokerError::AlreadyFulfilled)
    );
    assert!(w.is_filled());
    assert_eq!(w.resolve(), Ok("pong".to_string()));
}

#[test]
fn waiter_closed_refuses_delivery() {
    let mut w = Waiter::new();
    w.close();
    assert_eq!(
        w.fulfill("late".to_string()),
        Err(BrokerError::ChannelClosed)
    );
    assert_eq!(w.resolve(), Err(BrokerError::ChannelClosed));
}

#[test]
fn waiter_empty_wait_times_out() {
    let w = Waiter::new();
    assert!(!w.is_filled());
    assert_eq!(w.resolve(), Err(BrokerError::Timeout));
}

#[test]
fn errors_describe_and_convert() {
    assert_eq!(
        BrokerError::NotFound.describe(),
        "no pending entry for this correlation id"
    );
    assert_eq!(
        BrokerError::Timeout.describe(),
        "wait elapsed before delivery"
    );
    let t = BrokerError::AlreadyRegistered.into_training();
    assert!(matches!(
        t,
        TrainingError::Simple(m) if m == "correlation id already registered"
    ));
}

#[test]
fn entity_keeps_its_parts() {
    let e = Entity::new("hello world".to_string(), "id-9".to_string(), 1);
    assert_eq!(e.data().as_str(), "hello world");
    assert_eq!(e.identifiant(), "id-9");
    assert_eq!(e.version(), 1);
    let copy = e.clone();
    assert_eq!(copy.identifiant(), "id-9");
}
