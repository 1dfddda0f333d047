use relay::dashboard::DashboardReply;
use relay::dashboard::DashboardRequest;
use relay::dashboard::handle_dashboard;
use relay::ingress::IngressReply;
use relay::ingress::IngressRequest;
use relay::ingress::Message;
use relay::ingress::handle_ingress;
use relay::ingress::render_message;
use relay::store::CAPACITY;
use relay::store::HistoryStore;

fn entry(i: usize) -> String {
    format!("entry-{}", i)
}

#[test]
fn bounded_log_under_capacity() {
    let mut store = HistoryStore::new();
    for i in 0..5 {
        store.append(entry(i));
    }
    assert_eq!(store.len(), 5);
    let snap = store.snapshot();
    assert_eq!(snap, vec![entry(0), entry(1), entry(2), entry(3), entry(4)]);
}

#[test]
fn bounded_log_at_capacity_boundary() {
    let mut store = HistoryStore::new();
    for i in 0..CAPACITY {
        store.append(entry(i));
    }
    assert_eq!(store.len(), CAPACITY);
    assert_eq!(store.snapshot()[0], entry(0));

    store.append(entry(CAPACITY));
    assert_eq!(store.len(), CAPACITY);
    let snap = store.snapshot();
    assert_eq!(snap[0], entry(1));
    assert_eq!(snap[CAPACITY - 1], entry(CAPACITY));
}

#[test]
fn bounded_log_over_capacity() {
    let mut store = HistoryStore::new();
    for i in 0..150 {
        store.append(entry(i));
    }
    assert_eq!(store.len(), CAPACITY);
    let snap = store.snapshot();
    for (j, kept) in snap.iter().enumerate() {
        assert_eq!(*kept, entry(50 + j));
    }
}

#[test]
fn clear_empty_store() {
    let mut store = HistoryStore::new();
    store.clear();
    assert_eq!(store.len(), 0);
    assert!(store.snapshot().is_empty());
}

#[test]
fn clear_twice_in_a_row() {
    let mut store = HistoryStore::new();
    store.append(entry(0));
    store.append(entry(1));
    store.clear();
    assert_eq!(store.len(), 0);
    assert!(store.snapshot().is_empty());
    store.clear();
    assert_eq!(store.len(), 0);
    assert!(store.snapshot().is_empty());
}

#[test]
fn echo_acknowledgment() {
    let mut store = HistoryStore::new();
    let msg = Message {
        id: String::from("42"),
        method: String::from("echo"),
        params: Some(String::from("{\"x\":1}")),
    };
    let reply = handle_ingress(IngressRequest::Mcp(Some(msg)), &mut store);
    match reply {
        IngressReply::Ack(resp) => {
            assert_eq!(resp.id, "42");
            let result = resp.result.expect("acknowledgment carries a result");
            assert!(!result.is_empty());
            assert_eq!(result, "{\"status\":\"success\"}");
            assert!(resp.error.is_none());
        }
        _ => panic!("a well-formed message must be acknowledged"),
    }
    let snap = store.snapshot();
    assert_eq!(snap.len(), 1);
    assert_eq!(
        snap[0],
        "Message { id: \"42\", method: \"echo\", params: Some({\"x\":1}) }"
    );
}

#[test]
fn render_without_params() {
    let msg = Message {
        id: String::from("7"),
        method: String::from("ping"),
        params: None,
    };
    assert_eq!(
        render_message(&msg),
        "Message { id: \"7\", method: \"ping\", params: None }"
    );
}

#[test]
fn malformed_input_isolated() {
    let mut store = HistoryStore::new();
    store.append(entry(0));
    let before = store.len();
    let reply = handle_ingress(IngressRequest::Mcp(None), &mut store);
    assert!(matches!(reply, IngressReply::MalformedRequest));
    assert_eq!(store.len(), before);
    assert_eq!(store.snapshot(), vec![entry(0)]);
}

#[test]
fn liveness_probe_independent() {
    let mut store = HistoryStore::new();
    store.append(entry(0));
    store.append(entry(1));
    let before = store.snapshot();
    for _ in 0..10 {
        let reply = handle_ingress(IngressRequest::Health, &mut store);
        match reply {
            IngressReply::Alive(status) => assert_eq!(status, "ok"),
            _ => panic!("the liveness probe must report aliveness"),
        }
    }
    assert_eq!(store.snapshot(), before);
}

#[test]
fn dashboard_read_is_oldest_first_and_pure() {
    let mut store = HistoryStore::new();
    store.append(entry(0));
    store.append(entry(1));
    let reply = handle_dashboard(DashboardRequest::Messages, &mut store);
    match reply {
        DashboardReply::Messages(msgs) => {
            assert_eq!(msgs, vec![entry(0), entry(1)]);
        }
        _ => panic!("a read must return the messages"),
    }
    assert_eq!(store.len(), 2);
}

#[test]
fn dashboard_clear_reports_cleared() {
    let mut store = HistoryStore::new();
    store.append(entry(0));
    let reply = handle_dashboard(DashboardRequest::Clear, &mut store);
    match reply {
        DashboardReply::Cleared(status) => assert_eq!(status, "cleared"),
        _ => panic!("a clear must report its status"),
    }
    assert_eq!(store.len(), 0);
    assert!(store.snapshot().is_empty());
}

#[test]
fn concurrent_appends_linearized() {
    let runtime = tokio::runtime::Builder::new_multi_thread()
        .worker_threads(4)
        .build()
        .expect("runtime");
    let history = std::sync::Arc::new(tokio::sync::RwLock::new(HistoryStore::new()));
    runtime.block_on(async {
        let mut tasks = Vec::new();
        for i in 0..CAPACITY {
            let history = history.clone();
            tasks.push(tokio::spawn(async move {
                let mut store = history.write().await;
                store.append(entry(i));
            }));
        }
        for task in tasks {
            task.await.expect("append task");
        }
    });
    let store = history.blocking_read();
    assert_eq!(store.len(), CAPACITY);
    let snap = store.snapshot();
    for i in 0..CAPACITY {
        assert_eq!(snap.iter().filter(|kept| **kept == entry(i)).count(), 1);
    }
}

#[test]
fn appends_linearized() {
    let mut store = HistoryStore::new();
    for i in 0..CAPACITY {
        store.append(entry(i));
    }
    assert_eq!(store.len(), CAPACITY);
    let snap = store.snapshot();
    for i in 0..CAPACITY {
        assert_eq!(snap.iter().filter(|kept| **kept == entry(i)).count(), 1);
    }
}
