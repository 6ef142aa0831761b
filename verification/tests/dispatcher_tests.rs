use std::sync::{Arc, Mutex};

use nosql_callbacks::dispatcher::{
    route_event, MyNoSqlDataRaderCallBacks, MyNoSqlDataRaderCallBacksPusher,
    MyNoSqlDataRaderCallBacksSender, PusherEvents,
};
use nosql_callbacks::logger::{LogType, MyLogger};

struct Recorder {
    seen: Mutex<Vec<(bool, String, Vec<u64>)>>,
    busy: Mutex<bool>,
}

impl Recorder {
    fn new() -> Self {
        Recorder {
            seen: Mutex::new(Vec::new()),
            busy: Mutex::new(false),
        }
    }

    fn record(&self, deleted: bool, partition_key: &str, entities: Vec<Arc<u64>>) {
        {
            let mut busy = self.busy.lock().unwrap();
            assert!(!*busy, "handler invoked while another was in progress");
            *busy = true;
        }
        self.seen.lock().unwrap().push((
            deleted,
            partition_key.to_string(),
            entities.iter().map(|e| **e).collect(),
        ));
        {
            let mut busy = self.busy.lock().unwrap();
            *busy = false;
        }
    }

    fn taken(&self) -> Vec<(bool, String, Vec<u64>)> {
        self.seen.lock().unwrap().clone()
    }
}

impl MyNoSqlDataRaderCallBacks<u64> for Recorder {
    fn inserted_or_replaced(&self, partition_key: &str, entities: Vec<Arc<u64>>) {
        self.record(false, partition_key, entities);
    }

    fn deleted(&self, partition_key: &str, entities: Vec<Arc<u64>>) {
        self.record(true, partition_key, entities);
    }
}

#[test]
fn route_event_splits_without_loss() {
    let entities: Vec<Arc<u64>> = vec![Arc::new(5), Arc::new(6)];
    let event = PusherEvents::inserted_or_replaced("pk", entities);
    let (deleted, partition_key, out) = route_event(event);
    assert!(!deleted);
    assert_eq!(partition_key, "pk");
    assert_eq!(out.len(), 2);
    assert_eq!(*out[0], 5);
    assert_eq!(*out[1], 6);

    let event = PusherEvents::<u64>::deleted("other", Vec::new());
    let (deleted, partition_key, out) = route_event(event);
    assert!(deleted);
    assert_eq!(partition_key, "other");
    assert!(out.is_empty());
}

#[test]
fn fifo_order_from_one_producer() {
    let logger = Arc::new(MyLogger::new());
    let (pusher, mut rx) = MyNoSqlDataRaderCallBacksPusher::<u64>::new(logger);

    for tag in 0u64..20 {
        if tag % 2 == 0 {
            pusher.inserted_or_replaced("pk", vec![Arc::new(tag)]);
        } else {
            pusher.deleted("pk", vec![Arc::new(tag)]);
        }
    }

    let recorder = Arc::new(Recorder::new());
    let sender = MyNoSqlDataRaderCallBacksSender::new(recorder.clone(), None);
    while let Ok(event) = rx.try_recv() {
        sender.tick(event);
    }

    let seen = recorder.taken();
    assert_eq!(seen.len(), 20);
    for (i, (deleted, partition_key, entities)) in seen.iter().enumerate() {
        assert_eq!(*deleted, i % 2 == 1);
        assert_eq!(partition_key, "pk");
        assert_eq!(entities, &vec![i as u64]);
    }
}

#[test]
fn concurrent_producers_keep_per_producer_order() {
    let logger = Arc::new(MyLogger::new());
    let (pusher, mut rx) = MyNoSqlDataRaderCallBacksPusher::<u64>::new(logger);
    let pusher = Arc::new(pusher);

    let runtime = tokio::runtime::Builder::new_multi_thread()
        .worker_threads(4)
        .build()
        .unwrap();
    runtime.block_on(async {
        let mut handles = Vec::new();
        for producer in 0u64..4 {
            let pusher = pusher.clone();
            handles.push(tokio::spawn(async move {
                for seq in 0u64..25 {
                    pusher.inserted_or_replaced(
                        &format!("producer-{}", producer),
                        vec![Arc::new(producer * 1000 + seq)],
                    );
                }
            }));
        }
        for handle in handles {
            handle.await.unwrap();
        }
    });

    let recorder = Arc::new(Recorder::new());
    let sender = MyNoSqlDataRaderCallBacksSender::new(recorder.clone(), None);
    while let Ok(event) = rx.try_recv() {
        sender.tick(event);
    }

    let seen = recorder.taken();
    assert_eq!(seen.len(), 100);
    for producer in 0u64..4 {
        let key = format!("producer-{}", producer);
        let tags: Vec<u64> = seen
            .iter()
            .filter(|(_, partition_key, _)| *partition_key == key)
            .map(|(_, _, entities)| entities[0])
            .collect();
        let expected: Vec<u64> = (0u64..25).map(|seq| producer * 1000 + seq).collect();
        assert_eq!(tags, expected, "per-producer order lost");
    }
}

#[test]
fn batch_and_key_round_trip_unmodified() {
    let logger = Arc::new(MyLogger::new());
    let (pusher, mut rx) = MyNoSqlDataRaderCallBacksPusher::<u64>::new(logger);

    let submitted: Vec<Arc<u64>> = (0u64..5).map(|n| Arc::new(n * 11)).collect();
    pusher.inserted_or_replaced("partition-a", submitted.clone());

    let event = rx.try_recv().unwrap();
    let (deleted, partition_key, entities) = route_event(event);
    assert!(!deleted);
    assert_eq!(partition_key, "partition-a");
    assert_eq!(entities.len(), 5);
    for (original, delivered) in submitted.iter().zip(entities.iter()) {
        assert!(Arc::ptr_eq(original, delivered), "entity was not shared through");
        assert_eq!(**original, **delivered);
    }
    assert!(rx.try_recv().is_err());
}

#[test]
fn stopped_loop_degrades_to_a_logged_failure() {
    let mut shared_logger = MyLogger::new();
    let mut log_reader = shared_logger.get_reader();
    let logger = Arc::new(shared_logger);

    let (pusher, rx) = MyNoSqlDataRaderCallBacksPusher::<u64>::new(logger);
    drop(rx);

    pusher.deleted("pk", Vec::new());
    pusher.inserted_or_replaced("pk", vec![Arc::new(1)]);

    let entry = log_reader.try_get_next().unwrap();
    assert_eq!(entry.log_type, LogType::Error);
    assert_eq!(entry.process, "MyNoSqlDataRaderCallBacksPusher");
    assert_eq!(entry.message, "Events loop is stopped. The event was not delivered");
    assert!(log_reader.try_get_next().is_some());
    assert!(log_reader.try_get_next().is_none());
}

#[test]
fn sender_tick_routes_to_matching_handler() {
    let recorder = Arc::new(Recorder::new());
    let sender = MyNoSqlDataRaderCallBacksSender::new(recorder.clone(), None);

    sender.tick(PusherEvents::inserted_or_replaced("a", vec![Arc::new(1)]));
    sender.tick(PusherEvents::deleted("b", vec![Arc::new(2)]));

    let seen = recorder.taken();
    assert_eq!(
        seen,
        vec![
            (false, "a".to_string(), vec![1]),
            (true, "b".to_string(), vec![2]),
        ]
    );
}

#[test]
fn pushers_compose_as_callback_implementations() {
    let logger = Arc::new(MyLogger::new());
    let (inner, mut inner_rx) = MyNoSqlDataRaderCallBacksPusher::<u64>::new(logger);

    let sender = MyNoSqlDataRaderCallBacksSender::new(Arc::new(inner), None);
    sender.tick(PusherEvents::deleted("pk", vec![Arc::new(9)]));

    let forwarded = inner_rx.try_recv().unwrap();
    let (deleted, partition_key, entities) = route_event(forwarded);
    assert!(deleted);
    assert_eq!(partition_key, "pk");
    assert_eq!(*entities[0], 9);
}
