//! Ordered callback dispatcher: producers hand change events to a
//! pusher, which enqueues them on an unbounded single-consumer queue;
//! one worker drains that queue head first and drives exactly one
//! handler invocation per event. Entities stay opaque: they are only
//! carried through, shared by reference count.

use vstd::prelude::*;
use std::sync::Arc;
use crate::channel::{make_unbounded_channel, send_on};
use crate::logger::{LogType, MyLogger};

verus! {

/// One change event: a batch of entities inserted or replaced under a
/// partition key, or a batch deleted under one.
pub enum PusherEvents<T> {
    InsertedOrReplaced(String, Vec<Arc<T>>),
    Deleted(String, Vec<Arc<T>>),
}

impl<T> PusherEvents<T> {
    /// The partition key the event carries.
    pub open spec fn partition_key(&self) -> Seq<char> {
        match self {
            PusherEvents::InsertedOrReplaced(partition_key, _) => partition_key@,
            PusherEvents::Deleted(partition_key, _) => partition_key@,
        }
    }

    /// The entity batch the event carries, in submission order.
    pub open spec fn entities(&self) -> Seq<Arc<T>> {
        match self {
            PusherEvents::InsertedOrReplaced(_, entities) => entities@,
            PusherEvents::Deleted(_, entities) => entities@,
        }
    }

    /// Whether the event reports a deletion.
    pub open spec fn is_delete(&self) -> bool {
        self is Deleted
    }

    /// An insert-or-replace event over an owned copy of the key and the
    /// shared batch, both unchanged.
    pub fn inserted_or_replaced(partition_key: &str, entities: Vec<Arc<T>>) -> (e: Self)
        ensures
            !e.is_delete(),
            e.partition_key() == partition_key@,
            e.entities() == entities@,
    {
        PusherEvents::InsertedOrReplaced(partition_key.to_owned(), entities)
    }

    /// A delete event over an owned copy of the key and the shared
    /// batch, both unchanged.
    pub fn deleted(partition_key: &str, entities: Vec<Arc<T>>) -> (e: Self)
        ensures
            e.is_delete(),
            e.partition_key() == partition_key@,
            e.entities() == entities@,
    {
        PusherEvents::Deleted(partition_key.to_owned(), entities)
    }
}

/// The callback capability the dispatcher drives: one handler per event
/// kind, each taking the partition key and the shared entity batch.
pub trait MyNoSqlDataRaderCallBacks<T> {
    fn inserted_or_replaced(&self, partition_key: &str, entities: Vec<Arc<T>>);

    fn deleted(&self, partition_key: &str, entities: Vec<Arc<T>>);
}

/// Takes an event apart for delivery: whether it is a deletion, and the
/// partition key and entity batch it carries, unchanged. The worker
/// that drains the queue decides by this and nothing else.
pub fn route_event<T>(event: PusherEvents<T>) -> (r: (bool, String, Vec<Arc<T>>))
    ensures
        r.0 == event.is_delete(),
        r.1@ == event.partition_key(),
        r.2@ == event.entities(),
{
    match event {
        PusherEvents::InsertedOrReplaced(partition_key, entities) => (
            false,
            partition_key,
            entities,
        ),
        PusherEvents::Deleted(partition_key, entities) => (true, partition_key, entities),
    }
}

/// Accepts change notifications from any number of producers and
/// enqueues them, never blocking the caller. One worker on the other
/// end of the queue delivers them to the wrapped callback
/// implementation one at a time, head first.
#[verifier::reject_recursive_types(T)]
pub struct MyNoSqlDataRaderCallBacksPusher<T> {
    events_loop: tokio::sync::mpsc::UnboundedSender<PusherEvents<T>>,
    logger: Arc<MyLogger>,
}

impl<T> MyNoSqlDataRaderCallBacksPusher<T> {
    /// The diagnostic sink this pusher logs delivery failures to.
    pub closed spec fn sink(&self) -> Arc<MyLogger> {
        self.logger
    }

    /// A pusher over a fresh queue, with the receive half handed out so
    /// that the caller can start the worker that drains it. The pusher
    /// is bound to the injected `logger`: that sink, and no other,
    /// takes the diagnostic entry written when an enqueue fails on a
    /// torn-down queue.
    pub fn new(logger: Arc<MyLogger>) -> (r: (
        Self,
        tokio::sync::mpsc::UnboundedReceiver<PusherEvents<T>>,
    ))
        ensures
            r.0.sink() == logger,
    {
        let (tx, rx) = make_unbounded_channel();
        (MyNoSqlDataRaderCallBacksPusher { events_loop: tx, logger }, rx)
    }

    /// Reports a batch of entities inserted or replaced under
    /// `partition_key`. Returns at once; when the queue is torn down the
    /// event is dropped and the loss is logged, never raised.
    pub fn inserted_or_replaced(&self, partition_key: &str, entities: Vec<Arc<T>>) {
        self.send_event(PusherEvents::inserted_or_replaced(partition_key, entities));
    }

    /// Reports a batch of entities deleted under `partition_key`, with
    /// the same delivery contract as `inserted_or_replaced`.
    pub fn deleted(&self, partition_key: &str, entities: Vec<Arc<T>>) {
        self.send_event(PusherEvents::deleted(partition_key, entities));
    }

    fn send_event(&self, event: PusherEvents<T>) {
        match send_on(&self.events_loop, event) {
            Ok(()) => {},
            Err(_rejected) => {
                self.logger.write_log(
                    LogType::Error,
                    "MyNoSqlDataRaderCallBacksPusher".to_owned(),
                    "Events loop is stopped. The event was not delivered".to_owned(),
                    None,
                );
            },
        }
    }
}

impl<T> MyNoSqlDataRaderCallBacks<T> for MyNoSqlDataRaderCallBacksPusher<T> {
    /// A pusher is itself a callback implementation, so dispatchers
    /// compose: it forwards the invocation as a fresh event.
    fn inserted_or_replaced(&self, partition_key: &str, entities: Vec<Arc<T>>) {
        MyNoSqlDataRaderCallBacksPusher::inserted_or_replaced(self, partition_key, entities);
    }

    fn deleted(&self, partition_key: &str, entities: Vec<Arc<T>>) {
        MyNoSqlDataRaderCallBacksPusher::deleted(self, partition_key, entities);
    }
}

/// The worker's end of the dispatcher: holds the wrapped callback
/// implementation and turns one dequeued event into one handler
/// invocation.
pub struct MyNoSqlDataRaderCallBacksSender<T, C: MyNoSqlDataRaderCallBacks<T>> {
    callbacks: Arc<C>,
    item: Option<T>,
}

impl<T, C: MyNoSqlDataRaderCallBacks<T>> MyNoSqlDataRaderCallBacksSender<T, C> {
    /// The callback implementation every tick dispatches to.
    pub closed spec fn wrapped_callbacks(&self) -> Arc<C> {
        self.callbacks
    }

    /// The optional item held alongside; it never influences delivery.
    pub closed spec fn held_item(&self) -> Option<T> {
        self.item
    }

    /// Wraps one callback implementation: the sender is bound to the
    /// given instance and to the given item.
    pub fn new(callbacks: Arc<C>, item: Option<T>) -> (r: Self)
        ensures
            r.wrapped_callbacks() == callbacks,
            r.held_item() == item,
    {
        MyNoSqlDataRaderCallBacksSender { callbacks, item }
    }

    /// Delivers one dequeued event: exactly one handler invocation, the
    /// deletion handler for a delete event and the insert-or-replace
    /// handler otherwise, with the event's own key and batch.
    pub fn tick(&self, model: PusherEvents<T>) {
        let (is_delete, partition_key, entities) = route_event(model);
        if is_delete {
            self.callbacks.deleted(partition_key.as_str(), entities);
        } else {
            self.callbacks.inserted_or_replaced(partition_key.as_str(), entities);
        }
    }
}

/// What one event demands of the callback capability: which handler,
/// with which partition key and which entity batch.
pub struct Invocation<T> {
    pub deleted: bool,
    pub partition_key: Seq<char>,
    pub entities: Seq<Arc<T>>,
}

/// The one invocation an event translates to.
pub open spec fn invocation_of<T>(event: PusherEvents<T>) -> Invocation<T> {
    Invocation {
        deleted: event.is_delete(),
        partition_key: event.partition_key(),
        entities: event.entities(),
    }
}

/// The invocations issued after the worker has consumed the first
/// `ticks` queued events, one event per tick, head first. Each tick
/// finishes its invocation before the next one starts, so the
/// invocations form one sequence, not a set of overlapping runs.
pub open spec fn delivered_after<T>(queue: Seq<PusherEvents<T>>, ticks: nat) -> Seq<Invocation<T>>
    decreases ticks,
{
    if ticks == 0 {
        Seq::empty()
    } else if ticks <= queue.len() {
        delivered_after(queue, (ticks - 1) as nat).push(invocation_of(queue[ticks - 1]))
    } else {
        delivered_after(queue, (ticks - 1) as nat)
    }
}

/// Law: however many producers filled the queue, after `ticks` ticks the
/// worker has issued exactly one invocation per consumed event, the
/// i-th invocation stems from the i-th submission, and it carries that
/// event's kind, partition key and entity batch unchanged.
pub proof fn lemma_fifo_delivery_preserves_order<T>(queue: Seq<PusherEvents<T>>, ticks: nat)
    requires
        ticks <= queue.len(),
    ensures
        delivered_after(queue, ticks).len() == ticks,
        forall|i: int|
            0 <= i < ticks ==> delivered_after(queue, ticks)[i] == invocation_of(queue[i]),
    decreases ticks,
{
    if ticks > 0 {
        lemma_fifo_delivery_preserves_order(queue, (ticks - 1) as nat);
    }
}

/// Law: ticks beyond the queue's length issue nothing more; a drained
/// dispatcher stays quiet until new events arrive.
pub proof fn lemma_no_invocation_without_event<T>(queue: Seq<PusherEvents<T>>, ticks: nat)
    ensures
        delivered_after(queue, ticks).len() == if ticks <= queue.len() {
            ticks as int
        } else {
            queue.len() as int
        },
    decreases ticks,
{
    if ticks > 0 {
        lemma_no_invocation_without_event(queue, (ticks - 1) as nat);
    }
}

} // verus!
