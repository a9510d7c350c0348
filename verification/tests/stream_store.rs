use ecom_engine::services::product::model::NewProduct;
use ecom_engine::stream::event::{Client, StreamChannel, StreamMode, Update, UpdateStreamEvent};
use ecom_engine::stream::processor::{Action, PersistenceCall, Signal};
use ecom_engine::stream::store::QueueStore;
use std::time::Duration;

fn update(name: &str) -> Update {
    Update::NewProduct(NewProduct::new(Some(name.to_string()), None, None, None, None, None))
}

fn named(name: &str) -> UpdateStreamEvent {
    UpdateStreamEvent::new(update(name))
}

#[test]
fn new_store_is_empty_and_unflagged() {
    let store = QueueStore::new();
    assert_eq!(store.length(), 0);
    assert_eq!(store.get_flag(), None);
}

#[test]
fn pop_returns_oldest_first() {
    let mut store = QueueStore::new();
    store.push_head(named("a"));
    store.push_head(named("b"));
    store.push_head(named("c"));
    assert_eq!(store.length(), 3);
    let popped = store.pop_tail(2);
    assert_eq!(popped, vec![named("a"), named("b")]);
    assert_eq!(store.length(), 1);
    let rest = store.pop_tail(5);
    assert_eq!(rest, vec![named("c")]);
    assert_eq!(store.length(), 0);
}

#[test]
fn pop_of_nothing_takes_nothing() {
    let mut store = QueueStore::new();
    store.push_head(named("a"));
    assert_eq!(store.pop_tail(0), Vec::new());
    assert_eq!(store.length(), 1);
    let mut empty = QueueStore::new();
    assert_eq!(empty.pop_tail(3), Vec::new());
}

#[test]
fn flag_is_written_and_read_back() {
    let mut store = QueueStore::new();
    store.push_head(named("a"));
    store.set_flag(false);
    assert_eq!(store.get_flag(), Some(false));
    store.set_flag(true);
    assert_eq!(store.get_flag(), Some(true));
    assert_eq!(store.length(), 1);
}

#[test]
fn store_serves_its_own_actions() {
    let mut store = QueueStore::new();
    assert_eq!(store.serve(Action::GetFlag), Ok(Signal::Flag(None)));
    assert_eq!(store.serve(Action::SetFlag(true)), Ok(Signal::Done));
    assert_eq!(store.serve(Action::GetFlag), Ok(Signal::Flag(Some(true))));
    assert_eq!(store.serve(Action::GetLength), Ok(Signal::Length(Some(0))));
    assert_eq!(store.serve(Action::PushHead(named("a"))), Ok(Signal::Done));
    assert_eq!(store.serve(Action::PushHead(named("b"))), Ok(Signal::Done));
    assert_eq!(store.serve(Action::GetLength), Ok(Signal::Length(Some(2))));
    assert_eq!(
        store.serve(Action::PopTail(7)),
        Ok(Signal::Batch(vec![Some(named("a")), Some(named("b"))]))
    );
    assert_eq!(store.serve(Action::GetLength), Ok(Signal::Length(Some(0))));
}

#[test]
fn store_hands_back_what_is_not_its_own() {
    let mut store = QueueStore::new();
    store.push_head(named("a"));
    assert_eq!(store.serve(Action::Wait(Some(5))), Err(Action::Wait(Some(5))));
    assert_eq!(store.serve(Action::RecordBatch), Err(Action::RecordBatch));
    assert_eq!(store.serve(Action::Halt), Err(Action::Halt));
    assert_eq!(store.serve(Action::Wait(None)), Err(Action::Wait(None)));
    assert_eq!(store.serve(Action::ReportMalformed), Err(Action::ReportMalformed));
    assert_eq!(
        store.serve(Action::ReportExhausted(named("b"))),
        Err(Action::ReportExhausted(named("b")))
    );
    let call = PersistenceCall::ApplyNewEntity(NewProduct::new(None, None, None, None, None, None));
    let apply = Action::Apply { call, attempt: 1 };
    let again = PersistenceCall::ApplyNewEntity(NewProduct::new(None, None, None, None, None, None));
    assert_eq!(store.serve(apply), Err(Action::Apply { call: again, attempt: 1 }));
    assert_eq!(store.length(), 1);
    assert_eq!(store.get_flag(), None);
}

#[test]
fn fresh_event_has_no_attempts() {
    let event = UpdateStreamEvent::new(update("a"));
    assert_eq!(event.attempt_count, 0);
    assert_eq!(event.update, update("a"));
    assert_eq!(event.clone(), event);
}

#[test]
fn every_update_travels_on_the_product_channel() {
    assert_eq!(StreamChannel::from_update(&update("a")), StreamChannel::ProductUpdates);
    assert_eq!(StreamChannel::ProductUpdates.name(), "product_updates");
}

#[test]
fn client_clone_keeps_the_schedule() {
    let client = Client {
        mode: StreamMode::OnSchedule(Duration::from_millis(1500)),
        connection_addr: "redis://127.0.0.1/".to_string(),
    };
    let copy = client.clone();
    assert_eq!(copy, client);
    assert_eq!(copy.mode, StreamMode::OnSchedule(Duration::from_millis(1500)));
    assert_eq!(StreamMode::OnEvent.clone(), StreamMode::OnEvent);
}
