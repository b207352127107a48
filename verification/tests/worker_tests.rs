use headlines::emitted_cards;
use headlines::stream_news_cards;
use headlines::FetchError;
use headlines::FetchWorker;
use headlines::Headlines;
use headlines::HeadlinesConfig;
use headlines::Message;
use headlines::NewsCardData;
use headlines::WorkerCommand;

use std::sync::mpsc::channel;
use std::sync::mpsc::sync_channel;

fn card(title: &str) -> NewsCardData {
    NewsCardData {
        title: title.to_string(),
        url: format!("https://example.com/{}", title),
        description: format!("about {}", title),
    }
}

fn fetch_err() -> FetchError {
    FetchError { message: "provider unreachable".to_string() }
}

#[test]
fn startup_with_key_fetches_immediately() {
    let mut w = FetchWorker::new("spawnkey".to_string());
    match w.startup_command() {
        WorkerCommand::Fetch(key) => assert_eq!(key, "spawnkey"),
        WorkerCommand::AwaitSignal => panic!("a configured key needs no signal"),
    }
}

#[test]
fn startup_without_key_waits() {
    let mut w = FetchWorker::new(String::new());
    match w.startup_command() {
        WorkerCommand::Fetch(_) => panic!("no fetch may happen before a signal"),
        WorkerCommand::AwaitSignal => {}
    }
}

#[test]
fn one_fetch_per_signal() {
    let mut w = FetchWorker::new(String::new());
    assert!(matches!(w.startup_command(), WorkerCommand::AwaitSignal));

    match w.on_signal(Message::ApiKeySet("first-key".to_string())) {
        WorkerCommand::Fetch(key) => assert_eq!(key, "first-key"),
        WorkerCommand::AwaitSignal => panic!("each signal commands a fetch"),
    }
    match w.on_signal(Message::ApiKeySet("second-key".to_string())) {
        WorkerCommand::Fetch(key) => assert_eq!(key, "second-key"),
        WorkerCommand::AwaitSignal => panic!("each signal commands a fetch"),
    }
}

#[test]
fn emitted_cards_success_keeps_order() {
    let fetched = vec![card("alpha"), card("beta"), card("alpha")];
    let cards = emitted_cards(Ok(fetched));
    assert_eq!(cards.len(), 3);
    assert_eq!(cards[0].title, "alpha");
    assert_eq!(cards[1].title, "beta");
    assert_eq!(cards[2].title, "alpha");
}

#[test]
fn emitted_cards_failure_is_empty() {
    let cards = emitted_cards(Err(fetch_err()));
    assert_eq!(cards.len(), 0);
}

#[test]
fn stream_sends_all_cards_in_order() {
    let (news_tx, news_rx) = channel::<NewsCardData>();
    let sent = stream_news_cards(Ok(vec![card("one"), card("two"), card("three")]), &news_tx);
    assert_eq!(sent, 3);
    assert_eq!(news_rx.try_recv().unwrap().title, "one");
    assert_eq!(news_rx.try_recv().unwrap().title, "two");
    assert_eq!(news_rx.try_recv().unwrap().title, "three");
    assert!(news_rx.try_recv().is_err());
}

#[test]
fn failed_fetch_streams_nothing_and_worker_continues() {
    let (news_tx, news_rx) = channel::<NewsCardData>();
    let sent = stream_news_cards(Err(fetch_err()), &news_tx);
    assert_eq!(sent, 0);
    assert!(news_rx.try_recv().is_err());

    let mut w = FetchWorker::new(String::new());
    assert!(matches!(w.startup_command(), WorkerCommand::AwaitSignal));
    match w.on_signal(Message::ApiKeySet("retry".to_string())) {
        WorkerCommand::Fetch(key) => assert_eq!(key, "retry"),
        WorkerCommand::AwaitSignal => panic!("a failed fetch must not block later signals"),
    }
}

#[test]
fn stream_after_receiver_dropped_does_not_panic() {
    let (news_tx, news_rx) = channel::<NewsCardData>();
    drop(news_rx);
    let sent = stream_news_cards(Ok(vec![card("lost"), card("lost-too")]), &news_tx);
    assert_eq!(sent, 0);
}

#[test]
fn fetched_articles_drain_into_list_in_order() {
    let mut h = Headlines::new(HeadlinesConfig::new());
    let (news_tx, news_rx) = channel::<NewsCardData>();
    let (app_tx, _app_rx) = sync_channel::<Message>(1);
    h.attach_channels(news_rx, app_tx);

    let sent = stream_news_cards(Ok(vec![card("n1"), card("n2")]), &news_tx);
    assert_eq!(sent, 2);
    h.preload_news();
    h.preload_news();
    h.preload_news();
    assert_eq!(h.articles.len(), 2);
    assert_eq!(h.articles[0].title, "n1");
    assert_eq!(h.articles[1].title, "n2");
}

#[test]
fn key_entry_scenario() {
    // Empty key at startup: no key counts as initialized and the worker waits.
    let mut h = Headlines::new(HeadlinesConfig::new());
    let (_news_tx, news_rx) = channel::<NewsCardData>();
    let (app_tx, app_rx) = sync_channel::<Message>(1);
    h.attach_channels(news_rx, app_tx);
    assert!(!h.is_api_key_initialized());

    let mut w = FetchWorker::new(h.config.api_key.clone());
    assert!(matches!(w.startup_command(), WorkerCommand::AwaitSignal));

    // The user types a key and submits; persistence succeeds.
    h.config.api_key = "ABC123".to_string();
    let signal = h.process_key_submission(true);
    assert!(h.is_api_key_initialized());
    match signal.expect("a signal should have been handed to the channel") {
        Message::ApiKeySet(key) => assert_eq!(key, "ABC123"),
    }

    // Exactly one signal is pending and it carries the entered key.
    let msg = app_rx.try_recv().expect("one key-set signal should be pending");
    let Message::ApiKeySet(ref key) = msg;
    assert_eq!(key, "ABC123");
    assert!(app_rx.try_recv().is_err());

    // The worker turns that one signal into exactly one fetch with that key.
    match w.on_signal(msg) {
        WorkerCommand::Fetch(key) => assert_eq!(key, "ABC123"),
        WorkerCommand::AwaitSignal => panic!("the signal commands a fetch"),
    }
    assert!(app_rx.try_recv().is_err(), "no further fetch is commanded");
}
