//! Decision logic of the background fetch worker.
//!
//! The worker thread itself lives in the surrounding binary: it performs the
//! blocking network call and the blocking channel receive, neither of which
//! the library can do. Every decision the thread takes — fetch now, wait for
//! a key, what a completed fetch contributes, what to push into the article
//! channel — is a function here, with a contract, and the thread only
//! executes the commands it is handed.

use vstd::prelude::*;

use std::sync::mpsc::Sender;

use crate::channel::send_card;
use crate::headlines::Message;
use crate::headlines::NewsCardData;

verus! {

/// What the fetch worker should do next: perform one fetch with the given
/// key, or block waiting for a key-set signal.
pub enum WorkerCommand {
    Fetch(String),
    AwaitSignal,
}

/// The library's record of a failed fetch call, as reported by the news
/// client collaborator.
pub struct FetchError {
    pub message: String,
}

/// The decision state of the background fetch worker. The ghost counters
/// account for every fetch the worker has commanded and every key-set
/// signal it has handled.
pub struct FetchWorker {
    /// The API key copied from the settings at spawn time.
    pub api_key: String,
    /// Whether the spawn-time decision has been taken.
    pub started: bool,
    /// How many fetches have been commanded so far.
    pub fetches: Ghost<int>,
    /// How many key-set signals have been handled so far.
    pub signals: Ghost<int>,
}

impl FetchWorker {
    /// The worker's accounting invariant: one fetch per handled signal, plus
    /// the single startup fetch if and only if the worker was spawned with a
    /// non-empty key — in which case it never consumes signals at all.
    pub open spec fn inv(self) -> bool {
        &&& self.signals@ >= 0
        &&& self.fetches@ == self.signals@ + (if self.started && self.api_key@.len() > 0 {
            1int
        } else {
            0int
        })
        &&& (!self.started ==> self.signals@ == 0)
        &&& (self.api_key@.len() > 0 ==> self.signals@ == 0)
    }

    /// A worker about to be spawned with a copy of the configured key: no
    /// decision taken yet, nothing fetched, no signal handled.
    pub fn new(api_key: String) -> (w: Self)
        ensures
            w.api_key == api_key,
            !w.started,
            w.fetches@ == 0,
            w.signals@ == 0,
            w.inv(),
    {
        FetchWorker { api_key, started: false, fetches: Ghost(0int), signals: Ghost(0int) }
    }

    /// The spawn-time decision: with a non-empty key the worker commands its
    /// one startup fetch with that key, needing no signal first; with an
    /// empty key it commands zero fetches and waits for a key-set signal.
    pub fn startup_command(&mut self) -> (c: WorkerCommand)
        requires
            !old(self).started,
            old(self).inv(),
        ensures
            final(self).inv(),
            final(self).started,
            final(self).api_key == old(self).api_key,
            final(self).signals@ == 0,
            old(self).api_key@.len() > 0 ==> (c matches WorkerCommand::Fetch(key)
                && key@ == old(self).api_key@) && final(self).fetches@ == 1,
            old(self).api_key@.len() == 0 ==> c == WorkerCommand::AwaitSignal
                && final(self).fetches@ == 0,
    {
        self.started = true;
        if !self.api_key.as_str().is_empty() {
            self.fetches = Ghost(self.fetches@ + 1);
            WorkerCommand::Fetch(self.api_key.clone())
        } else {
            WorkerCommand::AwaitSignal
        }
    }

    /// Handles one key-set signal: exactly one further fetch is commanded,
    /// carrying exactly the signalled key. Only a worker spawned without a
    /// key ever waits for signals, and a failed earlier fetch does not bar
    /// it from handling the next signal.
    pub fn on_signal(&mut self, msg: Message) -> (c: WorkerCommand)
        requires
            old(self).started,
            old(self).api_key@.len() == 0,
            old(self).inv(),
        ensures
            final(self).inv(),
            final(self).started,
            final(self).api_key == old(self).api_key,
            final(self).signals@ == old(self).signals@ + 1,
            final(self).fetches@ == old(self).fetches@ + 1,
            msg matches Message::ApiKeySet(k) ==> (c matches WorkerCommand::Fetch(key) && key
                == k),
    {
        self.signals = Ghost(self.signals@ + 1);
        self.fetches = Ghost(self.fetches@ + 1);
        match msg {
            Message::ApiKeySet(key) => WorkerCommand::Fetch(key),
        }
    }
}

/// Law: a worker spawned with a non-empty key performs its single startup
/// fetch without any key-set signal having been handled.
pub proof fn lemma_startup_fetch_needs_no_signal(w: FetchWorker)
    requires
        w.inv(),
        w.started,
        w.api_key@.len() > 0,
    ensures
        w.signals@ == 0,
        w.fetches@ == 1,
{
}

/// Law: a worker spawned with an empty key has commanded exactly one fetch
/// per key-set signal handled — in particular, zero fetches before the
/// first signal.
pub proof fn lemma_one_fetch_per_signal(w: FetchWorker)
    requires
        w.inv(),
        w.api_key@.len() == 0,
    ensures
        w.fetches@ == w.signals@,
{
}

/// The cards a completed fetch contributes: on success exactly the returned
/// articles, in response order, never reordered or deduplicated; on failure
/// none at all.
pub fn emitted_cards(fetching: Result<Vec<NewsCardData>, FetchError>) -> (cards: Vec<
    NewsCardData,
>)
    ensures
        fetching matches Ok(v) ==> cards@ == v@,
        fetching matches Err(_) ==> cards@ == Seq::<NewsCardData>::empty(),
{
    match fetching {
        Ok(cards) => cards,
        Err(_) => Vec::new(),
    }
}

/// Streams a fetch outcome into the article channel, one card per send, in
/// response order. A failed fetch streams nothing; a failed send is skipped
/// and streaming continues. Returns how many cards the channel accepted:
/// never more than the fetch returned, and none after a failed fetch.
pub fn stream_news_cards(
    fetching: Result<Vec<NewsCardData>, FetchError>,
    news_tx: &Sender<NewsCardData>,
) -> (sent: usize)
    ensures
        fetching matches Ok(v) ==> sent <= v@.len(),
        fetching matches Err(_) ==> sent == 0,
{
    let mut cards = emitted_cards(fetching);
    let total = cards.len();
    let mut sent: usize = 0;
    while cards.len() > 0
        invariant
            sent + cards@.len() <= total,
        decreases cards@.len(),
    {
        let card = cards.remove(0);
        let ok = send_card(news_tx, card);
        if ok {
            sent = sent + 1;
        }
    }
    sent
}

} // verus!
