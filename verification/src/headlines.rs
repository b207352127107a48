//! The application state: settings, the accumulated article list, and the
//! per-frame and key-entry steps that mutate them.

use vstd::prelude::*;

use std::sync::mpsc::Receiver;
use std::sync::mpsc::SyncSender;

use crate::channel::send_key_signal;
use crate::channel::try_recv_card;

verus! {

/// A message from the UI thread to the background fetch worker.
pub enum Message {
    /// The user has entered and persisted an API key; the worker should
    /// fetch with it.
    ApiKeySet(String),
}

/// Display data for a single headline: title, link target, and summary text.
/// Immutable once constructed.
pub struct NewsCardData {
    pub title: String,
    pub url: String,
    pub description: String,
}

/// Persisted application settings: the colour-theme flag and the news API key.
pub struct HeadlinesConfig {
    pub dark_mode: bool,
    pub api_key: String,
}

impl HeadlinesConfig {
    /// Fresh settings: dark theme on, no API key configured yet.
    pub fn new() -> (c: Self)
        ensures
            c.dark_mode,
            c.api_key@ == Seq::<char>::empty(),
    {
        Self { dark_mode: true, api_key: String::new() }
    }

    /// Flips the theme flag and touches nothing else.
    pub fn toggle_dark_mode(&mut self)
        ensures
            final(self).dark_mode == !old(self).dark_mode,
            final(self).api_key == old(self).api_key,
    {
        self.dark_mode = !self.dark_mode;
    }
}

impl Default for HeadlinesConfig {
    fn default() -> (c: Self)
        ensures
            c.dark_mode,
            c.api_key@ == Seq::<char>::empty(),
    {
        Self::new()
    }
}

/// One frame-drain's effect on the article list, given what the poll of the
/// article channel returned.
pub open spec fn drained_once(
    articles: Seq<NewsCardData>,
    received: Option<NewsCardData>,
) -> Seq<NewsCardData> {
    match received {
        Some(card) => articles.push(card),
        None => articles,
    }
}

/// The article list after a fetched batch has been drained one record per
/// frame, each frame receiving the next record of the batch.
pub open spec fn drained_all(
    articles: Seq<NewsCardData>,
    fetched: Seq<NewsCardData>,
) -> Seq<NewsCardData>
    decreases fetched.len(),
{
    if fetched.len() == 0 {
        articles
    } else {
        drained_all(drained_once(articles, Some(fetched.first())), fetched.drop_first())
    }
}

/// Law: when a fetch hands over a batch of records and each frame drains the
/// next one, the article list grows by exactly the batch, in response order —
/// nothing is reordered, deduplicated, or dropped.
pub proof fn lemma_drain_grows_by_batch(articles: Seq<NewsCardData>, fetched: Seq<NewsCardData>)
    ensures
        drained_all(articles, fetched) == articles + fetched,
        drained_all(articles, fetched).len() == articles.len() + fetched.len(),
    decreases fetched.len(),
{
    if fetched.len() == 0 {
        assert(articles + fetched =~= articles);
    } else {
        lemma_drain_grows_by_batch(articles.push(fetched.first()), fetched.drop_first());
        assert(articles.push(fetched.first()) + fetched.drop_first() =~= articles + fetched);
    }
}

/// The application state: the append-only article list, the settings, the
/// key-entry step, and the two channel endpoints shared with the background
/// fetch worker.
pub struct Headlines {
    pub articles: Vec<NewsCardData>,
    pub config: HeadlinesConfig,
    pub api_key_initialized: bool,
    pub news_rx: Option<Receiver<NewsCardData>>,
    pub app_tx: Option<SyncSender<Message>>,
}

impl Headlines {
    /// Builds the startup state from loaded settings: no articles yet, the
    /// key counts as initialized exactly when it is non-empty, and no
    /// channels attached until the worker is spawned.
    pub fn new(config: HeadlinesConfig) -> (h: Self)
        ensures
            h.articles@ == Seq::<NewsCardData>::empty(),
            h.config == config,
            h.api_key_initialized == (config.api_key@.len() > 0),
            h.news_rx is None,
            h.app_tx is None,
    {
        let initialized = !config.api_key.as_str().is_empty();
        Headlines {
            articles: Vec::new(),
            api_key_initialized: initialized,
            config,
            news_rx: None,
            app_tx: None,
        }
    }

    /// Whether an API key has been entered or was already configured.
    pub fn is_api_key_initialized(&self) -> (b: bool)
        ensures
            b == self.api_key_initialized,
    {
        self.api_key_initialized
    }

    /// Sets the key-initialized flag and touches nothing else.
    pub fn set_api_key_initialized(&mut self, value: bool)
        ensures
            final(self).api_key_initialized == value,
            final(self).articles == old(self).articles,
            final(self).config == old(self).config,
            final(self).news_rx == old(self).news_rx,
            final(self).app_tx == old(self).app_tx,
    {
        self.api_key_initialized = value;
    }

    /// Hands the state the two channel endpoints created when the fetch
    /// worker is spawned; everything else is left untouched.
    pub fn attach_channels(
        &mut self,
        news_rx: Receiver<NewsCardData>,
        app_tx: SyncSender<Message>,
    )
        ensures
            final(self).news_rx == Some(news_rx),
            final(self).app_tx == Some(app_tx),
            final(self).articles == old(self).articles,
            final(self).config == old(self).config,
            final(self).api_key_initialized == old(self).api_key_initialized,
    {
        self.news_rx = Some(news_rx);
        self.app_tx = Some(app_tx);
    }

    /// What one frame-drain does with the outcome of the non-blocking
    /// receive: a received record is appended at the end, exactly once and
    /// unchanged; an empty poll leaves the state exactly as it was.
    pub fn apply_received(&mut self, received: Option<NewsCardData>)
        ensures
            final(self).articles@ == drained_once(old(self).articles@, received),
            received is None ==> *final(self) == *old(self),
            final(self).config == old(self).config,
            final(self).api_key_initialized == old(self).api_key_initialized,
            final(self).news_rx == old(self).news_rx,
            final(self).app_tx == old(self).app_tx,
    {
        match received {
            Some(news_card) => {
                self.articles.push(news_card);
            },
            None => {},
        }
    }

    /// Frame-drain: moves at most one pending article from the channel into
    /// the list without blocking. Earlier entries are never removed or
    /// reordered, the settings, the key-initialized flag, and the channels
    /// are untouched, and with no channel attached nothing happens at all.
    pub fn preload_news(&mut self)
        ensures
            final(self).articles@.len() <= old(self).articles@.len() + 1,
            old(self).articles@.is_prefix_of(final(self).articles@),
            old(self).news_rx is None ==> *final(self) == *old(self),
            final(self).config == old(self).config,
            final(self).api_key_initialized == old(self).api_key_initialized,
            final(self).news_rx == old(self).news_rx,
            final(self).app_tx == old(self).app_tx,
    {
        let received = match &self.news_rx {
            Some(rx) => try_recv_card(rx),
            None => None,
        };
        self.apply_received(received);
        proof {
            assert(old(self).articles@.is_prefix_of(self.articles@)) by {
                assert(old(self).articles@ =~= self.articles@.subrange(
                    0,
                    old(self).articles@.len() as int,
                ));
            }
        }
    }

    /// The theme toggle as triggered from the top panel: flips the flag and
    /// leaves the article list, the key state, and both channels untouched.
    pub fn toggle_theme(&mut self)
        ensures
            final(self).config.dark_mode == !old(self).config.dark_mode,
            final(self).config.api_key == old(self).config.api_key,
            final(self).articles == old(self).articles,
            final(self).api_key_initialized == old(self).api_key_initialized,
            final(self).news_rx == old(self).news_rx,
            final(self).app_tx == old(self).app_tx,
    {
        self.config.toggle_dark_mode();
    }

    /// The key-set signal announcing the currently configured key.
    pub fn key_signal(&self) -> (m: Message)
        ensures
            m == Message::ApiKeySet(self.config.api_key),
    {
        Message::ApiKeySet(self.config.api_key.clone())
    }

    /// The key-entry transition: `persist_ok` reports whether the settings
    /// store accepted the new key. On success the key counts as initialized
    /// and a key-set signal carrying exactly the configured key is handed to
    /// the worker channel; on failure nothing changes, no signal is sent, and
    /// the user may retry. The article list and the settings are untouched
    /// either way. Returns the signal that was handed to the channel, `None`
    /// when none was; whether the channel accepted it depends on the worker
    /// thread and is not promised.
    pub fn process_key_submission(&mut self, persist_ok: bool) -> (signal: Option<Message>)
        ensures
            final(self).api_key_initialized == (old(self).api_key_initialized || persist_ok),
            final(self).articles == old(self).articles,
            final(self).config == old(self).config,
            final(self).news_rx == old(self).news_rx,
            final(self).app_tx == old(self).app_tx,
            persist_ok && old(self).app_tx is Some ==> signal == Some(
                Message::ApiKeySet(old(self).config.api_key),
            ),
            persist_ok && old(self).app_tx is None ==> signal is None,
            !persist_ok ==> signal is None,
    {
        if persist_ok {
            self.set_api_key_initialized(true);
            match &self.app_tx {
                Some(tx) => {
                    let _accepted = send_key_signal(tx, self.key_signal());
                    Some(self.key_signal())
                },
                None => None,
            }
        } else {
            None
        }
    }
}

} // verus!
