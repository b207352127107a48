//! Core state and decision logic of a headline-feed application.
//!
//! The library owns the application's data model: the article list, the
//! persisted settings, the key-entry step, and the decision state of the
//! background fetch worker. The surrounding binary supplies the window,
//! the rendering, the settings store, and the news client; everything it
//! hands the library is a plain value, and every rule about those values
//! is stated and proved here.

mod channel;
mod headlines;
mod worker;

pub use crate::headlines::Headlines;
pub use crate::headlines::HeadlinesConfig;
pub use crate::headlines::Message;
pub use crate::headlines::NewsCardData;
pub use crate::headlines::drained_all;
pub use crate::headlines::drained_once;
pub use crate::headlines::lemma_drain_grows_by_batch;
pub use crate::worker::FetchError;
pub use crate::worker::FetchWorker;
pub use crate::worker::WorkerCommand;
pub use crate::worker::emitted_cards;
pub use crate::worker::lemma_one_fetch_per_signal;
pub use crate::worker::lemma_startup_fetch_needs_no_signal;
pub use crate::worker::stream_news_cards;
