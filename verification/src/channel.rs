//! Trusted declarations of the two mpsc channel endpoints the application
//! shares with its background fetch worker, and thin wrappers around the
//! three channel operations the library performs.
//!
//! A channel's content is changed concurrently by the other thread, so no
//! wrapper promises anything about what a receive returns or whether a send
//! succeeds: callers state what holds of every outcome.

use vstd::prelude::*;

use std::sync::mpsc::Receiver;
use std::sync::mpsc::Sender;
use std::sync::mpsc::SyncSender;

use crate::headlines::Message;
use crate::headlines::NewsCardData;

verus! {

#[verifier::external_type_specification]
#[verifier::external_body]
#[verifier::reject_recursive_types(T)]
pub struct ExReceiver<T>(Receiver<T>);

#[verifier::external_type_specification]
#[verifier::external_body]
#[verifier::reject_recursive_types(T)]
pub struct ExSender<T>(Sender<T>);

#[verifier::external_type_specification]
#[verifier::external_body]
#[verifier::reject_recursive_types(T)]
pub struct ExSyncSender<T>(SyncSender<T>);

/// Relies on std::sync::mpsc::Receiver::try_recv: hands back a pending
/// message if one is queued and never blocks. Which message is pending, if
/// any, depends on the sending thread, so nothing is promised of the result.
#[verifier::external_body]
pub(crate) fn try_recv_card(rx: &Receiver<NewsCardData>) -> (r: Option<NewsCardData>) {
    match rx.try_recv() {
        Ok(card) => Some(card),
        Err(_) => None,
    }
}

/// Relies on std::sync::mpsc::Sender::send: queues the message for the
/// receiving thread, failing exactly when the receiver has disconnected.
/// Whether the receiver is still attached depends on the other thread, so
/// nothing is promised of the result.
#[verifier::external_body]
pub(crate) fn send_card(tx: &Sender<NewsCardData>, card: NewsCardData) -> (ok: bool) {
    match tx.send(card) {
        Ok(()) => true,
        Err(_) => false,
    }
}

/// Relies on std::sync::mpsc::SyncSender::send: queues the key-set signal,
/// blocking while the channel's single buffer slot is full, and failing
/// exactly when the receiver has disconnected. Whether the receiver is still
/// attached depends on the other thread, so nothing is promised of the result.
#[verifier::external_body]
pub(crate) fn send_key_signal(tx: &SyncSender<Message>, msg: Message) -> (ok: bool) {
    match tx.send(msg) {
        Ok(()) => true,
        Err(_) => false,
    }
}

} // verus!
