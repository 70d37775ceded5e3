//! The way out to the subscribers: a broadcast channel of pixels.

use crate::pixel::Pixel;
use tokio::sync::broadcast::Sender;
use vstd::prelude::*;

verus! {

/// `tokio::sync::broadcast::Sender`: the sending side of the hub. It is
/// carried as it is; nothing is read from it here.
#[verifier::external_type_specification]
#[verifier::external_body]
#[verifier::reject_recursive_types(T)]
pub struct ExSender<T>(Sender<T>);

/// Hands one pixel to `tokio::sync::broadcast::Sender::send`. The channel
/// keeps the pixel for the receivers that are subscribed at that moment and
/// never waits for them; with no receiver the pixel is dropped. Who
/// receives it is not known here, so nothing is claimed.
#[verifier::external_body]
pub(crate) fn publish(sender: &Sender<Pixel>, pixel: Pixel) {
    let _ = sender.send(pixel);
}

} // verus!
