//! Trusted declarations of the tokio channel halves that the owner task
//! writes to: the one-shot reply channel and the watch (broadcast) channel.

use vstd::prelude::*;

verus! {

/// Declares tokio::sync::oneshot::Sender, the sending half of the one-time
/// reply channel each command carries; opaque here, written through `send`.
#[verifier::external_type_specification]
#[verifier::external_body]
#[verifier::reject_recursive_types(T)]
pub struct ExOneshotSender<T>(tokio::sync::oneshot::Sender<T>);

/// Declares tokio::sync::watch::Sender, the publishing half of the
/// last-value-wins channel; opaque here, written through `publish`.
#[verifier::external_type_specification]
#[verifier::external_body]
#[verifier::reject_recursive_types(T)]
pub struct ExWatchSender<T>(tokio::sync::watch::Sender<T>);

/// Relies on tokio::sync::oneshot::Sender::send: it consumes the sender and
/// hands the value to the receiver if that receiver still exists, returning
/// the value back in `Err` when it does not. Delivery happens at most once
/// and is never retried.
pub assume_specification<T>[ tokio::sync::oneshot::Sender::<T>::send ](
    tx: tokio::sync::oneshot::Sender<T>,
    t: T,
) -> (r: Result<(), T>)
    ensures
        r matches Err(e) ==> e == t,
;

/// Relies on tokio::sync::watch::Sender::send: it replaces the channel's
/// latest value with `v` and notifies every receiver, unless no receiver
/// exists at the moment of the call, in which case the value is dropped.
/// Either way the failure is discarded here: publishing with nobody watching
/// is a designed no-op.
#[verifier::external_body]
pub(crate) fn publish<T>(tx: &tokio::sync::watch::Sender<T>, v: T) {
    let _ = tx.send(v);
}

} // verus!
