//! Trusted declarations for the cross-thread channels of the worker
//! runtime. The channels move values between threads, so nothing can be
//! promised about what arrives or when: a send may find the other side
//! closed, and a receive blocks until a message or closure. The runtime's
//! contracts therefore state what holds of its own bookkeeping for every
//! possible outcome of these calls.

use vstd::prelude::*;

verus! {

/// The sending side of a channel.
#[verifier::external_type_specification]
#[verifier::external_body]
#[verifier::reject_recursive_types(T)]
pub struct ExKanalSender<T>(kanal::Sender<T>);

/// The receiving side of a channel.
#[verifier::external_type_specification]
#[verifier::external_body]
#[verifier::reject_recursive_types(T)]
pub struct ExKanalReceiver<T>(kanal::Receiver<T>);

/// The error a send returns when the channel is closed.
#[verifier::external_type_specification]
#[verifier::external_body]
pub struct ExKanalSendError(kanal::SendError);

/// The error a receive returns when the channel is closed.
#[verifier::external_type_specification]
#[verifier::external_body]
pub struct ExKanalReceiveError(kanal::ReceiveError);

/// Relies on kanal::unbounded: a fresh channel pair whose sends never
/// block.
pub assume_specification<T>[ kanal::unbounded::<T> ]() -> (r: (
    kanal::Sender<T>,
    kanal::Receiver<T>,
));

/// Relies on kanal::Sender::send: hands one value to the channel, or
/// returns an error when the receiving side is gone. On an unbounded
/// channel it does not block.
pub assume_specification<T>[ kanal::Sender::<T>::send ](s: &kanal::Sender<T>, data: T) -> (r:
    Result<(), kanal::SendError>);

/// Relies on kanal::Receiver::recv: blocks until one value arrives and
/// returns it, or returns an error when every sending side is gone.
pub assume_specification<T>[ kanal::Receiver::<T>::recv ](r: &kanal::Receiver<T>) -> (res: Result<
    T,
    kanal::ReceiveError,
>);

/// Relies on kanal::Sender::clone: another handle to the same channel.
pub assume_specification<T>[ <kanal::Sender<T> as Clone>::clone ](s: &kanal::Sender<T>) -> (r:
    kanal::Sender<T>);

} // verus!
