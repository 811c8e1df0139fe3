//! The futures channels through which events, responses and notifications travel.
use crate::event::Response;
use futures::channel::{mpsc, oneshot};
use vstd::prelude::*;

verus! {

/// The sending half of futures' single-value channel.
#[verifier::external_type_specification]
#[verifier::external_body]
#[verifier::reject_recursive_types(T)]
pub struct ExOneshotSender<T>(futures::channel::oneshot::Sender<T>);

/// The sending half of futures' bounded multi-producer channel.
#[verifier::external_type_specification]
#[verifier::external_body]
#[verifier::reject_recursive_types(T)]
pub struct ExMpscSender<T>(futures::channel::mpsc::Sender<T>);

/// Relies on futures' `Clone` for `mpsc::Sender`: the copy sends into the same channel. Nothing
/// about the channel is visible here, so nothing more is stated.
pub assume_specification<T>[ <futures::channel::mpsc::Sender<T> as Clone>::clone ](
    s: &futures::channel::mpsc::Sender<T>,
) -> futures::channel::mpsc::Sender<T>;

/// The payloads that a notification handle has enqueued into its channel, oldest first.
pub uninterp spec fn pushed(sender: mpsc::Sender<Vec<u8>>) -> Seq<Seq<u8>>;

/// The response that a single-use handle left for its receiver, once it was sent.
pub uninterp spec fn delivered(sender: oneshot::Sender<Response>) -> Response;

/// Relies on futures' `oneshot::Sender::send`: it consumes the sender; `Ok` comes only once the
/// response stays in the slot for the receiver, and when the receiving end is already gone the
/// response itself comes back unsent.
#[verifier::external_body]
pub(crate) fn send_response(sender: oneshot::Sender<Response>, response: Response) -> (r: Result<
    (),
    Response,
>)
    ensures
        r is Ok ==> delivered(sender) == response,
        r matches Err(back) ==> back == response,
{
    sender.send(response)
}

/// Relies on futures' `mpsc::Sender::try_send`: on `Ok` the payload was queued into the channel;
/// a payload that was not taken (channel full or receiver gone) was not queued and comes back
/// through `TrySendError::into_inner`.
#[verifier::external_body]
pub(crate) fn try_push(sender: &mut mpsc::Sender<Vec<u8>>, payload: Vec<u8>) -> (r: Result<
    (),
    Vec<u8>,
>)
    ensures
        r is Ok ==> pushed(*final(sender)) == pushed(*old(sender)).push(payload@),
        r is Err ==> pushed(*final(sender)) == pushed(*old(sender)),
        r matches Err(back) ==> back == payload,
{
    match sender.try_send(payload) {
        Ok(()) => Ok(()),
        Err(e) => Err(e.into_inner()),
    }
}

} // verus!
