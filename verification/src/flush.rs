use vstd::prelude::*;

verus! {

/// `crossbeam_channel::Sender`, the sending side of a channel. Nothing is
/// known of what is inside.
#[verifier::external_type_specification]
#[verifier::external_body]
#[verifier::reject_recursive_types(T)]
pub struct ExSender<T>(crossbeam_channel::Sender<T>);

/// `crossbeam_channel::RecvError`, which a receiver gets when its channel
/// is empty and every sender is gone.
#[verifier::external_type_specification]
#[verifier::external_body]
pub struct ExRecvError(crossbeam_channel::RecvError);

/// The engine went away while a barrier was waiting for its answer.
#[derive(Clone, Copy, Debug, PartialEq, Eq, Structural)]
pub struct FlushChannelClosed;

/// Signals a barrier's channel with `crossbeam_channel::Sender::try_send`,
/// which never blocks, and says whether the message was taken. Nothing is
/// claimed of the answer: the channel may be full or its receiver gone.
#[verifier::external_body]
pub(crate) fn signal(ack: &crossbeam_channel::Sender<()>) -> (delivered: bool) {
    ack.try_send(()).is_ok()
}

/// What a caller that waited on a barrier's channel has learned: the answer
/// came, or the channel was closed with the barrier unanswered.
pub fn flush_outcome(received: Result<(), crossbeam_channel::RecvError>) -> (r: Result<
    (),
    FlushChannelClosed,
>)
    ensures
        r is Ok <==> received is Ok,
{
    match received {
        Ok(()) => Ok(()),
        Err(_) => Err(FlushChannelClosed),
    }
}

} // verus!
