use crate::message::MidiMessage;
use vstd::prelude::*;

verus! {

/// The sending end of a crossbeam channel, carried through the library as an
/// opaque value.
#[verifier::external_type_specification]
#[verifier::external_body]
#[verifier::reject_recursive_types(T)]
pub struct ExSender<T>(crossbeam_channel::Sender<T>);

/// The receiving end of a crossbeam channel, carried through the library as
/// an opaque value.
#[verifier::external_type_specification]
#[verifier::external_body]
#[verifier::reject_recursive_types(T)]
pub struct ExReceiver<T>(crossbeam_channel::Receiver<T>);

/// crossbeam_channel's `Sender::clone`: another handle on the same channel.
pub assume_specification<T>[ <crossbeam_channel::Sender<T> as Clone>::clone ](
    s: &crossbeam_channel::Sender<T>,
) -> crossbeam_channel::Sender<T>;

/// crossbeam_channel's `Receiver::clone`: another handle on the same channel.
pub assume_specification<T>[ <crossbeam_channel::Receiver<T> as Clone>::clone ](
    r: &crossbeam_channel::Receiver<T>,
) -> crossbeam_channel::Receiver<T>;

/// Why a message could not be handed to a channel.
#[derive(Clone, Copy, Debug, PartialEq, Eq, Structural)]
pub enum ChannelError {
    /// Every receiving end of the channel is gone.
    Closed,
}

/// Relies on crossbeam_channel's `Sender::send`: it hands the message to the
/// channel, waiting while a bounded channel is full, and fails only when the
/// channel is disconnected. Whether it fails depends on other threads, so
/// nothing is stated of the result.
#[verifier::external_body]
pub(crate) fn post(tx: &crossbeam_channel::Sender<MidiMessage>, m: MidiMessage) -> (r: Result<
    (),
    ChannelError,
>) {
    tx.send(m).map_err(|_| ChannelError::Closed)
}

} // verus!
