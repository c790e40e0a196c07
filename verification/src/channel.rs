//! The decision channel: the one ordered queue through which exit reports and
//! requests to terminate everything reach the coordinator.
use crate::command::CommandStopped;
use std::sync::Arc;
use tokio::sync::mpsc::{Receiver, Sender};
use vstd::prelude::*;

verus! {

/// The sending half of a bounded `tokio` channel. Its contents are not visible to
/// the verifier.
#[verifier::external_type_specification]
#[verifier::external_body]
#[verifier::reject_recursive_types(T)]
pub struct ExSender<T>(tokio::sync::mpsc::Sender<T>);

/// The receiving half of a bounded `tokio` channel. Its contents are not visible
/// to the verifier.
#[verifier::external_type_specification]
#[verifier::external_body]
#[verifier::reject_recursive_types(T)]
pub struct ExReceiver<T>(tokio::sync::mpsc::Receiver<T>);

/// What travels through the decision channel.
#[derive(Debug)]
pub enum Request<T> {
    /// A command has stopped; the record is its final one.
    CommandExited(Arc<CommandStopped<T>>),
    /// Everything is to be terminated.
    KillAll,
}

/// The number of slots of the decision channel for `command_count` commands: one,
/// or none where there is no command.
pub open spec fn capacity_for(command_count: int) -> int {
    if command_count < 1 {
        command_count
    } else {
        1
    }
}

/// The capacity of the decision channel for `command_count` commands.
pub fn decision_channel_capacity(command_count: usize) -> (capacity: usize)
    ensures
        capacity == capacity_for(command_count as int),
{
    if command_count < 1 {
        command_count
    } else {
        1
    }
}

/// The number of slots that the decision channel is opened with: its capacity,
/// and one where the capacity is none, since a channel cannot be opened with no
/// slot.
pub open spec fn slots_for(command_count: int) -> int {
    if capacity_for(command_count) < 1 {
        1
    } else {
        capacity_for(command_count)
    }
}

/// The number of slots to open the decision channel with for `command_count`
/// commands.
pub fn decision_channel_slots(command_count: usize) -> (slots: usize)
    ensures
        slots == slots_for(command_count as int),
{
    let capacity = decision_channel_capacity(command_count);
    if capacity < 1 {
        1
    } else {
        capacity
    }
}

/// `tokio::sync::mpsc::channel`, which panics on a capacity of zero and on one
/// above its limit of permits (`usize::MAX >> 3`); both are kept out. Nothing is
/// claimed of the two halves.
#[verifier::external_body]
pub(crate) fn open_channel<T>(capacity: usize) -> (halves: (Sender<T>, Receiver<T>))
    requires
        0 < capacity <= 0x1fff_ffff,
{
    tokio::sync::mpsc::channel(capacity)
}

/// `Sender::is_closed`. The answer depends on what the receiving side has done by
/// the time of the call, so nothing is claimed of it.
#[verifier::external_body]
pub(crate) fn sender_is_closed<T>(sender: &Sender<T>) -> (closed: bool) {
    sender.is_closed()
}

/// `Sender::clone`, which hands out another sender of the same channel: the copy
/// holds the channel that the sender holds, and `Sender::same_channel` is true of
/// the two. To the contracts a sender is the channel that it sends into, so the
/// copy is claimed to equal the sender.
#[verifier::external_body]
pub(crate) fn clone_sender<T>(sender: &Sender<T>) -> (copy: Sender<T>)
    ensures
        copy == *sender,
{
    sender.clone()
}

} // verus!
