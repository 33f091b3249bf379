//! How a node takes in what has piled up on a channel since its last tick.
//!
//! A node polls its receiver without waiting until the channel is empty.
//! It either keeps every message, in the order of arrival, or only the
//! latest one. A channel that was disconnected ends the node. The receiver
//! itself is the caller's: these functions decide what each poll means.

use vstd::prelude::*;

verus! {

/// What a receiver answers to one poll.
#[derive(Debug)]
pub enum Polled<T> {
    /// The next message.
    Message(T),
    /// Nothing is waiting.
    Empty,
    /// Nobody is left on the other side.
    Disconnected,
}

/// What a node does after a poll.
#[derive(Clone, Copy, Debug, PartialEq, Eq, Structural)]
pub enum Next {
    /// Poll again: more may be waiting.
    PollAgain,
    /// The channel is drained.
    Drained,
    /// The channel is disconnected: the node ends.
    Failed,
}

impl<T> Polled<T> {
    /// What a node does after this answer.
    pub open spec fn next(self) -> Next {
        match self {
            Polled::Message(_) => Next::PollAgain,
            Polled::Empty => Next::Drained,
            Polled::Disconnected => Next::Failed,
        }
    }
}

/// The messages kept after one more answer, where every message is kept.
pub open spec fn dumped<T>(data: Seq<T>, polled: Polled<T>) -> Seq<T> {
    match polled {
        Polled::Message(msg) => data.push(msg),
        _ => data,
    }
}

/// The message kept after one more answer, where only the latest is kept.
pub open spec fn latest<T>(data: Option<T>, polled: Polled<T>) -> Option<T> {
    match polled {
        Polled::Message(msg) => Some(msg),
        _ => data,
    }
}

/// The messages kept after the answers `polls`, where every message is kept.
pub open spec fn dumped_all<T>(data: Seq<T>, polls: Seq<Polled<T>>) -> Seq<T>
    decreases polls.len(),
{
    if polls.len() == 0 {
        data
    } else {
        dumped_all(dumped(data, polls[0]), polls.drop_first())
    }
}

/// The message kept after the answers `polls`, where only the latest is kept.
pub open spec fn latest_of_all<T>(data: Option<T>, polls: Seq<Polled<T>>) -> Option<T>
    decreases polls.len(),
{
    if polls.len() == 0 {
        data
    } else {
        latest_of_all(latest(data, polls[0]), polls.drop_first())
    }
}

/// The answers that deliver `messages` one by one.
pub open spec fn deliveries<T>(messages: Seq<T>) -> Seq<Polled<T>> {
    Seq::new(messages.len(), |i: int| Polled::Message(messages[i]))
}

/// Takes in one answer while every message is kept.
pub fn dump_step<T>(data: &mut Vec<T>, polled: Polled<T>) -> (next: Next)
    ensures
        final(data)@ == dumped(old(data)@, polled),
        next == polled.next(),
{
    match polled {
        Polled::Message(msg) => {
            data.push(msg);
            Next::PollAgain
        },
        Polled::Empty => Next::Drained,
        Polled::Disconnected => Next::Failed,
    }
}

/// Takes in one answer while only the latest message is kept.
pub fn take_last_step<T>(data: &mut Option<T>, polled: Polled<T>) -> (next: Next)
    ensures
        *final(data) == latest(*old(data), polled),
        next == polled.next(),
{
    match polled {
        Polled::Message(msg) => {
            *data = Some(msg);
            Next::PollAgain
        },
        Polled::Empty => Next::Drained,
        Polled::Disconnected => Next::Failed,
    }
}

/// A node that keeps every message has, once `messages` were delivered,
/// what it had before followed by `messages` in their order.
pub proof fn lemma_dump_keeps_all<T>(data: Seq<T>, messages: Seq<T>)
    ensures
        dumped_all(data, deliveries(messages)) == data + messages,
    decreases messages.len(),
{
    let polls = deliveries(messages);
    if messages.len() == 0 {
        assert(data + messages =~= data);
    } else {
        let rest = messages.drop_first();
        assert(polls.drop_first() =~= deliveries(rest));
        lemma_dump_keeps_all(data.push(messages[0]), rest);
        assert(data.push(messages[0]) + rest =~= data + messages);
    }
}

/// A node that keeps only the latest message has, once `messages` were
/// delivered, the last of them; and what it had before if none came.
pub proof fn lemma_take_last_keeps_latest<T>(data: Option<T>, messages: Seq<T>)
    ensures
        latest_of_all(data, deliveries(messages)) == if messages.len() == 0 {
            data
        } else {
            Some(messages.last())
        },
    decreases messages.len(),
{
    let polls = deliveries(messages);
    if messages.len() > 0 {
        let rest = messages.drop_first();
        assert(polls.drop_first() =~= deliveries(rest));
        lemma_take_last_keeps_latest(Some(messages[0]), rest);
        if rest.len() > 0 {
            assert(rest.last() == messages.last());
        }
    }
}

} // verus!
