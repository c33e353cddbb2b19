use vstd::prelude::*;

verus! {

/// Mathematical content of the channel: the message slot and the ready flag.
pub struct ChannelView<T> {
    /// The message, once sent and not yet received.
    pub message: Option<T>,
    /// Set by `send` when the message is in place; cleared by `receive`.
    pub ready: bool,
}

/// The shared state of a split one-shot channel.
///
/// The concurrent implementation hides this struct inside a reference-counted shared allocation
/// that the two endpoints both point at, and publishes the message with a
/// release store of `ready` paired by `receive`'s acquire swap. Here the shared
/// record is an explicit value handed to each endpoint call, and each call is a
/// single transition on it.
pub struct Channel<T> {
    message: Option<T>,
    ready: bool,
}

impl<T> View for Channel<T> {
    type V = ChannelView<T>;

    closed spec fn view(&self) -> ChannelView<T> {
        ChannelView { message: self.message, ready: self.ready }
    }
}

impl<T> Channel<T> {
    /// The channel is well formed: a raised `ready` flag really does announce a
    /// message put in place by a `send`.
    pub open spec fn wf(&self) -> bool {
        self@.ready ==> self@.message is Some
    }
}

/// The sending endpoint. It is consumed by `send`, so a second send is ruled
/// out by ownership rather than by a run-time panic.
pub struct Sender<T> {
    marker: core::marker::PhantomData<T>,
}

/// The receiving endpoint. It is consumed by `receive`.
pub struct Receiver<T> {
    marker: core::marker::PhantomData<T>,
}

/// A fresh one-shot channel, split into its two endpoints. The concurrent implementation
/// returns only the endpoints, each holding a strong handle to the hidden
/// shared record; here the record is explicit and comes back alongside them.
pub fn channel<T>() -> (r: (Sender<T>, Receiver<T>, Channel<T>))
    ensures
        r.2.wf(),
        !r.2@.ready,
        r.2@.message is None,
{
    (
        Sender { marker: core::marker::PhantomData },
        Receiver { marker: core::marker::PhantomData },
        Channel { message: None, ready: false },
    )
}

impl<T> Sender<T> {
    /// Puts the one message in place and publishes it. This never panics: the
    /// endpoint is consumed, so it can only happen once per channel.
    pub fn send(self, channel: &mut Channel<T>, message: T)
        ensures
            final(channel).wf(),
            final(channel)@.message == Some(message),
            final(channel)@.ready,
    {
        channel.message = Some(message);
        channel.ready = true;
    }
}

impl<T> Receiver<T> {
    /// Is a message ready to be received? (A relaxed load in the concurrent implementation; a
    /// caller polls this before `receive`.)
    pub fn is_ready(&self, channel: &Channel<T>) -> (b: bool)
        ensures
            b == channel@.ready,
    {
        channel.ready
    }

    /// Takes the message out. The concurrent implementation panics when none is available (its
    /// acquire swap of `ready` returns false); that input is excluded here, so
    /// callers check `is_ready` first.
    pub fn receive(self, channel: &mut Channel<T>) -> (message: T)
        requires
            old(channel).wf(),
            old(channel)@.ready,
        ensures
            final(channel).wf(),
            Some(message) == old(channel)@.message,
            !final(channel)@.ready,
            final(channel)@.message is None,
    {
        channel.ready = false;
        match channel.message.take() {
            Some(message) => message,
            None => unreached(),
        }
    }
}

} // verus!
