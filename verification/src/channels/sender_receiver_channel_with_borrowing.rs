use vstd::prelude::*;

verus! {

/// Mathematical content of the channel: the message slot and the ready flag.
pub struct ChannelView<T> {
    /// The message, once sent and not yet received.
    pub message: Option<T>,
    /// Set by `send` when the message is in place; cleared by `receive`.
    pub ready: bool,
}

/// A caller-owned one-shot channel that is split into two endpoints for each
/// use, and can be reused by splitting again.
///
/// In the concurrent implementation the endpoints borrow the channel, so the borrow checker
/// ties each pair to one `split` and keeps the channel alive meanwhile; the
/// message is published with a release store of `ready` paired by `receive`'s
/// acquire swap. Here the channel is handed to each endpoint call explicitly,
/// and each call is a single transition on it.
pub struct Channel<T> {
    message: Option<T>,
    ready: bool,
}

impl<T> View for Channel<T> {
    type V = ChannelView<T>;

    closed spec fn view(&self) -> ChannelView<T> {
        ChannelView { message: self.message, ready: self.ready }
    }
}

/// The sending endpoint of one split. It is consumed by `send`, so a second
/// send is ruled out by ownership rather than by a run-time panic.
pub struct Sender<T> {
    marker: core::marker::PhantomData<T>,
}

/// The receiving endpoint of one split. It is consumed by `receive`.
pub struct Receiver<T> {
    marker: core::marker::PhantomData<T>,
}

impl<T> Channel<T> {
    /// The channel is well formed: a raised `ready` flag really does announce a
    /// message put in place by a `send`.
    pub open spec fn wf(&self) -> bool {
        self@.ready ==> self@.message is Some
    }

    /// A fresh, empty channel.
    pub fn new() -> (c: Self)
        ensures
            c.wf(),
            !c@.ready,
            c@.message is None,
    {
        Channel { message: None, ready: false }
    }

    /// Resets the channel and hands out a fresh pair of endpoints, discarding
    /// whatever an earlier use left behind. Taking the channel exclusively is
    /// what lets the concurrent implementation overwrite it without racing an old endpoint.
    pub fn split(&mut self) -> (r: (Sender<T>, Receiver<T>))
        ensures
            final(self).wf(),
            !final(self)@.ready,
            final(self)@.message is None,
    {
        *self = Self::new();
        (
            Sender { marker: core::marker::PhantomData },
            Receiver { marker: core::marker::PhantomData },
        )
    }
}

impl<T> Sender<T> {
    /// Puts the one message in place and publishes it. This never panics: the
    /// endpoint is consumed, so it can only happen once per split.
    pub fn send(self, channel: &mut Channel<T>, message: T)
        ensures
            final(channel).wf(),
            final(channel)@.message == Some(message),
            final(channel)@.ready,
    {
        channel.message = Some(message);
        channel.ready = true;
    }
}

impl<T> Receiver<T> {
    /// Is a message ready to be received? (A relaxed load in the concurrent implementation; a
    /// caller polls this before `receive`.)
    pub fn is_ready(&self, channel: &Channel<T>) -> (b: bool)
        ensures
            b == channel@.ready,
    {
        channel.ready
    }

    /// Takes the message out. The concurrent implementation panics when none is available (its
    /// acquire swap of `ready` returns false); that input is excluded here, so
    /// callers check `is_ready` first.
    pub fn receive(self, channel: &mut Channel<T>) -> (message: T)
        requires
            old(channel).wf(),
            old(channel)@.ready,
        ensures
            final(channel).wf(),
            Some(message) == old(channel)@.message,
            !final(channel)@.ready,
            final(channel)@.message is None,
    {
        channel.ready = false;
        match channel.message.take() {
            Some(message) => message,
            None => unreached(),
        }
    }
}

} // verus!
