use vstd::prelude::*;

verus! {

/// Mathematical content of a one-shot channel: the message slot and the two
/// flags.
pub struct ChannelView<T> {
    /// The message, once sent and not yet received.
    pub message: Option<T>,
    /// Set by `send` when the message is in place; cleared by `receive`.
    pub ready: bool,
    /// Set by the first `send` and never cleared: the slot is spent.
    pub in_use: bool,
}

/// A single-message rendezvous channel, usable for one transfer.
///
/// A lock-free implementation keeps the message in uninitialized storage and
/// publishes it with a release store of `ready` that `receive`'s acquire swap
/// pairs with; `in_use` is swapped relaxed to make a second `send` panic
/// instead of racing the first. Here the slot is an explicit option and each
/// call is a single transition, so the flag protocol itself is what is checked.
pub struct Channel<T> {
    message: Option<T>,
    ready: bool,
    in_use: bool,
}

impl<T> View for Channel<T> {
    type V = ChannelView<T>;

    closed spec fn view(&self) -> ChannelView<T> {
        ChannelView { message: self.message, ready: self.ready, in_use: self.in_use }
    }
}

impl<T> Channel<T> {
    /// The channel is well formed: a raised `ready` flag really does announce a
    /// message put in place by a `send`.
    pub open spec fn wf(&self) -> bool {
        self@.ready ==> self@.message is Some && self@.in_use
    }

    /// A fresh, unused channel.
    pub fn new() -> (c: Self)
        ensures
            c.wf(),
            !c@.ready,
            !c@.in_use,
            c@.message is None,
    {
        Channel { message: None, ready: false, in_use: false }
    }

    /// Puts the one message in place and publishes it. The concurrent implementation panics when
    /// the channel was already used (its relaxed swap of `in_use` returns
    /// true); that input is excluded here.
    pub fn send(&mut self, message: T)
        requires
            old(self).wf(),
            !old(self)@.in_use,
        ensures
            final(self).wf(),
            final(self)@.message == Some(message),
            final(self)@.ready,
            final(self)@.in_use,
    {
        self.in_use = true;
        self.message = Some(message);
        self.ready = true;
    }

    /// Is a message ready to be received? (A relaxed load in the concurrent implementation; a
    /// caller polls this before `receive`.)
    pub fn is_ready(&self) -> (b: bool)
        ensures
            b == self@.ready,
    {
        self.ready
    }

    /// Takes the message out. The concurrent implementation panics when none is available (its
    /// acquire swap of `ready` returns false); that input is excluded here, so
    /// callers check `is_ready` first. The flag is lowered again, which is why
    /// the message can be moved out of the slot exactly once.
    pub fn receive(&mut self) -> (message: T)
        requires
            old(self).wf(),
            old(self)@.ready,
        ensures
            final(self).wf(),
            Some(message) == old(self)@.message,
            !final(self)@.ready,
            final(self)@.message is None,
            final(self)@.in_use == old(self)@.in_use,
    {
        self.ready = false;
        match self.message.take() {
            Some(message) => message,
            None => unreached(),
        }
    }
}

} // verus!
