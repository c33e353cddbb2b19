use arclite::channels::one_shot_channel;
use arclite::channels::sender_receiver_channel_with_arc;
use arclite::channels::sender_receiver_channel_with_borrowing;
use arclite::channels::simple_channel;

#[test]
fn test_one_shot_channel_with_parking() {
    // A concurrent receiver parks until the flag shows the message;
    // here the send has happened by the time the flag is polled.
    let mut channel = one_shot_channel::Channel::new();
    assert!(!channel.is_ready());
    channel.send("hello world!");
    assert!(channel.is_ready());
    assert_eq!(channel.receive(), "hello world!");
    assert!(!channel.is_ready());
}

#[test]
fn test_sender_receiver() {
    let mut channel = sender_receiver_channel_with_borrowing::Channel::new();
    let (sender, receiver) = channel.split();
    assert!(!receiver.is_ready(&channel));
    sender.send(&mut channel, "hello world!");
    assert!(receiver.is_ready(&channel));
    assert_eq!(receiver.receive(&mut channel), "hello world!");
}

#[test]
fn split_resets_the_channel() {
    let mut channel = sender_receiver_channel_with_borrowing::Channel::new();
    let (sender, receiver) = channel.split();
    sender.send(&mut channel, 1u32);
    // the receiver of the first split is discarded unused; splitting again
    // throws the stale message away
    drop(receiver);
    let (sender, receiver) = channel.split();
    assert!(!receiver.is_ready(&channel));
    sender.send(&mut channel, 2u32);
    assert_eq!(receiver.receive(&mut channel), 2);
}

#[test]
fn arc_channel_test_sender_receiver() {
    let (sender, receiver, mut channel) = sender_receiver_channel_with_arc::channel();
    assert!(!receiver.is_ready(&channel));
    sender.send(&mut channel, "hello world!");
    assert!(receiver.is_ready(&channel));
    assert_eq!(receiver.receive(&mut channel), "hello world!");
}

#[test]
fn simple_channel_is_first_in_first_out() {
    let mut channel = simple_channel::Channel::new();
    channel.send(1u64);
    channel.send(2u64);
    channel.send(3u64);
    assert_eq!(channel.len(), 3);
    assert_eq!(channel.receive(), 1);
    channel.send(4u64);
    assert_eq!(channel.receive(), 2);
    assert_eq!(channel.receive(), 3);
    assert_eq!(channel.receive(), 4);
    assert_eq!(channel.len(), 0);
}
