pub mod one_shot_channel;
pub mod sender_receiver_channel_with_arc;
pub mod sender_receiver_channel_with_borrowing;
pub mod simple_channel;
