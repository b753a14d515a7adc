use std::time::Duration;

use rust_plays::broadcast_channel::{bounded, RecvTimeoutError};

#[test]
fn step_single_receiver() {
    let (sender, receiver) = bounded();
    sender.send("test1").unwrap();
    sender.send("test2").unwrap();
    assert_eq!(receiver.recv_timeout(Duration::from_secs(0)), Ok("test1"));
}

#[test]
fn step_multiple_receivers() {
    let (sender, receiver1) = bounded();
    let receiver2 = receiver1.clone();
    sender.send("test1").unwrap();
    sender.send("test2").unwrap();
    assert_eq!(receiver1.recv_timeout(Duration::from_secs(0)), Ok("test1"));
    assert_eq!(receiver2.recv_timeout(Duration::from_secs(0)), Ok("test1"));
}

#[test]
fn slot_refills_once_read() {
    let (sender, receiver) = bounded();
    sender.send(1).unwrap();
    sender.send(2).unwrap();
    assert_eq!(receiver.recv_timeout(Duration::from_secs(0)), Ok(1));
    sender.send(3).unwrap();
    assert_eq!(receiver.recv_timeout(Duration::from_secs(0)), Ok(3));
}

#[test]
fn empty_receiver_times_out() {
    let (sender, receiver) = bounded::<u32>();
    assert_eq!(
        receiver.recv_timeout(Duration::from_millis(1)),
        Err(RecvTimeoutError::Timeout)
    );
    // The producer side is still alive and usable afterwards.
    sender.send(7).unwrap();
    assert_eq!(receiver.recv_timeout(Duration::from_secs(0)), Ok(7));
}

#[test]
fn sender_clone_reaches_same_subscribers() {
    let (sender, receiver) = bounded();
    let other_handle = sender.clone();
    other_handle.send("via-clone").unwrap();
    assert_eq!(receiver.recv_timeout(Duration::from_secs(0)), Ok("via-clone"));
}

#[test]
fn dropped_receiver_leaves_topology() {
    let (sender, receiver1) = bounded();
    let receiver2 = receiver1.clone();
    assert_eq!(sender.subscriber_count(), 2);
    drop(receiver1);
    // A send after the drop must not error, and the next send garbage
    // collects the dead subscriber from the topology.
    sender.send("x").unwrap();
    assert_eq!(sender.subscriber_count(), 1);
    assert_eq!(receiver2.recv_timeout(Duration::from_secs(0)), Ok("x"));
    sender.send("y").unwrap();
    assert_eq!(receiver2.recv_timeout(Duration::from_secs(0)), Ok("y"));
}

#[test]
fn late_subscriber_sees_no_history() {
    let (sender, receiver1) = bounded();
    sender.send("early").unwrap();
    let receiver2 = receiver1.clone();
    assert_eq!(
        receiver2.recv_timeout(Duration::from_millis(1)),
        Err(RecvTimeoutError::Timeout)
    );
    assert_eq!(receiver1.recv_timeout(Duration::from_secs(0)), Ok("early"));
}
