use crossbeam_channel::{Receiver, Sender};
use webrtc_video::capture::{GStreamerPlugin, GstReceiver, VideoHandle};
use webrtc_video::channel::{frame_channel, put_frame};
use webrtc_video::clients::{
    accept_new_clients, broadcast_vp8_frames, open_registry, register_client, NewClientReceiver,
    WebRTCConnections,
};
use webrtc_video::texture::{Texture, VideoImages};

fn drain(receiver: &Receiver<Vec<u8>>) -> Vec<Vec<u8>> {
    receiver.try_iter().collect()
}

fn connect(
    registry: &mut Sender<Sender<Vec<u8>>>,
    new_clients: &mut NewClientReceiver,
    connections: &mut WebRTCConnections,
) -> Receiver<Vec<u8>> {
    let receiver = register_client(registry).unwrap();
    accept_new_clients(connections, new_clients);
    receiver
}

#[test]
fn no_clients_at_first() {
    assert_eq!(WebRTCConnections::default().senders.len(), 0);
}

#[test]
fn clients_are_accepted_in_order() {
    let (mut registry, mut new_clients) = open_registry();
    let mut connections = WebRTCConnections::default();
    let first = register_client(&mut registry).unwrap();
    let second = register_client(&mut registry).unwrap();
    accept_new_clients(&mut connections, &mut new_clients);
    assert_eq!(connections.senders.len(), 2);
    assert!(put_frame(&mut connections.senders[0], vec![1]));
    assert!(put_frame(&mut connections.senders[1], vec![2]));
    assert_eq!(drain(&first), [[1]]);
    assert_eq!(drain(&second), [[2]]);
    accept_new_clients(&mut connections, &mut new_clients);
    assert_eq!(connections.senders.len(), 2);
}

#[test]
fn registration_fails_when_nobody_accepts() {
    let (mut registry, new_clients) = open_registry();
    drop(new_clients);
    assert!(register_client(&mut registry).is_none());
}

#[test]
fn every_client_gets_every_frame() {
    let (mut registry, mut new_clients) = open_registry();
    let mut connections = WebRTCConnections::default();
    let first = connect(&mut registry, &mut new_clients, &mut connections);
    let second = connect(&mut registry, &mut new_clients, &mut connections);
    let (mut captured, receiver) = frame_channel();
    let mut gst = GstReceiver { receiver };
    assert!(put_frame(&mut captured, vec![1, 2]));
    assert!(put_frame(&mut captured, vec![]));
    assert!(put_frame(&mut captured, vec![3]));
    broadcast_vp8_frames(&mut gst, &mut connections);
    let expected: Vec<Vec<u8>> = vec![vec![1, 2], vec![], vec![3]];
    assert_eq!(drain(&first), expected);
    assert_eq!(drain(&second), expected);
    broadcast_vp8_frames(&mut gst, &mut connections);
    assert!(drain(&first).is_empty());
}

#[test]
fn a_client_that_is_gone_keeps_nothing_from_the_others() {
    let (mut registry, mut new_clients) = open_registry();
    let mut connections = WebRTCConnections::default();
    let gone = connect(&mut registry, &mut new_clients, &mut connections);
    let other = connect(&mut registry, &mut new_clients, &mut connections);
    drop(gone);
    connections.broadcast(vec![vec![4], vec![5]]);
    assert_eq!(drain(&other), [[4], [5]]);
    assert_eq!(connections.senders.len(), 2);
}

#[test]
fn newcomers_get_later_frames() {
    let (mut registry, mut new_clients) = open_registry();
    let mut connections = WebRTCConnections::default();
    let early = connect(&mut registry, &mut new_clients, &mut connections);
    connections.broadcast(vec![vec![1]]);
    let late = connect(&mut registry, &mut new_clients, &mut connections);
    connections.broadcast(vec![vec![2], vec![3]]);
    assert_eq!(drain(&early), [[1], [2], [3]]);
    assert_eq!(drain(&late), [[2], [3]]);
}

#[test]
fn frames_are_refused_without_a_receiver() {
    let (mut sender, receiver) = frame_channel();
    assert!(put_frame(&mut sender, vec![1]));
    drop(receiver);
    assert!(!put_frame(&mut sender, vec![2]));
}

#[test]
fn waiting_clients_are_accepted_at_once() {
    let (mut registry, mut new_clients) = open_registry();
    let mut connections = WebRTCConnections::default();
    let early = connect(&mut registry, &mut new_clients, &mut connections);
    let waiting: Vec<Receiver<Vec<u8>>> =
        (0..3).map(|_| register_client(&mut registry).unwrap()).collect();
    accept_new_clients(&mut connections, &mut new_clients);
    assert_eq!(connections.senders.len(), 4);
    for (i, receiver) in waiting.iter().enumerate() {
        assert!(put_frame(&mut connections.senders[i + 1], vec![i as u8]));
        assert_eq!(drain(receiver), [[i as u8]]);
    }
    connections.broadcast(vec![vec![8], vec![9]]);
    for receiver in waiting.iter().chain([&early]) {
        assert_eq!(drain(receiver), [[8], [9]]);
    }
}

#[test]
fn channels_have_no_limit() {
    let (mut registry, mut new_clients) = open_registry();
    let mut connections = WebRTCConnections::default();
    assert_eq!(registry.capacity(), None);
    assert_eq!(new_clients.receiver.capacity(), None);
    let receiver = connect(&mut registry, &mut new_clients, &mut connections);
    assert_eq!(connections.senders[0].capacity(), None);
    assert_eq!(receiver.capacity(), None);
    assert_eq!(frame_channel().0.capacity(), None);
    for i in 0..1000 {
        assert!(put_frame(&mut connections.senders[0], vec![(i % 256) as u8]));
    }
    assert_eq!(drain(&receiver).len(), 1000);
}

#[test]
fn a_frame_is_shown_or_broadcast() {
    let (mut registry, mut new_clients) = open_registry();
    let mut connections = WebRTCConnections::default();
    let client = connect(&mut registry, &mut new_clients, &mut connections);
    let (mut captured, receiver) = frame_channel();
    let mut gst = GstReceiver { receiver };
    let mut images = VideoImages { slots: vec![Some(Texture::filled(1, 1, [0; 4]))] };
    let query = vec![VideoHandle { handle: 0 }];
    for byte in 1..4 {
        assert!(put_frame(&mut captured, vec![byte; 4]));
    }
    assert!(GStreamerPlugin::video_update(&mut images, &mut gst, &query).is_empty());
    assert_eq!(images.slots[0].as_ref().unwrap().data, [1; 4]);
    broadcast_vp8_frames(&mut gst, &mut connections);
    assert_eq!(drain(&client), [[2; 4], [3; 4]]);
    assert!(GStreamerPlugin::video_update(&mut images, &mut gst, &query).is_empty());
    assert_eq!(images.slots[0].as_ref().unwrap().data, [1; 4]);
}
