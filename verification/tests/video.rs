use webrtc_video::capture::{
    bus_step, forward_sample, BusMessage, BusStep, GStreamerPlugin, GstReceiver, Pulled,
    VideoHandle,
};
use webrtc_video::channel::{frame_channel, put_frame};
use webrtc_video::config;
use webrtc_video::texture::{
    SizeMismatch, Texture, VideoImages, VIDEO_HEIGHT, VIDEO_WIDTH,
};
use webrtc_video::viewer::{
    links_pad, open_frame_channel, pump_sample, setup_video_ui, show_frames,
    update_texture_from_frame, FrameFault, PumpStep, VideoImageHandle,
};

fn texture(width: u32, height: u32, data: &[u8]) -> Texture {
    Texture { width, height, data: data.to_vec() }
}

fn handles(handles: &[usize]) -> Vec<VideoHandle> {
    handles.iter().map(|handle| VideoHandle { handle: *handle }).collect()
}

fn data(images: &VideoImages, slot: usize) -> &[u8] {
    &images.slots[slot].as_ref().unwrap().data
}

#[test]
fn filled_texture_repeats_its_pixel() {
    let filled = Texture::filled(2, 1, [1, 2, 3, 4]);
    assert_eq!((filled.width, filled.height), (2, 1));
    assert_eq!(filled.data, [1, 2, 3, 4, 1, 2, 3, 4]);
    assert!(Texture::filled(0, 9, [1, 2, 3, 4]).data.is_empty());
}

#[test]
fn video_texture_is_opaque_black() {
    let ui = setup_video_ui();
    assert_eq!((ui.width, ui.height), (640, 480));
    assert_eq!(ui.data.len(), 1228800);
    assert!(ui.data.chunks(4).all(|pixel| pixel == [0, 0, 0, 255]));
}

#[test]
fn sprite_is_set_up_once() {
    let mut done = false;
    let first = GStreamerPlugin::setup_video_sprite_once(&mut done).unwrap();
    assert_eq!(first.data.len(), 1228800);
    assert!(done);
    assert!(GStreamerPlugin::setup_video_sprite_once(&mut done).is_none());
    assert!(done);
}

#[test]
fn captured_frame_shows_where_it_fits() {
    let mut images = VideoImages {
        slots: vec![
            Some(texture(1, 1, &[0; 4])),
            None,
            Some(texture(2, 1, &[0; 8])),
            Some(texture(1, 1, &[7; 4])),
        ],
    };
    let query = handles(&[0, 2, 1, 9, 0, 2]);
    let complaints = GStreamerPlugin::show_frame(&mut images, Some(vec![1, 2, 3, 4]), &query);
    assert_eq!(data(&images, 0), [1, 2, 3, 4]);
    assert!(images.slots[1].is_none());
    assert_eq!(data(&images, 2), [0; 8]);
    assert_eq!(data(&images, 3), [7; 4]);
    let expected = SizeMismatch { expected: 8, got: 4 };
    assert_eq!(complaints, [expected, expected]);
    let again = GStreamerPlugin::show_frame(&mut images, Some(vec![1, 2, 3, 4]), &query);
    assert_eq!(again, complaints);
    assert_eq!(data(&images, 0), [1, 2, 3, 4]);
    assert!(GStreamerPlugin::show_frame(&mut images, None, &query).is_empty());
    assert_eq!(data(&images, 0), [1, 2, 3, 4]);
}

#[test]
fn one_captured_frame_shows_per_update() {
    let (mut sender, receiver) = frame_channel();
    let mut gst = GstReceiver { receiver };
    let mut images = VideoImages { slots: vec![Some(texture(1, 1, &[0; 4]))] };
    let query = handles(&[0]);
    put_frame(&mut sender, vec![1; 4]);
    put_frame(&mut sender, vec![2; 4]);
    assert!(GStreamerPlugin::video_update(&mut images, &mut gst, &query).is_empty());
    assert_eq!(data(&images, 0), [1; 4]);
    assert!(GStreamerPlugin::video_update(&mut images, &mut gst, &query).is_empty());
    assert_eq!(data(&images, 0), [2; 4]);
    assert!(GStreamerPlugin::video_update(&mut images, &mut gst, &query).is_empty());
    assert_eq!(data(&images, 0), [2; 4]);
}

#[test]
fn captured_video_fits_its_sprite() {
    let mut done = false;
    let sprite = GStreamerPlugin::setup_video_sprite_once(&mut done);
    let mut images = VideoImages { slots: vec![sprite] };
    let frame = vec![9; 640 * 480 * 4];
    assert!(GStreamerPlugin::show_frame(&mut images, Some(frame), &handles(&[0])).is_empty());
    assert!(data(&images, 0).iter().all(|byte| *byte == 9));
}

#[test]
fn samples_are_forwarded() {
    let (mut sender, receiver) = frame_channel();
    forward_sample(&mut sender, Pulled::Frame(vec![1]));
    forward_sample(&mut sender, Pulled::Unreadable);
    forward_sample(&mut sender, Pulled::Failed);
    let frames: Vec<Vec<u8>> = receiver.try_iter().collect();
    assert_eq!(frames, [[1]]);
    drop(receiver);
    forward_sample(&mut sender, Pulled::Frame(vec![2]));
}

#[test]
fn bus_messages() {
    assert_eq!(bus_step(BusMessage::EndOfStream), BusStep::Stop);
    assert_eq!(bus_step(BusMessage::Error), BusStep::ReportAndStop);
    assert_eq!(bus_step(BusMessage::Other), BusStep::Continue);
}

#[test]
fn viewer_shows_the_last_frame_of_the_right_size() {
    let mut images = VideoImages { slots: vec![Some(texture(2, 1, &[0; 6]))] };
    let frames = vec![vec![1; 6], vec![2; 5], vec![3; 6], vec![4; 8]];
    let outcome = show_frames(&VideoImageHandle(0), &mut images, frames);
    assert_eq!(data(&images, 0), [3; 6]);
    assert_eq!(outcome.fault, None);
    assert_eq!(
        outcome.mismatches,
        [SizeMismatch { expected: 6, got: 5 }, SizeMismatch { expected: 6, got: 8 }]
    );
}

#[test]
fn viewer_stops_at_a_conflict() {
    let mut images = VideoImages { slots: vec![Some(texture(2, 1, &[0; 8]))] };
    let frames = vec![vec![2; 5], vec![3; 6], vec![4; 5]];
    let outcome = show_frames(&VideoImageHandle(0), &mut images, frames);
    assert_eq!(data(&images, 0), [0; 8]);
    assert_eq!(outcome.mismatches, [SizeMismatch { expected: 6, got: 5 }]);
    assert_eq!(
        outcome.fault,
        Some(FrameFault::LengthConflict(SizeMismatch { expected: 8, got: 6 }))
    );
}

#[test]
fn viewer_stops_at_an_overflow() {
    let mut images = VideoImages { slots: vec![Some(texture(65536, 65536, &[]))] };
    let outcome = show_frames(&VideoImageHandle(0), &mut images, vec![vec![1]]);
    assert_eq!(outcome.fault, Some(FrameFault::SizeOverflow));
    let outcome = show_frames(&VideoImageHandle(0), &mut images, vec![]);
    assert_eq!(outcome.fault, None);
}

#[test]
fn viewer_without_a_texture_drops_frames() {
    let mut images = VideoImages { slots: vec![None] };
    for handle in [0, 1] {
        let outcome = show_frames(&VideoImageHandle(handle), &mut images, vec![vec![1]]);
        assert!(outcome.mismatches.is_empty());
        assert_eq!(outcome.fault, None);
    }
    assert!(images.slots[0].is_none());
}

#[test]
fn video_texture_shows_no_frame() {
    let mut images = VideoImages { slots: vec![Some(setup_video_ui())] };
    let outcome = show_frames(&VideoImageHandle(0), &mut images, vec![vec![9; 640 * 480 * 4]]);
    assert_eq!(outcome.mismatches, [SizeMismatch { expected: 921600, got: 1228800 }]);
    assert_eq!(outcome.fault, None);
    let outcome = show_frames(&VideoImageHandle(0), &mut images, vec![vec![9; 640 * 480 * 3]]);
    assert_eq!(
        outcome.fault,
        Some(FrameFault::LengthConflict(SizeMismatch { expected: 1228800, got: 921600 }))
    );
    assert_eq!(data(&images, 0), setup_video_ui().data);
}

#[test]
fn single_frames_apply() {
    let mut shown = texture(1, 1, &[0; 3]);
    assert_eq!(shown.frame_fault(&vec![1; 3]), None);
    assert_eq!(shown.apply_frame(vec![1; 3]), None);
    assert_eq!(shown.data, [1; 3]);
    assert_eq!(shown.apply_frame(vec![2; 4]), Some(SizeMismatch { expected: 3, got: 4 }));
    assert_eq!(shown.data, [1; 3]);
}

#[test]
fn decoded_frames_reach_the_texture() {
    let (mut sender, mut receiver) = open_frame_channel();
    let mut images = VideoImages { slots: vec![Some(texture(1, 1, &[0; 3]))] };
    assert_eq!(pump_sample(&mut sender, Pulled::Frame(vec![1; 3])), PumpStep::Continue);
    assert_eq!(pump_sample(&mut sender, Pulled::Unreadable), PumpStep::Continue);
    assert_eq!(pump_sample(&mut sender, Pulled::Failed), PumpStep::Wait(5));
    assert_eq!(pump_sample(&mut sender, Pulled::Frame(vec![2; 3])), PumpStep::Continue);
    let outcome = update_texture_from_frame(&mut receiver, &VideoImageHandle(0), &mut images);
    assert!(outcome.mismatches.is_empty());
    assert_eq!(data(&images, 0), [2; 3]);
    drop(receiver);
    assert_eq!(pump_sample(&mut sender, Pulled::Frame(vec![3; 3])), PumpStep::Stop);
}

#[test]
fn two_updates_come_to_one() {
    let frames = [vec![1; 3], vec![2; 4], vec![3; 3], vec![4; 2]];
    let mut once = VideoImages { slots: vec![Some(texture(1, 1, &[0; 3]))] };
    let both = show_frames(&VideoImageHandle(0), &mut once, frames.to_vec());
    let (mut sender, mut receiver) = open_frame_channel();
    let mut twice = VideoImages { slots: vec![Some(texture(1, 1, &[0; 3]))] };
    let mut mismatches = Vec::new();
    for turn in frames.chunks(3) {
        for frame in turn {
            pump_sample(&mut sender, Pulled::Frame(frame.clone()));
        }
        let outcome = update_texture_from_frame(&mut receiver, &VideoImageHandle(0), &mut twice);
        assert_eq!(outcome.fault, None);
        mismatches.extend(outcome.mismatches);
    }
    assert_eq!(data(&twice, 0), data(&once, 0));
    assert_eq!(data(&twice, 0), [3; 3]);
    assert_eq!(mismatches, both.mismatches);
    assert_eq!(mismatches.len(), 2);
    let outcome = update_texture_from_frame(&mut receiver, &VideoImageHandle(0), &mut twice);
    assert!(outcome.mismatches.is_empty());
    assert_eq!(outcome.fault, None);
    assert_eq!(data(&twice, 0), [3; 3]);
}

#[test]
fn video_pads_are_linked_once() {
    assert!(links_pad("video_0", false));
    assert!(links_pad("video_", false));
    assert!(!links_pad("video_0", true));
    assert!(!links_pad("audio_0", false));
    assert!(!links_pad("video", false));
    assert!(!links_pad("", false));
    assert!(!links_pad("vid\u{e9}o_0", false));
}

#[test]
fn settings() {
    assert_eq!(config::LISTEN_ADDRESS, "0.0.0.0:3536");
    assert_eq!(config::SIGNALING_URL, "ws://localhost:3536");
    assert_eq!(config::STUN_SERVER, "stun:stun.l.google.com:19302");
    assert_eq!(config::VIDEO_MIME_TYPE, "video/VP8");
    assert_eq!(config::VIDEO_CLOCK_RATE, 90000);
    assert_eq!(config::VIDEO_PAYLOAD_TYPE, 96);
    assert_eq!((config::TRACK_ID, config::STREAM_ID), ("video", "webrtc-rs"));
    assert_eq!(config::FRAME_DURATION_MS, 33);
    assert_eq!(
        config::CAPTURE_PIPELINE,
        "videotestsrc is-live=true ! video/x-raw,format=RGBA,width=640,height=480,framerate=30/1 ! appsink name=local_sink"
    );
    assert!(config::CAPTURE_PIPELINE
        .contains(&format!("width={VIDEO_WIDTH},height={VIDEO_HEIGHT}")));
    assert_eq!(config::CAPTURE_SINK, "local_sink");
    assert_eq!(config::DECODED_FORMAT, "RGBA");
}
