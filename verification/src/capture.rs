//! The server's own video: capturing it and showing it.
use crossbeam_channel::{Receiver, Sender};
use vstd::prelude::*;

use crate::channel::{
    frames_put, law_draining_takes_all, put_frame, receive_frame, receiver_stays, receptions,
    sender_stays, undisturbed, until_none_ready,
};
use crate::texture::{
    lookup, opaque_black, texture_of, SizeMismatch, Texture, TextureView, VideoImages,
    VIDEO_HEIGHT, VIDEO_WIDTH,
};

verus! {

/// Holds a receiver for raw video frames, as RGBA bytes.
pub struct GstReceiver {
    pub receiver: Receiver<Vec<u8>>,
}

/// Names the texture of a sprite that displays the video.
#[derive(Debug)]
pub struct VideoHandle {
    pub handle: usize,
}

/// Shows the captured video.
pub struct GStreamerPlugin;

/// A texture after a frame came for it: a frame of the size of the texture replaces its bytes,
/// any other leaves it as it is.
pub open spec fn shown(texture: TextureView, frame: Seq<u8>) -> TextureView {
    if texture.data.len() == frame.len() {
        TextureView { data: frame, ..texture }
    } else {
        texture
    }
}

/// The textures after a frame came for the handles of `query`.
pub open spec fn all_shown(
    images: Seq<Option<TextureView>>,
    query: Seq<VideoHandle>,
    frame: Seq<u8>,
) -> Seq<Option<TextureView>> {
    Seq::new(
        images.len(),
        |i: int|
            if (images[i] is Some) && exists|k: int|
                0 <= k < query.len() && (#[trigger] query[k]).handle == i {
                Some(shown(images[i]->0, frame))
            } else {
                images[i]
            },
    )
}

/// The complaint about a frame that came for one handle, if there is any.
pub open spec fn complaint(
    images: Seq<Option<TextureView>>,
    handle: usize,
    frame: Seq<u8>,
) -> Seq<SizeMismatch> {
    match lookup(images, handle) {
        Some(texture) if texture.data.len() != frame.len() => seq![
            SizeMismatch { expected: texture.data.len() as usize, got: frame.len() as usize },
        ],
        _ => Seq::empty(),
    }
}

/// The complaints about a frame that came for the handles of `query`, in their order.
pub open spec fn complaints(
    images: Seq<Option<TextureView>>,
    query: Seq<VideoHandle>,
    frame: Seq<u8>,
) -> Seq<SizeMismatch>
    decreases query.len(),
{
    if query.len() == 0 {
        Seq::empty()
    } else {
        complaints(images, query.drop_last(), frame) + complaint(images, query.last().handle, frame)
    }
}

/// What one attempt to receive a frame comes to: a frame is shown, and those textures that it does
/// not fit are complained of; where none was ready nothing changes.
pub open spec fn updates(
    before: Seq<Option<TextureView>>,
    after: Seq<Option<TextureView>>,
    query: Seq<VideoHandle>,
    attempt: Option<Seq<u8>>,
    complained: Seq<SizeMismatch>,
) -> bool {
    match attempt {
        Some(frame) => after == all_shown(before, query, frame) && complained == complaints(
            before,
            query,
            frame,
        ),
        None => after == before && complained.len() == 0,
    }
}

impl GStreamerPlugin {
    /// Makes the texture of the video sprite on the first call, and nothing on later ones.
    pub fn setup_video_sprite_once(setup_done: &mut bool) -> (r: Option<Texture>)
        ensures
            *final(setup_done),
            match r {
                Some(texture) => !*old(setup_done) && texture.width == VIDEO_WIDTH && texture.height
                    == VIDEO_HEIGHT && texture@.is_filled(opaque_black()),
                None => *old(setup_done),
            },
    {
        if *setup_done {
            return None;
        }
        let texture = Texture::blank_video();
        *setup_done = true;
        Some(texture)
    }

    /// Shows a frame on the texture of one handle, or complains that it does not fit.
    fn show_on(images: &mut VideoImages, handle: usize, frame: &Vec<u8>) -> (r: Option<
        SizeMismatch,
    >)
        ensures
            final(images)@ == (match lookup(old(images)@, handle) {
                Some(texture) => old(images)@.update(handle as int, Some(shown(texture, frame@))),
                None => old(images)@,
            }),
            complaint(old(images)@, handle, frame@) == (match r {
                Some(mismatch) => seq![mismatch],
                None => Seq::empty(),
            }),
    {
        let ghost before = images@;
        let ghost slots = images.slots@;
        if handle >= images.slots.len() {
            return None;
        }
        assert(before[handle as int] == texture_of(slots[handle as int]));
        let mut r: Option<SizeMismatch> = None;
        match &mut images.slots[handle] {
            Some(texture) => {
                if frame.len() == texture.data.len() {
                    texture.data = frame.clone();
                    assert(texture.data@ =~= frame@);
                } else {
                    r = Some(SizeMismatch { expected: texture.data.len(), got: frame.len() });
                }
            },
            None => {},
        }
        assert(images.slots@ =~= slots.update(handle as int, images.slots@[handle as int]));
        assert(images@ =~= match lookup(before, handle) {
            Some(texture) => before.update(handle as int, Some(shown(texture, frame@))),
            None => before,
        });
        r
    }

    /// Shows a frame, if there is one, on the textures of `query`, and complains of those that it
    /// does not fit.
    pub fn show_frame(
        images: &mut VideoImages,
        frame: Option<Vec<u8>>,
        query: &Vec<VideoHandle>,
    ) -> (r: Vec<SizeMismatch>)
        ensures
            match frame {
                Some(frame) => final(images)@ == all_shown(old(images)@, query@, frame@) && r@
                    == complaints(old(images)@, query@, frame@),
                None => final(images)@ == old(images)@ && r@.len() == 0,
            },
    {
        let mut mismatches: Vec<SizeMismatch> = Vec::new();
        let ghost before = images@;
        if let Some(frame) = frame {
            let mut k: usize = 0;
            assert(images@ =~= all_shown(before, query@.take(0), frame@));
            while k < query.len()
                invariant
                    k <= query@.len(),
                    images@ == all_shown(before, query@.take(k as int), frame@),
                    mismatches@ == complaints(before, query@.take(k as int), frame@),
                decreases query@.len() - k,
            {
                let handle: usize = query[k].handle;
                let ghost middle = images@;
                let complained = GStreamerPlugin::show_on(images, handle, &frame);
                proof {
                    lemma_one_more_shown(before, query@, k as int, frame@);
                    assert(query@.take(k + 1).drop_last() =~= query@.take(k as int));
                    assert(complaint(middle, handle, frame@) == complaint(before, handle, frame@));
                }
                if let Some(mismatch) = complained {
                    mismatches.push(mismatch);
                }
                assert(mismatches@ =~= complaints(before, query@.take(k + 1), frame@));
                k += 1;
            }
            assert(query@.take(k as int) =~= query@);
        }
        mismatches
    }

    /// Makes one attempt to receive a captured frame. A frame that is ready is shown on the
    /// textures of `query`, and those that it does not fit are complained of. Where none is ready
    /// nothing changes.
    pub fn video_update(
        images: &mut VideoImages,
        gst_receiver: &mut GstReceiver,
        query: &Vec<VideoHandle>,
    ) -> (r: Vec<SizeMismatch>)
        ensures
            exists|attempt: Option<Seq<u8>>|
                {
                    &&& receptions(final(gst_receiver).receiver) == #[trigger] receptions(
                        old(gst_receiver).receiver,
                    ).push(attempt)
                    &&& updates(old(images)@, final(images)@, query@, attempt, r@)
                },
            receiver_stays(old(gst_receiver).receiver, final(gst_receiver).receiver),
    {
        let frame = receive_frame(&mut gst_receiver.receiver);
        GStreamerPlugin::show_frame(images, frame, query)
    }
}

/// Showing a frame on one more handle.
proof fn lemma_one_more_shown(
    images: Seq<Option<TextureView>>,
    query: Seq<VideoHandle>,
    k: int,
    frame: Seq<u8>,
)
    requires
        0 <= k < query.len(),
    ensures
        ({
            let before = all_shown(images, query.take(k), frame);
            let handle = query[k].handle;
            all_shown(images, query.take(k + 1), frame) == (match lookup(before, handle) {
                Some(texture) => before.update(handle as int, Some(shown(texture, frame))),
                None => before,
            })
        }),
{
    let seen = query.take(k);
    let next = query.take(k + 1);
    let handle = query[k].handle as int;
    let before = all_shown(images, seen, frame);
    let after = all_shown(images, next, frame);
    let expected = match lookup(before, query[k].handle) {
        Some(texture) => before.update(handle, Some(shown(texture, frame))),
        None => before,
    };
    assert(next[k] == query[k]);
    assert(forall|j: int| 0 <= j < k ==> #[trigger] next[j] == seen[j]);
    assert forall|i: int| 0 <= i < images.len() implies #[trigger] after[i] == expected[i] by {
        if exists|j: int| 0 <= j < seen.len() && (#[trigger] seen[j]).handle == i {
            let j = choose|j: int| 0 <= j < seen.len() && (#[trigger] seen[j]).handle == i;
            assert(next[j].handle == i);
        }
        if exists|j: int| 0 <= j < next.len() && (#[trigger] next[j]).handle == i {
            let j = choose|j: int| 0 <= j < next.len() && (#[trigger] next[j]).handle == i;
            if j < k {
                assert(seen[j].handle == i);
            }
        }
    }
    assert(after =~= expected);
}

/// A frame that a sprite was set up for, four bytes for each pixel of the video, shows on its
/// texture.
pub proof fn law_captured_frames_fit(texture: TextureView, frame: Seq<u8>)
    requires
        texture.width == VIDEO_WIDTH,
        texture.height == VIDEO_HEIGHT,
        texture.is_filled(opaque_black()),
        frame.len() == VIDEO_WIDTH * VIDEO_HEIGHT * 4,
    ensures
        shown(texture, frame).data == frame,
{
}

/// Frames change the bytes of textures only: no texture comes, goes or changes its size, and no
/// texture changes that no handle of the query leads to.
pub proof fn law_textures_keep_their_shape(
    images: Seq<Option<TextureView>>,
    query: Seq<VideoHandle>,
    frame: Seq<u8>,
    i: int,
)
    requires
        0 <= i < images.len(),
    ensures
        all_shown(images, query, frame).len() == images.len(),
        match (images[i], all_shown(images, query, frame)[i]) {
            (Some(before), Some(after)) => after.width == before.width && after.height
                == before.height && after.data.len() == before.data.len(),
            (None, None) => true,
            _ => false,
        },
        (forall|k: int| 0 <= k < query.len() ==> (#[trigger] query[k]).handle != i) ==> all_shown(
            images,
            query,
            frame,
        )[i] == images[i],
{
}

/// A frame that is shown twice shows as if it had been shown once, and is complained of alike.
pub proof fn law_showing_again_changes_nothing(
    images: Seq<Option<TextureView>>,
    query: Seq<VideoHandle>,
    frame: Seq<u8>,
)
    ensures
        all_shown(all_shown(images, query, frame), query, frame) == all_shown(images, query, frame),
        complaints(all_shown(images, query, frame), query, frame) == complaints(
            images,
            query,
            frame,
        ),
{
    let after = all_shown(images, query, frame);
    assert(all_shown(after, query, frame) =~= after);
    lemma_complaints_go_by_sizes(images, after, query, frame);
}

/// Where nobody else sends or receives, a broadcast takes every captured frame: an update after it
/// finds none, changes no texture and complains of nothing.
pub proof fn law_nothing_shows_after_a_broadcast(
    captured: Seq<Seq<u8>>,
    broadcast: Seq<Seq<u8>>,
    attempt: Option<Seq<u8>>,
    before: Seq<Option<TextureView>>,
    after: Seq<Option<TextureView>>,
    query: Seq<VideoHandle>,
    complained: Seq<SizeMismatch>,
)
    requires
        undisturbed(captured, until_none_ready(broadcast).push(attempt)),
        updates(before, after, query, attempt, complained),
    ensures
        broadcast == captured,
        attempt is None,
        after == before,
        complained.len() == 0,
{
    let later = seq![attempt];
    assert(until_none_ready(broadcast) + later =~= until_none_ready(broadcast).push(attempt));
    law_draining_takes_all(captured, broadcast, later);
    assert(later[0] is None);
}

/// Where nobody else sends or receives, an update takes the oldest captured frame, and a broadcast
/// after it takes the others.
pub proof fn law_frames_are_shown_or_broadcast(
    captured: Seq<Seq<u8>>,
    attempt: Option<Seq<u8>>,
    broadcast: Seq<Seq<u8>>,
)
    requires
        undisturbed(captured, seq![attempt] + until_none_ready(broadcast)),
    ensures
        match attempt {
            Some(frame) => captured == seq![frame] + broadcast,
            None => captured.len() == 0 && broadcast.len() == 0,
        },
{
    let attempts = seq![attempt] + until_none_ready(broadcast);
    assert(attempts[0] == attempt);
    let rest = captured.skip(if captured.len() > 0 { 1 } else { 0 });
    let none = Seq::<Option<Seq<u8>>>::empty();
    assert forall|i: int| 0 <= i < broadcast.len() + 1 implies #[trigger] (until_none_ready(
        broadcast,
    ) + none)[i] == (if i < rest.len() {
        Some(rest[i])
    } else {
        None
    }) by {
        assert(attempts[i + 1] == until_none_ready(broadcast)[i]);
    }
    law_draining_takes_all(rest, broadcast, none);
    if captured.len() > 0 {
        assert(captured =~= seq![captured[0]] + broadcast);
    }
}

/// Complaints depend on which textures there are and how many bytes they hold.
proof fn lemma_complaints_go_by_sizes(
    images: Seq<Option<TextureView>>,
    others: Seq<Option<TextureView>>,
    query: Seq<VideoHandle>,
    frame: Seq<u8>,
)
    requires
        images.len() == others.len(),
        forall|i: int|
            0 <= i < images.len() ==> ((#[trigger] images[i]) is Some <==> others[i] is Some) && (
            images[i] is Some ==> images[i]->0.data.len() == others[i]->0.data.len()),
    ensures
        complaints(others, query, frame) == complaints(images, query, frame),
    decreases query.len(),
{
    if query.len() > 0 {
        lemma_complaints_go_by_sizes(images, others, query.drop_last(), frame);
        let handle = query.last().handle;
        if handle < images.len() {
            assert(images[handle as int] is Some <==> others[handle as int] is Some);
        }
        assert(complaint(others, handle, frame) =~= complaint(images, handle, frame));
    }
}

/// What pulling a sample from a video sink came to.
#[derive(Debug)]
pub enum Pulled {
    /// A sample whose bytes could be read.
    Frame(Vec<u8>),
    /// A sample without readable bytes.
    Unreadable,
    /// No sample.
    Failed,
}

/// Passes the frame of a sample on. A channel without a receiver, and a sample without a frame,
/// are passed over. On a channel of bounded capacity that is full, it waits for room.
pub fn forward_sample(sender: &mut Sender<Vec<u8>>, pulled: Pulled)
    ensures
        match pulled {
            Pulled::Frame(frame) => frames_put(*final(sender)) == frames_put(*old(sender)).push(
                frame@,
            ),
            _ => *final(sender) == *old(sender),
        },
        sender_stays(*old(sender), *final(sender)),
{
    match pulled {
        Pulled::Frame(frame) => {
            put_frame(sender, frame);
        },
        _ => {},
    }
}

/// A message on the bus of the pipeline.
#[derive(Clone, Copy, Debug, PartialEq, Eq, Structural)]
pub enum BusMessage {
    EndOfStream,
    Error,
    Other,
}

/// What to do about a message on the bus.
#[derive(Clone, Copy, Debug, PartialEq, Eq, Structural)]
pub enum BusStep {
    /// Wait for the next message.
    Continue,
    /// Shut the pipeline down.
    Stop,
    /// Report the error and shut the pipeline down.
    ReportAndStop,
}

/// Decides what a message on the bus means to the pipeline: the end of the stream and an error
/// stop it, an error is reported, and nothing else matters.
pub fn bus_step(message: BusMessage) -> (r: BusStep)
    ensures
        r == BusStep::Stop <==> message == BusMessage::EndOfStream,
        r == BusStep::ReportAndStop <==> message == BusMessage::Error,
        r == BusStep::Continue <==> message == BusMessage::Other,
{
    match message {
        BusMessage::EndOfStream => BusStep::Stop,
        BusMessage::Error => BusStep::ReportAndStop,
        BusMessage::Other => BusStep::Continue,
    }
}

/// What a frame does to one texture, by lengths alone. A texture that a handle of the query leads
/// to and that holds as many bytes as the frame, whatever that number, is left with the bytes of
/// the frame. Every other texture stays as it is.
pub proof fn law_a_frame_shows_where_it_fits(
    images: Seq<Option<TextureView>>,
    query: Seq<VideoHandle>,
    frame: Seq<u8>,
    i: int,
)
    requires
        0 <= i < images.len(),
    ensures
        ({
            let after = all_shown(images, query, frame);
            let asked_for = exists|k: int|
                0 <= k < query.len() && (#[trigger] query[k]).handle == i;
            &&& after.len() == images.len()
            &&& match images[i] {
                Some(texture) => if asked_for && texture.data.len() == frame.len() {
                    &&& after[i] is Some
                    &&& after[i]->0.data == frame
                    &&& after[i]->0.width == texture.width
                    &&& after[i]->0.height == texture.height
                } else {
                    after[i] == Some(texture)
                },
                None => after[i] is None,
            }
        }),
{
}

/// What is complained of for one handle, by lengths alone: a texture that holds another number of
/// bytes than the frame, with both numbers, and nothing else.
pub proof fn law_a_frame_is_complained_of_where_it_does_not_fit(
    images: Seq<Option<TextureView>>,
    handle: VideoHandle,
    frame: Seq<u8>,
)
    requires
        frame.len() <= usize::MAX,
        forall|i: int|
            0 <= i < images.len() ==> ((#[trigger] images[i]) is Some ==> images[i]->0.data.len()
                <= usize::MAX),
    ensures
        ({
            let complained = complaints(images, seq![handle], frame);
            let i = handle.handle as int;
            if i < images.len() && images[i] is Some && images[i]->0.data.len() != frame.len() {
                &&& complained.len() == 1
                &&& complained[0].expected == images[i]->0.data.len()
                &&& complained[0].got == frame.len()
            } else {
                complained.len() == 0
            }
        }),
{
    reveal_with_fuel(complaints, 2);
    assert(seq![handle].drop_last() =~= Seq::empty());
    let i = handle.handle as int;
    if i < images.len() {
        assert(images[i] is Some ==> images[i]->0.data.len() <= usize::MAX);
    }
}

/// The complaints for handles come in the order of the handles.
pub proof fn law_complaints_come_in_order(
    images: Seq<Option<TextureView>>,
    first: Seq<VideoHandle>,
    second: Seq<VideoHandle>,
    frame: Seq<u8>,
)
    ensures
        complaints(images, first + second, frame) == complaints(images, first, frame) + complaints(
            images,
            second,
            frame,
        ),
    decreases second.len(),
{
    if second.len() == 0 {
        assert(first + second =~= first);
        assert(complaints(images, first, frame) + complaints(images, second, frame)
            =~= complaints(images, first, frame));
    } else {
        law_complaints_come_in_order(images, first, second.drop_last(), frame);
        assert((first + second).drop_last() =~= first + second.drop_last());
        assert(complaints(images, first + second, frame) =~= complaints(images, first, frame)
            + complaints(images, second, frame));
    }
}

/// An update whose attempt brings a frame shows that frame: each texture that a handle of the
/// query leads to and that holds as many bytes, whatever that number, then holds the bytes of the
/// frame, and every other texture what it held.
pub proof fn law_update_shows_its_frame(
    before: Seq<Option<TextureView>>,
    after: Seq<Option<TextureView>>,
    query: Seq<VideoHandle>,
    frame: Seq<u8>,
    complained: Seq<SizeMismatch>,
    i: int,
)
    requires
        updates(before, after, query, Some(frame), complained),
        0 <= i < before.len(),
    ensures
        after.len() == before.len(),
        match before[i] {
            Some(texture) => if texture.data.len() == frame.len() && exists|k: int|
                0 <= k < query.len() && (#[trigger] query[k]).handle == i {
                &&& after[i] is Some
                &&& after[i]->0.data == frame
                &&& after[i]->0.width == texture.width
                &&& after[i]->0.height == texture.height
            } else {
                after[i] == Some(texture)
            },
            None => after[i] is None,
        },
{
    law_a_frame_shows_where_it_fits(before, query, frame, i);
}

/// There is no texture at `i`, or one that holds as many bytes as the frame.
pub open spec fn fits_at(images: Seq<Option<TextureView>>, i: int, frame: Seq<u8>) -> bool {
    0 <= i < images.len() ==> match images[i] {
        Some(texture) => texture.data.len() == frame.len(),
        None => true,
    }
}

/// An update whose attempt brings a frame complains of nothing but the textures that the frame
/// does not fit, and of each of them for every handle that leads to it.
pub proof fn law_update_complains_of_what_does_not_fit(
    before: Seq<Option<TextureView>>,
    after: Seq<Option<TextureView>>,
    query: Seq<VideoHandle>,
    frame: Seq<u8>,
    complained: Seq<SizeMismatch>,
)
    requires
        updates(before, after, query, Some(frame), complained),
        frame.len() <= usize::MAX,
        forall|i: int|
            0 <= i < before.len() ==> ((#[trigger] before[i]) is Some ==> before[i]->0.data.len()
                <= usize::MAX),
    ensures
        complained == complaints(before, query, frame),
        complained.len() <= query.len(),
        complained.len() == 0 <==> forall|k: int|
            0 <= k < query.len() ==> fits_at(before, (#[trigger] query[k]).handle as int, frame),
    decreases query.len(),
{
    if query.len() > 0 {
        let earlier = query.drop_last();
        let last = query.len() - 1;
        law_update_complains_of_what_does_not_fit(
            before,
            all_shown(before, earlier, frame),
            earlier,
            frame,
            complaints(before, earlier, frame),
        );
        assert(earlier + seq![query[last]] =~= query);
        law_complaints_come_in_order(before, earlier, seq![query[last]], frame);
        law_a_frame_is_complained_of_where_it_does_not_fit(before, query[last], frame);
        assert(fits_at(before, query[last].handle as int, frame) <==> complaints(
            before,
            seq![query[last]],
            frame,
        ).len() == 0);
        assert(forall|k: int| 0 <= k < earlier.len() ==> #[trigger] earlier[k] == query[k]);
        if complained.len() == 0 {
            assert forall|k: int| 0 <= k < query.len() implies fits_at(
                before,
                (#[trigger] query[k]).handle as int,
                frame,
            ) by {
                if k < last {
                    assert(earlier[k] == query[k]);
                }
            }
        } else if forall|k: int|
            0 <= k < query.len() ==> fits_at(before, (#[trigger] query[k]).handle as int, frame) {
            assert forall|k: int| 0 <= k < earlier.len() implies fits_at(
                before,
                (#[trigger] earlier[k]).handle as int,
                frame,
            ) by {
                assert(earlier[k] == query[k]);
            }
        }
    }
}

} // verus!
