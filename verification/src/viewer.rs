//! The client's video: receiving it and showing it.
use crossbeam_channel::{Receiver, Sender};
use vstd::prelude::*;

use crate::capture::Pulled;
use crate::channel::{
    bytes_of, capacity, deliveries, frame_channel, frames_put, joined, law_draining_takes_all,
    put_frame, receive_ready_frames, receiver_stays, receptions, sender_stays, undisturbed,
    until_none_ready,
};
use crate::texture::{
    lookup, opaque_black, texture_of, SizeMismatch, Texture, TextureView, VideoImages,
    VIDEO_HEIGHT, VIDEO_WIDTH,
};

verus! {

/// Names the texture that displays the video.
#[derive(Debug)]
pub struct VideoImageHandle(pub usize);

/// Where decoded frames arrive.
pub struct FrameReceiver(pub Receiver<Vec<u8>>);

/// Where decoded frames are put.
pub struct FrameSender(pub Sender<Vec<u8>>);

/// Why a frame that passed for its size cannot be shown.
#[derive(Clone, Copy, Debug, PartialEq, Eq, Structural)]
pub enum FrameFault {
    /// The size of a frame for the texture cannot be computed in 32 bits.
    SizeOverflow,
    /// The texture does not hold as many bytes as the frame.
    LengthConflict(SizeMismatch),
}

impl TextureView {
    /// The size of a frame for the texture: three bytes per pixel.
    pub open spec fn rgb_size(self) -> int {
        self.width * self.height * 3
    }

    /// A frame passes for its size, of which the low 32 bits count.
    pub open spec fn accepts(self, frame: Seq<u8>) -> bool {
        frame.len() % 0x1_0000_0000 == self.rgb_size()
    }

    /// Why a frame cannot be shown on the texture.
    pub open spec fn fault(self, frame: Seq<u8>) -> Option<FrameFault> {
        if self.rgb_size() > u32::MAX {
            Some(FrameFault::SizeOverflow)
        } else if self.accepts(frame) && frame.len() != self.data.len() {
            Some(
                FrameFault::LengthConflict(
                    SizeMismatch {
                        expected: self.data.len() as usize,
                        got: frame.len() as usize,
                    },
                ),
            )
        } else {
            None
        }
    }
}

/// What became of some frames that came for a texture.
#[derive(Debug)]
pub struct ShowOutcome {
    /// The complaints about frames of the wrong size, in order.
    pub mismatches: Vec<SizeMismatch>,
    /// What put an end to it before the last frame was looked at.
    pub fault: Option<FrameFault>,
}

/// What became of a texture and some frames that came for it.
pub struct Showing {
    /// The texture.
    pub texture: TextureView,
    /// The complaints about frames of the wrong size, in order.
    pub mismatches: Seq<SizeMismatch>,
    /// What put an end to it.
    pub fault: Option<FrameFault>,
}

/// What becomes of a texture and the frames that come for it. A frame of the wrong size is
/// complained of, any other replaces the bytes of the texture, and a fault ends it.
pub open spec fn showing(texture: TextureView, frames: Seq<Seq<u8>>) -> Showing
    decreases frames.len(),
{
    if frames.len() == 0 {
        Showing { texture, mismatches: Seq::empty(), fault: None }
    } else {
        let before = showing(texture, frames.drop_last());
        let frame = frames.last();
        if before.fault is Some {
            before
        } else if before.texture.fault(frame) is Some {
            Showing { fault: before.texture.fault(frame), ..before }
        } else if !before.texture.accepts(frame) {
            Showing {
                mismatches: before.mismatches.push(
                    SizeMismatch {
                        expected: before.texture.rgb_size() as usize,
                        got: frame.len() as usize,
                    },
                ),
                ..before
            }
        } else {
            Showing { texture: TextureView { data: frame, ..before.texture }, ..before }
        }
    }
}

/// The size of a frame of three bytes per pixel, where it fits 32 bits.
fn rgb_size(width: u32, height: u32) -> (r: Option<u32>)
    ensures
        match r {
            Some(size) => size == width * height * 3,
            None => width * height * 3 > u32::MAX,
        },
{
    match width.checked_mul(height) {
        Some(pixels) => pixels.checked_mul(3),
        None => None,
    }
}

/// The low 32 bits of a length.
fn low_length(length: usize) -> (r: u32)
    ensures
        r == length as int % 0x1_0000_0000,
{
    let wide: u64 = length as u64;
    assert(wide as u32 == wide % 0x1_0000_0000) by (bit_vector);
    wide as u32
}

impl Texture {
    /// Shows a frame, or complains of its size.
    pub fn apply_frame(&mut self, frame: Vec<u8>) -> (r: Option<SizeMismatch>)
        requires
            old(self)@.fault(frame@) is None,
        ensures
            match r {
                Some(mismatch) => !old(self)@.accepts(frame@) && mismatch == (SizeMismatch {
                    expected: old(self)@.rgb_size() as usize,
                    got: frame@.len() as usize,
                }) && final(self)@ == old(self)@,
                None => old(self)@.accepts(frame@) && final(self)@ == (TextureView {
                    data: frame@,
                    ..old(self)@
                }),
            },
            final(self).width == old(self).width,
            final(self).height == old(self).height,
            if frame@.len() % 0x1_0000_0000 == old(self).width * old(self).height * 3 {
                r is None && final(self).data@ == frame@
            } else {
                r is Some && r->0.expected == old(self).width * old(self).height * 3 && r->0.got
                    == frame@.len() && final(self).data@ == old(self).data@
            },
    {
        let expected: u32 = match rgb_size(self.width, self.height) {
            Some(size) => size,
            None => 0,
        };
        if low_length(frame.len()) != expected {
            return Some(SizeMismatch { expected: expected as usize, got: frame.len() });
        }
        self.data = frame;
        None
    }

    /// Tells why a frame cannot be shown.
    pub fn frame_fault(&self, frame: &Vec<u8>) -> (r: Option<FrameFault>)
        ensures
            r == self@.fault(frame@),
            (r matches Some(FrameFault::SizeOverflow)) <==> self.width * self.height * 3
                > u32::MAX,
            (r matches Some(FrameFault::LengthConflict(_))) <==> self.width * self.height * 3
                <= u32::MAX && frame@.len() % 0x1_0000_0000 == self.width * self.height * 3
                && frame@.len() != self.data@.len(),
            r matches Some(FrameFault::LengthConflict(conflict)) ==> conflict.expected
                == self.data@.len() && conflict.got == frame@.len(),
    {
        match rgb_size(self.width, self.height) {
            Some(size) => if low_length(frame.len()) == size && frame.len() != self.data.len() {
                Some(
                    FrameFault::LengthConflict(
                        SizeMismatch { expected: self.data.len(), got: frame.len() },
                    ),
                )
            } else {
                None
            },
            None => Some(FrameFault::SizeOverflow),
        }
    }

    /// Shows frames, in order, up to the first that cannot be shown.
    pub fn apply_frames(&mut self, frames: Vec<Vec<u8>>) -> (r: ShowOutcome)
        ensures
            showing(old(self)@, bytes_of(frames@)) == (Showing {
                texture: final(self)@,
                mismatches: r.mismatches@,
                fault: r.fault,
            }),
            final(self).width == old(self).width,
            final(self).height == old(self).height,
            frames@.len() == 0 ==> final(self).data@ == old(self).data@ && r.mismatches@.len() == 0
                && r.fault is None,
            (frames@.len() > 0 && old(self).width * old(self).height * 3 <= u32::MAX && (forall|
                i: int,
            |
                0 <= i < frames@.len() ==> (#[trigger] frames@[i])@.len() == old(self).width
                    * old(self).height * 3) && old(self).data@.len() == old(self).width
                * old(self).height * 3) ==> final(self).data@ == frames@.last()@
                && r.mismatches@.len() == 0 && r.fault is None,
    {
        let mut rest = frames;
        let mut mismatches: Vec<SizeMismatch> = Vec::new();
        let ghost all = bytes_of(frames@);
        let ghost mut k: int = 0;
        assert(all.skip(0) =~= all);
        while rest.len() > 0
            invariant
                all == bytes_of(frames@),
                0 <= k <= all.len(),
                bytes_of(rest@) == all.skip(k),
                showing(old(self)@, all.take(k)) == (Showing {
                    texture: self@,
                    mismatches: mismatches@,
                    fault: None,
                }),
            decreases rest@.len(),
        {
            let ghost held = rest@;
            assert(bytes_of(held).len() == all.len() - k);
            let frame = rest.remove(0);
            proof {
                assert(frame@ == bytes_of(held)[0]);
                assert(all.take(k + 1).drop_last() =~= all.take(k));
                assert forall|i: int| 0 <= i < rest@.len() implies #[trigger] bytes_of(rest@)[i]
                    == all.skip(k + 1)[i] by {
                    assert(bytes_of(held)[i + 1] == all.skip(k)[i + 1]);
                }
                assert(bytes_of(rest@) =~= all.skip(k + 1));
            }
            if let Some(fault) = self.frame_fault(&frame) {
                proof {
                    lemma_fault_stays(old(self)@, all, k + 1);
                    lemma_what_frames_come_to(old(self)@, frames@);
                }
                return ShowOutcome { mismatches, fault: Some(fault) };
            }
            if let Some(mismatch) = self.apply_frame(frame) {
                mismatches.push(mismatch);
            }
            proof {
                k = k + 1;
            }
        }
        assert(bytes_of(rest@).len() == all.len() - k);
        assert(all.take(k) =~= all);
        proof {
            lemma_what_frames_come_to(old(self)@, frames@);
        }
        ShowOutcome { mismatches, fault: None }
    }
}

/// Once a fault put an end to it, further frames change nothing.
proof fn lemma_fault_stays(texture: TextureView, frames: Seq<Seq<u8>>, k: int)
    requires
        0 <= k <= frames.len(),
        showing(texture, frames.take(k)).fault is Some,
    ensures
        showing(texture, frames) == showing(texture, frames.take(k)),
    decreases frames.len() - k,
{
    if k < frames.len() {
        assert(frames.take(k + 1).drop_last() =~= frames.take(k));
        lemma_fault_stays(texture, frames, k + 1);
    } else {
        assert(frames.take(k) =~= frames);
    }
}

/// Showing frames keeps the size of a texture, shows nothing where there are none, and shows the
/// last where all of them fit.
proof fn lemma_what_frames_come_to(texture: TextureView, frames: Seq<Vec<u8>>)
    ensures
        ({
            let size = texture.width * texture.height * 3;
            let after = showing(texture, bytes_of(frames));
            &&& after.texture.width == texture.width
            &&& after.texture.height == texture.height
            &&& frames.len() == 0 ==> after.texture == texture && after.mismatches.len() == 0
                && after.fault is None
            &&& (frames.len() > 0 && size <= u32::MAX && texture.data.len() == size && forall|
                i: int,
            |
                0 <= i < frames.len() ==> (#[trigger] frames[i])@.len() == size)
                ==> after.texture.data == frames.last()@ && after.mismatches.len() == 0
                && after.fault is None
        }),
{
    let size = texture.width * texture.height * 3;
    law_viewer_keeps_shape(texture, bytes_of(frames));
    if frames.len() > 0 && size <= u32::MAX && texture.data.len() == size && (forall|i: int|
        0 <= i < frames.len() ==> (#[trigger] frames[i])@.len() == size) {
        assert forall|i: int| 0 <= i < bytes_of(frames).len() implies (#[trigger] bytes_of(
            frames,
        )[i]).len() == texture.data.len() by {
            assert(bytes_of(frames)[i] == frames[i]@);
        }
        law_fitting_frames_show(texture, bytes_of(frames));
    }
}

/// Opens the channel that decoded frames take to the texture, and returns its two ends. It has no
/// limit, and nothing has gone through it.
pub fn open_frame_channel() -> (r: (FrameSender, FrameReceiver))
    ensures
        frames_put(r.0.0) == Seq::<Seq<u8>>::empty(),
        receptions(r.1.0) == Seq::<Option<Seq<u8>>>::empty(),
        joined(r.0.0, r.1.0),
        capacity(r.0.0) is None,
{
    let (sender, receiver) = frame_channel();
    (FrameSender(sender), FrameReceiver(receiver))
}

/// Makes the texture that displays the video.
pub fn setup_video_ui() -> (r: Texture)
    ensures
        r.width == VIDEO_WIDTH,
        r.height == VIDEO_HEIGHT,
        r@.is_filled(opaque_black()),
{
    Texture::blank_video()
}

/// What showing `frames` on the texture of `handle` comes to. Without a texture the frames are
/// dropped.
pub open spec fn shows(
    before: Seq<Option<TextureView>>,
    after: Seq<Option<TextureView>>,
    handle: usize,
    frames: Seq<Seq<u8>>,
    outcome: ShowOutcome,
) -> bool {
    match lookup(before, handle) {
        Some(texture) => {
            let showing = showing(texture, frames);
            &&& after == before.update(handle as int, Some(showing.texture))
            &&& outcome.mismatches@ == showing.mismatches
            &&& outcome.fault == showing.fault
        },
        None => after == before && outcome.mismatches@.len() == 0 && outcome.fault is None,
    }
}

/// Shows frames, in order, on the texture of `handle`.
pub fn show_frames(
    handle: &VideoImageHandle,
    images: &mut VideoImages,
    frames: Vec<Vec<u8>>,
) -> (r: ShowOutcome)
    ensures
        shows(old(images)@, final(images)@, handle.0, bytes_of(frames@), r),
{
    let ghost before = images@;
    let ghost slots = images.slots@;
    let index: usize = handle.0;
    if index >= images.slots.len() {
        return ShowOutcome { mismatches: Vec::new(), fault: None };
    }
    assert(before[index as int] == texture_of(slots[index as int]));
    let r = match &mut images.slots[index] {
        Some(texture) => texture.apply_frames(frames),
        None => ShowOutcome { mismatches: Vec::new(), fault: None },
    };
    proof {
        assert(images.slots@ =~= slots.update(index as int, images.slots@[index as int]));
        match lookup(before, index) {
            Some(texture) => {
                assert(images@ =~= before.update(
                    index as int,
                    Some(showing(texture, bytes_of(frames@)).texture),
                ));
            },
            None => {
                assert(images@ =~= before);
            },
        }
    }
    r
}

/// Shows the frames that have arrived since the last call, those that are received, in order,
/// until none is ready, on the texture of `handle`.
pub fn update_texture_from_frame(
    frame_rx: &mut FrameReceiver,
    handle: &VideoImageHandle,
    images: &mut VideoImages,
) -> (r: ShowOutcome)
    ensures
        exists|frames: Seq<Seq<u8>>|
            {
                &&& receptions(final(frame_rx).0) == receptions(old(frame_rx).0)
                    + until_none_ready(frames)
                &&& #[trigger] shows(old(images)@, final(images)@, handle.0, frames, r)
            },
        receiver_stays(old(frame_rx).0, final(frame_rx).0),
{
    let frames = receive_ready_frames(&mut frame_rx.0);
    show_frames(handle, images, frames)
}

/// How long to wait, in milliseconds, before a sample is pulled again that could not be had.
pub const PULL_RETRY_MS: u64 = 5;

/// What to do after a sample was pulled from the decoder.
#[derive(Clone, Copy, Debug, PartialEq, Eq, Structural)]
pub enum PumpStep {
    /// Pull the next sample.
    Continue,
    /// Wait so many milliseconds, then pull again.
    Wait(u64),
    /// Report that nobody takes frames any more, and stop.
    Stop,
}

/// Passes the frame of a decoded sample on, and stops once the channel takes no more. Samples
/// without readable bytes are passed over; where there was no sample, the step is to wait. On a
/// channel of bounded capacity that is full, the call itself waits for room.
pub fn pump_sample(sender: &mut FrameSender, pulled: Pulled) -> (r: PumpStep)
    ensures
        match pulled {
            Pulled::Frame(frame) => {
                &&& r is Continue || r is Stop
                &&& deliveries(final(sender).0) == deliveries(old(sender).0).push(
                    (frame@, r is Continue),
                )
            },
            Pulled::Unreadable => r is Continue && *final(sender) == *old(sender),
            Pulled::Failed => r == PumpStep::Wait(PULL_RETRY_MS) && *final(sender) == *old(sender),
        },
        sender_stays(old(sender).0, final(sender).0),
{
    match pulled {
        Pulled::Frame(frame) => if put_frame(&mut sender.0, frame) {
            PumpStep::Continue
        } else {
            PumpStep::Stop
        },
        Pulled::Unreadable => PumpStep::Continue,
        Pulled::Failed => PumpStep::Wait(PULL_RETRY_MS),
    }
}

/// Whether a text starts with another.
fn has_prefix(text: &str, prefix: &str) -> (b: bool)
    ensures
        b == prefix@.is_prefix_of(text@),
{
    let n = prefix.unicode_len();
    if text.unicode_len() < n {
        return false;
    }
    let mut i: usize = 0;
    while i < n
        invariant
            i <= n == prefix@.len() <= text@.len(),
            forall|j: int| 0 <= j < i ==> #[trigger] text@[j] == prefix@[j],
        decreases n - i,
    {
        if text.get_char(i) != prefix.get_char(i) {
            assert(text@.subrange(0, n as int)[i as int] == text@[i as int]);
            return false;
        }
        i += 1;
    }
    assert(prefix@ =~= text@.subrange(0, n as int));
    true
}

/// Whether a pad that the receiving end opened is to be linked to the decoder: a video pad is,
/// unless the decoder is linked already.
pub fn links_pad(pad_name: &str, decoder_is_linked: bool) -> (b: bool)
    ensures
        b == ("video_"@.is_prefix_of(pad_name@) && !decoder_is_linked),
{
    has_prefix(pad_name, "video_") && !decoder_is_linked
}

/// Frames change the bytes of a texture only, not its size nor how many bytes it holds.
pub proof fn law_viewer_keeps_shape(texture: TextureView, frames: Seq<Seq<u8>>)
    ensures
        ({
            let after = showing(texture, frames).texture;
            &&& after.width == texture.width
            &&& after.height == texture.height
            &&& after.data.len() == texture.data.len()
        }),
    decreases frames.len(),
{
    if frames.len() > 0 {
        law_viewer_keeps_shape(texture, frames.drop_last());
    }
}

/// The last frame of the right size is the one that shows. Where there is none, the texture shows
/// what it showed before.
pub proof fn law_last_frame_shows(texture: TextureView, frames: Seq<Seq<u8>>)
    requires
        showing(texture, frames).fault is None,
    ensures
        ({
            let after = showing(texture, frames).texture;
            ||| {
                &&& after == texture
                &&& forall|i: int| 0 <= i < frames.len() ==> !texture.accepts(#[trigger] frames[i])
            }
            ||| exists|i: int|
                {
                    &&& 0 <= i < frames.len()
                    &&& texture.accepts(#[trigger] frames[i])
                    &&& after.data == frames[i]
                    &&& forall|j: int| i < j < frames.len() ==> !texture.accepts(#[trigger] frames[j])
                }
        }),
    decreases frames.len(),
{
    if frames.len() > 0 {
        let earlier = frames.drop_last();
        law_last_frame_shows(texture, earlier);
        law_viewer_keeps_shape(texture, earlier);
        let last = frames.len() - 1;
        let before = showing(texture, earlier).texture;
        assert(before.accepts(frames[last]) == texture.accepts(frames[last]));
        if !texture.accepts(frames[last]) {
            if before == texture && (forall|i: int|
                0 <= i < earlier.len() ==> !texture.accepts(#[trigger] earlier[i])) {
                assert forall|i: int| 0 <= i < frames.len() implies !texture.accepts(
                    #[trigger] frames[i],
                ) by {
                    if i < last {
                        assert(earlier[i] == frames[i]);
                    }
                }
            } else {
                let i = choose|i: int|
                    {
                        &&& 0 <= i < earlier.len()
                        &&& texture.accepts(#[trigger] earlier[i])
                        &&& before.data == earlier[i]
                        &&& forall|j: int|
                            i < j < earlier.len() ==> !texture.accepts(#[trigger] earlier[j])
                    };
                assert(texture.accepts(frames[i]) && before.data == frames[i]);
                assert forall|j: int| i < j < frames.len() implies !texture.accepts(
                    #[trigger] frames[j],
                ) by {
                    if j < last {
                        assert(earlier[j] == frames[j]);
                    }
                }
            }
        }
    }
}

/// A texture of four bytes per pixel never shows a frame: each frame is complained of or ends the
/// showing, since frames are to have three bytes per pixel.
pub proof fn law_four_byte_textures_show_nothing(texture: TextureView, frames: Seq<Seq<u8>>)
    requires
        texture.width > 0,
        texture.height > 0,
        texture.data.len() == texture.width * texture.height * 4,
    ensures
        showing(texture, frames).texture == texture,
    decreases frames.len(),
{
    if frames.len() > 0 {
        law_four_byte_textures_show_nothing(texture, frames.drop_last());
        let frame = frames.last();
        let pixels = texture.width * texture.height;
        assert(pixels > 0) by (nonlinear_arith)
            requires
                pixels == texture.width * texture.height,
                texture.width > 0,
                texture.height > 0,
        ;
        if texture.fault(frame) is None && texture.accepts(frame) {
            assert(frame.len() == pixels * 4);
            assert(pixels * 3 <= u32::MAX);
            assert(false);
        }
    }
}

/// Frames that come in two turns become of a texture what they would have become of it in one. A
/// fault in the first turn ends it, whatever comes after.
pub proof fn law_showing_goes_on(texture: TextureView, first: Seq<Seq<u8>>, second: Seq<Seq<u8>>)
    ensures
        ({
            let once = showing(texture, first);
            let twice = showing(once.texture, second);
            showing(texture, first + second) == if once.fault is Some {
                once
            } else {
                Showing {
                    texture: twice.texture,
                    mismatches: once.mismatches + twice.mismatches,
                    fault: twice.fault,
                }
            }
        }),
    decreases second.len(),
{
    let once = showing(texture, first);
    if second.len() == 0 {
        assert(first + second =~= first);
        assert(once.mismatches + Seq::<SizeMismatch>::empty() =~= once.mismatches);
    } else {
        let earlier = second.drop_last();
        law_showing_goes_on(texture, first, earlier);
        assert((first + second).drop_last() =~= first + earlier);
        assert((first + second).last() == second.last());
        let twice = showing(once.texture, earlier);
        let both = showing(once.texture, second);
        if once.fault is None && both.mismatches.len() > twice.mismatches.len() {
            assert(once.mismatches + both.mismatches =~= (once.mismatches
                + twice.mismatches).push(both.mismatches.last()));
        }
    }
}

/// Two updates, of which the first met no fault, come to what one update with the frames of both
/// comes to.
pub proof fn law_updates_add_up(
    before: Seq<Option<TextureView>>,
    middle: Seq<Option<TextureView>>,
    after: Seq<Option<TextureView>>,
    handle: usize,
    first: Seq<Seq<u8>>,
    second: Seq<Seq<u8>>,
    once: ShowOutcome,
    twice: ShowOutcome,
    both: ShowOutcome,
)
    requires
        shows(before, middle, handle, first, once),
        once.fault is None,
        shows(middle, after, handle, second, twice),
        both.mismatches@ == once.mismatches@ + twice.mismatches@,
        both.fault == twice.fault,
    ensures
        shows(before, after, handle, first + second, both),
{
    if let Some(texture) = lookup(before, handle) {
        law_showing_goes_on(texture, first, second);
        let then = showing(texture, first).texture;
        assert(lookup(middle, handle) == Some(then));
        assert(after =~= before.update(handle as int, Some(showing(then, second).texture)));
    }
}

/// Where nobody else sends or receives, one update looks at every frame that is waiting, and a
/// further one changes nothing.
pub proof fn law_further_update_changes_nothing(
    waiting: Seq<Seq<u8>>,
    first: Seq<Seq<u8>>,
    second: Seq<Seq<u8>>,
    before: Seq<Option<TextureView>>,
    after: Seq<Option<TextureView>>,
    handle: usize,
    outcome: ShowOutcome,
)
    requires
        undisturbed(waiting, until_none_ready(first) + until_none_ready(second)),
        shows(before, after, handle, second, outcome),
    ensures
        first == waiting,
        second.len() == 0,
        after == before,
        outcome.mismatches@.len() == 0,
        outcome.fault is None,
{
    let later = until_none_ready(second);
    law_draining_takes_all(waiting, first, later);
    if second.len() > 0 {
        assert(later[0] == Some(second[0]));
        assert(false);
    }
    if let Some(texture) = lookup(before, handle) {
        assert(after =~= before);
    }
}

/// Without a frame a texture stays as it is.
pub proof fn law_no_frame_changes_nothing(texture: TextureView)
    ensures
        showing(texture, Seq::empty()).texture == texture,
        showing(texture, Seq::empty()).mismatches.len() == 0,
        showing(texture, Seq::empty()).fault is None,
{
}

/// What one frame does to a texture, by lengths alone. Where three bytes for each pixel make up
/// more than 32 bits can count, it ends the showing. A frame whose length has other low 32 bits
/// than that is complained of with both lengths. Of the others, one that is as long as the bytes of
/// the texture replaces them, whatever that length is, and any other ends the showing.
pub proof fn law_one_frame_by_its_length(texture: TextureView, frame: Seq<u8>)
    requires
        texture.data.len() <= usize::MAX,
        frame.len() <= usize::MAX,
    ensures
        ({
            let size = texture.width * texture.height * 3;
            let after = showing(texture, seq![frame]);
            if size > u32::MAX {
                &&& after.texture == texture
                &&& after.mismatches.len() == 0
                &&& after.fault == Some(FrameFault::SizeOverflow)
            } else if frame.len() % 0x1_0000_0000 != size {
                &&& after.texture == texture
                &&& after.mismatches.len() == 1
                &&& after.mismatches[0].expected == size
                &&& after.mismatches[0].got == frame.len()
                &&& after.fault is None
            } else if frame.len() == texture.data.len() {
                &&& after.texture.data == frame
                &&& after.texture.width == texture.width
                &&& after.texture.height == texture.height
                &&& after.mismatches.len() == 0
                &&& after.fault is None
            } else {
                &&& after.texture == texture
                &&& after.mismatches.len() == 0
                &&& after.fault matches Some(FrameFault::LengthConflict(conflict))
                    && conflict.expected == texture.data.len() && conflict.got == frame.len()
            }
        }),
{
    reveal_with_fuel(showing, 2);
    assert(seq![frame].drop_last() =~= Seq::empty());
    assert(seq![frame].last() == frame);
    assert(0 <= texture.width * texture.height) by (nonlinear_arith)
        requires
            0 <= texture.width,
            0 <= texture.height,
    ;
}

/// A texture of three bytes for each pixel shows every frame of that length: it is left with the
/// bytes of the last one, nothing is complained of, and there is no fault.
pub proof fn law_fitting_frames_show(texture: TextureView, frames: Seq<Seq<u8>>)
    requires
        texture.data.len() == texture.width * texture.height * 3,
        texture.data.len() <= u32::MAX,
        frames.len() > 0,
        forall|i: int|
            0 <= i < frames.len() ==> (#[trigger] frames[i]).len() == texture.data.len(),
    ensures
        showing(texture, frames).texture.data == frames[frames.len() - 1],
        showing(texture, frames).texture.width == texture.width,
        showing(texture, frames).texture.height == texture.height,
        showing(texture, frames).mismatches.len() == 0,
        showing(texture, frames).fault is None,
    decreases frames.len(),
{
    let earlier = frames.drop_last();
    if earlier.len() > 0 {
        assert forall|i: int| 0 <= i < earlier.len() implies (#[trigger] earlier[i]).len()
            == texture.data.len() by {
            assert(earlier[i] == frames[i]);
        }
        law_fitting_frames_show(texture, earlier);
    } else {
        law_no_frame_changes_nothing(texture);
        assert(earlier =~= Seq::empty());
    }
    let before = showing(texture, earlier).texture;
    law_viewer_keeps_shape(texture, earlier);
    assert(before.rgb_size() == texture.data.len());
    assert(before.accepts(frames.last()) && before.fault(frames.last()) is None);
}

/// An update changes no texture but the one of its handle, and that one as showing the frames on
/// it does. Without a texture there it changes nothing.
pub proof fn law_update_changes_its_texture_alone(
    before: Seq<Option<TextureView>>,
    after: Seq<Option<TextureView>>,
    handle: usize,
    frames: Seq<Seq<u8>>,
    outcome: ShowOutcome,
)
    requires
        shows(before, after, handle, frames, outcome),
    ensures
        after.len() == before.len(),
        forall|i: int|
            0 <= i < before.len() && i != handle ==> #[trigger] after[i] == before[i],
        if handle < before.len() && before[handle as int] is Some {
            let shown = showing(before[handle as int]->0, frames);
            &&& after[handle as int] == Some(shown.texture)
            &&& outcome.mismatches@ == shown.mismatches
            &&& outcome.fault == shown.fault
        } else {
            &&& after == before
            &&& outcome.mismatches@.len() == 0
            &&& outcome.fault is None
        },
{
}

/// An update whose frames all have three bytes for each pixel of a texture that holds as many
/// leaves the last of them on that texture.
pub proof fn law_update_shows_fitting_frames(
    before: Seq<Option<TextureView>>,
    after: Seq<Option<TextureView>>,
    handle: usize,
    frames: Seq<Seq<u8>>,
    outcome: ShowOutcome,
    texture: TextureView,
)
    requires
        shows(before, after, handle, frames, outcome),
        handle < before.len(),
        before[handle as int] == Some(texture),
        texture.data.len() == texture.width * texture.height * 3,
        texture.data.len() <= u32::MAX,
        frames.len() > 0,
        forall|i: int|
            0 <= i < frames.len() ==> (#[trigger] frames[i]).len() == texture.data.len(),
    ensures
        after[handle as int] is Some,
        after[handle as int]->0.data == frames[frames.len() - 1],
        outcome.mismatches@.len() == 0,
        outcome.fault is None,
{
    law_fitting_frames_show(texture, frames);
}

} // verus!
