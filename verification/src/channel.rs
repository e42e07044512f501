//! Channels that carry encoded or raw video frames between threads.
use crossbeam_channel::{Receiver, Sender};
use vstd::prelude::*;

verus! {

/// The sending half of a channel.
#[verifier::external_type_specification]
#[verifier::external_body]
#[verifier::reject_recursive_types(T)]
pub struct ExSender<T>(crossbeam_channel::Sender<T>);

/// The receiving half of a channel.
#[verifier::external_type_specification]
#[verifier::external_body]
#[verifier::reject_recursive_types(T)]
pub struct ExReceiver<T>(crossbeam_channel::Receiver<T>);

/// The frames that were put to a sender, in order, each with whether the channel took it.
pub uninterp spec fn deliveries(sender: Sender<Vec<u8>>) -> Seq<(Seq<u8>, bool)>;

/// The frames that were put to a sender, in order.
pub open spec fn frames_put(sender: Sender<Vec<u8>>) -> Seq<Seq<u8>> {
    deliveries(sender).map_values(|delivery: (Seq<u8>, bool)| delivery.0)
}

/// The attempts that were made to receive a frame through a receiver, in order: each with the
/// frame that it brought, or nothing where none was ready.
pub uninterp spec fn receptions(receiver: Receiver<Vec<u8>>) -> Seq<Option<Seq<u8>>>;

/// The attempts of receiving until nothing is ready: each of `messages`, then nothing.
pub open spec fn until_none_ready<T>(messages: Seq<T>) -> Seq<Option<T>> {
    messages.map_values(|message: T| Some(message)).push(None)
}

/// What attempts bring that are made on a channel that holds `queue` while nobody else sends to
/// it or receives from it: what it holds, in order, then nothing.
pub open spec fn undisturbed<T>(queue: Seq<T>, attempts: Seq<Option<T>>) -> bool {
    forall|i: int|
        0 <= i < attempts.len() ==> #[trigger] attempts[i] == (if i < queue.len() {
            Some(queue[i])
        } else {
            None
        })
}

/// Whether a sender and a receiver are ends of one channel: what is sent through the one is
/// received through the other.
pub uninterp spec fn joined(sender: Sender<Vec<u8>>, receiver: Receiver<Vec<u8>>) -> bool;

/// How many frames the channel of a sender holds at most; nothing where there is no limit.
pub uninterp spec fn capacity(sender: Sender<Vec<u8>>) -> Option<usize>;

/// Whether a registry and a receiver are ends of one channel: what is registered with the one is
/// received through the other.
pub uninterp spec fn registry_joined(
    registry: Sender<Sender<Vec<u8>>>,
    receiver: Receiver<Sender<Vec<u8>>>,
) -> bool;

/// How many senders the channel of a registry holds at most; nothing where there is no limit.
pub uninterp spec fn registry_capacity(registry: Sender<Sender<Vec<u8>>>) -> Option<usize>;

/// The sender still belongs to the channel that it belonged to.
pub open spec fn sender_stays(before: Sender<Vec<u8>>, after: Sender<Vec<u8>>) -> bool {
    &&& capacity(after) == capacity(before)
    &&& forall|receiver: Receiver<Vec<u8>>| #[trigger]
        joined(after, receiver) == joined(before, receiver)
}

/// The receiver still belongs to the channel that it belonged to.
pub open spec fn receiver_stays(before: Receiver<Vec<u8>>, after: Receiver<Vec<u8>>) -> bool {
    forall|sender: Sender<Vec<u8>>| #[trigger] joined(sender, after) == joined(sender, before)
}

/// The registry still belongs to the channel that it belonged to.
pub open spec fn registry_stays(
    before: Sender<Sender<Vec<u8>>>,
    after: Sender<Sender<Vec<u8>>>,
) -> bool {
    &&& registry_capacity(after) == registry_capacity(before)
    &&& forall|receiver: Receiver<Sender<Vec<u8>>>| #[trigger]
        registry_joined(after, receiver) == registry_joined(before, receiver)
}

/// The receiver of senders still belongs to the channel that it belonged to.
pub open spec fn registry_receiver_stays(
    before: Receiver<Sender<Vec<u8>>>,
    after: Receiver<Sender<Vec<u8>>>,
) -> bool {
    forall|registry: Sender<Sender<Vec<u8>>>| #[trigger]
        registry_joined(registry, after) == registry_joined(registry, before)
}

/// The senders that were put to a registry, in order, each with whether the channel took it.
pub uninterp spec fn registrations(registry: Sender<Sender<Vec<u8>>>) -> Seq<
    (Sender<Vec<u8>>, bool),
>;

/// The attempts that were made to receive a sender through a receiver, in order: each with the
/// sender that it brought, or nothing where none was ready.
pub uninterp spec fn senders_received(receiver: Receiver<Sender<Vec<u8>>>) -> Seq<
    Option<Sender<Vec<u8>>>,
>;

/// The bytes of each of some frames.
pub open spec fn bytes_of(frames: Seq<Vec<u8>>) -> Seq<Seq<u8>> {
    frames.map_values(|frame: Vec<u8>| frame@)
}

/// Calls `crossbeam_channel::unbounded`. The two are ends of one channel, which has no limit.
/// Nothing has been put to the new sender, and no attempt has been made to receive through the new
/// receiver.
#[verifier::external_body]
fn unbounded() -> (r: (Sender<Vec<u8>>, Receiver<Vec<u8>>))
    ensures
        deliveries(r.0) == Seq::<(Seq<u8>, bool)>::empty(),
        receptions(r.1) == Seq::<Option<Seq<u8>>>::empty(),
        joined(r.0, r.1),
        capacity(r.0) is None,
{
    crossbeam_channel::unbounded()
}

/// Calls `crossbeam_channel::Sender::send`. The frame counts as put to the sender whether or not
/// the channel takes it; a channel that has no receiver left hands the frame back. A channel of
/// bounded capacity makes the call wait for room. Which channels have a receiver left is for the
/// threads that hold them to decide, so nothing is said of when the frame is taken. The sender
/// stays with its channel.
#[verifier::external_body]
fn send(sender: &mut Sender<Vec<u8>>, frame: Vec<u8>) -> (r: Result<(), Vec<u8>>)
    ensures
        deliveries(*final(sender)) == deliveries(*old(sender)).push((frame@, r is Ok)),
        r matches Err(returned) ==> returned@ == frame@,
        sender_stays(*old(sender), *final(sender)),
{
    sender.send(frame).map_err(|error| error.0)
}

/// Calls `crossbeam_channel::unbounded` for a channel that carries senders. The two are ends of
/// one channel, which has no limit. Nothing has been put to the new registry, and no attempt has
/// been made to receive through the new receiver.
#[verifier::external_body]
pub(crate) fn unbounded_registry() -> (r: (
    Sender<Sender<Vec<u8>>>,
    Receiver<Sender<Vec<u8>>>,
))
    ensures
        registrations(r.0) == Seq::<(Sender<Vec<u8>>, bool)>::empty(),
        senders_received(r.1) == Seq::<Option<Sender<Vec<u8>>>>::empty(),
        registry_joined(r.0, r.1),
        registry_capacity(r.0) is None,
{
    crossbeam_channel::unbounded()
}

/// Calls `crossbeam_channel::Sender::send` on a channel that carries senders. The sender counts
/// as put to the registry whether or not the channel takes it; a channel that has no receiver
/// left hands it back. A channel of bounded capacity makes the call wait for room. When a receiver
/// is left is for the threads that hold it to decide. The registry stays with its channel.
#[verifier::external_body]
pub(crate) fn register(
    registry: &mut Sender<Sender<Vec<u8>>>,
    sender: Sender<Vec<u8>>,
) -> (r: Result<(), Sender<Vec<u8>>>)
    ensures
        registrations(*final(registry)) == registrations(*old(registry)).push((sender, r is Ok)),
        r matches Err(returned) ==> returned == sender,
        registry_stays(*old(registry), *final(registry)),
{
    registry.send(sender).map_err(|error| error.0)
}

/// Collects `crossbeam_channel::Receiver::try_iter`: receives frames without waiting until none is
/// ready, so for as long as frames keep coming. How many are ready, and which, depends on the
/// threads that send. The receiver stays with its channel.
#[verifier::external_body]
pub(crate) fn receive_ready_frames(receiver: &mut Receiver<Vec<u8>>) -> (r: Vec<Vec<u8>>)
    ensures
        receptions(*final(receiver)) == receptions(*old(receiver)) + until_none_ready(bytes_of(r@)),
        receiver_stays(*old(receiver), *final(receiver)),
{
    receiver.try_iter().collect()
}

/// Collects `crossbeam_channel::Receiver::try_iter`: receives senders without waiting until none
/// is ready, so for as long as senders keep coming. How many are ready, and which, depends on the
/// threads that send. The receiver stays with its channel.
#[verifier::external_body]
pub(crate) fn receive_ready_senders(receiver: &mut Receiver<Sender<Vec<u8>>>) -> (r: Vec<
    Sender<Vec<u8>>,
>)
    ensures
        senders_received(*final(receiver)) == senders_received(*old(receiver)) + until_none_ready(
            r@,
        ),
        registry_receiver_stays(*old(receiver), *final(receiver)),
{
    receiver.try_iter().collect()
}

/// Calls `crossbeam_channel::Receiver::try_recv`: makes one attempt to receive, which brings a
/// frame if one is ready. Whether one is, and which, depends on the threads that send. The
/// receiver stays with its channel.
#[verifier::external_body]
pub(crate) fn receive_frame(receiver: &mut Receiver<Vec<u8>>) -> (r: Option<Vec<u8>>)
    ensures
        receptions(*final(receiver)) == receptions(*old(receiver)).push(
            match r {
                Some(frame) => Some(frame@),
                None => None,
            },
        ),
        receiver_stays(*old(receiver), *final(receiver)),
{
    receiver.try_recv().ok()
}

/// Opens a channel for frames, without a limit, through which nothing has gone, and returns its
/// two ends.
pub fn frame_channel() -> (r: (Sender<Vec<u8>>, Receiver<Vec<u8>>))
    ensures
        frames_put(r.0) == Seq::<Seq<u8>>::empty(),
        receptions(r.1) == Seq::<Option<Seq<u8>>>::empty(),
        joined(r.0, r.1),
        capacity(r.0) is None,
{
    let r = unbounded();
    assert(frames_put(r.0) =~= Seq::<Seq<u8>>::empty());
    r
}

/// Puts a frame to a sender and tells whether the channel took it. On a channel of bounded
/// capacity that is full, it waits for room.
pub fn put_frame(sender: &mut Sender<Vec<u8>>, frame: Vec<u8>) -> (taken: bool)
    ensures
        deliveries(*final(sender)) == deliveries(*old(sender)).push((frame@, taken)),
        frames_put(*final(sender)) == frames_put(*old(sender)).push(frame@),
        sender_stays(*old(sender), *final(sender)),
{
    let taken = match send(sender, frame) {
        Ok(()) => true,
        Err(_) => false,
    };
    assert(frames_put(*sender) =~= frames_put(*old(sender)).push(frame@));
    taken
}

/// Where nobody else sends or receives, receiving until nothing is ready brings all that the
/// channel holds, in order, and leaves nothing for a later attempt.
pub proof fn law_draining_takes_all<T>(queue: Seq<T>, received: Seq<T>, later: Seq<Option<T>>)
    requires
        undisturbed(queue, until_none_ready(received) + later),
    ensures
        received == queue,
        forall|i: int| 0 <= i < later.len() ==> #[trigger] later[i] is None,
{
    let attempts = until_none_ready(received) + later;
    let n = received.len() as int;
    assert(attempts[n] is None);
    assert forall|i: int| 0 <= i < n implies #[trigger] received[i] == queue[i] by {
        assert(attempts[i] == Some(received[i]));
    }
    assert(received.len() == queue.len()) by {
        if queue.len() < n {
            assert(attempts[queue.len() as int] == Some(received[queue.len() as int]));
        }
    }
    assert(received =~= queue);
    assert forall|i: int| 0 <= i < later.len() implies #[trigger] later[i] is None by {
        assert(attempts[n + 1 + i] == later[i]);
    }
}

/// Receiving until nothing is ready is to receive each message, unchanged and in order, and then
/// nothing once; and so it goes on a channel that holds those messages.
pub proof fn law_each_message_is_received_once<T>(messages: Seq<T>)
    ensures
        until_none_ready(messages).len() == messages.len() + 1,
        forall|i: int|
            0 <= i < messages.len() ==> #[trigger] until_none_ready(messages)[i] == Some(
                messages[i],
            ),
        until_none_ready(messages)[messages.len() as int] is None,
        undisturbed(messages, until_none_ready(messages)),
{
}

/// Frames count by their own bytes, in order, whether they were received or put to a sender.
pub proof fn law_frames_count_by_their_bytes(frames: Seq<Vec<u8>>, sender: Sender<Vec<u8>>)
    ensures
        bytes_of(frames).len() == frames.len(),
        forall|i: int| 0 <= i < frames.len() ==> #[trigger] bytes_of(frames)[i] == frames[i]@,
        frames_put(sender).len() == deliveries(sender).len(),
        forall|i: int|
            0 <= i < deliveries(sender).len() ==> #[trigger] frames_put(sender)[i]
                == deliveries(sender)[i].0,
{
}

/// Ends that stay with their channels stay joined, and the channel keeps its limit.
pub proof fn law_ends_stay_joined(
    sender: Sender<Vec<u8>>,
    receiver: Receiver<Vec<u8>>,
    later_sender: Sender<Vec<u8>>,
    later_receiver: Receiver<Vec<u8>>,
)
    requires
        joined(sender, receiver),
        sender_stays(sender, later_sender),
        receiver_stays(receiver, later_receiver),
    ensures
        joined(later_sender, later_receiver),
        capacity(later_sender) == capacity(sender),
{
    assert(joined(later_sender, receiver) == joined(sender, receiver));
    assert(joined(later_sender, later_receiver) == joined(later_sender, receiver));
}

/// The ends of the channel of a registry stay joined likewise.
pub proof fn law_registry_stays_joined(
    registry: Sender<Sender<Vec<u8>>>,
    receiver: Receiver<Sender<Vec<u8>>>,
    later_registry: Sender<Sender<Vec<u8>>>,
    later_receiver: Receiver<Sender<Vec<u8>>>,
)
    requires
        registry_joined(registry, receiver),
        registry_stays(registry, later_registry),
        registry_receiver_stays(receiver, later_receiver),
    ensures
        registry_joined(later_registry, later_receiver),
        registry_capacity(later_registry) == registry_capacity(registry),
{
    assert(registry_joined(later_registry, receiver) == registry_joined(registry, receiver));
    assert(registry_joined(later_registry, later_receiver) == registry_joined(
        later_registry,
        receiver,
    ));
}

} // verus!
