//! The clients of the server and what each of them is sent.
use crossbeam_channel::{Receiver, Sender};
use vstd::prelude::*;

use crate::capture::GstReceiver;
use crate::channel::{
    bytes_of, capacity, deliveries, frame_channel, frames_put, joined, law_draining_takes_all,
    law_frames_count_by_their_bytes, put_frame,
    receive_ready_frames, receive_ready_senders, receiver_stays, receptions, register,
    registrations, registry_capacity, registry_joined, registry_receiver_stays, registry_stays,
    sender_stays, senders_received, unbounded_registry, undisturbed, until_none_ready,
};

verus! {

/// Where the clients that have just connected are announced, each by the sender of its frames.
pub struct NewClientReceiver {
    pub receiver: Receiver<Sender<Vec<u8>>>,
}

/// The clients that frames are sent to, in the order in which they were accepted.
pub struct WebRTCConnections {
    pub senders: Vec<Sender<Vec<u8>>>,
}

impl Default for WebRTCConnections {
    fn default() -> (r: Self)
        ensures
            r.senders@.len() == 0,
    {
        WebRTCConnections { senders: Vec::new() }
    }
}

/// A client has been put `frames` on top of what it had been put before, through the channel that
/// it had before.
pub open spec fn put_to(
    before: Sender<Vec<u8>>,
    after: Sender<Vec<u8>>,
    frames: Seq<Seq<u8>>,
) -> bool {
    &&& frames_put(after) == frames_put(before) + frames
    &&& sender_stays(before, after)
}

/// Every client of `before` has been put `frames`.
pub open spec fn all_put(
    before: Seq<Sender<Vec<u8>>>,
    after: Seq<Sender<Vec<u8>>>,
    frames: Seq<Seq<u8>>,
) -> bool {
    &&& after.len() == before.len()
    &&& forall|i: int| 0 <= i < before.len() ==> put_to(before[i], #[trigger] after[i], frames)
}

impl WebRTCConnections {
    /// Adds clients behind those that are there.
    pub fn add_clients(&mut self, arrived: Vec<Sender<Vec<u8>>>)
        ensures
            final(self).senders@ == old(self).senders@ + arrived@,
    {
        let mut arrived = arrived;
        self.senders.append(&mut arrived);
    }

    /// Puts one frame to every client. A client that is gone does not keep it from the others.
    fn broadcast_frame(&mut self, frame: &Vec<u8>)
        ensures
            all_put(old(self).senders@, final(self).senders@, seq![frame@]),
    {
        let ghost before = self.senders@;
        let mut i: usize = 0;
        while i < self.senders.len()
            invariant
                i <= self.senders@.len() == before.len(),
                forall|j: int|
                    0 <= j < i ==> put_to(before[j], #[trigger] self.senders@[j], seq![frame@]),
                forall|j: int| i <= j < before.len() ==> #[trigger] self.senders@[j] == before[j],
            decreases before.len() - i,
        {
            let copy = frame.clone();
            assert(copy@ =~= frame@);
            put_frame(&mut self.senders[i], copy);
            assert(frames_put(self.senders@[i as int]) =~= frames_put(before[i as int])
                + seq![frame@]);
            i += 1;
        }
    }

    /// Puts frames to every client, in order. Where the channel of a client is of bounded capacity
    /// and full, it waits for room.
    pub fn broadcast(&mut self, frames: Vec<Vec<u8>>)
        ensures
            all_put(old(self).senders@, final(self).senders@, bytes_of(frames@)),
    {
        let ghost before = self.senders@;
        let mut k: usize = 0;
        assert(bytes_of(frames@.take(0)) =~= Seq::<Seq<u8>>::empty());
        assert forall|i: int| 0 <= i < before.len() implies put_to(
            before[i],
            #[trigger] before[i],
            bytes_of(frames@.take(0)),
        ) by {
            assert(frames_put(before[i]) =~= frames_put(before[i]) + bytes_of(frames@.take(0)));
        }
        while k < frames.len()
            invariant
                k <= frames@.len(),
                all_put(before, self.senders@, bytes_of(frames@.take(k as int))),
            decreases frames@.len() - k,
        {
            let ghost middle = self.senders@;
            self.broadcast_frame(&frames[k]);
            assert forall|i: int| 0 <= i < before.len() implies put_to(
                before[i],
                #[trigger] self.senders@[i],
                bytes_of(frames@.take(k + 1)),
            ) by {
                assert(put_to(before[i], middle[i], bytes_of(frames@.take(k as int))));
                assert(frames_put(self.senders@[i]) =~= frames_put(before[i]) + bytes_of(
                    frames@.take(k + 1),
                ));
            }
            k += 1;
        }
        assert(frames@.take(k as int) =~= frames@);
    }
}

/// Opens the channel on which clients are announced, and returns its two ends. It has no limit,
/// and nothing has gone through it.
pub fn open_registry() -> (r: (Sender<Sender<Vec<u8>>>, NewClientReceiver))
    ensures
        registrations(r.0) == Seq::<(Sender<Vec<u8>>, bool)>::empty(),
        senders_received(r.1.receiver) == Seq::<Option<Sender<Vec<u8>>>>::empty(),
        registry_joined(r.0, r.1.receiver),
        registry_capacity(r.0) is None,
{
    let (registry, receiver) = unbounded_registry();
    (registry, NewClientReceiver { receiver })
}

/// Announces a client that has just connected by the sender of a channel of its own, which has no
/// limit and through which nothing has gone. Returns the other end of that channel, or nothing
/// where the announcement was not taken. On a registry of bounded capacity that is full, it waits
/// for room.
pub fn register_client(registry: &mut Sender<Sender<Vec<u8>>>) -> (r: Option<Receiver<Vec<u8>>>)
    ensures
        exists|sender: Sender<Vec<u8>>|
            {
                &&& #[trigger] frames_put(sender) == Seq::<Seq<u8>>::empty()
                &&& registrations(*final(registry)) == registrations(*old(registry)).push(
                    (sender, r is Some),
                )
                &&& r matches Some(receiver) ==> joined(sender, receiver)
                &&& capacity(sender) is None
            },
        registry_stays(*old(registry), *final(registry)),
        r matches Some(receiver) ==> receptions(receiver) == Seq::<Option<Seq<u8>>>::empty(),
{
    let (sender, receiver) = frame_channel();
    let ghost announced = sender;
    assert(frames_put(announced) == Seq::<Seq<u8>>::empty());
    match register(registry, sender) {
        Ok(()) => Some(receiver),
        Err(_) => None,
    }
}

/// Accepts the clients that have connected since the last call: those that are received, in
/// order, until none is ready, behind those that are there.
pub fn accept_new_clients(connections: &mut WebRTCConnections, new_clients: &mut NewClientReceiver)
    ensures
        exists|arrived: Seq<Sender<Vec<u8>>>|
            {
                &&& senders_received(final(new_clients).receiver) == senders_received(
                    old(new_clients).receiver,
                ) + #[trigger] until_none_ready(arrived)
                &&& final(connections).senders@ == old(connections).senders@ + arrived
            },
        registry_receiver_stays(old(new_clients).receiver, final(new_clients).receiver),
{
    let arrived = receive_ready_senders(&mut new_clients.receiver);
    connections.add_clients(arrived);
}

/// Sends the frames that have been captured since the last call to every client: those that are
/// received, in order, until none is ready. Where the channel of a client is of bounded capacity
/// and full, it waits for room.
pub fn broadcast_vp8_frames(gst: &mut GstReceiver, connections: &mut WebRTCConnections)
    ensures
        exists|frames: Seq<Seq<u8>>|
            {
                &&& receptions(final(gst).receiver) == receptions(old(gst).receiver)
                    + until_none_ready(frames)
                &&& #[trigger] all_put(
                    old(connections).senders@,
                    final(connections).senders@,
                    frames,
                )
            },
        receiver_stays(old(gst).receiver, final(gst).receiver),
{
    let frames = receive_ready_frames(&mut gst.receiver);
    connections.broadcast(frames);
}

/// Frames that are broadcast in two turns reach every client as if they had been broadcast in
/// one.
pub proof fn law_broadcasts_add_up(
    before: Seq<Sender<Vec<u8>>>,
    middle: Seq<Sender<Vec<u8>>>,
    after: Seq<Sender<Vec<u8>>>,
    first: Seq<Seq<u8>>,
    second: Seq<Seq<u8>>,
)
    requires
        all_put(before, middle, first),
        all_put(middle, after, second),
    ensures
        all_put(before, after, first + second),
{
    assert forall|i: int| 0 <= i < before.len() implies put_to(
        before[i],
        #[trigger] after[i],
        first + second,
    ) by {
        assert(put_to(before[i], middle[i], first));
        assert(frames_put(after[i]) =~= frames_put(before[i]) + (first + second));
    }
}

/// A client that is accepted between two broadcasts is put the frames of the second alone, and
/// the clients from before are put those of both.
pub proof fn law_newcomers_get_later_frames(
    before: Seq<Sender<Vec<u8>>>,
    middle: Seq<Sender<Vec<u8>>>,
    arrived: Seq<Sender<Vec<u8>>>,
    after: Seq<Sender<Vec<u8>>>,
    first: Seq<Seq<u8>>,
    second: Seq<Seq<u8>>,
)
    requires
        all_put(before, middle, first),
        all_put(middle + arrived, after, second),
    ensures
        all_put(before, after.take(before.len() as int), first + second),
        all_put(arrived, after.skip(before.len() as int), second),
{
    let n = before.len() as int;
    assert forall|i: int| 0 <= i < n implies put_to(
        middle[i],
        #[trigger] after.take(n)[i],
        second,
    ) by {
        assert(put_to((middle + arrived)[i], after[i], second));
    }
    law_broadcasts_add_up(before, middle, after.take(n), first, second);
    assert forall|i: int| 0 <= i < arrived.len() implies put_to(
        arrived[i],
        #[trigger] after.skip(n)[i],
        second,
    ) by {
        assert(put_to((middle + arrived)[n + i], after[n + i], second));
    }
}

/// A broadcast puts every frame, with all its bytes and in order, to every client, behind what that
/// client had been put before, and leaves each client with its channel.
pub proof fn law_broadcast_reaches_every_client(
    before: Seq<Sender<Vec<u8>>>,
    after: Seq<Sender<Vec<u8>>>,
    frames: Seq<Seq<u8>>,
    i: int,
)
    requires
        all_put(before, after, frames),
        0 <= i < before.len(),
    ensures
        after.len() == before.len(),
        deliveries(after[i]).len() == deliveries(before[i]).len() + frames.len(),
        forall|k: int|
            0 <= k < deliveries(before[i]).len() ==> (#[trigger] deliveries(after[i])[k]).0
                == deliveries(before[i])[k].0,
        forall|k: int|
            0 <= k < frames.len() ==> deliveries(after[i])[deliveries(before[i]).len() + k].0
                == #[trigger] frames[k],
        forall|receiver: Receiver<Vec<u8>>| #[trigger]
            joined(before[i], receiver) ==> joined(after[i], receiver),
{
    assert(put_to(before[i], after[i], frames));
    let none = Seq::<Vec<u8>>::empty();
    law_frames_count_by_their_bytes(none, before[i]);
    law_frames_count_by_their_bytes(none, after[i]);
    let had = frames_put(before[i]);
    let has = frames_put(after[i]);
    assert(has.len() == had.len() + frames.len());
    assert forall|k: int| 0 <= k < deliveries(before[i]).len() implies (#[trigger] deliveries(
        after[i],
    )[k]).0 == deliveries(before[i])[k].0 by {
        assert(has[k] == had[k]);
    }
    assert forall|k: int| 0 <= k < frames.len() implies deliveries(after[i])[deliveries(
        before[i],
    ).len() + k].0 == #[trigger] frames[k] by {
        assert(has[had.len() + k] == frames[k]);
    }
    assert forall|receiver: Receiver<Vec<u8>>| #[trigger]
        joined(before[i], receiver) implies joined(after[i], receiver) by {
        assert(joined(after[i], receiver) == joined(before[i], receiver));
    }
}

/// Where nobody else sends or receives, one call accepts every client that is waiting, in the
/// order in which they were announced, and leaves none for a later call.
pub proof fn law_waiting_clients_are_accepted(
    waiting: Seq<Sender<Vec<u8>>>,
    arrived: Seq<Sender<Vec<u8>>>,
    later: Seq<Option<Sender<Vec<u8>>>>,
    before: Seq<Sender<Vec<u8>>>,
    after: Seq<Sender<Vec<u8>>>,
)
    requires
        undisturbed(waiting, until_none_ready(arrived) + later),
        after == before + arrived,
    ensures
        after == before + waiting,
        forall|i: int| 0 <= i < later.len() ==> #[trigger] later[i] is None,
{
    law_draining_takes_all(waiting, arrived, later);
}

/// Each client that was waiting is put the frames of the next broadcast, and no others, through
/// its own channel: the clients' receivers, in the order in which the clients were announced, are
/// the other ends of the senders behind those that were there.
pub proof fn law_frames_reach_their_client(
    waiting: Seq<Sender<Vec<u8>>>,
    receivers: Seq<Receiver<Vec<u8>>>,
    arrived: Seq<Sender<Vec<u8>>>,
    before: Seq<Sender<Vec<u8>>>,
    after: Seq<Sender<Vec<u8>>>,
    frames: Seq<Seq<u8>>,
)
    requires
        receivers.len() == waiting.len(),
        forall|i: int| 0 <= i < waiting.len() ==> joined(waiting[i], #[trigger] receivers[i]),
        forall|i: int| 0 <= i < waiting.len() ==> frames_put(#[trigger] waiting[i]).len() == 0,
        undisturbed(waiting, until_none_ready(arrived)),
        all_put(before + arrived, after, frames),
    ensures
        after.len() == before.len() + receivers.len(),
        forall|i: int|
            0 <= i < receivers.len() ==> {
                &&& joined(after[before.len() + i], #[trigger] receivers[i])
                &&& frames_put(after[before.len() + i]) == frames
            },
{
    let none = Seq::<Option<Sender<Vec<u8>>>>::empty();
    assert(until_none_ready(arrived) + none =~= until_none_ready(arrived));
    law_draining_takes_all(waiting, arrived, none);
    let n = before.len() as int;
    assert forall|i: int| 0 <= i < receivers.len() implies {
        &&& joined(after[n + i], #[trigger] receivers[i])
        &&& frames_put(after[n + i]) == frames
    } by {
        assert((before + arrived)[n + i] == waiting[i]);
        assert(put_to((before + arrived)[n + i], after[n + i], frames));
        assert(frames_put(waiting[i]) + frames =~= frames);
    }
}

} // verus!
