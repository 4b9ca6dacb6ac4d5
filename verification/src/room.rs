//! The registry of a room: which peers it holds, under which identifiers,
//! and how it closes.
//!
//! [`RoomState`] decides; whoever drives a room creates and closes the
//! peers it admits and runs the close handlers. A peer `P` is whatever that
//! driver keeps for one.

use vstd::prelude::*;

use crate::error::RoomError;

verus! {

/// The view of a [`RoomState`].
pub struct RoomView<P> {
    pub closed: bool,
    /// The peers, with their identifiers, in the order they joined.
    pub peers: Seq<(Seq<char>, P)>,
}

/// The identifiers of `peers`, in order.
pub open spec fn ids_of<P>(peers: Seq<(Seq<char>, P)>) -> Seq<Seq<char>> {
    peers.map_values(|e: (Seq<char>, P)| e.0)
}

impl<P> RoomView<P> {
    /// Whether a peer with identifier `id` is in the room.
    pub open spec fn holds(self, id: Seq<char>) -> bool {
        ids_of(self.peers).contains(id)
    }

    /// A room never holds two peers with one identifier, nor a peer with an
    /// empty identifier, and a closed room holds no peer.
    pub open spec fn well_formed(self) -> bool {
        &&& ids_of(self.peers).no_duplicates()
        &&& forall|i: int| 0 <= i < self.peers.len() ==> #[trigger] self.peers[i].0.len() > 0
        &&& self.closed ==> self.peers.len() == 0
    }
}

/// The registry of a room.
pub struct RoomState<P> {
    closed: bool,
    peers: Vec<(String, P)>,
}

impl<P> View for RoomState<P> {
    type V = RoomView<P>;

    closed spec fn view(&self) -> RoomView<P> {
        RoomView {
            closed: self.closed,
            peers: self.peers@.map_values(|e: (String, P)| (e.0@, e.1)),
        }
    }
}

impl<P> RoomState<P> {
    /// Every room is well formed.
    #[verifier::type_invariant]
    spec fn room_invariant(self) -> bool {
        self@.well_formed()
    }

    /// A new open room with no peer.
    pub fn new() -> (room: Self)
        ensures
            !room@.closed,
            room@.peers == Seq::<(Seq<char>, P)>::empty(),
            room@.well_formed(),
    {
        let room = RoomState { closed: false, peers: Vec::new() };
        assert(room@.peers =~= Seq::<(Seq<char>, P)>::empty());
        room
    }

    pub fn closed(&self) -> (closed: bool)
        ensures
            closed == self@.closed,
    {
        self.closed
    }

    /// The position of the peer named `peer_id`, if the room holds one.
    fn position(&self, peer_id: &str) -> (pos: Option<usize>)
        ensures
            match pos {
                Some(i) => i < self@.peers.len() && self@.peers[i as int].0 == peer_id@,
                None => !self@.holds(peer_id@),
            },
    {
        let wanted = peer_id.to_string();
        let n: usize = self.peers.len();
        for i in 0..n
            invariant
                n == self.peers@.len(),
                wanted@ == peer_id@,
                forall|j: int| 0 <= j < i ==> self@.peers[j].0 != peer_id@,
        {
            if self.peers[i].0 == wanted {
                return Some(i);
            }
        }
        proof {
            if self@.holds(peer_id@) {
                let j: int = choose|j: int| 0 <= j < ids_of(self@.peers).len() && ids_of(self@.peers)[j] == peer_id@;
                assert(self@.peers[j].0 == peer_id@);
            }
        }
        None
    }

    pub fn has_peer(&self, peer_id: &str) -> (held: bool)
        ensures
            held == self@.holds(peer_id@),
    {
        match self.position(peer_id) {
            Some(i) => {
                assert(ids_of(self@.peers)[i as int] == peer_id@);
                true
            },
            None => false,
        }
    }

    /// The peer named `peer_id`, if the room holds one.
    pub fn get_peer(&self, peer_id: &str) -> (peer: Option<&P>)
        ensures
            match peer {
                Some(p) => exists|i: int|
                    0 <= i < self@.peers.len() && self@.peers[i].0 == peer_id@ && self@.peers[i].1 == *p,
                None => !self@.holds(peer_id@),
            },
    {
        match self.position(peer_id) {
            Some(i) => Some(&self.peers[i].1),
            None => None,
        }
    }

    /// The peers of the room, in the order they joined.
    pub fn peers(&self) -> (peers: Vec<&P>)
        ensures
            peers@.len() == self@.peers.len(),
            forall|i: int| 0 <= i < peers@.len() ==> *#[trigger] peers@[i] == self@.peers[i].1,
    {
        let mut out: Vec<&P> = Vec::new();
        let n: usize = self.peers.len();
        for i in 0..n
            invariant
                n == self.peers@.len(),
                out@.len() == i,
                forall|j: int| 0 <= j < i ==> *#[trigger] out@[j] == self@.peers[j].1,
        {
            out.push(&self.peers[i].1);
        }
        out
    }

    /// Whether the room would admit a new peer named `peer_id`: not once it
    /// is closed, not under an empty identifier, and not under one it holds.
    pub fn admission(&self, peer_id: &str) -> (verdict: Result<(), RoomError>)
        ensures
            self@.closed ==> verdict matches Err(RoomError::Closed),
            !self@.closed && peer_id@.len() == 0 ==> verdict matches Err(RoomError::InvalidPeerId),
            !self@.closed && peer_id@.len() > 0 && self@.holds(peer_id@) ==> (verdict matches Err(
                RoomError::DuplicatePeer(id),
            ) && id@ == peer_id@),
            !self@.closed && peer_id@.len() > 0 && !self@.holds(peer_id@) ==> verdict is Ok,
    {
        if self.closed {
            return Err(RoomError::Closed);
        }
        if peer_id.is_empty() {
            return Err(RoomError::InvalidPeerId);
        }
        if self.has_peer(peer_id) {
            return Err(RoomError::DuplicatePeer(peer_id.to_string()));
        }
        Ok(())
    }

    /// Adds the peer `peer` under `peer_id`, which the room admits.
    pub fn insert_peer(&mut self, peer_id: String, peer: P)
        requires
            !old(self)@.closed,
            peer_id@.len() > 0,
            !old(self)@.holds(peer_id@),
        ensures
            final(self)@.peers == old(self)@.peers.push((peer_id@, peer)),
            final(self)@.closed == old(self)@.closed,
            final(self)@.well_formed(),
            final(self)@.holds(peer_id@),
    {
        proof {
            use_type_invariant(&*self);
        }
        let ghost before = self@.peers;
        let ghost id = peer_id@;
        let mut peers: Vec<(String, P)> = Vec::new();
        std::mem::swap(&mut peers, &mut self.peers);
        peers.push((peer_id, peer));
        proof {
            let after = peers@.map_values(|e: (String, P)| (e.0@, e.1));
            assert(after =~= before.push((id, peer)));
            assert(ids_of(after) =~= ids_of(before).push(id));
            assert(ids_of(after)[before.len() as int] == id);
        }
        self.peers = peers;
    }

    /// Takes the peer named `peer_id` out of the room, if it holds one.
    pub fn remove_peer(&mut self, peer_id: &str) -> (peer: Option<P>)
        ensures
            final(self)@.closed == old(self)@.closed,
            final(self)@.well_formed(),
            !final(self)@.holds(peer_id@),
            match peer {
                Some(p) => exists|i: int|
                    0 <= i < old(self)@.peers.len() && old(self)@.peers[i].0 == peer_id@
                        && old(self)@.peers[i].1 == p && final(self)@.peers == old(self)@.peers.remove(i),
                None => !old(self)@.holds(peer_id@) && final(self)@ == old(self)@,
            },
    {
        proof {
            use_type_invariant(&*self);
        }
        match self.position(peer_id) {
            Some(i) => {
                let ghost before = self@.peers;
                let mut peers: Vec<(String, P)> = Vec::new();
                std::mem::swap(&mut peers, &mut self.peers);
                let (_, peer) = peers.remove(i);
                let ghost after = peers@.map_values(|e: (String, P)| (e.0@, e.1));
                proof {
                    assert(after =~= before.remove(i as int));
                    assert(ids_of(after) =~= ids_of(before).remove(i as int));
                    assert forall|a: int, b: int|
                        0 <= a < ids_of(after).len() && 0 <= b < ids_of(after).len() && a != b
                        implies ids_of(after)[a] != ids_of(after)[b] by {
                        let a0: int = if a < i { a } else { a + 1 };
                        let b0: int = if b < i { b } else { b + 1 };
                        assert(ids_of(before)[a0] != ids_of(before)[b0]);
                    }
                    assert forall|k: int| 0 <= k < after.len() implies #[trigger] after[k].0.len()
                        > 0 by {
                        let k0: int = if k < i { k } else { k + 1 };
                        assert(before[k0].0.len() > 0);
                    }
                    if ids_of(after).contains(peer_id@) {
                        let k: int = choose|k: int| 0 <= k < ids_of(after).len() && ids_of(after)[k] == peer_id@;
                        let k0: int = if k < i { k } else { k + 1 };
                        assert(ids_of(before)[k0] == ids_of(before)[i as int]);
                    }
                }
                self.peers = peers;
                Some(peer)
            },
            None => None,
        }
    }

    /// Closes the room, unless it was closed already, and hands back its
    /// peers in the order they joined.
    pub fn begin_close(&mut self) -> (peers: Option<Vec<P>>)
        ensures
            final(self)@.closed,
            final(self)@.well_formed(),
            old(self)@.closed ==> peers is None && final(self)@ == old(self)@,
            !old(self)@.closed ==> (peers matches Some(ps) && ps@ == old(self)@.peers.map_values(
                |e: (Seq<char>, P)| e.1,
            )),
            !old(self)@.closed ==> final(self)@.peers == Seq::<(Seq<char>, P)>::empty(),
    {
        proof {
            use_type_invariant(&*self);
        }
        if self.closed {
            return None;
        }
        let mut taken: Vec<(String, P)> = Vec::new();
        std::mem::swap(&mut taken, &mut self.peers);
        self.closed = true;
        let ghost before = taken@;
        let mut out: Vec<P> = Vec::new();
        while taken.len() > 0
            invariant
                taken@ == before.subrange(out@.len() as int, before.len() as int),
                out@.len() <= before.len(),
                forall|j: int| 0 <= j < out@.len() ==> #[trigger] out@[j] == before[j].1,
            decreases taken@.len(),
        {
            let (_, p) = taken.remove(0);
            out.push(p);
        }
        proof {
            assert(self@.peers =~= Seq::<(Seq<char>, P)>::empty());
            assert(out@ =~= before.map_values(|e: (String, P)| (e.0@, e.1)).map_values(
                |e: (Seq<char>, P)| e.1,
            ));
        }
        Some(out)
    }
}

} // verus!
