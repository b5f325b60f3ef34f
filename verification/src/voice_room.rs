//! Seats of a voice channel.
//!
//! A voice room has `ROOM_SIZE` seats. A seat is either empty or holds one
//! person together with that person's receive tracks: track `k` of the person
//! in seat `p` carries the audio of the person in seat `k`.

use vstd::prelude::*;

use crate::auth::UserRecord;
use crate::error::Error;

verus! {

/// Number of seats of a voice room.
pub const ROOM_SIZE: usize = 10;

/// One seat of a voice room. `T` is the track handle that the media layer
/// uses.
pub struct MaybeVoicePerson<T> {
    pub id: Option<u128>,
    pub name: Option<String>,
    pub recv_tracks: Vec<Option<T>>,
}

impl<T> MaybeVoicePerson<T> {
    /// A seat is well formed when it either holds both an id and a name or
    /// neither, and has exactly one receive track slot per seat.
    pub open spec fn wf(&self) -> bool {
        &&& self.id.is_some() == self.name.is_some()
        &&& self.recv_tracks@.len() == ROOM_SIZE
    }

    /// The seat is free.
    pub open spec fn is_empty(&self) -> bool {
        self.id.is_none()
    }

    /// An empty seat: no person, no tracks.
    pub fn new() -> (res: Self)
        ensures
            res.wf(),
            res.id.is_none(),
            res.name.is_none(),
            forall|k: int| 0 <= k < ROOM_SIZE ==> (#[trigger] res.recv_tracks@[k]).is_none(),
    {
        let mut recv_tracks: Vec<Option<T>> = Vec::new();
        let mut k: usize = 0;
        while k < ROOM_SIZE
            invariant
                k <= ROOM_SIZE,
                recv_tracks@.len() == k,
                forall|j: int| 0 <= j < k ==> (#[trigger] recv_tracks@[j]).is_none(),
            decreases ROOM_SIZE - k,
        {
            recv_tracks.push(None);
            k = k + 1;
        }
        MaybeVoicePerson { id: None, name: None, recv_tracks }
    }

    /// Puts `user` in this seat. Receive track `k` becomes `recv_tracks[k]`
    /// for every `k` that both sequences have; the others stay as they were.
    pub fn set_person(&mut self, user: &UserRecord, recv_tracks: Vec<T>)
        requires
            old(self).wf(),
        ensures
            final(self).wf(),
            final(self).id == Some(user.id),
            final(self).name == Some(user.username),
            forall|k: int|
                0 <= k < ROOM_SIZE ==> #[trigger] final(self).recv_tracks@[k] == if k
                    < recv_tracks@.len() {
                    Some(recv_tracks@[k])
                } else {
                    old(self).recv_tracks@[k]
                },
    {
        self.id = Some(user.id);
        self.name = Some(user.username.clone());
        let ghost given = recv_tracks@;
        let mut rest = recv_tracks;
        let mut k: usize = 0;
        while k < ROOM_SIZE && rest.len() > 0
            invariant
                k <= ROOM_SIZE,
                self.recv_tracks@.len() == ROOM_SIZE,
                self.id == Some(user.id),
                self.name == Some(user.username),
                k <= given.len(),
                rest@ == given.subrange(k as int, given.len() as int),
                forall|j: int|
                    0 <= j < ROOM_SIZE ==> #[trigger] self.recv_tracks@[j] == if j < k {
                        Some(given[j])
                    } else {
                        old(self).recv_tracks@[j]
                    },
            decreases ROOM_SIZE - k,
        {
            let track = rest.remove(0);
            self.recv_tracks.set(k, Some(track));
            k = k + 1;
        }
    }

    /// Frees this seat and empties all of its receive tracks.
    pub fn reset_person(&mut self)
        requires
            old(self).wf(),
        ensures
            final(self).wf(),
            final(self).id.is_none(),
            final(self).name.is_none(),
            forall|k: int| 0 <= k < ROOM_SIZE ==> (#[trigger] final(self).recv_tracks@[k]).is_none(),
    {
        self.id = None;
        self.name = None;
        let mut k: usize = 0;
        while k < ROOM_SIZE
            invariant
                k <= ROOM_SIZE,
                self.recv_tracks@.len() == ROOM_SIZE,
                self.id.is_none(),
                self.name.is_none(),
                forall|j: int| 0 <= j < k ==> (#[trigger] self.recv_tracks@[j]).is_none(),
            decreases ROOM_SIZE - k,
        {
            self.recv_tracks.set(k, None);
            k = k + 1;
        }
    }
}


/// A voice room: one seat per place, shared by everyone in the channel.
pub struct VoiceRoom<T> {
    pub id: u128,
    pub people: Vec<MaybeVoicePerson<T>>,
}

impl<T> VoiceRoom<T> {
    /// A well-formed room has `ROOM_SIZE` well-formed seats.
    pub open spec fn wf(&self) -> bool {
        &&& self.people@.len() == ROOM_SIZE
        &&& forall|i: int| 0 <= i < ROOM_SIZE ==> (#[trigger] self.people@[i]).wf()
    }

    /// Who sits in each seat.
    pub open spec fn occupants(&self) -> Seq<Option<u128>> {
        Seq::new(self.people@.len(), |i: int| self.people@[i].id)
    }

    /// Every seat is taken.
    pub open spec fn is_full(&self) -> bool {
        forall|i: int| 0 <= i < self.people@.len() ==> (#[trigger] self.people@[i]).id.is_some()
    }

    /// The first free seat is `i`.
    pub open spec fn first_free_seat(&self, i: int) -> bool {
        &&& 0 <= i < self.people@.len()
        &&& self.people@[i].id.is_none()
        &&& forall|j: int| 0 <= j < i ==> (#[trigger] self.people@[j]).id.is_some()
    }

    /// The first seat that `person_id` sits in is `i`.
    pub open spec fn first_seat_of(&self, person_id: u128, i: int) -> bool {
        &&& 0 <= i < self.people@.len()
        &&& self.people@[i].id == Some(person_id)
        &&& forall|j: int| 0 <= j < i ==> (#[trigger] self.people@[j]).id != Some(person_id)
    }

    /// `person_id` sits somewhere in the room.
    pub open spec fn seats(&self, person_id: u128) -> bool {
        exists|i: int| 0 <= i < self.people@.len() && (#[trigger] self.people@[i]).id == Some(person_id)
    }

    /// A room with `ROOM_SIZE` empty seats.
    pub fn new(id: u128) -> (res: Self)
        ensures
            res.wf(),
            res.id == id,
            forall|i: int| 0 <= i < ROOM_SIZE ==> (#[trigger] res.people@[i]).is_empty(),
            forall|i: int, k: int|
                0 <= i < ROOM_SIZE && 0 <= k < ROOM_SIZE ==> (#[trigger] res.people@[i].recv_tracks@[k]).is_none(),
    {
        let mut people: Vec<MaybeVoicePerson<T>> = Vec::new();
        let mut i: usize = 0;
        while i < ROOM_SIZE
            invariant
                i <= ROOM_SIZE,
                people@.len() == i,
                forall|j: int| 0 <= j < i ==> (#[trigger] people@[j]).wf() && people@[j].is_empty(),
                forall|j: int, k: int|
                    0 <= j < i && 0 <= k < ROOM_SIZE ==> (#[trigger] people@[j].recv_tracks@[k]).is_none(),
            decreases ROOM_SIZE - i,
        {
            people.push(MaybeVoicePerson::new());
            i = i + 1;
        }
        VoiceRoom { id, people }
    }

    /// Seats `user` in the first free seat and returns its number; fails with
    /// `RoomFull` when every seat is taken, leaving the room unchanged.
    pub fn join_person(&mut self, user: &UserRecord, recv_tracks: Vec<T>) -> (res: Result<usize, Error>)
        requires
            old(self).wf(),
        ensures
            final(self).wf(),
            final(self).id == old(self).id,
            match res {
                Ok(i) => {
                    &&& old(self).first_free_seat(i as int)
                    &&& final(self).people@[i as int].id == Some(user.id)
                    &&& final(self).people@[i as int].name == Some(user.username)
                    &&& forall|k: int|
                        0 <= k < ROOM_SIZE ==> #[trigger] final(self).people@[i as int].recv_tracks@[k] == if k
                            < recv_tracks@.len() {
                            Some(recv_tracks@[k])
                        } else {
                            old(self).people@[i as int].recv_tracks@[k]
                        }
                    &&& forall|j: int| 0 <= j < ROOM_SIZE && j != i ==> #[trigger] final(self).people@[j] == old(self).people@[j]
                },
                Err(e) => e == Error::RoomFull && old(self).is_full() && *final(self) == *old(self),
            },
    {
        let mut i: usize = 0;
        while i < self.people.len()
            invariant
                self.wf(),
                *self == *old(self),
                i <= ROOM_SIZE,
                forall|j: int| 0 <= j < i ==> (#[trigger] self.people@[j]).id.is_some(),
            decreases ROOM_SIZE - i,
        {
            if self.people[i].id.is_none() {
                self.people[i].set_person(user, recv_tracks);
                return Ok(i);
            }
            i = i + 1;
        }
        Err(Error::RoomFull)
    }

    /// Frees the first seat that `person_id` sits in; fails with
    /// `UserNotFoundInRoom` when nobody with that id sits in the room,
    /// leaving the room unchanged.
    pub fn leave_person(&mut self, person_id: u128) -> (res: Result<(), Error>)
        requires
            old(self).wf(),
        ensures
            final(self).wf(),
            final(self).id == old(self).id,
            match res {
                Ok(()) => exists|i: int| {
                    &&& old(self).first_seat_of(person_id, i)
                    &&& (#[trigger] final(self).people@[i]).is_empty()
                    &&& final(self).people@[i].name.is_none()
                    &&& forall|k: int| 0 <= k < ROOM_SIZE ==> (#[trigger] final(self).people@[i].recv_tracks@[k]).is_none()
                    &&& forall|j: int| 0 <= j < ROOM_SIZE && j != i ==> #[trigger] final(self).people@[j] == old(self).people@[j]
                },
                Err(e) => e == Error::UserNotFoundInRoom && !old(self).seats(person_id) && *final(self) == *old(self),
            },
    {
        let mut i: usize = 0;
        while i < self.people.len()
            invariant
                self.wf(),
                *self == *old(self),
                i <= ROOM_SIZE,
                forall|j: int| 0 <= j < i ==> (#[trigger] self.people@[j]).id != Some(person_id),
            decreases ROOM_SIZE - i,
        {
            if self.people[i].id == Some(person_id) {
                self.people[i].reset_person();
                assert(old(self).first_seat_of(person_id, i as int));
                return Ok(());
            }
            i = i + 1;
        }
        Err(Error::UserNotFoundInRoom)
    }

    /// The seats whose receive track number `track_i` carries the audio of
    /// the person in seat `track_i`: every other seat, in order.
    pub fn get_track_i_of_all(&self, track_i: usize) -> (res: Vec<usize>)
        requires
            track_i < ROOM_SIZE,
        ensures
            res@.len() == ROOM_SIZE - 1,
            forall|k: int| 0 <= k < ROOM_SIZE - 1 ==> #[trigger] res@[k] == if k < track_i { k } else { k + 1 },
    {
        let mut res: Vec<usize> = Vec::new();
        let mut p: usize = 0;
        while p < ROOM_SIZE
            invariant
                p <= ROOM_SIZE,
                track_i < ROOM_SIZE,
                res@.len() == if p <= track_i { p as int } else { p - 1 },
                forall|k: int| 0 <= k < res@.len() ==> #[trigger] res@[k] == if k < track_i { k } else { k + 1 },
            decreases ROOM_SIZE - p,
        {
            if p != track_i {
                res.push(p);
            }
            p = p + 1;
        }
        res
    }
}

/// A room of media connections: seat `p` holds a connection and, for each
/// seat `k`, the cell of the track that carries the audio of seat `p` to
/// seat `k`, as `audio_tracks[p][k]`. `C` is the connection handle, `T`
/// the track handle.
pub struct Room<C, T> {
    pub id: u128,
    pub connections: Vec<Option<C>>,
    pub audio_tracks: Vec<Vec<Option<T>>>,
}

impl<C, T> Room<C, T> {
    /// `ROOM_SIZE` seats, each with `ROOM_SIZE` track cells.
    pub open spec fn wf(&self) -> bool {
        &&& self.connections@.len() == ROOM_SIZE
        &&& self.audio_tracks@.len() == ROOM_SIZE
        &&& forall|p: int| 0 <= p < ROOM_SIZE ==> (#[trigger] self.audio_tracks@[p])@.len() == ROOM_SIZE
    }

    /// An empty room.
    pub fn new(id: u128) -> (res: Self)
        ensures
            res.wf(),
            res.id == id,
            forall|p: int| 0 <= p < ROOM_SIZE ==> (#[trigger] res.connections@[p]).is_none(),
            forall|p: int, k: int| 0 <= p < ROOM_SIZE && 0 <= k < ROOM_SIZE ==> (#[trigger] res.audio_tracks@[p]@[k]).is_none(),
    {
        let mut connections: Vec<Option<C>> = Vec::new();
        let mut audio_tracks: Vec<Vec<Option<T>>> = Vec::new();
        let mut p: usize = 0;
        while p < ROOM_SIZE
            invariant
                p <= ROOM_SIZE,
                connections@.len() == p,
                audio_tracks@.len() == p,
                forall|q: int| 0 <= q < p ==> (#[trigger] connections@[q]).is_none(),
                forall|q: int| 0 <= q < p ==> (#[trigger] audio_tracks@[q])@.len() == ROOM_SIZE,
                forall|q: int, k: int| 0 <= q < p && 0 <= k < ROOM_SIZE ==> (#[trigger] audio_tracks@[q]@[k]).is_none(),
            decreases ROOM_SIZE - p,
        {
            let mut cells: Vec<Option<T>> = Vec::new();
            let mut k: usize = 0;
            while k < ROOM_SIZE
                invariant
                    k <= ROOM_SIZE,
                    cells@.len() == k,
                    forall|j: int| 0 <= j < k ==> (#[trigger] cells@[j]).is_none(),
                decreases ROOM_SIZE - k,
            {
                cells.push(None);
                k = k + 1;
            }
            connections.push(None);
            audio_tracks.push(cells);
            p = p + 1;
        }
        Room { id, connections, audio_tracks }
    }

    /// The first free seat.
    pub fn first_free_slot(&self) -> (res: Option<usize>)
        requires
            self.wf(),
        ensures
            match res {
                Some(i) => {
                    &&& i < ROOM_SIZE
                    &&& self.connections@[i as int].is_none()
                    &&& forall|j: int| 0 <= j < i ==> (#[trigger] self.connections@[j]).is_some()
                },
                None => forall|j: int| 0 <= j < ROOM_SIZE ==> (#[trigger] self.connections@[j]).is_some(),
            },
    {
        let mut i: usize = 0;
        while i < self.connections.len()
            invariant
                self.wf(),
                i <= ROOM_SIZE,
                forall|j: int| 0 <= j < i ==> (#[trigger] self.connections@[j]).is_some(),
            decreases ROOM_SIZE - i,
        {
            if self.connections[i].is_none() {
                return Some(i);
            }
            i = i + 1;
        }
        None
    }

    /// Puts `connection` in seat `idx` with its outgoing tracks: track cell
    /// `k` of the seat becomes `new_tracks[k]` for every `k` that both have.
    /// Gives the seats whose track cell `idx` carries audio to the new
    /// connection: every other seat, in order.
    pub fn seat_connection(&mut self, idx: usize, connection: C, new_tracks: Vec<T>) -> (res: Vec<usize>)
        requires
            old(self).wf(),
            idx < ROOM_SIZE,
        ensures
            final(self).wf(),
            final(self).id == old(self).id,
            final(self).connections@ == old(self).connections@.update(idx as int, Some(connection)),
            forall|p: int| 0 <= p < ROOM_SIZE && p != idx ==> #[trigger] final(self).audio_tracks@[p] == old(self).audio_tracks@[p],
            forall|k: int|
                0 <= k < ROOM_SIZE ==> #[trigger] final(self).audio_tracks@[idx as int]@[k] == if k < new_tracks@.len() {
                    Some(new_tracks@[k])
                } else {
                    old(self).audio_tracks@[idx as int]@[k]
                },
            res@.len() == ROOM_SIZE - 1,
            forall|k: int| 0 <= k < ROOM_SIZE - 1 ==> #[trigger] res@[k] == if k < idx { k } else { k + 1 },
    {
        let mut cells: Vec<Option<T>> = Vec::new();
        std::mem::swap(&mut cells, &mut self.audio_tracks[idx]);
        let ghost old_cells = cells@;
        let ghost given = new_tracks@;
        let mut rest = new_tracks;
        let mut k: usize = 0;
        while k < ROOM_SIZE && rest.len() > 0
            invariant
                k <= ROOM_SIZE,
                old_cells.len() == ROOM_SIZE,
                cells@.len() == ROOM_SIZE,
                k <= given.len(),
                rest@ == given.subrange(k as int, given.len() as int),
                forall|j: int|
                    0 <= j < ROOM_SIZE ==> #[trigger] cells@[j] == if j < k { Some(given[j]) } else { old_cells[j] },
            decreases ROOM_SIZE - k,
        {
            let track = rest.remove(0);
            cells.set(k, Some(track));
            k = k + 1;
        }
        self.audio_tracks.set(idx, cells);
        self.connections.set(idx, Some(connection));
        let mut res: Vec<usize> = Vec::new();
        let mut p: usize = 0;
        while p < ROOM_SIZE
            invariant
                p <= ROOM_SIZE,
                idx < ROOM_SIZE,
                res@.len() == if p <= idx { p as int } else { p - 1 },
                forall|j: int| 0 <= j < res@.len() ==> #[trigger] res@[j] == if j < idx { j } else { j + 1 },
            decreases ROOM_SIZE - p,
        {
            if p != idx {
                res.push(p);
            }
            p = p + 1;
        }
        res
    }

    /// Seats `connection` in the first free seat, as `seat_connection` does,
    /// and gives the seat and the seats that receive from it; fails with
    /// `RoomFull`, leaving the room unchanged, when every seat is taken.
    pub fn join_user(&mut self, connection: C, new_tracks: Vec<T>) -> (res: Result<(usize, Vec<usize>), Error>)
        requires
            old(self).wf(),
        ensures
            final(self).wf(),
            match res {
                Ok((idx, others)) => {
                    &&& idx < ROOM_SIZE
                    &&& old(self).connections@[idx as int].is_none()
                    &&& forall|j: int| 0 <= j < idx ==> (#[trigger] old(self).connections@[j]).is_some()
                    &&& final(self).connections@ == old(self).connections@.update(idx as int, Some(connection))
                    &&& forall|p: int| 0 <= p < ROOM_SIZE && p != idx ==> #[trigger] final(self).audio_tracks@[p] == old(self).audio_tracks@[p]
                    &&& forall|k: int|
                        0 <= k < ROOM_SIZE ==> #[trigger] final(self).audio_tracks@[idx as int]@[k] == if k < new_tracks@.len() {
                            Some(new_tracks@[k])
                        } else {
                            old(self).audio_tracks@[idx as int]@[k]
                        }
                    &&& others@.len() == ROOM_SIZE - 1
                    &&& forall|k: int| 0 <= k < ROOM_SIZE - 1 ==> #[trigger] others@[k] == if k < idx { k } else { k + 1 }
                },
                Err(e) => e == Error::RoomFull && *final(self) == *old(self)
                    && forall|j: int| 0 <= j < ROOM_SIZE ==> (#[trigger] old(self).connections@[j]).is_some(),
            },
    {
        match self.first_free_slot() {
            Some(idx) => {
                let others = self.seat_connection(idx, connection, new_tracks);
                Ok((idx, others))
            },
            None => Err(Error::RoomFull),
        }
    }
}

/// A person who sat nowhere, joins a room and then leaves it, leaves every
/// seat occupied as before: the seat taken by joining is the seat freed by
/// leaving.
pub proof fn lemma_join_then_leave<T>(before: VoiceRoom<T>, joined: VoiceRoom<T>, left: VoiceRoom<T>, user_id: u128, i: int, i2: int)
    requires
        before.wf(),
        joined.wf(),
        left.wf(),
        !before.seats(user_id),
        before.first_free_seat(i),
        joined.people@[i].id == Some(user_id),
        forall|j: int| 0 <= j < ROOM_SIZE && j != i ==> #[trigger] joined.people@[j] == before.people@[j],
        joined.first_seat_of(user_id, i2),
        left.people@[i2].is_empty(),
        forall|j: int| 0 <= j < ROOM_SIZE && j != i2 ==> #[trigger] left.people@[j] == joined.people@[j],
    ensures
        i2 == i,
        left.occupants() == before.occupants(),
{
    if i2 != i {
        assert(joined.people@[i2] == before.people@[i2]);
        assert(before.people@[i2].id == Some(user_id));
    }
    assert(left.occupants() =~= before.occupants());
}

} // verus!
