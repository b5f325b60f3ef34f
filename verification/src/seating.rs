//! All voice rooms of the service, one per voice channel, and the moves of a
//! connected user between them. A user is consistent with the rooms when
//! the user holds at most one seat over all rooms and the voice channel
//! recorded for the user is the room of that seat (none when the user holds
//! no seat).

use vstd::prelude::*;
use dashmap::DashMap;

use crate::channels::{convert_channel_to_with_users, seated_users, voice_user_entries, Channel, ChannelType, ChannelWithUsers};
use crate::error::Error;
use crate::online::OnlineUser;
use crate::voice_room::{VoiceRoom, ROOM_SIZE};

verus! {

/// The rooms held in the map from channel id to voice room.
pub uninterp spec fn room_entries(m: DashMap<u128, VoiceRoom<()>>) -> Map<u128, VoiceRoom<()>>;

/// `dashmap::DashMap::new` for the rooms: no entries.
#[verifier::external_body]
fn new_room_map() -> (res: DashMap<u128, VoiceRoom<()>>)
    ensures
        room_entries(res).is_empty(),
{
    dashmap::DashMap::new()
}

/// `DashMap::remove` on the rooms: drops `key` and gives the room it held.
#[verifier::external_body]
fn room_map_remove(m: &mut DashMap<u128, VoiceRoom<()>>, key: u128) -> (res: Option<VoiceRoom<()>>)
    ensures
        room_entries(*final(m)) == room_entries(*old(m)).remove(key),
        res == room_entries(*old(m)).get(key),
{
    m.remove(&key).map(|(_, v)| v)
}

/// `DashMap::insert` on the rooms: `key` now holds `value`.
#[verifier::external_body]
fn room_map_insert(m: &mut DashMap<u128, VoiceRoom<()>>, key: u128, value: VoiceRoom<()>)
    ensures
        room_entries(*final(m)) == room_entries(*old(m)).insert(key, value),
{
    m.insert(key, value);
}

/// The voice rooms, keyed by channel id.
pub struct Seating {
    pub rooms: DashMap<u128, VoiceRoom<()>>,
}

/// `user_id` holds seat `s` of the room of channel `c`.
pub open spec fn sits_at(rooms: Map<u128, VoiceRoom<()>>, user_id: u128, c: u128, s: int) -> bool {
    &&& rooms.contains_key(c)
    &&& 0 <= s < rooms[c].people@.len()
    &&& rooms[c].people@[s].id == Some(user_id)
}

/// `user_id` holds at most one seat over all rooms.
pub open spec fn seated_at_most_once(rooms: Map<u128, VoiceRoom<()>>, user_id: u128) -> bool {
    forall|c1: u128, s1: int, c2: u128, s2: int|
        #![trigger sits_at(rooms, user_id, c1, s1), sits_at(rooms, user_id, c2, s2)]
        sits_at(rooms, user_id, c1, s1) && sits_at(rooms, user_id, c2, s2) ==> c1 == c2 && s1 == s2
}

/// `user_id` holds no seat.
pub open spec fn seated_nowhere(rooms: Map<u128, VoiceRoom<()>>, user_id: u128) -> bool {
    forall|c: u128, s: int| !#[trigger] sits_at(rooms, user_id, c, s)
}

/// The recorded voice channel of `user_id` is the room of a seat the user
/// holds, or the user holds no seat when none is recorded.
pub open spec fn channel_agrees(rooms: Map<u128, VoiceRoom<()>>, user_id: u128, channel: Option<u128>) -> bool {
    match channel {
        Some(c) => exists|s: int| #[trigger] sits_at(rooms, user_id, c, s),
        None => seated_nowhere(rooms, user_id),
    }
}

/// `user_id` with recorded voice channel `channel` is consistent with the
/// rooms.
pub open spec fn consistent(rooms: Map<u128, VoiceRoom<()>>, user_id: u128, channel: Option<u128>) -> bool {
    seated_at_most_once(rooms, user_id) && channel_agrees(rooms, user_id, channel)
}

/// Every user in `channels` is consistent with the rooms.
pub open spec fn all_consistent(rooms: Map<u128, VoiceRoom<()>>, channels: Map<u128, Option<u128>>) -> bool {
    forall|u: u128| #[trigger] channels.contains_key(u) ==> consistent(rooms, u, channels[u])
}

/// From `before` to `after` only `user_id` moved: everyone else holds the
/// same seats.
pub open spec fn others_unmoved(before: Map<u128, VoiceRoom<()>>, after: Map<u128, VoiceRoom<()>>, user_id: u128) -> bool {
    forall|u: u128, c: u128, s: int| u != user_id ==> (#[trigger] sits_at(after, u, c, s) <==> sits_at(before, u, c, s))
}

/// The rooms after making sure channel `id` has one: unchanged when it has,
/// otherwise with an empty room added.
pub open spec fn with_room(rooms: Map<u128, VoiceRoom<()>>, id: u128, empty: VoiceRoom<()>) -> Map<u128, VoiceRoom<()>> {
    if rooms.contains_key(id) {
        rooms
    } else {
        rooms.insert(id, empty)
    }
}

impl Seating {
    /// The rooms, by channel id.
    pub open spec fn entries(&self) -> Map<u128, VoiceRoom<()>> {
        room_entries(self.rooms)
    }

    /// Every room is well formed and belongs to the channel it is kept under.
    pub open spec fn wf(&self) -> bool {
        forall|c: u128| #[trigger] self.entries().contains_key(c) ==> self.entries()[c].wf() && self.entries()[c].id == c
    }

    /// No rooms yet.
    pub fn new() -> (res: Self)
        ensures
            res.wf(),
            res.entries().is_empty(),
    {
        Seating { rooms: new_room_map() }
    }

    /// Takes the room of channel `id` out of the map; a new empty room when
    /// the channel has none.
    fn take_room(&mut self, id: u128) -> (res: VoiceRoom<()>)
        requires
            old(self).wf(),
        ensures
            final(self).wf(),
            final(self).entries() == old(self).entries().remove(id),
            res.wf(),
            res.id == id,
            old(self).entries().contains_key(id) ==> res == old(self).entries()[id],
            !old(self).entries().contains_key(id) ==> forall|i: int| 0 <= i < ROOM_SIZE ==> (#[trigger] res.people@[i]).is_empty(),
    {
        let ghost before = self.entries();
        let res = match room_map_remove(&mut self.rooms, id) {
            Some(room) => {
                assert(before.contains_key(id));
                room
            },
            None => VoiceRoom::new(id),
        };
        assert forall|c: u128| #[trigger] self.entries().contains_key(c) implies self.entries()[c].wf() && self.entries()[c].id == c by {
            assert(before.contains_key(c));
        }
        res
    }

    /// Puts `room` back under its channel.
    fn put_room(&mut self, room: VoiceRoom<()>)
        requires
            old(self).wf(),
            room.wf(),
        ensures
            final(self).wf(),
            final(self).entries() == old(self).entries().insert(room.id, room),
    {
        let id = room.id;
        room_map_insert(&mut self.rooms, id, room);
    }

    /// The people seated in `channel`, as `convert_channel_to_with_users`
    /// lists them from the channel's room; a voice channel without a room
    /// gets an empty one. Nobody moves.
    pub fn channel_with_users(&mut self, channel: Channel) -> (res: ChannelWithUsers)
        requires
            old(self).wf(),
        ensures
            final(self).wf(),
            res.channel == channel,
            forall|u: u128, c: u128, s: int| #[trigger] sits_at(final(self).entries(), u, c, s) <==> sits_at(old(self).entries(), u, c, s),
            channel.type_ == ChannelType::Text ==> res.users@.len() == 0 && final(self).entries() == old(self).entries(),
            channel.type_ == ChannelType::Voice ==> {
                &&& final(self).entries().contains_key(channel.id)
                &&& old(self).entries().contains_key(channel.id) ==> final(self).entries() == old(self).entries()
                &&& voice_user_entries(res.users@) == seated_users(final(self).entries()[channel.id], ROOM_SIZE as int)
            },
            forall|k: int| 0 <= k < res.users@.len() ==> (#[trigger] res.users@[k]).boost.is_none(),
    {
        match channel.type_ {
            ChannelType::Voice => {
                let ghost before = self.entries();
                let id = channel.id;
                let room = self.take_room(id);
                let res = convert_channel_to_with_users(channel, &room);
                self.put_room(room);
                proof {
                    if before.contains_key(id) {
                        assert(self.entries() =~= before);
                    }
                    assert forall|u: u128, c: u128, s: int| #[trigger] sits_at(self.entries(), u, c, s) <==> sits_at(before, u, c, s) by {
                        if c == id && !before.contains_key(id) && 0 <= s < ROOM_SIZE {
                            assert(self.entries()[c].people@[s].is_empty());
                        }
                    }
                }
                res
            },
            ChannelType::Text => {
                let empty: VoiceRoom<()> = VoiceRoom::new(channel.id);
                convert_channel_to_with_users(channel, &empty)
            },
        }
    }

    /// Frees the seat of `online`'s user in the room of the user's recorded
    /// channel. A consistent user holds no seat afterwards; nobody else
    /// moves.
    fn free_seat(&mut self, online: &OnlineUser)
        requires
            old(self).wf(),
            consistent(old(self).entries(), online.user.id, online.audio_channel),
        ensures
            final(self).wf(),
            seated_nowhere(final(self).entries(), online.user.id),
            others_unmoved(old(self).entries(), final(self).entries(), online.user.id),
    {
        let user_id = online.user.id;
        match online.audio_channel {
            None => {},
            Some(c) => {
                let ghost before = self.entries();
                let ghost s0 = choose|s: int| #[trigger] sits_at(before, user_id, c, s);
                let mut room = self.take_room(c);
                let ghost room_before = room;
                assert(room_before.seats(user_id)) by {
                    assert(room_before.people@[s0].id == Some(user_id));
                }
                let _ = room.leave_person(user_id);
                let ghost room_after = room;
                self.put_room(room);
                let ghost after = self.entries();
                assert(after =~= before.insert(c, room_after));
                let ghost i = choose|i: int|
                    {
                        &&& room_before.first_seat_of(user_id, i)
                        &&& (#[trigger] room_after.people@[i]).is_empty()
                        &&& forall|j: int| 0 <= j < ROOM_SIZE && j != i ==> #[trigger] room_after.people@[j] == room_before.people@[j]
                    };
                assert(sits_at(before, user_id, c, i));
                assert(i == s0);
                assert forall|c2: u128, s: int| !#[trigger] sits_at(after, user_id, c2, s) by {
                    if sits_at(after, user_id, c2, s) {
                        if c2 == c {
                            assert(s != i);
                            assert(room_after.people@[s] == room_before.people@[s]);
                            assert(sits_at(before, user_id, c2, s));
                        } else {
                            assert(sits_at(before, user_id, c2, s));
                        }
                    }
                }
                assert forall|u: u128, c2: u128, s: int|
                    u != user_id implies (#[trigger] sits_at(after, u, c2, s) <==> sits_at(before, u, c2, s)) by {
                    if c2 == c && 0 <= s < ROOM_SIZE && s != i {
                        assert(room_after.people@[s] == room_before.people@[s]);
                    }
                }
            },
        }
    }

    /// The user of `online` leaves the audio of the voice channel, if any:
    /// the seat is freed and no channel is recorded for the user. A
    /// consistent user stays consistent; nobody else moves.
    pub fn leave_audio_channel(&mut self, online: &mut OnlineUser)
        requires
            old(self).wf(),
            consistent(old(self).entries(), old(online).user.id, old(online).audio_channel),
        ensures
            final(self).wf(),
            final(online).user == old(online).user,
            final(online).audio_channel.is_none(),
            consistent(final(self).entries(), final(online).user.id, final(online).audio_channel),
            others_unmoved(old(self).entries(), final(self).entries(), old(online).user.id),
    {
        self.free_seat(online);
        online.clear_audio_channel();
    }

    /// The user of `online` moves to the audio of voice channel `channel_id`:
    /// the user's seat is freed, the user takes the first free seat of that
    /// channel's room (an empty room is added when the channel has none), and
    /// the channel is recorded for the user. When that room is full the user
    /// is left with no seat and the recorded channel is left as it was.
    pub fn join_audio_channel(&mut self, online: &mut OnlineUser, channel_id: u128, recv_tracks: Vec<()>) -> (res: Result<usize, Error>)
        requires
            old(self).wf(),
            consistent(old(self).entries(), old(online).user.id, old(online).audio_channel),
        ensures
            final(self).wf(),
            final(online).user == old(online).user,
            others_unmoved(old(self).entries(), final(self).entries(), old(online).user.id),
            final(self).entries().contains_key(channel_id),
            match res {
                Ok(seat) => {
                    &&& final(online).audio_channel == Some(channel_id)
                    &&& consistent(final(self).entries(), final(online).user.id, final(online).audio_channel)
                    &&& sits_at(final(self).entries(), old(online).user.id, channel_id, seat as int)
                    &&& forall|j: int| 0 <= j < seat ==> (#[trigger] final(self).entries()[channel_id].people@[j]).id.is_some()
                },
                Err(e) => {
                    &&& e == Error::RoomFull
                    &&& final(online).audio_channel == old(online).audio_channel
                    &&& seated_nowhere(final(self).entries(), old(online).user.id)
                    &&& final(self).entries()[channel_id].is_full()
                },
            },
    {
        let user_id = online.user.id;
        self.free_seat(online);
        let ghost freed = self.entries();
        let mut room = self.take_room(channel_id);
        let ghost room_before = room;
        let joined = room.join_person(&online.user, recv_tracks);
        let ghost room_after = room;
        self.put_room(room);
        let ghost after = self.entries();
        assert(after =~= freed.insert(channel_id, room_after));
        match joined {
            Ok(seat) => {
                assert forall|u: u128, c: u128, s: int|
                    u != user_id implies (#[trigger] sits_at(after, u, c, s) <==> sits_at(freed, u, c, s)) by {
                    if c == channel_id && 0 <= s < ROOM_SIZE && s != seat {
                        assert(room_after.people@[s] == room_before.people@[s]);
                        if !freed.contains_key(c) {
                            assert(room_before.people@[s].is_empty());
                        }
                    }
                }
                assert forall|c: u128, s: int| #[trigger] sits_at(after, user_id, c, s) implies c == channel_id && s == seat by {
                    if c == channel_id && s != seat {
                        assert(room_after.people@[s] == room_before.people@[s]);
                        if !freed.contains_key(c) {
                            assert(room_before.people@[s].is_empty());
                        }
                        assert(sits_at(freed, user_id, c, s));
                    }
                    if c != channel_id {
                        assert(sits_at(freed, user_id, c, s));
                    }
                }
                assert(sits_at(after, user_id, channel_id, seat as int));
                assert forall|j: int| 0 <= j < seat implies (#[trigger] after[channel_id].people@[j]).id.is_some() by {
                    assert(room_after.people@[j] == room_before.people@[j]);
                }
                assert(exists|s: int| #[trigger] sits_at(after, user_id, channel_id, s));
                let ghost recorded: Option<u128> = Some(channel_id);
                assert(recorded matches Some(c) && c == channel_id);
                assert(channel_agrees(after, user_id, recorded));
                assert(seated_at_most_once(after, user_id));
                online.set_audio_channel(channel_id);
                Ok(seat)
            },
            Err(e) => {
                assert(room_after == room_before);
                assert forall|c: u128, s: int| !#[trigger] sits_at(after, user_id, c, s) by {
                    assert(!sits_at(freed, user_id, c, s));
                    if c == channel_id && 0 <= s < ROOM_SIZE {
                        if !freed.contains_key(c) {
                            assert(room_before.people@[s].is_empty());
                        }
                    }
                }
                assert forall|u: u128, c: u128, s: int|
                    u != user_id implies (#[trigger] sits_at(after, u, c, s) <==> sits_at(freed, u, c, s)) by {
                    if c == channel_id && !freed.contains_key(c) && 0 <= s < ROOM_SIZE {
                        assert(room_before.people@[s].is_empty());
                    }
                }
                Err(e)
            },
        }
    }
}

/// A move of one user that leaves that user consistent and nobody else
/// moved keeps every user consistent with the rooms, the moved user now
/// with the newly recorded channel.
pub proof fn lemma_move_keeps_everyone_consistent(
    before: Map<u128, VoiceRoom<()>>,
    after: Map<u128, VoiceRoom<()>>,
    channels: Map<u128, Option<u128>>,
    user_id: u128,
    channel: Option<u128>,
)
    requires
        all_consistent(before, channels),
        others_unmoved(before, after, user_id),
        consistent(after, user_id, channel),
    ensures
        all_consistent(after, channels.insert(user_id, channel)),
{
    let next = channels.insert(user_id, channel);
    assert forall|u: u128| #[trigger] next.contains_key(u) implies consistent(after, u, next[u]) by {
        if u != user_id {
            assert(channels.contains_key(u));
            assert(consistent(before, u, channels[u]));
            assert forall|c1: u128, s1: int, c2: u128, s2: int|
                sits_at(after, u, c1, s1) && sits_at(after, u, c2, s2) implies c1 == c2 && s1 == s2 by {
                assert(sits_at(before, u, c1, s1));
                assert(sits_at(before, u, c2, s2));
            }
            match channels[u] {
                Some(c) => {
                    let s = choose|s: int| #[trigger] sits_at(before, u, c, s);
                    assert(sits_at(after, u, c, s));
                },
                None => {
                    assert forall|c: u128, s: int| !#[trigger] sits_at(after, u, c, s) by {
                        assert(!sits_at(before, u, c, s));
                    }
                },
            }
        }
    }
}

} // verus!
