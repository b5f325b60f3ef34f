//! Text and voice channels of a server, and who sits in a voice channel.

use vstd::prelude::*;
use vstd::string::*;

use crate::voice_room::{VoiceRoom, ROOM_SIZE};

verus! {

/// Kind of a channel.
#[derive(Debug, Clone, Copy, PartialEq, Eq)]
pub enum ChannelType {
    Text,
    Voice,
}

/// A stored channel. Times are microseconds since the Unix epoch.
#[derive(Debug, Clone)]
pub struct Channel {
    pub id: u128,
    pub name: String,
    pub type_: ChannelType,
    pub hidden: bool,
    pub server_id: u128,
    pub created_at: i64,
    pub updated_at: i64,
}

/// A channel to be created.
#[derive(Debug, Clone)]
pub struct NewChannel {
    pub name: String,
    pub type_: ChannelType,
    pub hidden: bool,
    pub server_id: u128,
}

/// A person seated in a voice channel.
#[derive(Debug, Clone)]
pub struct VoiceUser {
    pub id: u128,
    pub username: String,
    /// The seat of the person in the voice room.
    pub slot: usize,
    /// The listener's volume for this person, in percent, where known.
    pub boost: Option<i32>,
}

/// A channel together with the people seated in it.
#[derive(Debug, Clone)]
pub struct ChannelWithUsers {
    pub channel: Channel,
    pub users: Vec<VoiceUser>,
}

/// Id, name and seat of every occupied seat among the first `n` seats, in
/// seat order.
pub open spec fn seated_users<T>(room: VoiceRoom<T>, n: int) -> Seq<(u128, Seq<char>, usize)>
    decreases n,
{
    if n <= 0 {
        Seq::empty()
    } else {
        let before = seated_users(room, n - 1);
        let seat = room.people@[n - 1];
        if seat.id.is_some() {
            before.push((seat.id.unwrap(), seat.name.unwrap()@, (n - 1) as usize))
        } else {
            before
        }
    }
}

/// Among the first `n` seats of a room, the listing holds exactly one entry
/// per occupied seat: every occupied seat appears with the id and name of its
/// person and its seat number, every entry is such a seat, and the entries
/// are in increasing seat order.
pub proof fn lemma_seated_users_lists_every_occupied_seat<T>(room: VoiceRoom<T>, n: int)
    requires
        0 <= n <= room.people@.len(),
        room.people@.len() <= ROOM_SIZE,
    ensures
        forall|s: int|
            0 <= s < n && (#[trigger] room.people@[s]).id is Some ==> exists|k: int|
                0 <= k < seated_users(room, n).len() && #[trigger] seated_users(room, n)[k] == (
                    room.people@[s].id.unwrap(),
                    room.people@[s].name.unwrap()@,
                    s as usize,
                ),
        forall|k: int|
            0 <= k < seated_users(room, n).len() ==> {
                let e = #[trigger] seated_users(room, n)[k];
                &&& (e.2 as int) < n
                &&& room.people@[e.2 as int].id == Some(e.0)
                &&& room.people@[e.2 as int].name.unwrap()@ == e.1
            },
        forall|k1: int, k2: int|
            0 <= k1 < k2 < seated_users(room, n).len() ==> (#[trigger] seated_users(room, n)[k1]).2 < (
            #[trigger] seated_users(room, n)[k2]).2,
    decreases n,
{
    if n > 0 {
        lemma_seated_users_lists_every_occupied_seat(room, n - 1);
        let before = seated_users(room, n - 1);
        let now = seated_users(room, n);
        let seat = room.people@[n - 1];
        if seat.id.is_some() {
            assert(now == before.push((seat.id.unwrap(), seat.name.unwrap()@, (n - 1) as usize)));
            assert(now[before.len() as int] == (seat.id.unwrap(), seat.name.unwrap()@, (n - 1) as usize));
            assert forall|s: int|
                0 <= s < n && (#[trigger] room.people@[s]).id is Some implies exists|k: int|
                    0 <= k < now.len() && #[trigger] now[k] == (
                        room.people@[s].id.unwrap(),
                        room.people@[s].name.unwrap()@,
                        s as usize,
                    ) by {
                if s < n - 1 {
                    let k = choose|k: int|
                        0 <= k < before.len() && #[trigger] before[k] == (
                            room.people@[s].id.unwrap(),
                            room.people@[s].name.unwrap()@,
                            s as usize,
                        );
                    assert(now[k] == before[k]);
                } else {
                    assert(now[before.len() as int] == (
                        room.people@[s].id.unwrap(),
                        room.people@[s].name.unwrap()@,
                        s as usize,
                    ));
                }
            }
            assert forall|k: int| 0 <= k < now.len() implies {
                let e = #[trigger] now[k];
                &&& (e.2 as int) < n
                &&& room.people@[e.2 as int].id == Some(e.0)
                &&& room.people@[e.2 as int].name.unwrap()@ == e.1
            } by {
                if k < before.len() {
                    assert(now[k] == before[k]);
                }
            }
            assert forall|k1: int, k2: int| 0 <= k1 < k2 < now.len() implies (#[trigger] now[k1]).2 < (#[trigger] now[k2]).2 by {
                assert(now[k1] == before[k1]);
                if k2 < before.len() {
                    assert(now[k2] == before[k2]);
                }
            }
        } else {
            assert(now == before);
        }
    }
}

/// Id, name and seat of the listed people.
pub open spec fn voice_user_entries(users: Seq<VoiceUser>) -> Seq<(u128, Seq<char>, usize)> {
    users.map_values(|u: VoiceUser| (u.id, u.username@, u.slot))
}

/// Lists the people seated in `room` when `channel` is a voice channel (no
/// one for a text channel), in seat order, each with its seat number.
pub fn convert_channel_to_with_users<T>(channel: Channel, room: &VoiceRoom<T>) -> (res: ChannelWithUsers)
    requires
        room.wf(),
    ensures
        res.channel == channel,
        channel.type_ == ChannelType::Text ==> res.users@.len() == 0,
        channel.type_ == ChannelType::Voice ==> voice_user_entries(res.users@) == seated_users(*room, ROOM_SIZE as int),
        forall|k: int| 0 <= k < res.users@.len() ==> (#[trigger] res.users@[k]).boost.is_none(),
{
    let mut users: Vec<VoiceUser> = Vec::new();
    match channel.type_ {
        ChannelType::Voice => {
            let mut i: usize = 0;
            while i < ROOM_SIZE
                invariant
                    room.wf(),
                    i <= ROOM_SIZE,
                    voice_user_entries(users@) == seated_users(*room, i as int),
                    forall|k: int| 0 <= k < users@.len() ==> (#[trigger] users@[k]).boost.is_none(),
                decreases ROOM_SIZE - i,
            {
                let seat = &room.people[i];
                match seat.id {
                    Some(id) => {
                        let username = seat.name.as_ref().unwrap().clone();
                        let ghost before = users@;
                        users.push(VoiceUser { id, username, slot: i, boost: None });
                        assert(voice_user_entries(users@) =~= voice_user_entries(before).push((id, username@, i)));
                    },
                    None => {},
                }
                i = i + 1;
            }
        },
        ChannelType::Text => {},
    }
    ChannelWithUsers { channel, users }
}

/// The channels every new server starts with, in this order: a visible text
/// channel "General" and a visible voice channel "Voice".
pub fn default_channels(server_id: u128) -> (res: Vec<NewChannel>)
    ensures
        res@.len() == 2,
        res@[0].name@ == "General"@,
        res@[0].type_ == ChannelType::Text,
        !res@[0].hidden,
        res@[0].server_id == server_id,
        res@[1].name@ == "Voice"@,
        res@[1].type_ == ChannelType::Voice,
        !res@[1].hidden,
        res@[1].server_id == server_id,
{
    let mut res: Vec<NewChannel> = Vec::new();
    res.push(NewChannel { name: String::from_str("General"), server_id, type_: ChannelType::Text, hidden: false });
    res.push(NewChannel { name: String::from_str("Voice"), server_id, type_: ChannelType::Voice, hidden: false });
    res
}

impl Channel {
    /// A copy of this channel.
    pub fn clone_channel(&self) -> (res: Channel)
        ensures
            res == *self,
    {
        Channel {
            id: self.id,
            name: self.name.clone(),
            type_: self.type_,
            hidden: self.hidden,
            server_id: self.server_id,
            created_at: self.created_at,
            updated_at: self.updated_at,
        }
    }
}

} // verus!
