//! Client-side audio state: which devices are used, how loud each device
//! and each person in the current voice channel is, and which commands
//! change what.

use vstd::prelude::*;
use vstd::string::*;

use crate::channels::{Channel, ChannelWithUsers, VoiceUser};
use crate::voice_room::ROOM_SIZE;

verus! {

/// Volume, in percent, of a person whose volume was never changed.
pub const DEFAULT_BOOST: i32 = 100;

/// The listener's volume for one seat of the voice channel.
#[derive(Debug, Clone, Copy, PartialEq, Eq)]
pub struct PerUserBoost {
    pub user_id: Option<u128>,
    /// Volume in percent.
    pub boost_level: i32,
}

impl PerUserBoost {
    /// An empty seat at the default volume.
    pub fn default() -> (res: Self)
        ensures
            res.user_id.is_none(),
            res.boost_level == DEFAULT_BOOST,
    {
        PerUserBoost { user_id: None, boost_level: DEFAULT_BOOST }
    }

    /// The volume for `user_id` given the stored volume, if one is stored;
    /// the default volume otherwise.
    pub fn get(user_id: u128, stored: Option<i32>) -> (res: Self)
        ensures
            res.user_id == Some(user_id),
            res.boost_level == match stored {
                Some(b) => b,
                None => DEFAULT_BOOST,
            },
    {
        PerUserBoost {
            user_id: Some(user_id),
            boost_level: match stored {
                Some(b) => b,
                None => DEFAULT_BOOST,
            },
        }
    }
}

/// The voice channel the client is in, with the volume of each seat.
#[derive(Debug, Clone)]
pub struct ChannelWithBoosts {
    pub channel: Channel,
    pub users: Vec<PerUserBoost>,
}

/// A person joined or left a voice channel.
#[derive(Debug, Clone)]
pub struct AudioChannelMemberUpdate {
    pub channel: Channel,
    pub user: VoiceUser,
}

/// The devices in use and their volumes, as stored.
#[derive(Debug, Clone)]
pub struct LastUsedAudioDevicesWString {
    pub id: Option<i32>,
    pub mic: Option<String>,
    pub speaker: Option<String>,
    pub mic_boost: Option<i32>,
    pub speaker_boost: Option<i32>,
}

impl LastUsedAudioDevicesWString {
    /// Nothing stored yet.
    pub fn default() -> (res: Self)
        ensures
            res.id.is_none() && res.mic.is_none() && res.speaker.is_none(),
            res.mic_boost.is_none() && res.speaker_boost.is_none(),
    {
        LastUsedAudioDevicesWString { id: None, mic: None, speaker: None, mic_boost: None, speaker_boost: None }
    }
}

/// The volume of each seat after `users` were seated: the seat of each
/// listed person gets that person's stored volume (`boosts` in the same
/// order), later entries winning; the other seats are empty at the default
/// volume.
pub open spec fn seat_boosts(users: Seq<VoiceUser>, boosts: Seq<i32>, n: int) -> Seq<PerUserBoost>
    decreases n,
{
    if n <= 0 {
        Seq::new(ROOM_SIZE as nat, |i: int| PerUserBoost { user_id: None, boost_level: DEFAULT_BOOST })
    } else {
        seat_boosts(users, boosts, n - 1).update(
            users[n - 1].slot as int,
            PerUserBoost { user_id: Some(users[n - 1].id), boost_level: boosts[n - 1] },
        )
    }
}

/// Client-side state of the audio of a call.
pub struct AudioElement {
    pub channel_with_boosts: Option<ChannelWithBoosts>,
    pub devices: LastUsedAudioDevicesWString,
}

impl AudioElement {
    /// The well-formed state: the channel, if any, has one volume per seat.
    pub open spec fn wf(&self) -> bool {
        self.channel_with_boosts matches Some(c) ==> c.users@.len() == ROOM_SIZE
    }

    /// Not in a channel, with the given devices.
    pub fn new(devices: LastUsedAudioDevicesWString) -> (res: Self)
        ensures
            res.wf(),
            res.channel_with_boosts.is_none(),
            res.devices == devices,
    {
        AudioElement { channel_with_boosts: None, devices }
    }

    /// Enters `channel_with_users`: each seated person gets the stored volume
    /// given in `boosts` (one entry per listed person, in order).
    pub fn set_channel(&mut self, channel_with_users: &ChannelWithUsers, boosts: &Vec<i32>)
        requires
            boosts@.len() == channel_with_users.users@.len(),
            forall|k: int| 0 <= k < channel_with_users.users@.len() ==> (#[trigger] channel_with_users.users@[k]).slot < ROOM_SIZE,
        ensures
            final(self).wf(),
            final(self).devices == old(self).devices,
            ({
                &&& final(self).channel_with_boosts matches Some(c)
                &&& c.channel == channel_with_users.channel
                &&& c.users@ == seat_boosts(channel_with_users.users@, boosts@, channel_with_users.users@.len() as int)
            }),
    {
        let mut users: Vec<PerUserBoost> = Vec::new();
        let mut i: usize = 0;
        while i < ROOM_SIZE
            invariant
                i <= ROOM_SIZE,
                users@ =~= Seq::new(i as nat, |j: int| PerUserBoost { user_id: None, boost_level: DEFAULT_BOOST }),
            decreases ROOM_SIZE - i,
        {
            users.push(PerUserBoost::default());
            i = i + 1;
        }
        let mut k: usize = 0;
        while k < channel_with_users.users.len()
            invariant
                k <= channel_with_users.users@.len(),
                boosts@.len() == channel_with_users.users@.len(),
                forall|j: int| 0 <= j < channel_with_users.users@.len() ==> (#[trigger] channel_with_users.users@[j]).slot < ROOM_SIZE,
                users@ == seat_boosts(channel_with_users.users@, boosts@, k as int),
                users@.len() == ROOM_SIZE,
            decreases channel_with_users.users@.len() - k,
        {
            let user = &channel_with_users.users[k];
            users.set(user.slot, PerUserBoost { user_id: Some(user.id), boost_level: boosts[k] });
            k = k + 1;
        }
        self.channel_with_boosts = Some(ChannelWithBoosts { channel: channel_with_users.channel.clone_channel(), users });
    }

    /// Leaves the channel.
    pub fn clear_channel(&mut self)
        ensures
            final(self).wf(),
            final(self).channel_with_boosts.is_none(),
            final(self).devices == old(self).devices,
    {
        self.channel_with_boosts = None;
    }

    /// Someone joined a voice channel. When it is the client's channel, the
    /// person's seat gets the person and the stored volume `stored` (the
    /// default volume when none is stored); otherwise nothing changes.
    pub fn handle_join_channel(&mut self, data: &AudioChannelMemberUpdate, stored: Option<i32>)
        requires
            old(self).wf(),
            data.user.slot < ROOM_SIZE,
        ensures
            final(self).wf(),
            final(self).devices == old(self).devices,
            match old(self).channel_with_boosts {
                Some(c) => if c.channel.id == data.channel.id {
                    &&& final(self).channel_with_boosts matches Some(f)
                    &&& f.channel == c.channel
                    &&& f.users@ == c.users@.update(data.user.slot as int, PerUserBoost::spec_get(data.user.id, stored))
                    &&& f.users@[data.user.slot as int] == (PerUserBoost {
                        user_id: Some(data.user.id),
                        boost_level: match stored {
                            Some(b) => b,
                            None => DEFAULT_BOOST,
                        },
                    })
                } else {
                    final(self).channel_with_boosts == old(self).channel_with_boosts
                },
                None => final(self).channel_with_boosts.is_none(),
            },
    {
        match &mut self.channel_with_boosts {
            Some(c) => {
                if c.channel.id == data.channel.id {
                    c.users.set(data.user.slot, PerUserBoost::get(data.user.id, stored));
                }
            },
            None => {},
        }
    }

    /// Someone left a voice channel. When it is the client's channel, the
    /// person's seat becomes empty at the default volume; otherwise nothing
    /// changes.
    pub fn handle_leave_channel(&mut self, data: &AudioChannelMemberUpdate)
        requires
            old(self).wf(),
            data.user.slot < ROOM_SIZE,
        ensures
            final(self).wf(),
            final(self).devices == old(self).devices,
            match old(self).channel_with_boosts {
                Some(c) => if c.channel.id == data.channel.id {
                    &&& final(self).channel_with_boosts matches Some(f)
                    &&& f.channel == c.channel
                    &&& f.users@ == c.users@.update(data.user.slot as int, PerUserBoost { user_id: None, boost_level: DEFAULT_BOOST })
                } else {
                    final(self).channel_with_boosts == old(self).channel_with_boosts
                },
                None => final(self).channel_with_boosts.is_none(),
            },
    {
        match &mut self.channel_with_boosts {
            Some(c) => {
                if c.channel.id == data.channel.id {
                    c.users.set(data.user.slot, PerUserBoost::default());
                }
            },
            None => {},
        }
    }

    /// Sets the volume of `user_id` in the first seat that holds that person
    /// and gives the changed entry, to be stored; `None` and no change when
    /// the person is not seated in the client's channel.
    pub fn set_user_boost(&mut self, user_id: u128, boost: i32) -> (res: Option<PerUserBoost>)
        requires
            old(self).wf(),
        ensures
            final(self).wf(),
            final(self).devices == old(self).devices,
            match res {
                Some(b) => {
                    &&& b == (PerUserBoost { user_id: Some(user_id), boost_level: boost })
                    &&& old(self).channel_with_boosts matches Some(c)
                    &&& exists|i: int| {
                        &&& 0 <= i < ROOM_SIZE
                        &&& (#[trigger] c.users@[i]).user_id == Some(user_id)
                        &&& forall|j: int| 0 <= j < i ==> (#[trigger] c.users@[j]).user_id != Some(user_id)
                        &&& final(self).channel_with_boosts matches Some(f)
                        &&& f.channel == c.channel
                        &&& f.users@ == c.users@.update(i, b)
                    }
                },
                None => {
                    &&& final(self).channel_with_boosts == old(self).channel_with_boosts
                    &&& old(self).channel_with_boosts matches Some(c) ==> forall|j: int| 0 <= j < ROOM_SIZE ==> (#[trigger] c.users@[j]).user_id != Some(user_id)
                },
            },
    {
        let found = match &self.channel_with_boosts {
            Some(c) => first_seat_of(&c.users, user_id),
            None => None,
        };
        match found {
            Some(i) => {
                let b = PerUserBoost { user_id: Some(user_id), boost_level: boost };
                match &mut self.channel_with_boosts {
                    Some(c) => c.users.set(i, b),
                    None => {},
                }
                Some(b)
            },
            None => None,
        }
    }

    /// Remembers the speaker volume.
    pub fn change_speaker_boost(&mut self, boost: i32)
        ensures
            final(self).channel_with_boosts == old(self).channel_with_boosts,
            final(self).devices.speaker_boost == Some(boost),
            final(self).devices.speaker == old(self).devices.speaker,
            final(self).devices.mic == old(self).devices.mic,
            final(self).devices.mic_boost == old(self).devices.mic_boost,
            final(self).devices.id == old(self).devices.id,
    {
        self.devices.speaker_boost = Some(boost);
    }

    /// Remembers the microphone volume.
    pub fn change_mic_boost(&mut self, boost: i32)
        ensures
            final(self).channel_with_boosts == old(self).channel_with_boosts,
            final(self).devices.mic_boost == Some(boost),
            final(self).devices.speaker == old(self).devices.speaker,
            final(self).devices.mic == old(self).devices.mic,
            final(self).devices.speaker_boost == old(self).devices.speaker_boost,
            final(self).devices.id == old(self).devices.id,
    {
        self.devices.mic_boost = Some(boost);
    }
}

impl PerUserBoost {
    /// The volume for `user_id` given the stored volume, if any.
    pub open spec fn spec_get(user_id: u128, stored: Option<i32>) -> PerUserBoost {
        PerUserBoost {
            user_id: Some(user_id),
            boost_level: match stored {
                Some(b) => b,
                None => DEFAULT_BOOST,
            },
        }
    }
}

/// A person who joins the client's channel is listened to at the volume
/// stored for that person, and at the default volume only when none is
/// stored.
pub proof fn lemma_joined_person_gets_stored_volume(user_id: u128, stored: Option<i32>)
    ensures
        PerUserBoost::spec_get(user_id, stored).user_id == Some(user_id),
        stored matches Some(b) ==> PerUserBoost::spec_get(user_id, stored).boost_level == b,
        stored is None ==> PerUserBoost::spec_get(user_id, stored).boost_level == DEFAULT_BOOST,
{
}

/// The first seat that holds `user_id`.
fn first_seat_of(users: &Vec<PerUserBoost>, user_id: u128) -> (res: Option<usize>)
    ensures
        match res {
            Some(i) => {
                &&& i < users@.len()
                &&& users@[i as int].user_id == Some(user_id)
                &&& forall|j: int| 0 <= j < i ==> (#[trigger] users@[j]).user_id != Some(user_id)
            },
            None => forall|j: int| 0 <= j < users@.len() ==> (#[trigger] users@[j]).user_id != Some(user_id),
        },
{
    let mut i: usize = 0;
    while i < users.len()
        invariant
            i <= users@.len(),
            forall|j: int| 0 <= j < i ==> (#[trigger] users@[j]).user_id != Some(user_id),
        decreases users@.len() - i,
    {
        if users[i].user_id == Some(user_id) {
            return Some(i);
        }
        i = i + 1;
    }
    None
}

} // verus!
