//! Server permissions: the rights a role can carry, the rights each new role
//! starts with, and which right an action needs.

use vstd::prelude::*;
use vstd::string::*;

use crate::channels::Channel;

verus! {

/// A right that a role on a server can carry.
#[derive(Debug, Clone, Copy, PartialEq, Eq, Structural, Hash)]
pub enum PermissionType {
    CreateChannel,
    CreateHiddenChannel,
    ListChannels,
    ListHiddenChannels,
    ListUsersInServer,
    JoinAudioChannel,
    JoinAudioChannelInHiddenChannels,
    SendMessages,
    DeleteMessagesSelf,
}

/// Every right, in declaration order.
pub open spec fn all_permissions() -> Seq<PermissionType> {
    seq![
        PermissionType::CreateChannel,
        PermissionType::CreateHiddenChannel,
        PermissionType::ListChannels,
        PermissionType::ListHiddenChannels,
        PermissionType::ListUsersInServer,
        PermissionType::JoinAudioChannel,
        PermissionType::JoinAudioChannelInHiddenChannels,
        PermissionType::SendMessages,
        PermissionType::DeleteMessagesSelf,
    ]
}

/// The rights of the "user" role that every member of a server gets.
pub open spec fn user_permissions() -> Seq<PermissionType> {
    seq![
        PermissionType::ListChannels,
        PermissionType::ListUsersInServer,
        PermissionType::JoinAudioChannel,
        PermissionType::SendMessages,
        PermissionType::DeleteMessagesSelf,
    ]
}

/// Every right, in declaration order.
pub fn all_permission_types() -> (res: Vec<PermissionType>)
    ensures
        res@ == all_permissions(),
{
    let res = vec![
        PermissionType::CreateChannel,
        PermissionType::CreateHiddenChannel,
        PermissionType::ListChannels,
        PermissionType::ListHiddenChannels,
        PermissionType::ListUsersInServer,
        PermissionType::JoinAudioChannel,
        PermissionType::JoinAudioChannelInHiddenChannels,
        PermissionType::SendMessages,
        PermissionType::DeleteMessagesSelf,
    ];
    assert(res@ =~= all_permissions());
    res
}

/// The rights of the "owner" role that the creator of a server gets: all
/// of them.
pub fn default_owner_permissions() -> (res: Vec<PermissionType>)
    ensures
        res@ == all_permissions(),
{
    all_permission_types()
}

/// The rights of the "user" role that every member of a server gets.
pub fn default_user_permissions() -> (res: Vec<PermissionType>)
    ensures
        res@ == user_permissions(),
{
    let res = vec![
        PermissionType::ListChannels,
        PermissionType::ListUsersInServer,
        PermissionType::JoinAudioChannel,
        PermissionType::SendMessages,
        PermissionType::DeleteMessagesSelf,
    ];
    assert(res@ =~= user_permissions());
    res
}

/// The owner role carries every right, each once.
pub proof fn lemma_owner_has_every_permission(p: PermissionType)
    ensures
        all_permissions().contains(p),
        all_permissions().no_duplicates(),
{
    let s = all_permissions();
    match p {
        PermissionType::CreateChannel => assert(s[0] == p),
        PermissionType::CreateHiddenChannel => assert(s[1] == p),
        PermissionType::ListChannels => assert(s[2] == p),
        PermissionType::ListHiddenChannels => assert(s[3] == p),
        PermissionType::ListUsersInServer => assert(s[4] == p),
        PermissionType::JoinAudioChannel => assert(s[5] == p),
        PermissionType::JoinAudioChannelInHiddenChannels => assert(s[6] == p),
        PermissionType::SendMessages => assert(s[7] == p),
        PermissionType::DeleteMessagesSelf => assert(s[8] == p),
    }
}

/// Every right of the user role is a right of the owner role, and a plain
/// member can neither create channels nor see or join hidden ones.
pub proof fn lemma_user_rights_within_owner_rights()
    ensures
        forall|p: PermissionType| #[trigger] user_permissions().contains(p) ==> all_permissions().contains(p),
        !user_permissions().contains(PermissionType::CreateChannel),
        !user_permissions().contains(PermissionType::CreateHiddenChannel),
        !user_permissions().contains(PermissionType::ListHiddenChannels),
        !user_permissions().contains(PermissionType::JoinAudioChannelInHiddenChannels),
{
    assert forall|p: PermissionType| #[trigger] user_permissions().contains(p) implies all_permissions().contains(p) by {
        lemma_owner_has_every_permission(p);
    }
    let u = user_permissions();
    assert(!u.contains(PermissionType::CreateChannel)) by {
        if u.contains(PermissionType::CreateChannel) {
            let k = choose|k: int| 0 <= k < u.len() && u[k] == PermissionType::CreateChannel;
        }
    }
    assert(!u.contains(PermissionType::CreateHiddenChannel)) by {
        if u.contains(PermissionType::CreateHiddenChannel) {
            let k = choose|k: int| 0 <= k < u.len() && u[k] == PermissionType::CreateHiddenChannel;
        }
    }
    assert(!u.contains(PermissionType::ListHiddenChannels)) by {
        if u.contains(PermissionType::ListHiddenChannels) {
            let k = choose|k: int| 0 <= k < u.len() && u[k] == PermissionType::ListHiddenChannels;
        }
    }
    assert(!u.contains(PermissionType::JoinAudioChannelInHiddenChannels)) by {
        if u.contains(PermissionType::JoinAudioChannelInHiddenChannels) {
            let k = choose|k: int| 0 <= k < u.len() && u[k] == PermissionType::JoinAudioChannelInHiddenChannels;
        }
    }
}

/// The right needed to create a channel: creating a hidden channel needs
/// `CreateHiddenChannel`, any other `CreateChannel`.
pub open spec fn needed_to_create(hidden: bool) -> PermissionType {
    if hidden { PermissionType::CreateHiddenChannel } else { PermissionType::CreateChannel }
}

/// The right needed to join the audio of a channel: a hidden channel needs
/// `JoinAudioChannelInHiddenChannels`, any other `JoinAudioChannel`.
pub open spec fn needed_to_join(hidden: bool) -> PermissionType {
    if hidden { PermissionType::JoinAudioChannelInHiddenChannels } else { PermissionType::JoinAudioChannel }
}

/// The right needed to create a channel.
pub fn create_channel_permission(hidden: bool) -> (res: PermissionType)
    ensures
        res == needed_to_create(hidden),
{
    if hidden {
        PermissionType::CreateHiddenChannel
    } else {
        PermissionType::CreateChannel
    }
}

/// The right needed to join the audio of a channel.
pub fn join_audio_permission(hidden: bool) -> (res: PermissionType)
    ensures
        res == needed_to_join(hidden),
{
    if hidden {
        PermissionType::JoinAudioChannelInHiddenChannels
    } else {
        PermissionType::JoinAudioChannel
    }
}

/// A channel is listed to a user when it is hidden and the user may list
/// hidden channels, or it is not hidden and the user may list channels.
pub open spec fn channel_visible(hidden: bool, can_see: bool, can_see_hidden: bool) -> bool {
    (hidden && can_see_hidden) || (!hidden && can_see)
}

/// The channels listed to a user, in the order given.
pub open spec fn visible_channel_seq(channels: Seq<Channel>, can_see: bool, can_see_hidden: bool) -> Seq<Channel> {
    channels.filter(|c: Channel| channel_visible(c.hidden, can_see, can_see_hidden))
}

/// Keeps the channels that a user with the given list rights may see, in
/// the order given.
pub fn visible_channels(channels: Vec<Channel>, can_see: bool, can_see_hidden: bool) -> (res: Vec<Channel>)
    ensures
        res@ == visible_channel_seq(channels@, can_see, can_see_hidden),
{
    let ghost pred = |c: Channel| channel_visible(c.hidden, can_see, can_see_hidden);
    let ghost all = channels@;
    let n: usize = channels.len();
    assert(all.len() == n);
    let mut res: Vec<Channel> = Vec::new();
    let mut rest = channels;
    let mut i: usize = 0;
    while rest.len() > 0
        invariant
            i <= all.len(),
            all.len() <= usize::MAX,
            pred == (|c: Channel| channel_visible(c.hidden, can_see, can_see_hidden)),
            rest@ == all.subrange(i as int, all.len() as int),
            res@ == all.subrange(0, i as int).filter(pred),
        decreases rest@.len(),
    {
        let c = rest.remove(0);
        proof {
            assert(c == all[i as int]);
            assert(all.subrange(0, i + 1 as int).drop_last() =~= all.subrange(0, i as int));
            assert(all.subrange(0, i + 1 as int).last() == c);
            reveal_with_fuel(Seq::filter, 1);
        }
        if c.hidden && can_see_hidden || !c.hidden && can_see {
            res.push(c);
        }
        i = i + 1;
    }
    assert(all.subrange(0, all.len() as int) =~= all);
    res
}

/// Listing channels shows a user exactly the channels the user's rights
/// make visible: every listed channel is visible and comes from the server's
/// channels, and every visible channel of the server is listed. Without
/// `ListHiddenChannels` no hidden channel is listed.
pub proof fn lemma_listed_exactly_visible(channels: Seq<Channel>, can_see: bool, can_see_hidden: bool)
    ensures
        forall|k: int|
            0 <= k < visible_channel_seq(channels, can_see, can_see_hidden).len() ==> {
                let c = #[trigger] visible_channel_seq(channels, can_see, can_see_hidden)[k];
                &&& channel_visible(c.hidden, can_see, can_see_hidden)
                &&& channels.contains(c)
            },
        forall|i: int|
            0 <= i < channels.len() && channel_visible(#[trigger] channels[i].hidden, can_see, can_see_hidden)
                ==> visible_channel_seq(channels, can_see, can_see_hidden).contains(channels[i]),
        !can_see_hidden ==> forall|k: int|
            0 <= k < visible_channel_seq(channels, can_see, can_see_hidden).len()
                ==> !(#[trigger] visible_channel_seq(channels, can_see, can_see_hidden)[k]).hidden,
{
    let pred = |c: Channel| channel_visible(c.hidden, can_see, can_see_hidden);
    let listed = visible_channel_seq(channels, can_see, can_see_hidden);
    assert(listed == channels.filter(pred));
    assert forall|k: int| 0 <= k < listed.len() implies {
        let c = #[trigger] listed[k];
        &&& channel_visible(c.hidden, can_see, can_see_hidden)
        &&& channels.contains(c)
    } by {
        channels.lemma_filter_pred(pred, k);
        assert(listed.contains(listed[k]));
        channels.lemma_filter_contains_rev(pred, listed[k]);
    }
    assert forall|i: int| 0 <= i < channels.len() && channel_visible(#[trigger] channels[i].hidden, can_see, can_see_hidden) implies listed.contains(
        channels[i],
    ) by {
        assert(pred(channels[i]));
        channels.lemma_filter_contains(pred, i);
    }
}

/// The role name and rights of a user on a server.
#[derive(Debug, Clone)]
pub struct PermissionsOfUser {
    pub role: String,
    pub permission_type: Vec<PermissionType>,
}

/// The rights named in the rows, in order, skipping rows without a right.
pub open spec fn present_permissions(rows: Seq<(String, Option<PermissionType>)>) -> Seq<PermissionType>
    decreases rows.len(),
{
    if rows.len() == 0 {
        Seq::empty()
    } else {
        let before = present_permissions(rows.drop_last());
        match rows.last().1 {
            Some(p) => before.push(p),
            None => before,
        }
    }
}

/// A (role, right) row carries a right.
pub open spec fn carries_right(row: (String, Option<PermissionType>)) -> bool {
    row.1 is Some
}

/// The rights of a user are exactly the rights that the rows carry, in row
/// order: every right carried by a row is among them, and they are the
/// rows that carry a right, each taken by its right.
pub proof fn lemma_rights_are_those_the_rows_carry(rows: Seq<(String, Option<PermissionType>)>)
    ensures
        present_permissions(rows) == rows.filter(|r: (String, Option<PermissionType>)| carries_right(r)).map_values(
            |r: (String, Option<PermissionType>)| r.1.unwrap(),
        ),
        forall|k: int|
            0 <= k < rows.len() && (#[trigger] rows[k]).1 is Some ==> present_permissions(rows).contains(rows[k].1.unwrap()),
    decreases rows.len(),
{
    let pred = |r: (String, Option<PermissionType>)| carries_right(r);
    let right = |r: (String, Option<PermissionType>)| r.1.unwrap();
    if rows.len() > 0 {
        let init = rows.drop_last();
        lemma_rights_are_those_the_rows_carry(init);
        reveal_with_fuel(Seq::filter, 1);
        assert(rows.filter(pred) == if pred(rows.last()) {
            init.filter(pred).push(rows.last())
        } else {
            init.filter(pred)
        });
        if pred(rows.last()) {
            assert(init.filter(pred).push(rows.last()).map_values(right) =~= init.filter(pred).map_values(right).push(
                rows.last().1.unwrap(),
            ));
        }
        let now = present_permissions(rows);
        let before = present_permissions(init);
        assert forall|k: int| 0 <= k < rows.len() && (#[trigger] rows[k]).1 is Some implies now.contains(rows[k].1.unwrap()) by {
            if k < rows.len() - 1 {
                assert(rows[k] == init[k]);
                let j = choose|j: int| 0 <= j < before.len() && before[j] == init[k].1.unwrap();
                assert(now[j] == before[j]);
            } else {
                assert(now[before.len() as int] == rows[k].1.unwrap());
            }
        }
    } else {
        assert(rows.filter(pred) =~= Seq::<(String, Option<PermissionType>)>::empty());
    }
}

/// Folds the (role, right) rows found for a user into the user's role and
/// rights: the role is that of the first row, or "none" when there is no row;
/// the rights are those of the rows that carry one, in row order.
pub fn permissions_of_user(rows: Vec<(String, Option<PermissionType>)>) -> (res: PermissionsOfUser)
    ensures
        rows@.len() == 0 ==> res.role@ == "none"@,
        rows@.len() > 0 ==> res.role@ == rows@[0].0@,
        res.permission_type@ == present_permissions(rows@),
{
    let role = if rows.len() == 0 {
        String::from_str("none")
    } else {
        rows[0].0.clone()
    };
    let mut permission_type: Vec<PermissionType> = Vec::new();
    let mut i: usize = 0;
    while i < rows.len()
        invariant
            i <= rows@.len(),
            permission_type@ == present_permissions(rows@.subrange(0, i as int)),
        decreases rows@.len() - i,
    {
        proof {
            assert(rows@.subrange(0, i + 1 as int).drop_last() =~= rows@.subrange(0, i as int));
        }
        match rows[i].1 {
            Some(p) => permission_type.push(p),
            None => {},
        }
        i = i + 1;
    }
    assert(rows@.subrange(0, rows@.len() as int) =~= rows@);
    PermissionsOfUser { role, permission_type }
}

} // verus!
