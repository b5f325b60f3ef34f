//! Users that are connected right now, and which servers they are looking at.

use vstd::prelude::*;
use dashmap::DashMap;
use std::collections::HashSet;

use crate::auth::UserRecord;

verus! {

broadcast use vstd::std_specs::hash::group_hash_axioms;

/// A connected user and the voice channel the user is in, if any.
pub struct OnlineUser {
    pub user: UserRecord,
    pub audio_channel: Option<u128>,
}

impl OnlineUser {
    /// A connected user in no voice channel.
    pub fn new(user: UserRecord) -> (res: Self)
        ensures
            res.user == user,
            res.audio_channel.is_none(),
    {
        OnlineUser { user, audio_channel: None }
    }

    /// Records that the user is in voice channel `channel_id`.
    pub fn set_audio_channel(&mut self, channel_id: u128)
        ensures
            final(self).user == old(self).user,
            final(self).audio_channel == Some(channel_id),
    {
        self.audio_channel = Some(channel_id);
    }

    /// Records that the user is in no voice channel.
    pub fn clear_audio_channel(&mut self)
        ensures
            final(self).user == old(self).user,
            final(self).audio_channel.is_none(),
    {
        self.audio_channel = None;
    }

    /// The voice channel the user is in.
    pub fn get_audio_channel(&self) -> (res: Option<u128>)
        ensures
            res == self.audio_channel,
    {
        self.audio_channel
    }
}

/// A server a user has joined.
#[derive(Debug, Clone)]
pub struct Server {
    pub id: u128,
    pub name: String,
    pub connection_string: String,
    pub image_url: Option<String>,
    pub image_path: Option<String>,
}

#[verifier::external_type_specification]
#[verifier::external_body]
#[verifier::reject_recursive_types(K)]
#[verifier::reject_recursive_types(V)]
#[verifier::reject_recursive_types(S)]
pub struct ExDashMap<K, V, S>(DashMap<K, V, S>);

/// The entries of the map from user id to the server the user looks at.
pub uninterp spec fn user_server_entries(m: DashMap<u128, Server>) -> Map<u128, Server>;

/// The entries of the map from server id to the users looking at it.
pub uninterp spec fn server_user_entries(m: DashMap<u128, HashSet<u128>>) -> Map<u128, Set<u128>>;

/// `dashmap::DashMap::new` for the user-to-server map: no entries.
#[verifier::external_body]
fn new_user_server_map() -> (res: DashMap<u128, Server>)
    ensures
        user_server_entries(res).is_empty(),
{
    dashmap::DashMap::new()
}

/// `dashmap::DashMap::new` for the server-to-users map: no entries.
#[verifier::external_body]
fn new_server_user_map() -> (res: DashMap<u128, HashSet<u128>>)
    ensures
        server_user_entries(res).is_empty(),
{
    dashmap::DashMap::new()
}

/// `DashMap::insert` on the user-to-server map: `key` now maps to `value`.
#[verifier::external_body]
fn user_server_insert(m: &mut DashMap<u128, Server>, key: u128, value: Server)
    ensures
        user_server_entries(*final(m)) == user_server_entries(*old(m)).insert(key, value),
{
    m.insert(key, value);
}

/// `DashMap::remove` on the user-to-server map: drops `key` and gives the
/// server it mapped to.
#[verifier::external_body]
fn user_server_remove(m: &mut DashMap<u128, Server>, key: u128) -> (res: Option<Server>)
    ensures
        user_server_entries(*final(m)) == user_server_entries(*old(m)).remove(key),
        res == user_server_entries(*old(m)).get(key),
{
    m.remove(&key).map(|(_, v)| v)
}

/// `DashMap::get` on the user-to-server map, cloning the server found.
#[verifier::external_body]
fn user_server_get(m: &DashMap<u128, Server>, key: u128) -> (res: Option<Server>)
    ensures
        res == user_server_entries(*m).get(key),
{
    m.get(&key).map(|r| r.value().clone())
}

/// `DashMap::insert` on the server-to-users map: `key` now maps to `value`.
#[verifier::external_body]
fn server_user_insert(m: &mut DashMap<u128, HashSet<u128>>, key: u128, value: HashSet<u128>)
    ensures
        server_user_entries(*final(m)) == server_user_entries(*old(m)).insert(key, value@),
{
    m.insert(key, value);
}

/// `DashMap::remove` on the server-to-users map: drops `key`.
#[verifier::external_body]
fn server_user_remove(m: &mut DashMap<u128, HashSet<u128>>, key: u128)
    ensures
        server_user_entries(*final(m)) == server_user_entries(*old(m)).remove(key),
{
    m.remove(&key);
}

/// `DashMap::get` on the server-to-users map, cloning the set found.
#[verifier::external_body]
fn server_user_get(m: &DashMap<u128, HashSet<u128>>, key: u128) -> (res: Option<HashSet<u128>>)
    ensures
        match res {
            Some(s) => server_user_entries(*m).contains_key(key) && s@ == server_user_entries(*m)[key],
            None => !server_user_entries(*m).contains_key(key),
        },
{
    m.get(&key).map(|r| r.value().clone())
}

/// Which server each connected user looks at, and who looks at each server.
pub struct UsersActiveServers {
    pub user_to_server_map: DashMap<u128, Server>,
    pub server_to_user_map: DashMap<u128, HashSet<u128>>,
}

/// The users looking at `server_id` in `m`; nobody when it has no entry.
pub open spec fn users_of(m: Map<u128, Set<u128>>, server_id: u128) -> Set<u128> {
    if m.contains_key(server_id) {
        m[server_id]
    } else {
        Set::empty()
    }
}

impl UsersActiveServers {
    /// The server each user looks at.
    pub open spec fn user_servers(&self) -> Map<u128, Server> {
        user_server_entries(self.user_to_server_map)
    }

    /// The users looking at each server.
    pub open spec fn server_users(&self) -> Map<u128, Set<u128>> {
        server_user_entries(self.server_to_user_map)
    }

    /// Nobody looks at any server.
    pub fn new() -> (res: Self)
        ensures
            res.user_servers() == Map::<u128, Server>::empty(),
            res.server_users() == Map::<u128, Set<u128>>::empty(),
    {
        UsersActiveServers { user_to_server_map: new_user_server_map(), server_to_user_map: new_server_user_map() }
    }

    /// Records that `user` now looks at `server`: the user's server becomes
    /// `server`, and the user joins the users of `server`.
    pub fn add_user_to_server(&mut self, user: &OnlineUser, server: &Server)
        ensures
            final(self).user_servers() == old(self).user_servers().insert(user.user.id, *server),
            final(self).server_users() == old(self).server_users().insert(
                server.id,
                users_of(old(self).server_users(), server.id).insert(user.user.id),
            ),
    {
        let server_id = server.id;
        user_server_insert(&mut self.user_to_server_map, user.user.id, server.clone_server());
        let mut users = match server_user_get(&self.server_to_user_map, server_id) {
            Some(s) => s,
            None => HashSet::new(),
        };
        users.insert(user.user.id);
        server_user_insert(&mut self.server_to_user_map, server_id, users);
    }

    /// Forgets the server `user` looks at; the entry of that server, with
    /// all users looking at it, is dropped too.
    pub fn remove_user_from_server(&mut self, user: &OnlineUser)
        ensures
            final(self).user_servers() == old(self).user_servers().remove(user.user.id),
            final(self).server_users() == if old(self).user_servers().contains_key(user.user.id) {
                old(self).server_users().remove(old(self).user_servers()[user.user.id].id)
            } else {
                old(self).server_users()
            },
    {
        let removed = user_server_remove(&mut self.user_to_server_map, user.user.id);
        match removed {
            Some(server) => server_user_remove(&mut self.server_to_user_map, server.id),
            None => {},
        }
    }

    /// The server `user` looks at.
    pub fn get_server_for_user(&self, user: &OnlineUser) -> (res: Option<Server>)
        ensures
            res == self.user_servers().get(user.user.id),
    {
        user_server_get(&self.user_to_server_map, user.user.id)
    }

    /// The ids of the users looking at `server`; none when nobody does.
    pub fn get_users_for_server(&self, server: &Server) -> (res: HashSet<u128>)
        ensures
            res@ == users_of(self.server_users(), server.id),
    {
        match server_user_get(&self.server_to_user_map, server.id) {
            Some(s) => s,
            None => HashSet::new(),
        }
    }
}

impl Server {
    /// A copy of this server.
    pub fn clone_server(&self) -> (res: Server)
        ensures
            res == *self,
    {
        Server {
            id: self.id,
            name: self.name.clone(),
            connection_string: self.connection_string.clone(),
            image_url: match &self.image_url {
                Some(u) => Some(u.clone()),
                None => None,
            },
            image_path: match &self.image_path {
                Some(p) => Some(p.clone()),
                None => None,
            },
        }
    }
}

/// After `user` starts looking at `server`, that is the user's server and
/// the user is among the users of `server`; everyone else keeps their
/// server.
pub proof fn lemma_added_user_is_found(
    before: UsersActiveServers,
    after: UsersActiveServers,
    user: OnlineUser,
    server: Server,
    other: u128,
)
    requires
        after.user_servers() == before.user_servers().insert(user.user.id, server),
        after.server_users() == before.server_users().insert(
            server.id,
            users_of(before.server_users(), server.id).insert(user.user.id),
        ),
        other != user.user.id,
    ensures
        after.user_servers().get(user.user.id) == Some(server),
        users_of(after.server_users(), server.id).contains(user.user.id),
        after.user_servers().get(other) == before.user_servers().get(other),
{
}

/// After `user` stops looking at servers, the user has no server and the
/// server the user looked at has no users left.
pub proof fn lemma_removed_user_is_gone(before: UsersActiveServers, after: UsersActiveServers, user: OnlineUser)
    requires
        before.user_servers().contains_key(user.user.id),
        after.user_servers() == before.user_servers().remove(user.user.id),
        after.server_users() == before.server_users().remove(before.user_servers()[user.user.id].id),
    ensures
        after.user_servers().get(user.user.id).is_none(),
        users_of(after.server_users(), before.user_servers()[user.user.id].id) == Set::<u128>::empty(),
{
}

} // verus!
