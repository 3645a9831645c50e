//! Account records: what a client submits, what is stored, and what is shown.

use vstd::prelude::*;

verus! {

/// The credentials a client submits to sign up or to log in.
#[derive(Clone, Debug, PartialEq, Eq)]
pub struct CreateUser {
    pub name: String,
    pub pass: String,
}

/// A stored account. Times are microseconds since the Unix epoch.
#[derive(Clone, Debug, PartialEq, Eq)]
pub struct User {
    pub id: i32,
    pub room_ids: Vec<i32>,
    pub name: String,
    pub pass_hash: String,
    pub joined_at: i64,
}

/// The part of an account that may be shown to anyone.
#[derive(Clone, Debug, PartialEq, Eq)]
pub struct UserPublicInfo {
    pub id: i32,
    pub name: String,
    pub joined_at: i64,
}

/// The public record of an account as plain values: identity, name, time of joining.
pub open spec fn public_record(user: User) -> (i32, Seq<char>, i64) {
    (user.id, user.name@, user.joined_at)
}

impl UserPublicInfo {
    /// This record as plain values: identity, name, time of joining.
    pub open spec fn record(self) -> (i32, Seq<char>, i64) {
        (self.id, self.name@, self.joined_at)
    }
}

impl User {
    /// The public record of this account. The password hash and the rooms stay behind.
    pub fn public_info(&self) -> (info: UserPublicInfo)
        ensures
            info.record() == public_record(*self),
    {
        UserPublicInfo { id: self.id, name: self.name.clone(), joined_at: self.joined_at }
    }

    /// Appends `room_id` to the rooms of this account. A room that is already
    /// listed is listed once more.
    pub fn attach_room(&mut self, room_id: i32)
        ensures
            final(self).room_ids@ == old(self).room_ids@.push(room_id),
            final(self).id == old(self).id,
            final(self).name == old(self).name,
            final(self).pass_hash == old(self).pass_hash,
            final(self).joined_at == old(self).joined_at,
    {
        self.room_ids.push(room_id);
    }
}

/// The public record of an account does not depend on its password hash or on
/// its rooms: accounts that agree on identity, name and time of joining have
/// the same public record.
pub proof fn lemma_public_record_hides_hash(first: User, second: User)
    requires
        first.id == second.id,
        first.name@ == second.name@,
        first.joined_at == second.joined_at,
    ensures
        public_record(first) == public_record(second),
{
}

/// Attaching two rooms to an account loses neither, whichever is attached
/// first: both are among the rooms afterwards, and so is every earlier room.
pub proof fn lemma_attach_keeps_both(rooms: Seq<i32>, first: i32, second: i32)
    ensures
        rooms.push(first).push(second).contains(first),
        rooms.push(first).push(second).contains(second),
        rooms.push(second).push(first).contains(first),
        rooms.push(second).push(first).contains(second),
        forall|room: i32|
            rooms.contains(room) ==> rooms.push(first).push(second).contains(room)
                && rooms.push(second).push(first).contains(room),
        rooms.push(first).push(second).to_multiset() == rooms.push(second).push(
            first,
        ).to_multiset(),
{
    let a = rooms.push(first).push(second);
    let b = rooms.push(second).push(first);
    let n = rooms.len() as int;
    assert(a[n] == first && a[n + 1] == second);
    assert(b[n] == second && b[n + 1] == first);
    assert forall|room: i32| rooms.contains(room) implies a.contains(room) && b.contains(
        room,
    ) by {
        let i = choose|i: int| 0 <= i < rooms.len() && rooms[i] == room;
        assert(a[i] == room && b[i] == room);
    }
    broadcast use vstd::seq_lib::group_to_multiset_ensures;
    assert(a.to_multiset() =~= b.to_multiset());
}

} // verus!
