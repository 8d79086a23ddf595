//! The room registry: every room the server knows, keyed by name.
//! The room named "general" always exists and can never be deleted.
use crate::room::Room;
use crate::text::str_eq;
use crate::Addr;
use vstd::prelude::*;

verus! {

/// Why a registry operation was refused.
#[derive(Clone, Copy, Debug, PartialEq, Eq, Structural)]
pub enum RoomError {
    /// No room of that name exists.
    NotFound,
    /// A room of that name already exists.
    AlreadyExists,
    /// The room is protected and the supplied password does not match.
    BadPassword,
    /// The room is protected and no password was supplied.
    PasswordRequired,
    /// Only the room's owner may do this.
    NotOwner,
    /// The room "general" cannot be deleted.
    Protected,
}

/// The registry of rooms. Names are unique and "general" is always present.
pub struct RoomManager {
    pub rooms: Vec<Room>,
}

impl RoomManager {
    /// Room names are unique, every room is well formed, and a room named
    /// "general" exists.
    pub open spec fn wf(self) -> bool {
        &&& forall|i: int, j: int|
            0 <= i < j < self.rooms@.len() ==> self.rooms@[i].name@ != self.rooms@[j].name@
        &&& forall|i: int| 0 <= i < self.rooms@.len() ==> (#[trigger] self.rooms@[i]).wf()
        &&& self.spec_has_room("general"@)
    }

    /// A room named `name` exists.
    pub open spec fn spec_has_room(self, name: Seq<char>) -> bool {
        exists|i: int| 0 <= i < self.rooms@.len() && (#[trigger] self.rooms@[i]).name@ == name
    }

    /// The position of the room named `name`.
    pub open spec fn spec_room_index(self, name: Seq<char>) -> int {
        choose|i: int| 0 <= i < self.rooms@.len() && (#[trigger] self.rooms@[i]).name@ == name
    }

    /// The room named `name`.
    pub open spec fn spec_room(self, name: Seq<char>) -> Room {
        self.rooms@[self.spec_room_index(name)]
    }

    /// The members of the room named `name`; empty if it does not exist.
    pub open spec fn spec_members(self, name: Seq<char>) -> Seq<Addr> {
        if self.spec_has_room(name) {
            self.spec_room(name).members@
        } else {
            Seq::empty()
        }
    }

    /// `addr` is a member of some room.
    pub open spec fn spec_in_some_room(self, addr: Addr) -> bool {
        exists|i: int|
            0 <= i < self.rooms@.len() && (#[trigger] self.rooms@[i]).members@.contains(addr)
    }

    /// `addr` is a member of at most one room: the caller discipline that
    /// join always follows leave keeps this true.
    pub open spec fn spec_in_at_most_one_room(self, addr: Addr) -> bool {
        forall|i: int, j: int|
            0 <= i < self.rooms@.len() && 0 <= j < self.rooms@.len() && (
            #[trigger] self.rooms@[i]).members@.contains(addr) && (
            #[trigger] self.rooms@[j]).members@.contains(addr) ==> i == j
    }

    /// A fresh registry holding only an unprotected "general" room owned by
    /// the server itself.
    pub fn new() -> (r: RoomManager)
        ensures
            r.wf(),
            r.rooms@.len() == 1,
            r.rooms@[0].name@ == "general"@,
            r.rooms@[0].password is None,
            r.rooms@[0].owner == 0,
            r.rooms@[0].members@ == Seq::<Addr>::empty(),
    {
        let general = Room::new(String::from_str("general"), None, 0);
        let mut rooms: Vec<Room> = Vec::new();
        rooms.push(general);
        let r = RoomManager { rooms };
        proof {
            assert(r.rooms@[0].name@ == "general"@);
        }
        r
    }

    /// The position of the room named `name`, if any.
    fn find_room(&self, name: &str) -> (r: Option<usize>)
        requires
            self.wf(),
        ensures
            match r {
                Some(i) => i < self.rooms@.len() && self.rooms@[i as int].name@ == name@ && i
                    as int == self.spec_room_index(name@),
                None => !self.spec_has_room(name@),
            },
    {
        let n = self.rooms.len();
        let mut i: usize = 0;
        while i < n
            invariant
                i <= n,
                n == self.rooms@.len(),
                self.wf(),
                forall|k: int| 0 <= k < i ==> (#[trigger] self.rooms@[k]).name@ != name@,
            decreases n - i,
        {
            if str_eq(self.rooms[i].name.as_str(), name) {
                return Some(i);
            }
            i += 1;
        }
        None
    }

    /// Creates a room; refused when the name is taken. The creator becomes
    /// its owner; it starts with no members.
    pub fn create_room(&mut self, name: String, password: Option<String>, owner: Addr) -> (r:
        Result<(), RoomError>)
        requires
            old(self).wf(),
        ensures
            final(self).wf(),
            r == Ok::<(), RoomError>(()) <==> !old(self).spec_has_room(name@),
            r is Err ==> r == Err::<(), RoomError>(RoomError::AlreadyExists) && *final(self) == *old(self),
            r is Ok ==> {
                &&& final(self).rooms@.len() == old(self).rooms@.len() + 1
                &&& final(self).rooms@.drop_last() == old(self).rooms@
                &&& final(self).rooms@.last().name == name
                &&& final(self).rooms@.last().password == password
                &&& final(self).rooms@.last().owner == owner
                &&& final(self).rooms@.last().members@ == Seq::<Addr>::empty()
            },
    {
        if self.find_room(name.as_str()).is_some() {
            return Err(RoomError::AlreadyExists);
        }
        let ghost rooms0 = self.rooms@;
        let room = Room::new(name, password, owner);
        self.rooms.push(room);
        proof {
            assert(self.rooms@.drop_last() =~= rooms0);
            assert(self.rooms@[self.rooms@.len() - 1].name@ == room.name@);
            assert forall|i: int, j: int| 0 <= i < j < self.rooms@.len() implies self.rooms@[i].name@
                != self.rooms@[j].name@ by {
                if j == self.rooms@.len() - 1 {
                    assert(self.rooms@[i] == rooms0[i]);
                }
            }
            let g = choose|i: int|
                0 <= i < rooms0.len() && (#[trigger] rooms0[i]).name@ == "general"@;
            assert(self.rooms@[g].name@ == "general"@);
        }
        Ok(())
    }

    /// Adds `addr` to the named room if it exists and the password is
    /// accepted; joining a room one is already in is a no-op, not an error.
    pub fn join_room(&mut self, room_name: &str, addr: Addr, password: Option<&str>) -> (r: Result<
        (),
        RoomError,
    >)
        requires
            old(self).wf(),
        ensures
            final(self).wf(),
            r == Ok::<(), RoomError>(()) <==> old(self).spec_has_room(room_name@) && old(self).spec_room(room_name@).password_accepted(password.deep_view()),
            r == Err::<(), RoomError>(RoomError::NotFound) <==> !old(self).spec_has_room(
                room_name@,
            ),
            r == Err::<(), RoomError>(RoomError::PasswordRequired) <==> old(self).spec_has_room(
                room_name@,
            ) && old(self).spec_room(room_name@).password is Some && password is None,
            r == Err::<(), RoomError>(RoomError::BadPassword) <==> old(self).spec_has_room(
                room_name@,
            ) && old(self).spec_room(room_name@).password is Some && password is Some && !old(self).spec_room(room_name@).password_accepted(password.deep_view()),
            r is Err ==> *final(self) == *old(self),
            r is Ok ==> {
                let idx = old(self).spec_room_index(room_name@);
                let room = old(self).rooms@[idx];
                &&& final(self).rooms@.len() == old(self).rooms@.len()
                &&& (forall|i: int|
                    0 <= i < old(self).rooms@.len() && i != idx ==> final(self).rooms@[i] == old(self).rooms@[i])
                &&& final(self).rooms@[idx].name == room.name
                &&& final(self).rooms@[idx].password == room.password
                &&& final(self).rooms@[idx].owner == room.owner
                &&& final(self).rooms@[idx].members@ == (if room.members@.contains(addr) {
                    room.members@
                } else {
                    room.members@.push(addr)
                })
            },
    {
        let idx = match self.find_room(room_name) {
            Some(i) => i,
            None => {
                return Err(RoomError::NotFound);
            },
        };
        if self.rooms[idx].is_password_protected() {
            match password {
                Some(pwd) => {
                    if !self.rooms[idx].verify_password(pwd) {
                        return Err(RoomError::BadPassword);
                    }
                },
                None => {
                    return Err(RoomError::PasswordRequired);
                },
            }
        }
        let ghost rooms0 = self.rooms@;
        let room_ref = &mut self.rooms[idx];

        proof {
            assert(rooms0[idx as int].wf());
        }
        room_ref.add_member(addr);
        proof {
            assert forall|i: int, j: int| 0 <= i < j < self.rooms@.len() implies self.rooms@[i].name@
                != self.rooms@[j].name@ by {
                assert(self.rooms@[i].name == rooms0[i].name);
                assert(self.rooms@[j].name == rooms0[j].name);
            }
            assert forall|i: int| 0 <= i < self.rooms@.len() implies (#[trigger] self.rooms@[i]).wf()
                by {
                if i != idx {
                    assert(self.rooms@[i] == rooms0[i]);
                }
            }
            let g = choose|i: int|
                0 <= i < rooms0.len() && (#[trigger] rooms0[i]).name@ == "general"@;
            assert(self.rooms@[g].name@ == "general"@);
        }
        Ok(())
    }

    /// Removes `addr` from the named room; a no-op if the room or the
    /// membership is absent.
    pub fn leave_room(&mut self, room_name: &str, addr: Addr)
        requires
            old(self).wf(),
        ensures
            final(self).wf(),
            !old(self).spec_has_room(room_name@) ==> *final(self) == *old(self),
            old(self).spec_has_room(room_name@) ==> {
                let idx = old(self).spec_room_index(room_name@);
                let room = old(self).rooms@[idx];
                &&& final(self).rooms@.len() == old(self).rooms@.len()
                &&& (forall|i: int|
                    0 <= i < old(self).rooms@.len() && i != idx ==> final(self).rooms@[i] == old(self).rooms@[i])
                &&& final(self).rooms@[idx].name == room.name
                &&& final(self).rooms@[idx].password == room.password
                &&& final(self).rooms@[idx].owner == room.owner
                &&& final(self).rooms@[idx].members@ == room.members@.filter(
                    |a: Addr| a != addr,
                )
                &&& !final(self).rooms@[idx].members@.contains(addr)
            },
    {
        let idx = match self.find_room(room_name) {
            Some(i) => i,
            None => {
                return ;
            },
        };
        let ghost rooms0 = self.rooms@;
        let room_ref = &mut self.rooms[idx];
        proof {
            assert(rooms0[idx as int].wf());
        }
        room_ref.remove_member(addr);
        proof {
            assert forall|i: int, j: int| 0 <= i < j < self.rooms@.len() implies self.rooms@[i].name@
                != self.rooms@[j].name@ by {
                assert(self.rooms@[i].name == rooms0[i].name);
                assert(self.rooms@[j].name == rooms0[j].name);
            }
            assert forall|i: int| 0 <= i < self.rooms@.len() implies (#[trigger] self.rooms@[i]).wf()
                by {
                if i != idx {
                    assert(self.rooms@[i] == rooms0[i]);
                }
            }
            let g = choose|i: int|
                0 <= i < rooms0.len() && (#[trigger] rooms0[i]).name@ == "general"@;
            assert(self.rooms@[g].name@ == "general"@);
        }
    }

    /// The members of the named room, in joining order; empty if absent.
    pub fn get_room_members(&self, room_name: &str) -> (r: Vec<Addr>)
        requires
            self.wf(),
        ensures
            r@ == self.spec_members(room_name@),
    {
        match self.find_room(room_name) {
            Some(i) => {
                let src = &self.rooms[i].members;
                let n = src.len();
                let mut out: Vec<Addr> = Vec::new();
                let mut k: usize = 0;
                while k < n
                    invariant
                        k <= n,
                        n == src@.len(),
                        out@ == src@.subrange(0, k as int),
                    decreases n - k,
                {
                    out.push(src[k]);
                    proof {
                        assert(out@ =~= src@.subrange(0, k + 1));
                    }
                    k += 1;
                }
                proof {
                    assert(src@.subrange(0, n as int) =~= src@);
                }
                out
            },
            None => {
                let out: Vec<Addr> = Vec::new();
                proof {
                    assert(out@ =~= Seq::<Addr>::empty());
                }
                out
            },
        }
    }

    /// A snapshot of every room: name, member count, and whether it is
    /// password protected, in the registry's own order.
    pub fn list_rooms(&self) -> (r: Vec<(String, usize, bool)>)
        requires
            self.wf(),
        ensures
            r@.len() == self.rooms@.len(),
            forall|i: int|
                0 <= i < r@.len() ==> {
                    &&& (#[trigger] r@[i]).0@ == self.rooms@[i].name@
                    &&& r@[i].1 == self.rooms@[i].members@.len()
                    &&& r@[i].2 == (self.rooms@[i].password is Some)
                },
    {
        let n = self.rooms.len();
        let mut out: Vec<(String, usize, bool)> = Vec::new();
        let mut i: usize = 0;
        while i < n
            invariant
                i <= n,
                n == self.rooms@.len(),
                out@.len() == i,
                forall|k: int|
                    0 <= k < i ==> {
                        &&& (#[trigger] out@[k]).0@ == self.rooms@[k].name@
                        &&& out@[k].1 == self.rooms@[k].members@.len()
                        &&& out@[k].2 == (self.rooms@[k].password is Some)
                    },
            decreases n - i,
        {
            let room = &self.rooms[i];
            let entry = (room.name.clone(), room.members.len(), room.is_password_protected());
            out.push(entry);
            i += 1;
        }
        out
    }

    /// The name of a room `addr` belongs to, if any. Under the caller
    /// discipline that a connection is in at most one room, this is the
    /// room.
    pub fn get_user_room(&self, addr: Addr) -> (r: Option<String>)
        requires
            self.wf(),
        ensures
            r is Some <==> self.spec_in_some_room(addr),
            match r {
                Some(name) => self.spec_has_room(name@) && self.spec_room(name@).members@.contains(
                    addr,
                ),
                None => true,
            },
    {
        let n = self.rooms.len();
        let mut i: usize = 0;
        while i < n
            invariant
                i <= n,
                n == self.rooms@.len(),
                self.wf(),
                forall|k: int| 0 <= k < i ==> !(#[trigger] self.rooms@[k]).members@.contains(addr),
            decreases n - i,
        {
            if self.rooms[i].has_member(addr) {
                let name = self.rooms[i].name.clone();
                proof {
                    assert(self.rooms@[i as int].name@ == name@);
                    let w = self.spec_room_index(name@);
                    assert(self.rooms@[w].name@ == name@);
                    if w != i {
                        assert(false);
                    }
                }
                return Some(name);
            }
            i += 1;
        }
        None
    }

    /// The owner and password of the named room, if it exists.
    pub fn get_room_info(&self, room_name: &str) -> (r: Option<(Addr, Option<String>)>)
        requires
            self.wf(),
        ensures
            r is Some <==> self.spec_has_room(room_name@),
            match r {
                Some(info) => {
                    let room = self.spec_room(room_name@);
                    &&& info.0 == room.owner
                    &&& (info.1 is Some <==> room.password is Some)
                    &&& (info.1 matches Some(p) ==> room.password matches Some(q) && p@ == q@)
                },
                None => true,
            },
    {
        match self.find_room(room_name) {
            Some(i) => {
                let room = &self.rooms[i];
                let password = match &room.password {
                    Some(p) => Some(p.clone()),
                    None => None,
                };
                Some((room.owner, password))
            },
            None => None,
        }
    }

    /// Deletes the named room: refused for "general", for a name not
    /// present, and for a requester who is not the owner. The members are
    /// not notified; the room simply stops existing.
    pub fn delete_room(&mut self, room_name: &str, requester: Addr) -> (r: Result<(), RoomError>)
        requires
            old(self).wf(),
        ensures
            final(self).wf(),
            r == Err::<(), RoomError>(RoomError::Protected) <==> room_name@ == "general"@,
            r == Err::<(), RoomError>(RoomError::NotFound) <==> room_name@ != "general"@ && !old(self).spec_has_room(room_name@),
            r == Err::<(), RoomError>(RoomError::NotOwner) <==> room_name@ != "general"@ && old(self).spec_has_room(room_name@) && old(self).spec_room(room_name@).owner != requester,
            r == Ok::<(), RoomError>(()) <==> room_name@ != "general"@ && old(self).spec_has_room(
                room_name@,
            ) && old(self).spec_room(room_name@).owner == requester,
            r is Err ==> *final(self) == *old(self),
            r is Ok ==> final(self).rooms@ == old(self).rooms@.remove(
                old(self).spec_room_index(room_name@),
            ),
    {
        if str_eq(room_name, "general") {
            return Err(RoomError::Protected);
        }
        let idx = match self.find_room(room_name) {
            Some(i) => i,
            None => {
                return Err(RoomError::NotFound);
            },
        };
        if self.rooms[idx].owner != requester {
            return Err(RoomError::NotOwner);
        }
        let ghost rooms0 = self.rooms@;
        self.rooms.remove(idx);
        proof {
            assert(self.rooms@ =~= rooms0.remove(idx as int));
            assert forall|i: int, j: int| 0 <= i < j < self.rooms@.len() implies self.rooms@[i].name@
                != self.rooms@[j].name@ by {
                let pi = if i < idx {
                    i
                } else {
                    i + 1
                };
                let pj = if j < idx {
                    j
                } else {
                    j + 1
                };
                assert(self.rooms@[i] == rooms0[pi]);
                assert(self.rooms@[j] == rooms0[pj]);
            }
            assert forall|i: int| 0 <= i < self.rooms@.len() implies (#[trigger] self.rooms@[i]).wf()
                by {
                let pi = if i < idx {
                    i
                } else {
                    i + 1
                };
                assert(self.rooms@[i] == rooms0[pi]);
            }
            let g = choose|i: int|
                0 <= i < rooms0.len() && (#[trigger] rooms0[i]).name@ == "general"@;
            assert(rooms0[idx as int].name@ == room_name@);
            if g < idx {
                assert(self.rooms@[g].name@ == "general"@);
            } else {
                assert(self.rooms@[g - 1].name@ == "general"@);
            }
        }
        Ok(())
    }
}

/// "general" never goes missing from a snapshot: any listing that mirrors
/// a well-formed registry — as the one `list_rooms` returns does — names
/// "general" somewhere.
pub proof fn lemma_general_always_listed(m: RoomManager, listing: Seq<(String, usize, bool)>)
    requires
        m.wf(),
        listing.len() == m.rooms@.len(),
        forall|i: int| 0 <= i < listing.len() ==> (#[trigger] listing[i]).0@ == m.rooms@[i].name@,
    ensures
        exists|i: int| 0 <= i < listing.len() && (#[trigger] listing[i]).0@ == "general"@,
{
    let g = choose|i: int|
        0 <= i < m.rooms@.len() && (#[trigger] m.rooms@[i]).name@ == "general"@;
    assert(listing[g].0@ == "general"@);
}

/// Two registries whose rooms carry the same names at the same positions
/// answer name lookups identically.
pub proof fn lemma_same_names_same_lookup(a: RoomManager, b: RoomManager, room: Seq<char>)
    requires
        a.wf(),
        b.wf(),
        a.rooms@.len() == b.rooms@.len(),
        forall|i: int|
            0 <= i < a.rooms@.len() ==> (#[trigger] b.rooms@[i]).name@ == a.rooms@[i].name@,
    ensures
        a.spec_has_room(room) <==> b.spec_has_room(room),
        a.spec_has_room(room) ==> a.spec_room_index(room) == b.spec_room_index(room),
{
    if a.spec_has_room(room) {
        let i = a.spec_room_index(room);
        assert(a.rooms@[i].name@ == room);
        assert(b.rooms@[i].name@ == room);
        assert(b.spec_has_room(room));
        let j = b.spec_room_index(room);
        assert(b.rooms@[j].name@ == room);
        if i != j {
            assert(false);
        }
    }
    if b.spec_has_room(room) {
        let i = b.spec_room_index(room);
        assert(b.rooms@[i].name@ == room);
        assert(a.rooms@[i].name@ == room);
        assert(a.spec_has_room(room));
    }
}

} // verus!
