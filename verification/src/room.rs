//! A chat room: a named, optionally password-protected set of members.
use crate::text::str_eq;
use crate::Addr;
use vstd::prelude::*;

verus! {

/// A room. Members are kept in insertion order, without duplicates.
#[derive(Clone, Debug)]
pub struct Room {
    pub name: String,
    pub password: Option<String>,
    pub owner: Addr,
    pub members: Vec<Addr>,
}

impl Room {
    /// Members hold no duplicates.
    pub open spec fn wf(self) -> bool {
        forall|i: int, j: int|
            0 <= i < j < self.members@.len() ==> self.members@[i] != self.members@[j]
    }

    /// Whether `supplied` opens this room: an unprotected room admits any
    /// attempt, a protected one exactly the matching password.
    pub open spec fn password_accepted(self, supplied: Option<Seq<char>>) -> bool {
        match self.password {
            None => true,
            Some(p) => supplied == Some(p@),
        }
    }

    pub fn new(name: String, password: Option<String>, owner: Addr) -> (r: Room)
        ensures
            r.wf(),
            r.name == name,
            r.password == password,
            r.owner == owner,
            r.members@ == Seq::<Addr>::empty(),
    {
        let r = Room { name, password, owner, members: Vec::new() };
        proof {
            assert(r.members@ =~= Seq::<Addr>::empty());
        }
        r
    }

    pub fn is_password_protected(&self) -> (r: bool)
        ensures
            r == (self.password is Some),
    {
        self.password.is_some()
    }

    /// Whether `password` matches this room's password; an unprotected room
    /// accepts anything.
    pub fn verify_password(&self, password: &str) -> (r: bool)
        ensures
            r == match self.password {
                Some(p) => p@ == password@,
                None => true,
            },
    {
        match &self.password {
            Some(pwd) => str_eq(pwd.as_str(), password),
            None => true,
        }
    }

    /// Whether `addr` is a member.
    pub fn has_member(&self, addr: Addr) -> (r: bool)
        ensures
            r == self.members@.contains(addr),
    {
        let n = self.members.len();
        let mut i: usize = 0;
        while i < n
            invariant
                i <= n,
                n == self.members@.len(),
                forall|k: int| 0 <= k < i ==> self.members@[k] != addr,
            decreases n - i,
        {
            if self.members[i] == addr {
                return true;
            }
            i += 1;
        }
        false
    }

    /// Adds `addr` unless already present; re-adding is a no-op.
    pub fn add_member(&mut self, addr: Addr)
        requires
            old(self).wf(),
        ensures
            final(self).wf(),
            final(self).name == old(self).name,
            final(self).password == old(self).password,
            final(self).owner == old(self).owner,
            final(self).members@ == if old(self).members@.contains(addr) {
                old(self).members@
            } else {
                old(self).members@.push(addr)
            },
    {
        if !self.has_member(addr) {
            self.members.push(addr);
        }
    }

    /// Removes every occurrence of `addr` from the members.
    pub fn remove_member(&mut self, addr: Addr)
        requires
            old(self).wf(),
        ensures
            final(self).wf(),
            final(self).name == old(self).name,
            final(self).password == old(self).password,
            final(self).owner == old(self).owner,
            final(self).members@ == old(self).members@.filter(|a: Addr| a != addr),
            !final(self).members@.contains(addr),
    {
        let n = self.members.len();
        let mut kept: Vec<Addr> = Vec::new();
        let mut i: usize = 0;
        proof {
            assert(self.members@.subrange(0, 0).filter(|a: Addr| a != addr) =~= kept@);
        }
        while i < n
            invariant
                i <= n,
                n == self.members@.len(),
                self == old(self),
                old(self).wf(),
                kept@ == self.members@.subrange(0, i as int).filter(|a: Addr| a != addr),
                forall|x: Addr| #[trigger]
                    kept@.contains(x) ==> self.members@.subrange(0, i as int).contains(x),
                forall|p: int, q: int| 0 <= p < q < kept@.len() ==> kept@[p] != kept@[q],
                !kept@.contains(addr),
            decreases n - i,
        {
            let ghost pre = self.members@.subrange(0, i as int);
            let ghost now = self.members@.subrange(0, i + 1);
            let ghost kept0 = kept@;
            let m = self.members[i];
            if m != addr {
                proof {
                    if kept0.contains(m) {
                        assert(pre.contains(m));
                        let k = choose|k: int| 0 <= k < pre.len() && pre[k] == m;
                        assert(self.members@[k] == m);
                        assert(self.members@[i as int] == m);
                        assert(false);
                    }
                }
                kept.push(m);
            }
            proof {
                assert(now.drop_last() =~= pre);
                assert(now.last() == m);
                reveal_with_fuel(Seq::filter, 2);
                assert(kept@ == now.filter(|a: Addr| a != addr));
                assert forall|x: Addr| #[trigger] kept@.contains(x) implies now.contains(x) by {
                    if kept0.contains(x) {
                        let k = choose|k: int| 0 <= k < pre.len() && pre[k] == x;
                        assert(now[k] == x);
                    } else {
                        assert(x == m);
                        assert(now[i as int] == m);
                    }
                }
                assert forall|p: int, q: int| 0 <= p < q < kept@.len() implies kept@[p]
                    != kept@[q] by {
                    if q == kept@.len() - 1 && kept@.len() > kept0.len() {
                        assert(kept@[q] == m);
                        assert(kept0[p] == kept@[p]);
                        assert(kept0.contains(kept0[p]));
                    }
                }
            }
            i += 1;
        }
        proof {
            assert(self.members@.subrange(0, n as int) =~= self.members@);
        }
        self.members = kept;
    }
}

} // verus!
