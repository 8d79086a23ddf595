//! The client registry: display name and colour index for every connected
//! client, keyed by connection identifier. Colour indices are handed out
//! from a counter that only ever grows.
use crate::text::str_eq;
use crate::Addr;
use vstd::prelude::*;

verus! {

/// A connected client's display metadata.
#[derive(Clone, Debug)]
pub struct ClientInfo {
    pub name: String,
    pub color_index: usize,
}

/// The registry of connected clients.
pub struct ClientManager {
    pub entries: Vec<(Addr, ClientInfo)>,
    pub color_counter: usize,
}

/// What one successful registration does: the client is filed under `idx`,
/// the counter's value at the start, and the counter advances by one.
pub open spec fn register_transition(
    pre: ClientManager,
    post: ClientManager,
    addr: Addr,
    name: Seq<char>,
    idx: usize,
) -> bool {
    &&& idx == pre.color_counter
    &&& post.color_counter == pre.color_counter + 1
    &&& post.spec_has_addr(addr)
    &&& post.spec_info(addr).name@ == name
    &&& post.spec_info(addr).color_index == idx
}

impl ClientManager {
    /// Each connection identifier appears at most once.
    pub open spec fn wf(self) -> bool {
        forall|i: int, j: int|
            0 <= i < j < self.entries@.len() ==> self.entries@[i].0 != self.entries@[j].0
    }

    /// Some client is filed under `addr`.
    pub open spec fn spec_has_addr(self, addr: Addr) -> bool {
        exists|i: int| 0 <= i < self.entries@.len() && (#[trigger] self.entries@[i]).0 == addr
    }

    pub open spec fn spec_index_of(self, addr: Addr) -> int {
        choose|i: int| 0 <= i < self.entries@.len() && (#[trigger] self.entries@[i]).0 == addr
    }

    /// The metadata filed under `addr`.
    pub open spec fn spec_info(self, addr: Addr) -> ClientInfo {
        self.entries@[self.spec_index_of(addr)].1
    }

    /// Some client currently holds the display name `name`.
    pub open spec fn spec_name_taken(self, name: Seq<char>) -> bool {
        exists|i: int| 0 <= i < self.entries@.len() && (#[trigger] self.entries@[i]).1.name@ == name
    }

    pub fn new() -> (r: ClientManager)
        ensures
            r.wf(),
            r.entries@ == Seq::<(Addr, ClientInfo)>::empty(),
            r.color_counter == 0,
    {
        let r = ClientManager { entries: Vec::new(), color_counter: 0 };
        proof {
            assert(r.entries@ =~= Seq::<(Addr, ClientInfo)>::empty());
        }
        r
    }

    /// A snapshot of every client: connection identifier, name and colour
    /// index, in registration order.
    pub fn get_clients(&self) -> (r: Vec<(Addr, ClientInfo)>)
        ensures
            r@.len() == self.entries@.len(),
            forall|i: int|
                0 <= i < r@.len() ==> {
                    &&& (#[trigger] r@[i]).0 == self.entries@[i].0
                    &&& r@[i].1.name@ == self.entries@[i].1.name@
                    &&& r@[i].1.color_index == self.entries@[i].1.color_index
                },
    {
        let n = self.entries.len();
        let mut out: Vec<(Addr, ClientInfo)> = Vec::new();
        let mut i: usize = 0;
        while i < n
            invariant
                i <= n,
                n == self.entries@.len(),
                out@.len() == i,
                forall|k: int|
                    0 <= k < i ==> {
                        &&& (#[trigger] out@[k]).0 == self.entries@[k].0
                        &&& out@[k].1.name@ == self.entries@[k].1.name@
                        &&& out@[k].1.color_index == self.entries@[k].1.color_index
                    },
            decreases n - i,
        {
            let e = &self.entries[i];
            let copy = (e.0, ClientInfo { name: e.1.name.clone(), color_index: e.1.color_index });
            out.push(copy);
            i += 1;
        }
        out
    }

    fn find_index(&self, addr: Addr) -> (r: Option<usize>)
        requires
            self.wf(),
        ensures
            match r {
                Some(i) => i < self.entries@.len() && self.entries@[i as int].0 == addr && i
                    as int == self.spec_index_of(addr),
                None => !self.spec_has_addr(addr),
            },
    {
        let n = self.entries.len();
        let mut i: usize = 0;
        while i < n
            invariant
                i <= n,
                n == self.entries@.len(),
                self.wf(),
                forall|k: int| 0 <= k < i ==> (#[trigger] self.entries@[k]).0 != addr,
            decreases n - i,
        {
            if self.entries[i].0 == addr {
                return Some(i);
            }
            i += 1;
        }
        None
    }

    /// No current client holds exactly this name.
    pub fn is_name_available(&self, name: &str) -> (r: bool)
        ensures
            r == !self.spec_name_taken(name@),
    {
        let n = self.entries.len();
        let mut i: usize = 0;
        while i < n
            invariant
                i <= n,
                n == self.entries@.len(),
                forall|k: int| 0 <= k < i ==> (#[trigger] self.entries@[k]).1.name@ != name@,
            decreases n - i,
        {
            if str_eq(self.entries[i].1.name.as_str(), name) {
                return false;
            }
            i += 1;
        }
        true
    }

    /// Files `addr` under `name` with the next colour index; an existing
    /// entry for `addr` is overwritten. The counter advances either way, so
    /// no two registrations ever share an index.
    pub fn register_client(&mut self, addr: Addr, name: String)
        requires
            old(self).wf(),
            old(self).color_counter < usize::MAX,
        ensures
            final(self).wf(),
            register_transition(*old(self), *final(self), addr, name@, old(self).color_counter),
            final(self).spec_name_taken(name@),
            old(self).spec_has_addr(addr) ==> {
                let idx = old(self).spec_index_of(addr);
                &&& final(self).entries@.len() == old(self).entries@.len()
                &&& (forall|i: int|
                    0 <= i < old(self).entries@.len() && i != idx ==> final(self).entries@[i]
                        == old(self).entries@[i])
                &&& final(self).entries@[idx].0 == addr
                &&& final(self).entries@[idx].1.name == name
                &&& final(self).entries@[idx].1.color_index == old(self).color_counter
            },
            !old(self).spec_has_addr(addr) ==> {
                &&& final(self).entries@.len() == old(self).entries@.len() + 1
                &&& final(self).entries@.drop_last() == old(self).entries@
                &&& final(self).entries@.last().0 == addr
                &&& final(self).entries@.last().1.name == name
                &&& final(self).entries@.last().1.color_index == old(self).color_counter
            },
    {
        let assigned = self.color_counter;
        self.color_counter = assigned + 1;
        let info = ClientInfo { name, color_index: assigned };
        let ghost entries0 = self.entries@;
        match self.find_index(addr) {
            Some(i) => {
                self.entries[i] = (addr, info);
                proof {
                    assert forall|p: int, q: int|
                        0 <= p < q < self.entries@.len() implies self.entries@[p].0
                        != self.entries@[q].0 by {
                        assert(self.entries@[p].0 == entries0[p].0);
                        assert(self.entries@[q].0 == entries0[q].0);
                    }
                    let w = self.spec_index_of(addr);
                    assert(self.entries@[i as int].0 == addr);
                    if w != i {
                        assert(false);
                    }
                    assert(self.entries@[w].1.name@ == name@);
                }
            },
            None => {
                self.entries.push((addr, info));
                proof {
                    assert(self.entries@.drop_last() =~= entries0);
                    assert forall|p: int, q: int|
                        0 <= p < q < self.entries@.len() implies self.entries@[p].0
                        != self.entries@[q].0 by {
                        if q == self.entries@.len() - 1 {
                            assert(self.entries@[p] == entries0[p]);
                        }
                    }
                    let w = self.spec_index_of(addr);
                    assert(self.entries@[self.entries@.len() - 1].0 == addr);
                    if w != self.entries@.len() - 1 {
                        assert(false);
                    }
                    assert(self.entries@[w].1.name@ == name@);
                }
            },
        }
    }

    /// The display name filed under `addr`, if any.
    pub fn get_clients_name(&self, addr: Addr) -> (r: Option<String>)
        requires
            self.wf(),
        ensures
            r is Some <==> self.spec_has_addr(addr),
            r matches Some(n) ==> n@ == self.spec_info(addr).name@,
    {
        match self.find_index(addr) {
            Some(i) => Some(self.entries[i].1.name.clone()),
            None => None,
        }
    }

    /// The full metadata filed under `addr`, if any.
    pub fn get_client_info(&self, addr: Addr) -> (r: Option<ClientInfo>)
        requires
            self.wf(),
        ensures
            r is Some <==> self.spec_has_addr(addr),
            r matches Some(info) ==> info.name@ == self.spec_info(addr).name@
                && info.color_index == self.spec_info(addr).color_index,
    {
        match self.find_index(addr) {
            Some(i) => {
                let e = &self.entries[i];
                Some(ClientInfo { name: e.1.name.clone(), color_index: e.1.color_index })
            },
            None => None,
        }
    }

    /// The connection identifier of the client named `name`, if any.
    pub fn get_client_by_name(&self, name: &str) -> (r: Option<Addr>)
        requires
            self.wf(),
        ensures
            r is Some <==> self.spec_name_taken(name@),
            r matches Some(a) ==> self.spec_has_addr(a) && self.spec_info(a).name@ == name@,
    {
        let n = self.entries.len();
        let mut i: usize = 0;
        while i < n
            invariant
                i <= n,
                n == self.entries@.len(),
                self.wf(),
                forall|k: int| 0 <= k < i ==> (#[trigger] self.entries@[k]).1.name@ != name@,
            decreases n - i,
        {
            if str_eq(self.entries[i].1.name.as_str(), name) {
                let a = self.entries[i].0;
                proof {
                    let w = self.spec_index_of(a);
                    assert(self.entries@[i as int].0 == a);
                    if w != i {
                        assert(false);
                    }
                }
                return Some(a);
            }
            i += 1;
        }
        None
    }

    /// Removes the entry filed under `addr`, if any.
    pub fn remove_client(&mut self, addr: Addr)
        requires
            old(self).wf(),
        ensures
            final(self).wf(),
            final(self).entries@ == old(self).entries@.filter(
                |e: (Addr, ClientInfo)| e.0 != addr,
            ),
            !final(self).spec_has_addr(addr),
            final(self).color_counter == old(self).color_counter,
    {
        let n = self.entries.len();
        let mut kept: Vec<(Addr, ClientInfo)> = Vec::new();
        let mut i: usize = 0;
        proof {
            assert(self.entries@.subrange(0, 0).filter(|e: (Addr, ClientInfo)| e.0 != addr)
                =~= kept@);
        }
        while i < n
            invariant
                i <= n,
                n == self.entries@.len(),
                self == old(self),
                old(self).wf(),
                kept@ == self.entries@.subrange(0, i as int).filter(
                    |e: (Addr, ClientInfo)| e.0 != addr,
                ),
                forall|p: int, q: int| 0 <= p < q < kept@.len() ==> kept@[p].0 != kept@[q].0,
                forall|p: int| 0 <= p < kept@.len() ==> (#[trigger] kept@[p]).0 != addr,
                forall|x: (Addr, ClientInfo)| #[trigger]
                    kept@.contains(x) ==> self.entries@.subrange(0, i as int).contains(x),
            decreases n - i,
        {
            let ghost pre = self.entries@.subrange(0, i as int);
            let ghost now = self.entries@.subrange(0, i + 1);
            let ghost kept0 = kept@;
            let keep_it = self.entries[i].0 != addr;
            if keep_it {
                let e = &self.entries[i];
                let copy = (e.0, ClientInfo { name: e.1.name.clone(), color_index: e.1.color_index });
                proof {
                    assert(copy == self.entries@[i as int]);
                }
                kept.push(copy);
            }
            proof {
                assert(now.drop_last() =~= pre);
                assert(now.last() == self.entries@[i as int]);
                reveal_with_fuel(Seq::filter, 2);
                assert(kept@ == now.filter(|e: (Addr, ClientInfo)| e.0 != addr));
                assert forall|x: (Addr, ClientInfo)| #[trigger] kept@.contains(x) implies
                    now.contains(x) by {
                    if kept0.contains(x) {
                        let k = choose|k: int| 0 <= k < pre.len() && pre[k] == x;
                        assert(now[k] == x);
                    } else {
                        assert(x == self.entries@[i as int]);
                        assert(now[i as int] == x);
                    }
                }
                assert forall|p: int, q: int| 0 <= p < q < kept@.len() implies kept@[p].0
                    != kept@[q].0 by {
                    if q == kept@.len() - 1 && kept@.len() > kept0.len() {
                        assert(kept@[q] == self.entries@[i as int]);
                        assert(kept0.contains(kept0[p]));
                        let k = choose|k: int| 0 <= k < pre.len() && pre[k] == kept0[p];
                        assert(self.entries@[k] == kept0[p]);
                        assert(self.entries@[k].0 != self.entries@[i as int].0);
                    }
                }
            }
            i += 1;
        }
        proof {
            assert(self.entries@.subrange(0, n as int) =~= self.entries@);
        }
        self.entries = kept;
    }

    /// Replaces the display name filed under `addr`, keeping its colour;
    /// a no-op if `addr` is unknown. The caller has already checked that
    /// the new name is available.
    pub fn update_client_name(&mut self, addr: Addr, new_name: String)
        requires
            old(self).wf(),
        ensures
            final(self).wf(),
            final(self).color_counter == old(self).color_counter,
            !old(self).spec_has_addr(addr) ==> *final(self) == *old(self),
            old(self).spec_has_addr(addr) ==> {
                let idx = old(self).spec_index_of(addr);
                &&& final(self).entries@.len() == old(self).entries@.len()
                &&& (forall|i: int|
                    0 <= i < old(self).entries@.len() && i != idx ==> final(self).entries@[i]
                        == old(self).entries@[i])
                &&& final(self).entries@[idx].0 == addr
                &&& final(self).entries@[idx].1.name == new_name
                &&& final(self).entries@[idx].1.color_index == old(self).entries@[idx].1.color_index
            },
    {
        match self.find_index(addr) {
            Some(i) => {
                let ghost entries0 = self.entries@;
                let old_index = self.entries[i].1.color_index;
                self.entries[i] = (addr, ClientInfo { name: new_name, color_index: old_index });
                proof {
                    assert forall|p: int, q: int|
                        0 <= p < q < self.entries@.len() implies self.entries@[p].0
                        != self.entries@[q].0 by {
                        assert(self.entries@[p].0 == entries0[p].0);
                        assert(self.entries@[q].0 == entries0[q].0);
                    }
                }
            },
            None => {},
        }
    }
}

/// Colour indices strictly increase across sequential registrations: each
/// registration hands out the counter's value and advances it, so a later
/// registration always gets a larger index.
pub proof fn lemma_sequential_registers_increase(
    s0: ClientManager,
    s1: ClientManager,
    s2: ClientManager,
    a1: Addr,
    n1: Seq<char>,
    i1: usize,
    a2: Addr,
    n2: Seq<char>,
    i2: usize,
)
    requires
        register_transition(s0, s1, a1, n1, i1),
        register_transition(s1, s2, a2, n2, i2),
    ensures
        i1 < i2,
{
}

/// A name on file stays unavailable for every other caller: removing a
/// different connection leaves an entry holding the name in place.
pub proof fn lemma_name_survives_other_removal(
    pre: ClientManager,
    post: ClientManager,
    holder: Addr,
    removed: Addr,
    name: Seq<char>,
)
    requires
        pre.wf(),
        pre.spec_has_addr(holder),
        pre.spec_info(holder).name@ == name,
        holder != removed,
        post.entries@ == pre.entries@.filter(|e: (Addr, ClientInfo)| e.0 != removed),
    ensures
        pre.spec_name_taken(name),
        post.spec_name_taken(name),
{
    broadcast use vstd::seq_lib::group_filter_ensures;

    let idx = pre.spec_index_of(holder);
    let entry = pre.entries@[idx];
    assert(entry.1.name@ == name);
    assert(post.entries@.contains(entry));
    let j = choose|j: int| 0 <= j < post.entries@.len() && post.entries@[j] == entry;
    assert(post.entries@[j].1.name@ == name);
}

} // verus!
