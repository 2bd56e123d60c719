use vstd::prelude::*;
use crate::net::{count_ones, network_v4, network_v6, ones, v4_netmask, v6_netmask, IpAddress, Subnet};
use crate::text::is_text;

verus! {

/// One address of a network interface.
#[derive(Debug, Clone, Copy, PartialEq, Eq)]
pub enum InterfaceAddress {
    /// An IPv4 address and the subnet it lies in.
    Ipv4 { address: u32, subnet: Subnet },
    /// An IPv6 address and the subnet it lies in.
    Ipv6 { address: u128, subnet: Subnet },
    /// A hardware address.
    Mac { address: [u8; 6] },
}

/// A network interface: its name, whether it is up, and its addresses.
#[derive(Debug)]
pub struct Interface {
    pub name: String,
    pub up: bool,
    pub addresses: Vec<InterfaceAddress>,
}

/// What the logic reads of an interface.
pub struct InterfaceView {
    pub name: Seq<char>,
    pub up: bool,
    pub addresses: Seq<InterfaceAddress>,
}

impl View for Interface {
    type V = InterfaceView;

    open spec fn view(&self) -> InterfaceView {
        InterfaceView { name: self.name@, up: self.up, addresses: self.addresses@ }
    }
}

/// The address part of one entry of the operating system's address list.
#[derive(Debug, Clone, Copy, PartialEq, Eq)]
pub enum RawAddress {
    /// An IPv4 address with its netmask.
    V4 { address: u32, netmask: u32 },
    /// An IPv6 address with its netmask.
    V6 { address: u128, netmask: u128 },
    /// A link-layer address (its first six bytes).
    Link { address: [u8; 6] },
    /// No address, or one of another kind, or address and mask of different families.
    Other,
}

/// One entry of the operating system's address list.
#[derive(Debug)]
pub struct RawEntry {
    pub name: String,
    pub up: bool,
    pub address: RawAddress,
}

/// The interface address that an entry's address stands for, if any.
pub open spec fn address_of(a: RawAddress) -> Option<InterfaceAddress> {
    match a {
        RawAddress::V4 { address, netmask } => {
            let p = ones(netmask as nat) as u8;
            Some(InterfaceAddress::Ipv4 {
                address,
                subnet: Subnet { address: IpAddress::V4(address & v4_netmask(p)), prefix_len: p },
            })
        },
        RawAddress::V6 { address, netmask } => {
            let p = ones(netmask as nat) as u8;
            Some(InterfaceAddress::Ipv6 {
                address,
                subnet: Subnet { address: IpAddress::V6(address & v6_netmask(p)), prefix_len: p },
            })
        },
        RawAddress::Link { address } => Some(InterfaceAddress::Mac { address }),
        RawAddress::Other => None,
    }
}

/// Index of the interface with this name, or -1.
pub open spec fn index_of(t: Seq<InterfaceView>, name: Seq<char>) -> int
    decreases t.len(),
{
    if t.len() == 0 {
        -1
    } else if t.last().name == name {
        t.len() - 1
    } else {
        index_of(t.drop_last(), name)
    }
}

/// The table after one more entry: a new interface for a new name, and the entry's
/// address appended to its interface.
pub open spec fn add_entry_spec(t: Seq<InterfaceView>, name: Seq<char>, up: bool, a: RawAddress) -> Seq<InterfaceView> {
    let t1 = if index_of(t, name) < 0 {
        t.push(InterfaceView { name, up, addresses: Seq::empty() })
    } else {
        t
    };
    let i = index_of(t1, name);
    match address_of(a) {
        Some(addr) => t1.update(i, InterfaceView { addresses: t1[i].addresses.push(addr), ..t1[i] }),
        None => t1,
    }
}

/// The table made from a list of entries, one interface per name in order of first
/// appearance.
pub open spec fn table_of(entries: Seq<(Seq<char>, bool, RawAddress)>) -> Seq<InterfaceView>
    decreases entries.len(),
{
    if entries.len() == 0 {
        Seq::empty()
    } else {
        let (n, u, a) = entries.last();
        add_entry_spec(table_of(entries.drop_last()), n, u, a)
    }
}

/// What the logic reads of an entry list.
pub open spec fn entries_view(entries: Seq<RawEntry>) -> Seq<(Seq<char>, bool, RawAddress)> {
    entries.map_values(|e: RawEntry| (e.name@, e.up, e.address))
}

/// The views of a list of interfaces.
pub open spec fn interfaces_view(v: Seq<Interface>) -> Seq<InterfaceView> {
    v.map_values(|i: Interface| i@)
}

proof fn lemma_index_of(t: Seq<InterfaceView>, name: Seq<char>)
    ensures
        -1 <= index_of(t, name) < t.len(),
        index_of(t, name) >= 0 ==> t[index_of(t, name)].name == name,
        index_of(t, name) < 0 ==> forall|k: int| 0 <= k < t.len() ==> #[trigger] t[k].name != name,
    decreases t.len(),
{
    if t.len() > 0 {
        lemma_index_of(t.drop_last(), name);
        if index_of(t, name) < 0 {
            assert forall|k: int| 0 <= k < t.len() implies #[trigger] t[k].name != name by {
                if k < t.len() - 1 {
                    assert(t[k] == t.drop_last()[k]);
                }
            }
        }
    }
}

proof fn lemma_index_of_unique(t: Seq<InterfaceView>, name: Seq<char>, k: int)
    requires
        0 <= k < t.len(),
        t[k].name == name,
        forall|a: int, b: int| 0 <= a < b < t.len() ==> #[trigger] t[a].name != #[trigger] t[b].name,
    ensures
        index_of(t, name) == k,
    decreases t.len(),
{
    if k < t.len() - 1 {
        lemma_index_of_unique(t.drop_last(), name, k);
    }
}

/// The interface address of an entry's address.
pub fn convert_address(a: &RawAddress) -> (r: Option<InterfaceAddress>)
    ensures
        r == address_of(*a),
{
    match a {
        RawAddress::V4 { address, netmask } => {
            let p = count_ones(*netmask as u128);
            assert(ones(*netmask as nat) <= 32) by {
                vstd::arithmetic::power2::lemma2_to64();
                lemma_ones_bound_32(*netmask as nat);
            }
            let net = network_v4(*address, p);
            Some(InterfaceAddress::Ipv4 {
                address: *address,
                subnet: Subnet { address: IpAddress::V4(net), prefix_len: p },
            })
        },
        RawAddress::V6 { address, netmask } => {
            let p = count_ones(*netmask);
            let net = network_v6(*address, p);
            Some(InterfaceAddress::Ipv6 {
                address: *address,
                subnet: Subnet { address: IpAddress::V6(net), prefix_len: p },
            })
        },
        RawAddress::Link { address } => Some(InterfaceAddress::Mac { address: *address }),
        RawAddress::Other => None,
    }
}

proof fn lemma_ones_bound_32(x: nat)
    requires
        x < 0x1_0000_0000,
    ensures
        ones(x) <= 32,
{
    vstd::arithmetic::power2::lemma2_to64();
    crate::net::lemma_ones_bound(x, 32);
}

/// Names are unique in a table.
pub open spec fn names_unique(t: Seq<InterfaceView>) -> bool {
    forall|a: int, b: int| 0 <= a < b < t.len() ==> #[trigger] t[a].name != #[trigger] t[b].name
}

proof fn lemma_add_keeps_unique(t: Seq<InterfaceView>, name: Seq<char>, up: bool, a: RawAddress)
    requires
        names_unique(t),
    ensures
        names_unique(add_entry_spec(t, name, up, a)),
        add_entry_spec(t, name, up, a).len() >= t.len(),
{
    lemma_index_of(t, name);
    let t1 = if index_of(t, name) < 0 {
        t.push(InterfaceView { name, up, addresses: Seq::empty() })
    } else {
        t
    };
    lemma_index_of(t1, name);
    let r = add_entry_spec(t, name, up, a);
    assert forall|x: int, y: int| 0 <= x < y < r.len() implies #[trigger] r[x].name != #[trigger] r[y].name by {
        assert(r[x].name == t1[x].name);
        assert(r[y].name == t1[y].name);
    }
}

proof fn lemma_table_unique(entries: Seq<(Seq<char>, bool, RawAddress)>)
    ensures
        names_unique(table_of(entries)),
    decreases entries.len(),
{
    if entries.len() > 0 {
        lemma_table_unique(entries.drop_last());
        let (n, u, a) = entries.last();
        lemma_add_keeps_unique(table_of(entries.drop_last()), n, u, a);
    }
}

/// Index of the interface named `name` in `t`, if there is one.
fn find(t: &Vec<Interface>, name: &String) -> (r: Option<usize>)
    ensures
        match r {
            Some(i) => i < t@.len() && index_of(interfaces_view(t@), name@) == i,
            None => index_of(interfaces_view(t@), name@) < 0,
        },
{
    let ghost tv = interfaces_view(t@);
    let mut i: usize = t.len();
    assert(tv.subrange(0, t.len() as int) =~= tv);
    while i > 0
        invariant
            i <= t.len(),
            tv == interfaces_view(t@),
            index_of(tv, name@) == index_of(tv.subrange(0, i as int), name@),
        decreases i,
    {
        let ghost sub = tv.subrange(0, i as int);
        assert(sub.drop_last() =~= tv.subrange(0, i - 1));
        if t[i - 1].name == *name {
            return Some(i - 1);
        }
        i = i - 1;
    }
    None
}

/// Builds the interface list from the operating system's address list: one interface per
/// name, in order of first appearance, up as its first entry says, with the addresses of
/// all its entries in order.
pub fn get_interfaces(entries: Vec<RawEntry>) -> (r: Vec<Interface>)
    ensures
        interfaces_view(r@) == table_of(entries_view(entries@)),
        names_unique(interfaces_view(r@)),
{
    let mut t: Vec<Interface> = Vec::new();
    let mut i: usize = 0;
    let ghost ev = entries_view(entries@);
    while i < entries.len()
        invariant
            i <= entries.len(),
            ev == entries_view(entries@),
            interfaces_view(t@) == table_of(ev.subrange(0, i as int)),
        decreases entries.len() - i,
    {
        assert(ev.subrange(0, i + 1).drop_last() =~= ev.subrange(0, i as int));
        proof {
            lemma_table_unique(ev.subrange(0, i as int));
        }
        let e = &entries[i];
        let ghost t0 = interfaces_view(t@);
        proof {
            lemma_index_of(t0, e.name@);
        }
        let idx = match find(&t, &e.name) {
            Some(k) => k,
            None => {
                t.push(Interface { name: e.name.clone(), up: e.up, addresses: Vec::new() });
                assert(interfaces_view(t@) =~= t0.push(
                    InterfaceView { name: e.name@, up: e.up, addresses: Seq::empty() },
                ));
                proof {
                    lemma_index_of(interfaces_view(t@), e.name@);
                    lemma_index_of_unique(interfaces_view(t@), e.name@, t0.len() as int);
                    assert(names_unique(interfaces_view(t@))) by {
                        let tv = interfaces_view(t@);
                        assert forall|a: int, b: int| 0 <= a < b < tv.len() implies #[trigger] tv[a].name
                            != #[trigger] tv[b].name by {
                            if b == tv.len() - 1 {
                                assert(t0[a].name != e.name@);
                            }
                        }
                    }
                }
                t.len() - 1
            },
        };
        let ghost t1 = interfaces_view(t@);
        match convert_address(&e.address) {
            Some(a) => {
                let mut it = t.remove(idx);
                it.addresses.push(a);
                t.insert(idx, it);
                assert(interfaces_view(t@) =~= t1.update(
                    idx as int,
                    InterfaceView { addresses: t1[idx as int].addresses.push(a), ..t1[idx as int] },
                ));
            },
            None => {},
        }
        i = i + 1;
    }
    assert(ev.subrange(0, entries.len() as int) =~= ev);
    proof {
        lemma_table_unique(ev);
    }
    t
}

/// Whether a name is in a list of names.
pub open spec fn listed(names: Seq<Seq<char>>, name: Seq<char>) -> bool {
    exists|k: int| 0 <= k < names.len() && names[k] == name
}

/// The interfaces whose names are listed, in their order.
pub open spec fn filter_listed(t: Seq<InterfaceView>, names: Seq<Seq<char>>) -> Seq<InterfaceView>
    decreases t.len(),
{
    if t.len() == 0 {
        Seq::empty()
    } else if listed(names, t.last().name) {
        filter_listed(t.drop_last(), names).push(t.last())
    } else {
        filter_listed(t.drop_last(), names)
    }
}

/// Whether `name` is one of `names`.
pub fn contains_name(names: &Vec<String>, name: &String) -> (r: bool)
    ensures
        r == listed(crate::text::views(names@), name@),
{
    let mut k: usize = 0;
    while k < names.len()
        invariant
            k <= names.len(),
            forall|j: int| 0 <= j < k ==> names@[j]@ != name@,
        decreases names.len() - k,
    {
        if names[k] == *name {
            assert(crate::text::views(names@)[k as int] == name@);
            return true;
        }
        k = k + 1;
    }
    assert forall|j: int| 0 <= j < names@.len() implies crate::text::views(names@)[j] != name@ by {
        assert(names@[j]@ != name@);
    }
    false
}

/// Keeps the interfaces whose names are listed.
pub fn filter_interfaces(all: Vec<Interface>, names: &Vec<String>) -> (r: Vec<Interface>)
    ensures
        interfaces_view(r@) == filter_listed(interfaces_view(all@), crate::text::views(names@)),
{
    let ghost av = interfaces_view(all@);
    let ghost nv = crate::text::views(names@);
    let mut rest = all;
    let mut kept: Vec<Interface> = Vec::new();
    let ghost mut done: int = 0;
    while rest.len() > 0
        invariant
            0 <= done <= av.len(),
            nv == crate::text::views(names@),
            interfaces_view(rest@) == av.subrange(done, av.len() as int),
            rest@.len() == av.len() - done,
            interfaces_view(kept@) == filter_listed(av.subrange(0, done), nv),
        decreases rest.len(),
    {
        assert(av.subrange(0, done + 1).drop_last() =~= av.subrange(0, done));
        let ghost r0 = rest@;
        assert(interfaces_view(r0)[0] == r0[0]@);
        assert(av[done] == av.subrange(done, av.len() as int)[0]);
        let it = rest.remove(0);
        assert(it@ == av[done]);
        assert forall|j: int| 0 <= j < rest@.len() implies #[trigger] interfaces_view(rest@)[j] == av.subrange(
            done + 1,
            av.len() as int,
        )[j] by {
            assert(rest@[j] == r0[j + 1]);
            assert(interfaces_view(r0)[j + 1] == r0[j + 1]@);
            assert(av.subrange(done, av.len() as int)[j + 1] == av[done + 1 + j]);
        }
        assert(interfaces_view(rest@) =~= av.subrange(done + 1, av.len() as int));
        let ghost before = interfaces_view(kept@);
        assert(it.name@ == av[done].name);
        let keep = contains_name(names, &it.name);
        assert(keep == listed(nv, av[done].name));
        if keep {
            kept.push(it);
            assert(interfaces_view(kept@) =~= before.push(av[done]));
        } else {
            assert(!listed(nv, av[done].name));
        }
        assert(av.subrange(0, done + 1).last() == av[done]);
        proof {
            done = done + 1;
        }
    }
    assert(av.subrange(0, av.len() as int) =~= av);
    kept
}

/// The names of the interfaces.
pub fn interface_names(all: &Vec<Interface>) -> (r: Vec<String>)
    ensures
        r@.len() == all@.len(),
        forall|i: int| 0 <= i < r@.len() ==> #[trigger] r@[i]@ == all@[i].name@,
{
    let mut r: Vec<String> = Vec::new();
    let mut i: usize = 0;
    while i < all.len()
        invariant
            i <= all.len(),
            r@.len() == i,
            forall|k: int| 0 <= k < i ==> #[trigger] r@[k]@ == all@[k].name@,
        decreases all.len() - i,
    {
        r.push(all[i].name.clone());
        i = i + 1;
    }
    r
}

} // verus!
