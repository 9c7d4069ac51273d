//! HID enumeration entries and the filters that pick a device's interface.

use vstd::prelude::*;

verus! {

/// What enumeration reports of one HID interface.
#[derive(Debug, Clone, Copy, PartialEq, Eq, Structural)]
pub struct HidInfo {
    pub vendor_id: u16,
    pub product_id: u16,
    pub usage_page: u16,
    pub interface_number: i32,
}

/// Which interface of a product a filter accepts.
#[derive(Debug, Clone, Copy, PartialEq, Eq, Structural)]
pub enum Port {
    Any,
    UsagePage(u16),
    Interface(i32),
    UsagePageAndInterface(u16, i32),
    UsagePageOrInterface(u16, i32),
}

/// A vendor and product, and which of their interfaces to accept.
#[derive(Debug, Clone, Copy, PartialEq, Eq, Structural)]
pub struct HidFilter {
    pub vendor_id: u16,
    pub product_id: u16,
    pub port: Port,
}

pub open spec fn port_accepts(port: Port, info: HidInfo) -> bool {
    match port {
        Port::Any => true,
        Port::UsagePage(u) => info.usage_page == u,
        Port::Interface(i) => info.interface_number == i,
        Port::UsagePageAndInterface(u, i) => info.usage_page == u && info.interface_number == i,
        Port::UsagePageOrInterface(u, i) => info.usage_page == u || info.interface_number == i,
    }
}

pub open spec fn filter_accepts(f: HidFilter, info: HidInfo) -> bool {
    info.vendor_id == f.vendor_id && info.product_id == f.product_id && port_accepts(f.port, info)
}

/// Positions, in enumeration order, of the entries that `f` accepts.
pub open spec fn matching(infos: Seq<HidInfo>, f: HidFilter) -> Seq<usize>
    decreases infos.len(),
{
    if infos.len() == 0 {
        Seq::empty()
    } else if filter_accepts(f, infos.last()) {
        matching(infos.drop_last(), f).push((infos.len() - 1) as usize)
    } else {
        matching(infos.drop_last(), f)
    }
}

/// Whether `f` accepts `info`.
pub fn accepts(f: &HidFilter, info: &HidInfo) -> (r: bool)
    ensures
        r == filter_accepts(*f, *info),
{
    info.vendor_id == f.vendor_id && info.product_id == f.product_id && match f.port {
        Port::Any => true,
        Port::UsagePage(u) => info.usage_page == u,
        Port::Interface(i) => info.interface_number == i,
        Port::UsagePageAndInterface(u, i) => info.usage_page == u && info.interface_number == i,
        Port::UsagePageOrInterface(u, i) => info.usage_page == u || info.interface_number == i,
    }
}

/// Positions, in enumeration order, of the entries that `f` accepts.
pub fn find_matching(infos: &[HidInfo], f: &HidFilter) -> (r: Vec<usize>)
    ensures
        r@ == matching(infos@, *f),
        forall|k: int| 0 <= k < r@.len() ==> r@[k] < infos@.len(),
{
    let mut r: Vec<usize> = Vec::new();
    let n = infos.len();
    let mut i: usize = 0;
    while i < n
        invariant
            n == infos@.len(),
            0 <= i <= n,
            r@ == matching(infos@.subrange(0, i as int), *f),
            forall|k: int| 0 <= k < r@.len() ==> r@[k] < i,
        decreases n - i,
    {
        let ghost pre = infos@.subrange(0, i + 1);
        assert(pre.drop_last() =~= infos@.subrange(0, i as int));
        assert(pre.last() == infos@[i as int]);
        if accepts(f, &infos[i]) {
            r.push(i);
        }
        i = i + 1;
    }
    assert(infos@.subrange(0, n as int) =~= infos@);
    r
}

/// Discovery proposes exactly the entries that the filter accepts, each
/// once, in enumeration order.
pub proof fn lemma_matching_exact(infos: Seq<HidInfo>, f: HidFilter)
    requires
        infos.len() <= usize::MAX,
    ensures
        forall|k: int|
            0 <= k < matching(infos, f).len() ==> #[trigger] matching(infos, f)[k] < infos.len()
                && filter_accepts(f, infos[matching(infos, f)[k] as int]),
        forall|i: int|
            0 <= i < infos.len() && filter_accepts(f, #[trigger] infos[i]) ==> matching(
                infos,
                f,
            ).contains(i as usize),
        forall|k: int, l: int|
            0 <= k < l < matching(infos, f).len() ==> matching(infos, f)[k] < matching(infos, f)[l],
    decreases infos.len(),
{
    if infos.len() > 0 {
        let init = infos.drop_last();
        lemma_matching_exact(init, f);
        let m0 = matching(init, f);
        let m = matching(infos, f);
        let last = (infos.len() - 1) as usize;
        let accepted = filter_accepts(f, infos.last());
        if accepted {
            assert(m == m0.push(last));
        } else {
            assert(m == m0);
        }
        assert forall|k: int| 0 <= k < m.len() implies #[trigger] m[k] < infos.len()
            && filter_accepts(f, infos[m[k] as int]) by {
            if k < m0.len() {
                assert(m[k] == m0[k]);
                assert(infos[m0[k] as int] == init[m0[k] as int]);
            } else {
                assert(m[k] == last);
            }
        }
        assert forall|i: int| 0 <= i < infos.len() && filter_accepts(f, #[trigger] infos[i]) implies m.contains(
            i as usize,
        ) by {
            if i < infos.len() - 1 {
                assert(init[i] == infos[i]);
                assert(m0.contains(i as usize));
                let k = choose|k: int| 0 <= k < m0.len() && m0[k] == i as usize;
                assert(m[k] == m0[k]);
            } else {
                assert(m[m.len() - 1] == i as usize);
            }
        }
        assert forall|k: int, l: int| 0 <= k < l < m.len() implies m[k] < m[l] by {
            if l < m0.len() {
                assert(m[k] == m0[k] && m[l] == m0[l]);
            } else {
                assert(m0[k] < init.len());
                assert(m[k] == m0[k]);
                assert(m[l] == last);
            }
        }
    }
}

/// Each position paired with the same starting value.
pub open spec fn tag<T>(indices: Seq<usize>, value: T) -> Seq<(usize, T)> {
    indices.map_values(|i: usize| (i, value))
}

/// Append each of `indices`, paired with `value`, to `plan`.
pub fn push_tagged<T: Copy>(plan: &mut Vec<(usize, T)>, indices: &Vec<usize>, value: T)
    ensures
        final(plan)@ == old(plan)@ + tag(indices@, value),
{
    let ghost start = plan@;
    let n = indices.len();
    let mut i: usize = 0;
    while i < n
        invariant
            n == indices@.len(),
            0 <= i <= n,
            plan@ == start + tag(indices@.subrange(0, i as int), value),
        decreases n - i,
    {
        plan.push((indices[i], value));
        i = i + 1;
        assert(plan@ =~= start + tag(indices@.subrange(0, i as int), value));
    }
    assert(indices@.subrange(0, n as int) =~= indices@);
}

/// `len` bytes: `prefix`, then zeros.
pub open spec fn padded(prefix: Seq<u8>, len: nat) -> Seq<u8> {
    Seq::new(len, |i: int| if i < prefix.len() { prefix[i] } else { 0u8 })
}

} // verus!
