//! Partition of the requested targets into groups whose libraries merge into
//! one universal artifact each: device builds first, then simulator builds.
use vstd::prelude::*;
use vstd::multiset::Multiset;
use crate::arch::{FlutterArch, HostFamily};

verus! {

broadcast use vstd::seq_lib::group_to_multiset_ensures;

/// The targets of `s` that are device builds on a `host` machine, in order.
pub open spec fn device_part(s: Seq<FlutterArch>, host: HostFamily) -> Seq<FlutterArch>
    decreases s.len(),
{
    if s.len() == 0 {
        Seq::empty()
    } else if s.last().is_device_on(host) {
        device_part(s.drop_last(), host).push(s.last())
    } else {
        device_part(s.drop_last(), host)
    }
}

/// The targets of `s` that are simulator builds on a `host` machine, in order.
pub open spec fn simulator_part(s: Seq<FlutterArch>, host: HostFamily) -> Seq<FlutterArch>
    decreases s.len(),
{
    if s.len() == 0 {
        Seq::empty()
    } else if !s.last().is_device_on(host) {
        simulator_part(s.drop_last(), host).push(s.last())
    } else {
        simulator_part(s.drop_last(), host)
    }
}

/// `g` as a one-element list of groups, or no group when it is empty.
pub open spec fn nonempty_group(g: Seq<FlutterArch>) -> Seq<Seq<FlutterArch>> {
    if g.len() > 0 {
        seq![g]
    } else {
        Seq::empty()
    }
}

/// The merge groups of `s`: the device targets, then the simulator targets,
/// each left out when empty.
pub open spec fn arch_groups(s: Seq<FlutterArch>, host: HostFamily) -> Seq<Seq<FlutterArch>> {
    nonempty_group(device_part(s, host)) + nonempty_group(simulator_part(s, host))
}

/// The groups of `r` viewed as sequences.
pub open spec fn group_views(r: Seq<Vec<FlutterArch>>) -> Seq<Seq<FlutterArch>> {
    r.map_values(|g: Vec<FlutterArch>| g@)
}

/// Splits `target_archs` into the device group and the simulator group for
/// a host of family `host`, keeping the requested order and leaving empty
/// groups out.
pub fn group_target_archs(target_archs: &Vec<FlutterArch>, host: HostFamily) -> (r: Vec<
    Vec<FlutterArch>,
>)
    ensures
        group_views(r@) == arch_groups(target_archs@, host),
{
    let mut device_archs: Vec<FlutterArch> = Vec::new();
    let mut simulator_archs: Vec<FlutterArch> = Vec::new();
    let mut i: usize = 0;
    while i < target_archs.len()
        invariant
            i <= target_archs@.len(),
            device_archs@ == device_part(target_archs@.subrange(0, i as int), host),
            simulator_archs@ == simulator_part(target_archs@.subrange(0, i as int), host),
        decreases target_archs@.len() - i,
    {
        let arch = target_archs[i];
        assert(target_archs@.subrange(0, i + 1).drop_last() =~= target_archs@.subrange(0, i as int));
        if arch.is_device(host) {
            device_archs.push(arch);
        } else {
            simulator_archs.push(arch);
        }
        i = i + 1;
    }
    assert(target_archs@.subrange(0, i as int) =~= target_archs@);
    let ghost d = device_archs@;
    let ghost m = simulator_archs@;
    let mut grouped_archs: Vec<Vec<FlutterArch>> = Vec::new();
    if device_archs.len() > 0 {
        grouped_archs.push(device_archs);
    }
    if simulator_archs.len() > 0 {
        grouped_archs.push(simulator_archs);
    }
    assert(group_views(grouped_archs@) =~= nonempty_group(d) + nonempty_group(m));
    grouped_archs
}

/// The two parts together hold every target exactly as often as `s` does;
/// each part holds only targets of its kind, and the device part is empty
/// exactly when `s` has no device target (likewise the simulator part).
pub proof fn lemma_parts(s: Seq<FlutterArch>, host: HostFamily)
    ensures
        s.to_multiset() =~= device_part(s, host).to_multiset().add(
            simulator_part(s, host).to_multiset(),
        ),
        forall|k: int|
            0 <= k < device_part(s, host).len() ==> (#[trigger] device_part(s, host)[k]).is_device_on(
                host,
            ),
        forall|k: int|
            0 <= k < simulator_part(s, host).len() ==> !(#[trigger] simulator_part(
                s,
                host,
            )[k]).is_device_on(host),
        (device_part(s, host).len() > 0) == (exists|i: int|
            0 <= i < s.len() && (#[trigger] s[i]).is_device_on(host)),
        (simulator_part(s, host).len() > 0) == (exists|i: int|
            0 <= i < s.len() && !(#[trigger] s[i]).is_device_on(host)),
        device_part(s, host).len() + simulator_part(s, host).len() == s.len(),
    decreases s.len(),
{
    if s.len() > 0 {
        let t = s.drop_last();
        lemma_parts(t, host);
        assert(t.push(s.last()) =~= s);
        assert forall|i: int| 0 <= i < t.len() implies t[i] == s[i] by {}
        if exists|i: int| 0 <= i < s.len() && (#[trigger] s[i]).is_device_on(host) {
            let i = choose|i: int| 0 <= i < s.len() && (#[trigger] s[i]).is_device_on(host);
            if i < t.len() {
                assert(t[i] == s[i]);
            }
        }
        if exists|i: int| 0 <= i < s.len() && !(#[trigger] s[i]).is_device_on(host) {
            let i = choose|i: int| 0 <= i < s.len() && !(#[trigger] s[i]).is_device_on(host);
            if i < t.len() {
                assert(t[i] == s[i]);
            }
        }
    } else {
        assert(s.to_multiset() =~= Multiset::empty());
    }
}

/// A request that mixes device and simulator targets yields exactly two
/// non-empty groups, device targets first, which together hold each
/// requested target exactly as often as the request does.
pub proof fn lemma_mixed_request_two_groups(s: Seq<FlutterArch>, host: HostFamily)
    requires
        exists|i: int| 0 <= i < s.len() && (#[trigger] s[i]).is_device_on(host),
        exists|j: int| 0 <= j < s.len() && !(#[trigger] s[j]).is_device_on(host),
    ensures
        arch_groups(s, host).len() == 2,
        arch_groups(s, host)[0].len() > 0,
        arch_groups(s, host)[1].len() > 0,
        forall|k: int|
            0 <= k < arch_groups(s, host)[0].len() ==> (#[trigger] arch_groups(s, host)[0][k]).is_device_on(
                host,
            ),
        forall|k: int|
            0 <= k < arch_groups(s, host)[1].len() ==> !(#[trigger] arch_groups(s, host)[1][k]).is_device_on(
                host,
            ),
        s.to_multiset() =~= arch_groups(s, host)[0].to_multiset().add(
            arch_groups(s, host)[1].to_multiset(),
        ),
        arch_groups(s, host)[0].len() + arch_groups(s, host)[1].len() == s.len(),
{
    lemma_parts(s, host);
    let g = arch_groups(s, host);
    assert(g =~= seq![device_part(s, host), simulator_part(s, host)]);
}

/// A non-empty request whose targets are all of one kind yields exactly one
/// group, which is the request itself.
pub proof fn lemma_uniform_request_one_group(s: Seq<FlutterArch>, host: HostFamily)
    requires
        s.len() > 0,
        (forall|i: int| 0 <= i < s.len() ==> (#[trigger] s[i]).is_device_on(host)) || (forall|
            i: int,
        |
            0 <= i < s.len() ==> !(#[trigger] s[i]).is_device_on(host)),
    ensures
        arch_groups(s, host) == seq![s],
{
    lemma_parts(s, host);
    lemma_uniform_part(s, host);
    assert(arch_groups(s, host) =~= seq![s]);
}

proof fn lemma_uniform_part(s: Seq<FlutterArch>, host: HostFamily)
    requires
        (forall|i: int| 0 <= i < s.len() ==> (#[trigger] s[i]).is_device_on(host)) || (forall|
            i: int,
        |
            0 <= i < s.len() ==> !(#[trigger] s[i]).is_device_on(host)),
    ensures
        (forall|i: int| 0 <= i < s.len() ==> (#[trigger] s[i]).is_device_on(host)) ==> device_part(
            s,
            host,
        ) == s && simulator_part(s, host).len() == 0,
        (forall|i: int| 0 <= i < s.len() ==> !(#[trigger] s[i]).is_device_on(host))
            ==> simulator_part(s, host) == s && device_part(s, host).len() == 0,
    decreases s.len(),
{
    if s.len() > 0 {
        let t = s.drop_last();
        assert forall|i: int| 0 <= i < t.len() implies t[i] == s[i] by {}
        lemma_uniform_part(t, host);
        assert(t.push(s.last()) =~= s);
        if forall|i: int| 0 <= i < s.len() ==> (#[trigger] s[i]).is_device_on(host) {
            assert(s[s.len() - 1].is_device_on(host));
        }
        if forall|i: int| 0 <= i < s.len() ==> !(#[trigger] s[i]).is_device_on(host) {
            assert(!s[s.len() - 1].is_device_on(host));
        }
    }
}

} // verus!
