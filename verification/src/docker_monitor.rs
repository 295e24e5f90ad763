//! Container telemetry: turning raw runtime listings into per-container
//! snapshots, ordering them by CPU usage, and selecting the high-CPU subset.
//!
//! Talking to the container runtime itself is an outside concern; the core
//! receives one `ContainerObservation` per listed container and works from
//! plain values. Per-container CPU is whatever the observation carries: a
//! single instantaneous stats sample cannot yield a true percentage, so the
//! collector may supply the documented placeholder of 0.

use vstd::prelude::*;

use crate::clock::now_timestamp;
use crate::config::Config;
use crate::numfmt::capped_percent;
use crate::numfmt::percent_centi;

verus! {

/// One instantaneous stats reading for a container. CPU is in hundredths
/// of a percent; memory in bytes.
#[derive(Clone, Copy)]
pub struct StatsSample {
    pub cpu_usage_centi: u64,
    pub memory_usage: u64,
    pub memory_limit: u64,
}

/// What the runtime reported for one listed container. `None` fields are
/// values the runtime did not supply; `sample` is `None` when no stats
/// reading could be obtained for the container.
pub struct ContainerObservation {
    pub id: Option<String>,
    pub names: Vec<String>,
    pub image: Option<String>,
    pub status: Option<String>,
    pub sample: Option<StatsSample>,
}

/// A per-container snapshot. The id is truncated to at most 12 characters,
/// so it is a display identifier, not guaranteed unique. Percentages are in
/// hundredths of a percent.
pub struct ContainerStats {
    pub id: String,
    pub name: String,
    pub image: String,
    pub status: String,
    pub cpu_usage_centi: u64,
    pub memory_usage: u64,
    pub memory_limit: u64,
    pub memory_percent_centi: u64,
    pub ports: Vec<String>,
    pub timestamp: String,
}

/// The mathematical value of a `ContainerStats`.
#[verifier::ext_equal]
pub struct ContainerView {
    pub id: Seq<char>,
    pub name: Seq<char>,
    pub image: Seq<char>,
    pub status: Seq<char>,
    pub cpu_usage_centi: u64,
    pub memory_usage: u64,
    pub memory_limit: u64,
    pub memory_percent_centi: u64,
    pub ports: Seq<Seq<char>>,
    pub timestamp: Seq<char>,
}

impl View for ContainerStats {
    type V = ContainerView;

    open spec fn view(&self) -> ContainerView {
        ContainerView {
            id: self.id@,
            name: self.name@,
            image: self.image@,
            status: self.status@,
            cpu_usage_centi: self.cpu_usage_centi,
            memory_usage: self.memory_usage,
            memory_limit: self.memory_limit,
            memory_percent_centi: self.memory_percent_centi,
            ports: self.ports@.map_values(|p: String| p@),
            timestamp: self.timestamp@,
        }
    }
}

impl Clone for ContainerStats {
    /// A clone carries the same mathematical value.
    fn clone(&self) -> (r: Self)
        ensures
            r@ == self@,
    {
        let mut ports: Vec<String> = Vec::new();
        let mut i: usize = 0;
        while i < self.ports.len()
            invariant
                i <= self.ports.len(),
                ports@.len() == i as int,
                forall|k: int| 0 <= k < i as int ==> ports@[k] == self.ports@[k],
            decreases self.ports.len() - i,
        {
            ports.push(self.ports[i].clone());
            i += 1;
        }
        let r = ContainerStats {
            id: self.id.clone(),
            name: self.name.clone(),
            image: self.image.clone(),
            status: self.status.clone(),
            cpu_usage_centi: self.cpu_usage_centi,
            memory_usage: self.memory_usage,
            memory_limit: self.memory_limit,
            memory_percent_centi: self.memory_percent_centi,
            ports,
            timestamp: self.timestamp.clone(),
        };
        proof {
            assert(r.ports@.map_values(|p: String| p@) =~= self.ports@.map_values(
                |p: String| p@,
            ));
            assert(r@ =~= self@);
        }
        r
    }
}

/// The sequence of mathematical values behind a sequence of snapshots.
pub open spec fn views_of(s: Seq<ContainerStats>) -> Seq<ContainerView> {
    s.map_values(|c: ContainerStats| c@)
}

/// A display identifier: the id cut to its first 12 characters.
pub open spec fn truncated_id(id: Seq<char>) -> Seq<char> {
    if id.len() <= 12 {
        id
    } else {
        id.subrange(0, 12)
    }
}

/// The display name: the first listed name with a leading path separator
/// stripped, or "unknown" when the runtime listed none.
pub open spec fn display_name(names: Seq<String>) -> Seq<char> {
    if names.len() == 0 {
        "unknown"@
    } else {
        let n = names[0]@;
        if n.len() > 0 && n[0] == '/' {
            n.subrange(1, n.len() as int)
        } else {
            n
        }
    }
}

/// An optional runtime-supplied string, defaulted to "unknown".
pub open spec fn opt_or_unknown(o: Option<String>) -> Seq<char> {
    match o {
        Option::Some(s) => s@,
        Option::None => "unknown"@,
    }
}

pub open spec fn sample_or_zero(o: Option<StatsSample>) -> StatsSample {
    match o {
        Option::Some(s) => s,
        Option::None => StatsSample { cpu_usage_centi: 0, memory_usage: 0, memory_limit: 0 },
    }
}

/// The snapshot an observation with an id yields, timestamped with `ts`.
pub open spec fn snapshot_view(obs: ContainerObservation, ts: Seq<char>) -> ContainerView {
    let s = sample_or_zero(obs.sample);
    ContainerView {
        id: truncated_id(match obs.id {
            Option::Some(id) => id@,
            Option::None => Seq::empty(),
        }),
        name: display_name(obs.names@),
        image: opt_or_unknown(obs.image),
        status: opt_or_unknown(obs.status),
        cpu_usage_centi: s.cpu_usage_centi,
        memory_usage: s.memory_usage,
        memory_limit: s.memory_limit,
        memory_percent_centi: capped_percent(s.memory_usage, s.memory_limit),
        ports: Seq::empty(),
        timestamp: ts,
    }
}

/// The observations that yield a snapshot: those whose container carried
/// an id. Id-less containers are skipped, not propagated as failures.
pub open spec fn kept_observations(obs: Seq<ContainerObservation>) -> Seq<ContainerObservation> {
    obs.filter(|o: ContainerObservation| o.id is Some)
}

proof fn lemma_kept_push(s: Seq<ContainerObservation>, o: ContainerObservation)
    ensures
        kept_observations(s.push(o)) == if o.id is Some {
            kept_observations(s).push(o)
        } else {
            kept_observations(s)
        },
{
    reveal_with_fuel(Seq::<_>::filter, 2);
    assert(s.push(o).drop_last() =~= s);
    assert(s.push(o).last() == o);
}

/// Builds the snapshot of one observed container. Yields nothing exactly
/// when the runtime supplied no id; a missing stats sample degrades to
/// zeroed readings rather than a failure.
pub fn build_snapshot(obs: ContainerObservation, ts: &str) -> (r: Option<ContainerStats>)
    ensures
        r is Some <==> obs.id is Some,
        obs.id is Some ==> r->0@ == snapshot_view(obs, ts@),
{
    let ghost gobs = obs;
    let ContainerObservation { id, names, image, status, sample } = obs;
    let id = match id {
        Option::None => {
            return Option::None;
        },
        Option::Some(id) => id,
    };
    let id_len = id.as_str().unicode_len();
    let short_id = if id_len <= 12 {
        id
    } else {
        String::from_str(id.as_str().substring_char(0, 12))
    };
    let name = if names.len() == 0 {
        String::from_str("unknown")
    } else {
        let n = &names[0];
        let n_len = n.as_str().unicode_len();
        if n_len > 0 && n.as_str().get_char(0) == '/' {
            String::from_str(n.as_str().substring_char(1, n_len))
        } else {
            n.clone()
        }
    };
    let image = match image {
        Option::Some(s) => s,
        Option::None => String::from_str("unknown"),
    };
    let status = match status {
        Option::Some(s) => s,
        Option::None => String::from_str("unknown"),
    };
    let s = match sample {
        Option::Some(x) => x,
        Option::None => StatsSample { cpu_usage_centi: 0, memory_usage: 0, memory_limit: 0 },
    };
    let memory_percent_centi = percent_centi(s.memory_usage, s.memory_limit);
    let r = ContainerStats {
        id: short_id,
        name,
        image,
        status,
        cpu_usage_centi: s.cpu_usage_centi,
        memory_usage: s.memory_usage,
        memory_limit: s.memory_limit,
        memory_percent_centi,
        ports: Vec::new(),
        timestamp: String::from_str(ts),
    };
    proof {
        assert(r.ports@.map_values(|p: String| p@) =~= Seq::<Seq<char>>::empty());
        assert(r@ =~= snapshot_view(gobs, ts@));
    }
    Option::Some(r)
}

/// Builds the snapshots of every observed container that carried an id,
/// in listing order, all timestamped with `ts`.
pub fn build_snapshots(observations: Vec<ContainerObservation>, ts: &str) -> (r: Vec<
    ContainerStats,
>)
    ensures
        views_of(r@) == kept_observations(observations@).map_values(
            |o: ContainerObservation| snapshot_view(o, ts@),
        ),
{
    let ghost orig = observations@;
    let ghost f = |o: ContainerObservation| snapshot_view(o, ts@);
    let mut observations = observations;
    let mut r: Vec<ContainerStats> = Vec::new();
    let ghost i: int = 0;
    proof {
        reveal_with_fuel(Seq::<_>::filter, 1);
        assert(orig.take(0) =~= Seq::<ContainerObservation>::empty());
        assert(views_of(r@) =~= kept_observations(orig.take(0)).map_values(f));
    }
    while observations.len() > 0
        invariant
            0 <= i <= orig.len(),
            observations@ =~= orig.skip(i),
            views_of(r@) == kept_observations(orig.take(i)).map_values(f),
            f == (|o: ContainerObservation| snapshot_view(o, ts@)),
        decreases orig.len() - i,
    {
        let o = observations.remove(0);
        proof {
            assert(o == orig[i]);
            assert(observations@ =~= orig.skip(i + 1));
            assert(orig.take(i + 1) =~= orig.take(i).push(orig[i]));
            lemma_kept_push(orig.take(i), orig[i]);
        }
        match build_snapshot(o, ts) {
            Option::Some(c) => {
                r.push(c);
                proof {
                    assert(views_of(r@) =~= kept_observations(orig.take(i)).map_values(f).push(
                        f(orig[i]),
                    ));
                    assert(kept_observations(orig.take(i + 1)).map_values(f) =~= kept_observations(
                        orig.take(i),
                    ).map_values(f).push(f(orig[i])));
                }
            },
            Option::None => {
            },
        }
        proof {
            i = i + 1;
        }
    }
    proof {
        assert(orig.take(orig.len() as int) =~= orig);
    }
    r
}

/// Descending order of CPU usage.
pub open spec fn sorted_desc(s: Seq<ContainerView>) -> bool {
    forall|i: int, j: int|
        0 <= i < j < s.len() ==> s[i].cpu_usage_centi >= s[j].cpu_usage_centi
}

/// Stable descending insertion: `x` goes after every element whose CPU
/// usage is at least its own, so equal values keep their original order.
pub open spec fn insert_desc(s: Seq<ContainerView>, x: ContainerView) -> Seq<ContainerView>
    decreases s.len(),
{
    if s.len() == 0 {
        seq![x]
    } else if s.last().cpu_usage_centi >= x.cpu_usage_centi {
        s.push(x)
    } else {
        insert_desc(s.drop_last(), x).push(s.last())
    }
}

/// The stable sort of a snapshot sequence by descending CPU usage.
pub open spec fn sort_desc(s: Seq<ContainerView>) -> Seq<ContainerView>
    decreases s.len(),
{
    if s.len() == 0 {
        Seq::empty()
    } else {
        insert_desc(sort_desc(s.drop_last()), s.last())
    }
}

/// Containers whose CPU usage strictly exceeds a threshold; equality does
/// not qualify.
pub open spec fn cpu_above(threshold_centi: u64) -> spec_fn(ContainerView) -> bool {
    |c: ContainerView| c.cpu_usage_centi > threshold_centi
}

/// Containers at exactly one CPU usage value.
pub open spec fn cpu_equals(v: u64) -> spec_fn(ContainerView) -> bool {
    |c: ContainerView| c.cpu_usage_centi == v
}

proof fn lemma_filter_push_view(s: Seq<ContainerView>, x: ContainerView, p: spec_fn(
    ContainerView,
) -> bool)
    ensures
        s.push(x).filter(p) == if p(x) {
            s.filter(p).push(x)
        } else {
            s.filter(p)
        },
{
    reveal_with_fuel(Seq::<_>::filter, 2);
    assert(s.push(x).drop_last() =~= s);
    assert(s.push(x).last() == x);
}

/// Where the insertion lands in a sorted sequence: before index `j`, every
/// element keeps at least the inserted CPU usage; from `j` on, strictly less.
proof fn lemma_insert_desc_at(s: Seq<ContainerView>, x: ContainerView, j: int)
    requires
        sorted_desc(s),
        0 <= j <= s.len(),
        forall|k: int| j <= k < s.len() ==> s[k].cpu_usage_centi < x.cpu_usage_centi,
        j > 0 ==> s[j - 1].cpu_usage_centi >= x.cpu_usage_centi,
    ensures
        insert_desc(s, x) == s.take(j) + seq![x] + s.skip(j),
    decreases s.len(),
{
    if s.len() == 0 {
        assert(insert_desc(s, x) =~= s.take(j) + seq![x] + s.skip(j));
    } else if s.last().cpu_usage_centi >= x.cpu_usage_centi {
        assert(j == s.len());
        assert(insert_desc(s, x) =~= s.take(j) + seq![x] + s.skip(j));
    } else {
        assert(j < s.len());
        lemma_insert_desc_at(s.drop_last(), x, j);
        assert(insert_desc(s, x) =~= s.take(j) + seq![x] + s.skip(j));
    }
}

proof fn lemma_insert_desc_multiset(s: Seq<ContainerView>, x: ContainerView)
    ensures
        insert_desc(s, x).to_multiset() == s.to_multiset().insert(x),
    decreases s.len(),
{
    broadcast use vstd::seq_lib::group_to_multiset_ensures;

    if s.len() == 0 {
        assert(insert_desc(s, x) =~= Seq::<ContainerView>::empty().push(x));
        assert(s =~= Seq::<ContainerView>::empty());
    } else if s.last().cpu_usage_centi >= x.cpu_usage_centi {
    } else {
        lemma_insert_desc_multiset(s.drop_last(), x);
        assert(s =~= s.drop_last().push(s.last()));
        assert(s.drop_last().push(s.last()).to_multiset() =~= s.drop_last().to_multiset().insert(
            s.last(),
        ));
        assert(s.drop_last().to_multiset().insert(x).insert(s.last())
            =~= s.drop_last().to_multiset().insert(s.last()).insert(x));
    }
}

proof fn lemma_insert_desc_sorted(s: Seq<ContainerView>, x: ContainerView)
    requires
        sorted_desc(s),
    ensures
        sorted_desc(insert_desc(s, x)),
    decreases s.len(),
{
    broadcast use vstd::seq_lib::group_to_multiset_ensures, vstd::multiset::group_multiset_axioms;

    if s.len() == 0 {
    } else if s.last().cpu_usage_centi >= x.cpu_usage_centi {
        let r = s.push(x);
        assert forall|i: int, j: int|
            0 <= i < j < r.len() implies r[i].cpu_usage_centi >= r[j].cpu_usage_centi by {
            if j < s.len() {
            } else {
                assert(r[j] == x);
                if i < s.len() - 1 {
                    assert(s[i].cpu_usage_centi >= s[s.len() - 1].cpu_usage_centi);
                }
            }
        }
    } else {
        assert(sorted_desc(s.drop_last()));
        lemma_insert_desc_sorted(s.drop_last(), x);
        lemma_insert_desc_multiset(s.drop_last(), x);
        let a = insert_desc(s.drop_last(), x);
        let last = s.last();
        assert forall|i: int| 0 <= i < a.len() implies a[i].cpu_usage_centi
            >= last.cpu_usage_centi by {
            assert(a.contains(a[i]));
            assert(a.to_multiset().count(a[i]) > 0);
            if a[i] == x {
            } else {
                assert(s.drop_last().to_multiset().insert(x).count(a[i]) > 0);
                assert(s.drop_last().to_multiset().count(a[i]) > 0);
                assert(s.drop_last().contains(a[i]));
                let k = choose|k: int|
                    0 <= k < s.drop_last().len() && s.drop_last()[k] == a[i];
                assert(s[k] == a[i]);
                assert(s[k].cpu_usage_centi >= s[s.len() - 1].cpu_usage_centi);
            }
        }
        let r = a.push(last);
        assert forall|i: int, j: int|
            0 <= i < j < r.len() implies r[i].cpu_usage_centi >= r[j].cpu_usage_centi by {
            if j < a.len() {
            } else {
                assert(r[j] == last);
            }
        }
    }
}

proof fn lemma_insert_desc_filter(s: Seq<ContainerView>, x: ContainerView, v: u64)
    ensures
        insert_desc(s, x).filter(cpu_equals(v)) == if x.cpu_usage_centi == v {
            s.filter(cpu_equals(v)).push(x)
        } else {
            s.filter(cpu_equals(v))
        },
    decreases s.len(),
{
    let p = cpu_equals(v);
    if s.len() == 0 {
        reveal_with_fuel(Seq::<_>::filter, 1);
        assert(seq![x] =~= Seq::<ContainerView>::empty().push(x));
        lemma_filter_push_view(Seq::empty(), x, p);
        assert(Seq::<ContainerView>::empty().filter(p) =~= Seq::<ContainerView>::empty());
        assert(s.filter(p) == Seq::<ContainerView>::empty().filter(p));
    } else if s.last().cpu_usage_centi >= x.cpu_usage_centi {
        lemma_filter_push_view(s, x, p);
    } else {
        lemma_insert_desc_filter(s.drop_last(), x, v);
        let a = insert_desc(s.drop_last(), x);
        lemma_filter_push_view(a, s.last(), p);
        assert(s =~= s.drop_last().push(s.last()));
        lemma_filter_push_view(s.drop_last(), s.last(), p);
        assert(s.filter(p) == s.drop_last().push(s.last()).filter(p));
    }
}

/// The sort yields a sequence in descending CPU order.
pub proof fn lemma_sort_desc_sorted(s: Seq<ContainerView>)
    ensures
        sorted_desc(sort_desc(s)),
    decreases s.len(),
{
    if s.len() > 0 {
        lemma_sort_desc_sorted(s.drop_last());
        lemma_insert_desc_sorted(sort_desc(s.drop_last()), s.last());
    }
}

/// The sort only reorders: it yields exactly the snapshots it was given.
pub proof fn lemma_sort_desc_permutes(s: Seq<ContainerView>)
    ensures
        sort_desc(s).to_multiset() == s.to_multiset(),
    decreases s.len(),
{
    broadcast use vstd::seq_lib::group_to_multiset_ensures;

    if s.len() == 0 {
    } else {
        lemma_sort_desc_permutes(s.drop_last());
        lemma_insert_desc_multiset(sort_desc(s.drop_last()), s.last());
        assert(s =~= s.drop_last().push(s.last()));
        assert(s.drop_last().push(s.last()).to_multiset() =~= s.drop_last().to_multiset().insert(
            s.last(),
        ));
    }
}

/// The sort is stable: among snapshots with equal CPU usage, the original
/// listing order is preserved.
pub proof fn lemma_sort_desc_stable(s: Seq<ContainerView>, v: u64)
    ensures
        sort_desc(s).filter(cpu_equals(v)) == s.filter(cpu_equals(v)),
    decreases s.len(),
{
    let p = cpu_equals(v);
    if s.len() == 0 {
        reveal_with_fuel(Seq::<_>::filter, 1);
        assert(sort_desc(s) == Seq::<ContainerView>::empty());
    } else {
        lemma_sort_desc_stable(s.drop_last(), v);
        lemma_insert_desc_filter(sort_desc(s.drop_last()), s.last(), v);
        assert(s =~= s.drop_last().push(s.last()));
        lemma_filter_push_view(s.drop_last(), s.last(), p);
        assert(s.filter(p) == s.drop_last().push(s.last()).filter(p));
    }
}

/// Sorts snapshots in place by descending CPU usage, stably.
pub fn sort_by_cpu_desc(v: &mut Vec<ContainerStats>)
    ensures
        views_of(final(v)@) == sort_desc(views_of(old(v)@)),
{
    let ghost orig = v@;
    if v.len() <= 1 {
        proof {
            if orig.len() == 0 {
                assert(views_of(v@) =~= Seq::<ContainerView>::empty());
                assert(sort_desc(views_of(orig)) == Seq::<ContainerView>::empty());
            } else {
                let vs = views_of(orig);
                assert(vs.len() == 1);
                assert(vs.drop_last() =~= Seq::<ContainerView>::empty());
                assert(sort_desc(vs) == insert_desc(sort_desc(vs.drop_last()), vs.last()));
                assert(sort_desc(vs.drop_last()) == Seq::<ContainerView>::empty());
                assert(insert_desc(Seq::<ContainerView>::empty(), vs.last()) == seq![vs.last()]);
                assert(views_of(v@) =~= seq![vs.last()]);
            }
        }
        return ;
    }
    let mut i: usize = 1;
    proof {
        let vs1 = views_of(orig.take(1));
        assert(vs1.len() == 1);
        assert(vs1.drop_last() =~= Seq::<ContainerView>::empty());
        assert(sort_desc(vs1) == insert_desc(sort_desc(vs1.drop_last()), vs1.last()));
        assert(sort_desc(vs1.drop_last()) == Seq::<ContainerView>::empty());
        assert(insert_desc(Seq::<ContainerView>::empty(), vs1.last()) == seq![vs1.last()]);
        assert(views_of(v@.take(1)) =~= seq![vs1.last()]);
        assert(v@.skip(1) =~= orig.skip(1));
    }
    while i < v.len()
        invariant
            1 <= i <= v@.len(),
            v@.len() == orig.len(),
            v@.skip(i as int) =~= orig.skip(i as int),
            views_of(v@.take(i as int)) == sort_desc(views_of(orig.take(i as int))),
        decreases v@.len() - i,
    {
        let ghost vpre = v@;
        let ghost prefix = views_of(vpre.take(i as int));
        proof {
            lemma_sort_desc_sorted(views_of(orig.take(i as int)));
        }
        let x = v.remove(i);
        proof {
            assert(vpre.skip(i as int)[0] == vpre[i as int]);
            assert(orig.skip(i as int)[0] == orig[i as int]);
            assert(x == orig[i as int]);
            assert(v@.take(i as int) =~= vpre.take(i as int));
        }
        let mut j: usize = i;
        while j > 0 && v[j - 1].cpu_usage_centi < x.cpu_usage_centi
            invariant
                0 <= j <= i,
                i < vpre.len(),
                v@.take(i as int) =~= vpre.take(i as int),
                i <= v@.len(),
                forall|k: int|
                    j <= k < i ==> v@[k].cpu_usage_centi < x.cpu_usage_centi,
            decreases j,
        {
            j -= 1;
        }
        proof {
            assert forall|k: int| j <= k < prefix.len() implies prefix[k].cpu_usage_centi
                < x@.cpu_usage_centi by {
                assert(prefix[k] == vpre.take(i as int)[k]@);
                assert(v@[k] == vpre[k]);
            }
            if j > 0 {
                assert(prefix[j - 1] == vpre[j - 1]@);
                assert(v@[j - 1] == vpre[j - 1]);
            }
            lemma_insert_desc_at(prefix, x@, j as int);
        }
        let ghost vrem = v@;
        v.insert(j, x);
        proof {
            assert(v@ =~= vrem.insert(j as int, x));
            assert(v@.take(i as int + 1) =~= vpre.take(i as int).insert(j as int, x));
            assert(views_of(v@.take(i as int + 1)) =~= prefix.take(j as int) + seq![x@]
                + prefix.skip(j as int));
            assert(views_of(v@.take(i as int + 1)) == insert_desc(prefix, x@));
            assert(views_of(orig.take(i as int + 1)).drop_last() =~= views_of(
                orig.take(i as int),
            ));
            assert(views_of(orig.take(i as int + 1)).last() == orig[i as int]@);
            assert(views_of(v@.take(i as int + 1)) == sort_desc(
                views_of(orig.take(i as int + 1)),
            ));
            assert forall|k: int| i as int + 1 <= k < v@.len() implies v@[k] == orig[k] by {
                assert(v@[k] == vrem[k - 1]);
                assert(vrem[k - 1] == vpre[k]);
                assert(vpre.skip(i as int)[k - i as int] == orig.skip(i as int)[k - i as int]);
            }
            assert(v@.skip(i as int + 1) =~= orig.skip(i as int + 1));
        }
        i += 1;
    }
    proof {
        assert(orig.take(orig.len() as int) =~= orig);
        assert(v@.take(orig.len() as int) =~= v@);
    }
}

/// The subset of snapshots whose CPU usage strictly exceeds the threshold,
/// in their given order. A snapshot exactly at the threshold is excluded.
pub fn filter_above_threshold(containers: &Vec<ContainerStats>, threshold_centi: u64) -> (r: Vec<
    ContainerStats,
>)
    ensures
        views_of(r@) == views_of(containers@).filter(cpu_above(threshold_centi)),
{
    let ghost p = cpu_above(threshold_centi);
    let mut r: Vec<ContainerStats> = Vec::new();
    let mut i: usize = 0;
    proof {
        reveal_with_fuel(Seq::<_>::filter, 1);
        assert(views_of(containers@.take(0)) =~= Seq::<ContainerView>::empty());
        assert(views_of(r@) =~= views_of(containers@.take(0)).filter(p));
    }
    while i < containers.len()
        invariant
            0 <= i <= containers@.len(),
            views_of(r@) == views_of(containers@.take(i as int)).filter(p),
            p == cpu_above(threshold_centi),
        decreases containers@.len() - i,
    {
        proof {
            assert(views_of(containers@.take(i as int + 1)) =~= views_of(
                containers@.take(i as int),
            ).push(containers@[i as int]@));
            lemma_filter_push_view(
                views_of(containers@.take(i as int)),
                containers@[i as int]@,
                p,
            );
        }
        if containers[i].cpu_usage_centi > threshold_centi {
            r.push(containers[i].clone());
            proof {
                assert(views_of(r@) =~= views_of(containers@.take(i as int)).filter(p).push(
                    containers@[i as int]@,
                ));
            }
        }
        i += 1;
    }
    proof {
        assert(containers@.take(containers@.len() as int) =~= containers@);
    }
    r
}

/// The outcome of one container enumeration: the listed containers, or the
/// marker that the runtime could not be queried at all.
pub enum ContainerEnumeration {
    Listed(Vec<ContainerStats>),
    Unavailable,
}

/// Summary figures the runtime reports about itself; `None` fields are
/// values it did not supply.
pub struct DockerInfoReadings {
    pub version: Option<String>,
    pub api_version: Option<String>,
    pub containers: Option<u64>,
    pub containers_running: Option<u64>,
    pub containers_paused: Option<u64>,
    pub containers_stopped: Option<u64>,
    pub images: Option<u64>,
    pub server_version: Option<String>,
    pub memory_total: Option<u64>,
    pub cpu_count: Option<u64>,
}

pub struct DockerSystemInfo {
    pub version: String,
    pub api_version: String,
    pub containers: u64,
    pub containers_running: u64,
    pub containers_paused: u64,
    pub containers_stopped: u64,
    pub images: u64,
    pub server_version: String,
    pub memory_total: u64,
    pub cpu_count: u64,
}

/// An optional runtime-supplied figure, defaulted to 0.
pub open spec fn opt_or_zero(o: Option<u64>) -> u64 {
    match o {
        Option::Some(v) => v,
        Option::None => 0,
    }
}

fn string_or_unknown(o: Option<String>) -> (r: String)
    ensures
        r@ == opt_or_unknown(o),
{
    match o {
        Option::Some(s) => s,
        Option::None => String::from_str("unknown"),
    }
}

fn u64_or_zero(o: Option<u64>) -> (r: u64)
    ensures
        r == opt_or_zero(o),
{
    match o {
        Option::Some(v) => v,
        Option::None => 0,
    }
}

/// The snapshots of the observations that carried an id, stamped with `ts`
/// and stably sorted by descending CPU usage.
pub open spec fn sorted_snapshots_of(obs: Seq<ContainerObservation>, ts: Seq<char>) -> Seq<
    ContainerView,
> {
    sort_desc(kept_observations(obs).map_values(|o: ContainerObservation| snapshot_view(o, ts)))
}

/// The container-side monitor: builds, orders and filters per-container
/// snapshots from what the runtime reported.
pub struct DockerMonitor {
    pub config: Config,
}

impl DockerMonitor {
    pub fn new(config: Config) -> (r: Self)
        ensures
            r.config == config,
    {
        DockerMonitor { config }
    }

    /// One snapshot per observed container that carried an id, sorted by
    /// descending CPU usage (stably), all stamped with one check time.
    pub fn get_container_stats(&self, observations: Vec<ContainerObservation>) -> (r: Vec<
        ContainerStats,
    >)
        ensures
            exists|ts: Seq<char>| views_of(r@) == #[trigger] sorted_snapshots_of(
                observations@,
                ts,
            ),
            sorted_desc(views_of(r@)),
    {
        let ts = now_timestamp();
        let ghost gts = ts@;
        let mut v = build_snapshots(observations, ts.as_str());
        sort_by_cpu_desc(&mut v);
        proof {
            lemma_sort_desc_sorted(
                kept_observations(observations@).map_values(
                    |o: ContainerObservation| snapshot_view(o, gts),
                ),
            );
            assert(views_of(v@) == sorted_snapshots_of(observations@, gts));
        }
        v
    }

    /// The `limit` snapshots with the highest CPU usage, in descending
    /// order (all of them when fewer were observed).
    pub fn get_top_cpu_containers(&self, observations: Vec<ContainerObservation>, limit: usize) -> (r:
        Vec<ContainerStats>)
        ensures
            exists|ts: Seq<char>|
                {
                    let sorted = #[trigger] sorted_snapshots_of(observations@, ts);
                    views_of(r@) == if limit as int <= sorted.len() {
                        sorted.subrange(0, limit as int)
                    } else {
                        sorted
                    }
                },
            sorted_desc(views_of(r@)),
    {
        let ghost obs = observations@;
        let mut all = self.get_container_stats(observations);
        let ghost ts = choose|ts: Seq<char>| views_of(all@) == sorted_snapshots_of(obs, ts);
        let ghost before = all@;
        all.truncate(limit);
        proof {
            if limit as int <= before.len() {
                assert(views_of(all@) =~= views_of(before).subrange(0, limit as int));
            } else {
                assert(all@ == before);
            }
            let sorted = sorted_snapshots_of(obs, ts);
            assert(views_of(all@) == if limit as int <= sorted.len() {
                sorted.subrange(0, limit as int)
            } else {
                sorted
            });
            assert(sorted_desc(views_of(before)));
            assert(sorted_desc(views_of(all@)));
        }
        all
    }

    /// Whether any snapshot strictly exceeds the threshold, together with
    /// the exceeding subset in its given order. A container exactly at the
    /// threshold does not trigger.
    pub fn check_container_cpu_threshold(
        &self,
        containers: &Vec<ContainerStats>,
        threshold_centi: u64,
    ) -> (r: (bool, Vec<ContainerStats>))
        ensures
            views_of(r.1@) == views_of(containers@).filter(cpu_above(threshold_centi)),
            r.0 <==> views_of(containers@).filter(cpu_above(threshold_centi)).len() > 0,
    {
        let high = filter_above_threshold(containers, threshold_centi);
        let has_high_cpu = high.len() > 0;
        (has_high_cpu, high)
    }

    /// Assembles the runtime's self-description, defaulting every missing
    /// string to "unknown" and every missing figure to 0.
    pub fn get_docker_system_info(&self, raw: DockerInfoReadings) -> (r: DockerSystemInfo)
        ensures
            r.version@ == opt_or_unknown(raw.version),
            r.api_version@ == opt_or_unknown(raw.api_version),
            r.containers == opt_or_zero(raw.containers),
            r.containers_running == opt_or_zero(raw.containers_running),
            r.containers_paused == opt_or_zero(raw.containers_paused),
            r.containers_stopped == opt_or_zero(raw.containers_stopped),
            r.images == opt_or_zero(raw.images),
            r.server_version@ == opt_or_unknown(raw.server_version),
            r.memory_total == opt_or_zero(raw.memory_total),
            r.cpu_count == opt_or_zero(raw.cpu_count),
    {
        DockerSystemInfo {
            version: string_or_unknown(raw.version),
            api_version: string_or_unknown(raw.api_version),
            containers: u64_or_zero(raw.containers),
            containers_running: u64_or_zero(raw.containers_running),
            containers_paused: u64_or_zero(raw.containers_paused),
            containers_stopped: u64_or_zero(raw.containers_stopped),
            images: u64_or_zero(raw.images),
            server_version: string_or_unknown(raw.server_version),
            memory_total: u64_or_zero(raw.memory_total),
            cpu_count: u64_or_zero(raw.cpu_count),
        }
    }
}

} // verus!
