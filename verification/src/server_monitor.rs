//! Host telemetry: assembling one consistent host snapshot from raw
//! readings, parsing the load-average line, and the host-level threshold
//! check.
//!
//! Reading the machine itself is an outside concern; the core receives the
//! raw figures (and the raw load-average line) as plain values. Load
//! averages are held in hundredths, like every other scaled value here.

use vstd::prelude::*;

use crate::clock::now_timestamp;
use crate::config::Config;
use crate::email_notifier::is_space;
use crate::numfmt::capped_percent;
use crate::numfmt::percent_centi;

verus! {

pub struct MemoryStats {
    pub total: u64,
    pub used: u64,
    pub available: u64,
    pub percent_centi: u64,
}

pub struct DiskStats {
    pub total: u64,
    pub used: u64,
    pub available: u64,
    pub percent_centi: u64,
}

/// The three load averages, in hundredths.
pub struct LoadAverage {
    pub one_min_centi: u64,
    pub five_min_centi: u64,
    pub fifteen_min_centi: u64,
}

pub struct SystemInfo {
    pub hostname: String,
    pub os: String,
    pub kernel: String,
    pub cpu_count: usize,
    pub cpu_brand: String,
    pub total_memory: u64,
    pub boot_time: u64,
}

/// One host snapshot: every reading taken at one check time.
pub struct ServerStats {
    pub timestamp: String,
    pub cpu_usage_centi: u64,
    pub memory_usage: MemoryStats,
    pub disk_usage: DiskStats,
    pub load_average: LoadAverage,
    pub system_info: SystemInfo,
}

/// Capacity and free space of the disk the host reported first, when it
/// reported any.
#[derive(Clone, Copy)]
pub struct DiskReading {
    pub total: u64,
    pub available: u64,
}

/// The raw figures one host sample yields. `None` stands for a reading the
/// machine did not supply; `loadavg` is the raw load-average line, absent
/// where the host offers none.
pub struct HostReadings {
    pub cpu_usage_centi: u64,
    pub memory_total: u64,
    pub memory_used: u64,
    pub memory_available: u64,
    pub disk: Option<DiskReading>,
    pub loadavg: Option<String>,
    pub hostname: Option<String>,
    pub os: Option<String>,
    pub kernel: Option<String>,
    pub cpu_count: usize,
    pub cpu_brand: Option<String>,
    pub total_memory: u64,
    pub boot_time: u64,
}

/// An optional host-supplied string, defaulted to "Unknown".
pub open spec fn opt_or_unknown_host(o: Option<String>) -> Seq<char> {
    match o {
        Option::Some(s) => s@,
        Option::None => "Unknown"@,
    }
}

pub open spec fn digit_val(c: char) -> nat {
    if c == '0' {
        0
    } else if c == '1' {
        1
    } else if c == '2' {
        2
    } else if c == '3' {
        3
    } else if c == '4' {
        4
    } else if c == '5' {
        5
    } else if c == '6' {
        6
    } else if c == '7' {
        7
    } else if c == '8' {
        8
    } else if c == '9' {
        9
    } else {
        10
    }
}

pub open spec fn is_digit(c: char) -> bool {
    digit_val(c) < 10
}

pub open spec fn all_digits(s: Seq<char>) -> bool {
    forall|i: int| 0 <= i < s.len() ==> is_digit(#[trigger] s[i])
}

/// The value of a digit string, most significant digit first.
pub open spec fn digits_val(s: Seq<char>) -> nat
    decreases s.len(),
{
    if s.len() == 0 {
        0
    } else {
        digits_val(s.drop_last()) * 10 + digit_val(s.last())
    }
}

pub open spec fn pow10(n: nat) -> nat
    decreases n,
{
    if n == 0 {
        1
    } else {
        10 * pow10((n - 1) as nat)
    }
}

proof fn lemma_pow10_mono(a: nat, b: nat)
    requires
        a <= b,
    ensures
        pow10(a) <= pow10(b),
    decreases b,
{
    if a < b && b > 0 {
        lemma_pow10_mono(a, (b - 1) as nat);
        assert(pow10(b) == 10 * pow10((b - 1) as nat));
        assert(pow10((b - 1) as nat) >= 1) by {
            lemma_pow10_mono(0, (b - 1) as nat);
        }
    }
}

proof fn lemma_digits_val_bound(s: Seq<char>)
    requires
        all_digits(s),
    ensures
        digits_val(s) < pow10(s.len()),
    decreases s.len(),
{
    if s.len() > 0 {
        assert(all_digits(s.drop_last()));
        lemma_digits_val_bound(s.drop_last());
        assert(digit_val(s.last()) <= 9);
    }
}

/// The position of the first dot, or the length when there is none.
pub open spec fn dot_index(s: Seq<char>) -> int
    decreases s.len(),
{
    if s.len() == 0 {
        0
    } else if s[0] == '.' {
        0
    } else {
        1 + dot_index(s.drop_first())
    }
}

proof fn lemma_dot_index_at(s: Seq<char>, d: int)
    requires
        0 <= d <= s.len(),
        forall|k: int| 0 <= k < d ==> s[k] != '.',
        d < s.len() ==> s[d] == '.',
    ensures
        dot_index(s) == d,
    decreases d,
{
    if d > 0 {
        lemma_dot_index_at(s.drop_first(), d - 1);
    }
}

/// The fractional digits, when the token has a dot.
pub open spec fn frac_of(s: Seq<char>) -> Seq<char> {
    let d = dot_index(s);
    if d == s.len() {
        Seq::empty()
    } else {
        s.skip(d + 1)
    }
}

/// A well-formed fixed-point token: one to seventeen integer digits, then
/// optionally a dot and fractional digits. Anything else parses as 0, as a
/// malformed reading does.
pub open spec fn valid_centi_token(s: Seq<char>) -> bool {
    let d = dot_index(s);
    &&& 1 <= d <= 17
    &&& all_digits(s.take(d))
    &&& all_digits(frac_of(s))
}

/// The first two fractional digits, in hundredths.
pub open spec fn frac_centi(f: Seq<char>) -> nat {
    if f.len() == 0 {
        0
    } else if f.len() == 1 {
        digit_val(f[0]) * 10
    } else {
        digit_val(f[0]) * 10 + digit_val(f[1])
    }
}

/// The value of a fixed-point token in hundredths; a malformed token is 0.
/// The fraction is truncated after two digits.
pub open spec fn parse_centi_spec(s: Seq<char>) -> nat {
    if valid_centi_token(s) {
        digits_val(s.take(dot_index(s))) * 100 + frac_centi(frac_of(s))
    } else {
        0
    }
}

fn digit_val_exec(c: char) -> (r: u64)
    ensures
        r == digit_val(c),
{
    if c == '0' {
        0
    } else if c == '1' {
        1
    } else if c == '2' {
        2
    } else if c == '3' {
        3
    } else if c == '4' {
        4
    } else if c == '5' {
        5
    } else if c == '6' {
        6
    } else if c == '7' {
        7
    } else if c == '8' {
        8
    } else if c == '9' {
        9
    } else {
        10
    }
}

/// Parses one fixed-point token into hundredths; yields 0 for anything
/// malformed, as the original readings fall back to zero.
pub fn parse_centi_token(s: &str) -> (r: u64)
    ensures
        r == parse_centi_spec(s@),
{
    let n = s.unicode_len();
    let mut d: usize = 0;
    while d < n && s.get_char(d) != '.'
        invariant
            0 <= d <= n,
            n == s@.len(),
            forall|k: int| 0 <= k < d ==> s@[k] != '.',
        decreases n - d,
    {
        d += 1;
    }
    proof {
        lemma_dot_index_at(s@, d as int);
    }
    if d == 0 || d > 17 {
        return 0;
    }
    let mut val: u64 = 0;
    let mut k: usize = 0;
    proof {
        assert(s@.take(0) =~= Seq::<char>::empty());
    }
    while k < d
        invariant
            0 <= k <= d,
            d <= 17,
            d <= n,
            n == s@.len(),
            dot_index(s@) == d as int,
            all_digits(s@.take(k as int)),
            val == digits_val(s@.take(k as int)),
        decreases d - k,
    {
        let dv = digit_val_exec(s.get_char(k));
        if dv >= 10 {
            proof {
                assert(s@.take(d as int)[k as int] == s@[k as int]);
                assert(!valid_centi_token(s@));
            }
            return 0;
        }
        proof {
            lemma_digits_val_bound(s@.take(k as int));
            lemma_pow10_mono(k as nat, 16);
            assert(pow10(16) == 10000000000000000) by {
                reveal_with_fuel(pow10, 17);
            }
            assert(s@.take(k as int + 1).drop_last() =~= s@.take(k as int));
            assert(s@.take(k as int + 1).last() == s@[k as int]);
        }
        val = val * 10 + dv;
        k += 1;
    }
    proof {
        lemma_digits_val_bound(s@.take(d as int));
        lemma_pow10_mono(d as nat, 17);
        assert(pow10(17) == 100000000000000000) by {
            reveal_with_fuel(pow10, 18);
        }
    }
    let mut frac: u64 = 0;
    if d < n {
        let mut k2: usize = d + 1;
        while k2 < n
            invariant
                d + 1 <= k2 <= n,
                n == s@.len(),
                dot_index(s@) == d as int,
                forall|j: int| d + 1 <= j < k2 ==> is_digit(#[trigger] s@[j]),
            decreases n - k2,
        {
            let dv = digit_val_exec(s.get_char(k2));
            if dv >= 10 {
                proof {
                    assert(frac_of(s@)[k2 - d - 1] == s@[k2 as int]);
                    assert(!valid_centi_token(s@));
                }
                return 0;
            }
            k2 += 1;
        }
        proof {
            assert(forall|j: int|
                0 <= j < frac_of(s@).len() ==> is_digit(#[trigger] frac_of(s@)[j]) && frac_of(s@)[j]
                    == s@[j + d + 1]);
        }
        if d + 1 < n {
            let f0 = digit_val_exec(s.get_char(d + 1));
            proof {
                assert(frac_of(s@)[0] == s@[d as int + 1]);
            }
            frac = f0 * 10;
            if d + 2 < n {
                let f1 = digit_val_exec(s.get_char(d + 2));
                proof {
                    assert(frac_of(s@)[1] == s@[d as int + 2]);
                }
                frac = frac + f1;
            }
        }
        proof {
            assert(frac == frac_centi(frac_of(s@)));
        }
    } else {
        proof {
            assert(frac_of(s@) =~= Seq::<char>::empty());
        }
    }
    proof {
        assert(valid_centi_token(s@));
    }
    val * 100 + frac
}

/// Whitespace-separated splitting, empty segments included.
pub open spec fn ws_split(s: Seq<char>) -> Seq<Seq<char>>
    decreases s.len(),
{
    if s.len() == 0 {
        seq![Seq::<char>::empty()]
    } else if is_space(s.last()) {
        ws_split(s.drop_last()).push(Seq::empty())
    } else {
        let ls = ws_split(s.drop_last());
        ls.update(ls.len() - 1, ls.last().push(s.last()))
    }
}

proof fn lemma_ws_split_nonempty(s: Seq<char>)
    ensures
        ws_split(s).len() >= 1,
    decreases s.len(),
{
    if s.len() > 0 {
        lemma_ws_split_nonempty(s.drop_last());
    }
}

pub open spec fn nonempty_token(t: Seq<char>) -> bool {
    t.len() > 0
}

/// The whitespace-separated tokens of a line.
pub open spec fn ws_tokens(s: Seq<char>) -> Seq<Seq<char>> {
    ws_split(s).filter(|t: Seq<char>| nonempty_token(t))
}

proof fn lemma_filter_push_token(
    s: Seq<Seq<char>>,
    x: Seq<char>,
    p: spec_fn(Seq<char>) -> bool,
)
    ensures
        s.push(x).filter(p) == if p(x) {
            s.filter(p).push(x)
        } else {
            s.filter(p)
        },
{
    reveal_with_fuel(Seq::<_>::filter, 2);
    assert(s.push(x).drop_last() =~= s);
    assert(s.push(x).last() == x);
}

/// Splits a line at whitespace into its nonempty tokens, in order.
fn split_whitespace_tokens(s: &str) -> (r: Vec<String>)
    ensures
        r@.map_values(|t: String| t@) == ws_tokens(s@),
{
    let ghost p = |t: Seq<char>| nonempty_token(t);
    let n = s.unicode_len();
    let mut out: Vec<String> = Vec::new();
    let mut cur = String::new();
    let mut i: usize = 0;
    proof {
        assert(s@.take(0) =~= Seq::<char>::empty());
        assert(ws_split(s@.take(0)) == seq![Seq::<char>::empty()]);
        assert(seq![Seq::<char>::empty()].drop_last() =~= Seq::<Seq<char>>::empty());
        reveal_with_fuel(Seq::<_>::filter, 1);
        assert(out@.map_values(|t: String| t@) =~= Seq::<Seq<char>>::empty().filter(p));
    }
    while i < n
        invariant
            0 <= i <= n,
            n == s@.len(),
            ws_split(s@.take(i as int)).len() >= 1,
            out@.map_values(|t: String| t@) == ws_split(s@.take(i as int)).drop_last().filter(p),
            cur@ == ws_split(s@.take(i as int)).last(),
            p == (|t: Seq<char>| nonempty_token(t)),
        decreases n - i,
    {
        let ghost segs = ws_split(s@.take(i as int));
        let c = s.get_char(i);
        proof {
            assert(s@.take(i as int + 1).drop_last() =~= s@.take(i as int));
            assert(s@.take(i as int + 1).last() == c);
            lemma_ws_split_nonempty(s@.take(i as int + 1));
        }
        if is_space_char(c) {
            proof {
                assert(ws_split(s@.take(i as int + 1)) == segs.push(Seq::empty()));
                assert(segs.push(Seq::<char>::empty()).drop_last() =~= segs);
                assert(segs =~= segs.drop_last().push(segs.last()));
                lemma_filter_push_token(segs.drop_last(), segs.last(), p);
            }
            if !cur.as_str().is_empty() {
                out.push(cur);
                proof {
                    assert(out@.map_values(|t: String| t@) =~= segs.drop_last().filter(p).push(
                        segs.last(),
                    ));
                }
            } else {
                proof {
                    assert(segs.drop_last().filter(p) =~= segs.drop_last().push(
                        segs.last(),
                    ).filter(p));
                }
            }
            cur = String::new();
        } else {
            cur.append(s.substring_char(i, i + 1));
            proof {
                assert(s@.subrange(i as int, i as int + 1) =~= seq![c]);
                let nl = ws_split(s@.take(i as int + 1));
                assert(nl == segs.update(segs.len() - 1, segs.last().push(c)));
                assert(nl.drop_last() =~= segs.drop_last());
                assert(nl.last() == segs.last().push(c));
                assert(cur@ =~= segs.last().push(c));
            }
        }
        i += 1;
    }
    proof {
        assert(s@.take(n as int) =~= s@);
        lemma_ws_split_nonempty(s@);
        let segs = ws_split(s@);
        assert(segs =~= segs.drop_last().push(segs.last()));
        lemma_filter_push_token(segs.drop_last(), segs.last(), p);
    }
    if !cur.as_str().is_empty() {
        out.push(cur);
        proof {
            let segs = ws_split(s@);
            assert(out@.map_values(|t: String| t@) =~= segs.drop_last().filter(p).push(
                segs.last(),
            ));
        }
    } else {
        proof {
            let segs = ws_split(s@);
            assert(segs.drop_last().filter(p) =~= ws_tokens(s@));
        }
    }
    out
}

/// The load averages a load-average line yields: its first three tokens in
/// hundredths, or all zeroes when it has fewer than three tokens.
pub open spec fn spec_load_average(line: Seq<char>) -> LoadAverage {
    let ts = ws_tokens(line);
    if ts.len() >= 3 {
        LoadAverage {
            one_min_centi: parse_centi_spec(ts[0]) as u64,
            five_min_centi: parse_centi_spec(ts[1]) as u64,
            fifteen_min_centi: parse_centi_spec(ts[2]) as u64,
        }
    } else {
        LoadAverage { one_min_centi: 0, five_min_centi: 0, fifteen_min_centi: 0 }
    }
}

fn is_space_char(c: char) -> (r: bool)
    ensures
        r == is_space(c),
{
    c == ' ' || c == '\t' || c == '\r' || c == '\n'
}

fn string_or_unknown_host(o: Option<String>) -> (r: String)
    ensures
        r@ == opt_or_unknown_host(o),
{
    match o {
        Option::Some(s) => s,
        Option::None => String::from_str("Unknown"),
    }
}

/// The host-side monitor: assembles snapshots from raw readings and checks
/// them against the configured threshold.
pub struct ServerMonitor {
    pub config: Config,
}

impl ServerMonitor {
    pub fn new(config: Config) -> (r: Self)
        ensures
            r.config == config,
    {
        ServerMonitor { config }
    }

    /// The host CPU triggers exactly when its usage strictly exceeds the
    /// configured threshold; usage exactly at the threshold does not.
    pub fn check_cpu_threshold(&self, cpu_usage_centi: u64) -> (r: (bool, u64))
        ensures
            r.0 == (cpu_usage_centi > self.config.monitoring.cpu_threshold_centi),
            r.1 == cpu_usage_centi,
    {
        (cpu_usage_centi > self.config.monitoring.cpu_threshold_centi, cpu_usage_centi)
    }

    /// Memory figures with the used share as a percentage (0 for a host
    /// reporting no memory at all).
    pub fn get_memory_usage(&self, total: u64, used: u64, available: u64) -> (r: MemoryStats)
        ensures
            r.total == total,
            r.used == used,
            r.available == available,
            r.percent_centi == capped_percent(used, total),
    {
        MemoryStats { total, used, available, percent_centi: percent_centi(used, total) }
    }

    /// Disk figures of the first reported disk; a host reporting no disk
    /// yields all zeroes.
    pub fn get_disk_usage(&self, reading: Option<DiskReading>) -> (r: DiskStats)
        requires
            reading matches Option::Some(d) ==> d.available <= d.total,
        ensures
            match reading {
                Option::Some(d) => {
                    &&& r.total == d.total
                    &&& r.used == d.total - d.available
                    &&& r.available == d.available
                    &&& r.percent_centi == capped_percent((d.total - d.available) as u64, d.total)
                },
                Option::None => {
                    &&& r.total == 0
                    &&& r.used == 0
                    &&& r.available == 0
                    &&& r.percent_centi == 0
                },
            },
    {
        match reading {
            Option::Some(d) => {
                let used = d.total - d.available;
                DiskStats {
                    total: d.total,
                    used,
                    available: d.available,
                    percent_centi: percent_centi(used, d.total),
                }
            },
            Option::None => DiskStats { total: 0, used: 0, available: 0, percent_centi: 0 },
        }
    }

    /// Load averages parsed from the raw line; a missing line or one with
    /// fewer than three tokens degrades to zeroes rather than a failure.
    pub fn get_load_average(&self, contents: Option<&str>) -> (r: LoadAverage)
        ensures
            match contents {
                Option::Some(line) => r == spec_load_average(line@),
                Option::None => r == (LoadAverage {
                    one_min_centi: 0,
                    five_min_centi: 0,
                    fifteen_min_centi: 0,
                }),
            },
    {
        match contents {
            Option::None => LoadAverage {
                one_min_centi: 0,
                five_min_centi: 0,
                fifteen_min_centi: 0,
            },
            Option::Some(line) => {
                let tokens = split_whitespace_tokens(line);
                if tokens.len() >= 3 {
                    proof {
                        assert(tokens@.map_values(|t: String| t@)[0] == tokens@[0]@);
                        assert(tokens@.map_values(|t: String| t@)[1] == tokens@[1]@);
                        assert(tokens@.map_values(|t: String| t@)[2] == tokens@[2]@);
                    }
                    LoadAverage {
                        one_min_centi: parse_centi_token(tokens[0].as_str()),
                        five_min_centi: parse_centi_token(tokens[1].as_str()),
                        fifteen_min_centi: parse_centi_token(tokens[2].as_str()),
                    }
                } else {
                    LoadAverage { one_min_centi: 0, five_min_centi: 0, fifteen_min_centi: 0 }
                }
            },
        }
    }

    /// Host identity, defaulting what the machine did not report.
    pub fn get_system_info(
        &self,
        hostname: Option<String>,
        os: Option<String>,
        kernel: Option<String>,
        cpu_count: usize,
        cpu_brand: Option<String>,
        total_memory: u64,
        boot_time: u64,
    ) -> (r: SystemInfo)
        ensures
            r.hostname@ == opt_or_unknown_host(hostname),
            r.os@ == opt_or_unknown_host(os),
            r.kernel@ == opt_or_unknown_host(kernel),
            r.cpu_count == cpu_count,
            r.cpu_brand@ == opt_or_unknown_host(cpu_brand),
            r.total_memory == total_memory,
            r.boot_time == boot_time,
    {
        SystemInfo {
            hostname: string_or_unknown_host(hostname),
            os: string_or_unknown_host(os),
            kernel: string_or_unknown_host(kernel),
            cpu_count,
            cpu_brand: string_or_unknown_host(cpu_brand),
            total_memory,
            boot_time,
        }
    }

    /// One full host snapshot assembled from one batch of raw readings,
    /// stamped with the current check time. All readings of one call stand
    /// together in one snapshot.
    pub fn get_full_stats(&self, readings: HostReadings) -> (r: ServerStats)
        requires
            readings.disk matches Option::Some(d) ==> d.available <= d.total,
        ensures
            r.cpu_usage_centi == readings.cpu_usage_centi,
            r.memory_usage.total == readings.memory_total,
            r.memory_usage.used == readings.memory_used,
            r.memory_usage.available == readings.memory_available,
            r.memory_usage.percent_centi == capped_percent(
                readings.memory_used,
                readings.memory_total,
            ),
            match readings.disk {
                Option::Some(d) => r.disk_usage.total == d.total && r.disk_usage.used == d.total
                    - d.available && r.disk_usage.available == d.available
                    && r.disk_usage.percent_centi == capped_percent(
                    (d.total - d.available) as u64,
                    d.total,
                ),
                Option::None => r.disk_usage.total == 0 && r.disk_usage.used == 0
                    && r.disk_usage.available == 0 && r.disk_usage.percent_centi == 0,
            },
            match readings.loadavg {
                Option::Some(line) => r.load_average == spec_load_average(line@),
                Option::None => r.load_average == (LoadAverage {
                    one_min_centi: 0,
                    five_min_centi: 0,
                    fifteen_min_centi: 0,
                }),
            },
            r.system_info.hostname@ == opt_or_unknown_host(readings.hostname),
            r.system_info.os@ == opt_or_unknown_host(readings.os),
            r.system_info.kernel@ == opt_or_unknown_host(readings.kernel),
            r.system_info.cpu_count == readings.cpu_count,
            r.system_info.cpu_brand@ == opt_or_unknown_host(readings.cpu_brand),
            r.system_info.total_memory == readings.total_memory,
            r.system_info.boot_time == readings.boot_time,
    {
        let HostReadings {
            cpu_usage_centi,
            memory_total,
            memory_used,
            memory_available,
            disk,
            loadavg,
            hostname,
            os,
            kernel,
            cpu_count,
            cpu_brand,
            total_memory,
            boot_time,
        } = readings;
        let load_average = match &loadavg {
            Option::Some(line) => self.get_load_average(Option::Some(line.as_str())),
            Option::None => self.get_load_average(Option::None),
        };
        ServerStats {
            timestamp: now_timestamp(),
            cpu_usage_centi,
            memory_usage: self.get_memory_usage(memory_total, memory_used, memory_available),
            disk_usage: self.get_disk_usage(disk),
            load_average,
            system_info: self.get_system_info(
                hostname,
                os,
                kernel,
                cpu_count,
                cpu_brand,
                total_memory,
                boot_time,
            ),
        }
    }
}

} // verus!
