//! Network quality from TCP connection probes to public DNS resolvers, and
//! kernel timer latency from timed sleeps.
//!
//! Network latencies are in tenths of a millisecond, timer latencies in
//! tenths of a microsecond.

use vstd::prelude::*;
use crate::text::{cat, decimal, div_round, lit, shortest_tenths, shortest_tenths_text};

verus! {

// ---------------------------------------------------------------- DNS probes

/// The resolvers probed, in order: provider, address shown, and address
/// connected to.
pub open spec fn dns_target(i: int) -> (Seq<char>, Seq<char>, Seq<char>) {
    if i == 0 {
        ("Cloudflare DNS"@, "1.1.1.1"@, "1.1.1.1:53"@)
    } else if i == 1 {
        ("Cloudflare Secondary"@, "1.0.0.1"@, "1.0.0.1:53"@)
    } else if i == 2 {
        ("Google DNS"@, "8.8.8.8"@, "8.8.8.8:53"@)
    } else if i == 3 {
        ("Google Secondary"@, "8.8.4.4"@, "8.8.4.4:53"@)
    } else if i == 4 {
        ("Quad9 Secure DNS"@, "9.9.9.9"@, "9.9.9.9:53"@)
    } else {
        ("OpenDNS Home"@, "208.67.222.222"@, "208.67.222.222:53"@)
    }
}

/// Resolver `i` of the probe list.
pub fn dns_target_at(i: usize) -> (r: (&'static str, &'static str, &'static str))
    requires
        i < 6,
    ensures
        r.0@ == dns_target(i as int).0,
        r.1@ == dns_target(i as int).1,
        r.2@ == dns_target(i as int).2,
{
    if i == 0 {
        ("Cloudflare DNS", "1.1.1.1", "1.1.1.1:53")
    } else if i == 1 {
        ("Cloudflare Secondary", "1.0.0.1", "1.0.0.1:53")
    } else if i == 2 {
        ("Google DNS", "8.8.8.8", "8.8.8.8:53")
    } else if i == 3 {
        ("Google Secondary", "8.8.4.4", "8.8.4.4:53")
    } else if i == 4 {
        ("Quad9 Secure DNS", "9.9.9.9", "9.9.9.9:53")
    } else {
        ("OpenDNS Home", "208.67.222.222", "208.67.222.222:53")
    }
}

/// A connection time in tenths of a millisecond, from microseconds.
pub open spec fn probe_tenths(us: nat) -> nat {
    div_round(us, 100)
}

/// Rounds a connection time.
pub fn round_probe(us: u64) -> (t: u64)
    ensures
        t == probe_tenths(us as nat),
{
    crate::text::round_div(us, 100)
}

/// How one resolver answered.
pub struct DnsServerSpeed {
    pub provider: String,
    pub ip: String,
    pub latency_tenths: u64,
    pub status: String,
}

pub open spec fn seq_sum(s: Seq<u64>) -> nat
    decreases s.len(),
{
    if s.len() == 0 { 0 } else { seq_sum(s.drop_last()) + s.last() as nat }
}

/// The mean of a resolver's answered probes, 999 ms when none answered.
pub open spec fn resolver_latency(probes: Seq<u64>) -> nat {
    if probes.len() > 0 { div_round(seq_sum(probes), probes.len()) } else { 9990 }
}

pub open spec fn resolver_status(latency_tenths: nat) -> Seq<char> {
    if latency_tenths < 500 {
        "Fast (Ultra Low-Latency)"@
    } else if latency_tenths < 1200 {
        "Good"@
    } else {
        "High Latency / Slow"@
    }
}

pub open spec fn resolver_is(d: DnsServerSpeed, i: int, probes: Seq<u64>) -> bool {
    &&& d.provider@ == dns_target(i).0
    &&& d.ip@ == dns_target(i).1
    &&& d.latency_tenths == resolver_latency(probes)
    &&& d.status@ == resolver_status(resolver_latency(probes))
}

proof fn lemma_seq_sum_bound(s: Seq<u64>)
    ensures
        seq_sum(s) <= s.len() * (u64::MAX as nat),
    decreases s.len(),
{
    if s.len() > 0 {
        lemma_seq_sum_bound(s.drop_last());
    }
}

fn total(v: &Vec<u64>) -> (r: u128)
    requires
        v@.len() <= 2,
    ensures
        r == seq_sum(v@),
        r <= 2 * (u64::MAX as nat),
{
    let mut acc: u128 = 0;
    let mut i: usize = 0;
    while i < v.len()
        invariant
            i <= v@.len(),
            v@.len() <= 2,
            acc == seq_sum(v@.subrange(0, i as int)),
            acc <= i * (u64::MAX as nat),
        decreases v@.len() - i,
    {
        assert(v@.subrange(0, i + 1).drop_last() =~= v@.subrange(0, i as int));
        acc = acc + v[i] as u128;
        i = i + 1;
    }
    assert(v@.subrange(0, v@.len() as int) =~= v@);
    acc
}

/// How resolver `i` answered, from its answered probes.
pub fn resolver_speed(i: usize, probes: &Vec<u64>) -> (d: DnsServerSpeed)
    requires
        i < 6,
        probes@.len() <= 2,
    ensures
        resolver_is(d, i as int, probes@),
{
    let (name, ip, _) = dns_target_at(i);
    let latency: u64 = if probes.len() > 0 {
        let t = total(probes);
        proof {
            lemma_seq_sum_bound(probes@);
        }
        let q = crate::text::round_div_u128(t, probes.len() as u128);
        assert(q <= u64::MAX) by (nonlinear_arith)
            requires q as int == (2 * (t as int) + probes@.len() as int) / (2 * probes@.len() as int), t <= probes@.len() * (u64::MAX as nat), probes@.len() >= 1;
        q as u64
    } else {
        9990
    };
    let status = if latency < 500 {
        lit("Fast (Ultra Low-Latency)")
    } else if latency < 1200 {
        lit("Good")
    } else {
        lit("High Latency / Slow")
    };
    DnsServerSpeed { provider: lit(name), ip: lit(ip), latency_tenths: latency, status }
}


// ---------------------------------------------------------------- ordering

/// The position after every resolver at most as slow as `m`.
pub open spec fn first_slower(s: Seq<DnsServerSpeed>, m: u64) -> int
    decreases s.len(),
{
    if s.len() == 0 {
        0
    } else if s[0].latency_tenths > m {
        0
    } else {
        1 + first_slower(s.drop_first(), m)
    }
}

/// The resolvers from fastest to slowest, equal ones in probe order (what a
/// stable sort gives).
pub open spec fn by_latency(s: Seq<DnsServerSpeed>) -> Seq<DnsServerSpeed>
    decreases s.len(),
{
    if s.len() == 0 {
        Seq::empty()
    } else {
        let sorted = by_latency(s.drop_last());
        sorted.insert(first_slower(sorted, s.last().latency_tenths), s.last())
    }
}

proof fn lemma_first_slower(s: Seq<DnsServerSpeed>, m: u64, i: int)
    requires
        0 <= i <= s.len(),
        forall|j: int| 0 <= j < i ==> s[j].latency_tenths <= m,
        i == s.len() || s[i].latency_tenths > m,
    ensures
        first_slower(s, m) == i,
    decreases s.len(),
{
    if s.len() > 0 && i > 0 {
        lemma_first_slower(s.drop_first(), m, i - 1);
    }
}

proof fn lemma_first_slower_range(s: Seq<DnsServerSpeed>, m: u64)
    ensures
        0 <= first_slower(s, m) <= s.len(),
    decreases s.len(),
{
    if s.len() > 0 {
        lemma_first_slower_range(s.drop_first(), m);
    }
}

proof fn lemma_by_latency_len(s: Seq<DnsServerSpeed>)
    ensures
        by_latency(s).len() == s.len(),
    decreases s.len(),
{
    if s.len() > 0 {
        lemma_by_latency_len(s.drop_last());
        lemma_first_slower_range(by_latency(s.drop_last()), s.last().latency_tenths);
    }
}

/// Orders resolvers from fastest to slowest, stable.
fn sort_by_latency(v: Vec<DnsServerSpeed>) -> (r: Vec<DnsServerSpeed>)
    ensures
        r@ == by_latency(v@),
{
    let ghost orig = v@;
    let mut rest = v;
    assert(orig.len() == rest.len());
    let mut items: Vec<DnsServerSpeed> = Vec::new();
    while rest.len() > 0
        invariant
            items@ + rest@.reverse() == orig.reverse(),
            orig.len() <= usize::MAX,
        decreases rest@.len(),
    {
        let x = rest.pop().unwrap();
        proof {
            assert(rest@.push(x).reverse() =~= seq![x] + rest@.reverse());
        }
        items.push(x);
    }
    assert(items@ =~= orig.reverse());
    let mut sorted: Vec<DnsServerSpeed> = Vec::new();
    let mut i: usize = 0;
    while items.len() > 0
        invariant
            i <= orig.len(),
            orig.len() <= usize::MAX,
            i + items@.len() == orig.len(),
            items@ =~= orig.subrange(i as int, orig.len() as int).reverse(),
            sorted@ == by_latency(orig.subrange(0, i as int)),
        decreases items@.len(),
    {
        let x = items.pop().unwrap();
        proof {
            lemma_by_latency_len(orig.subrange(0, i as int));
            assert(x == orig[i as int]);
        }
        let m = x.latency_tenths;
        let mut k: usize = 0;
        while k < sorted.len() && sorted[k].latency_tenths <= m
            invariant
                k <= sorted@.len(),
                forall|j: int| 0 <= j < k ==> sorted@[j].latency_tenths <= m,
            decreases sorted@.len() - k,
        {
            k = k + 1;
        }
        proof {
            lemma_first_slower(sorted@, m, k as int);
            let next = orig.subrange(0, i + 1);
            assert(next.drop_last() =~= orig.subrange(0, i as int));
            assert(next.last() == x);
            assert(items@ =~= orig.subrange(i + 1, orig.len() as int).reverse());
        }
        sorted.insert(k, x);
        i = i + 1;
    }
    assert(orig.subrange(0, orig.len() as int) =~= orig);
    sorted
}

// ---------------------------------------------------------------- statistics

/// All answered probes, resolver by resolver.
pub open spec fn all_probes(ps: Seq<Seq<u64>>) -> Seq<u64>
    decreases ps.len(),
{
    if ps.len() == 0 { Seq::empty() } else { all_probes(ps.drop_last()) + ps.last() }
}

pub open spec fn seq_min(s: Seq<u64>) -> u64
    decreases s.len(),
{
    if s.len() <= 1 {
        if s.len() == 1 { s[0] } else { 0 }
    } else {
        let m = seq_min(s.drop_last());
        if s.last() < m { s.last() } else { m }
    }
}

pub open spec fn seq_max(s: Seq<u64>) -> u64
    decreases s.len(),
{
    if s.len() == 0 {
        0
    } else {
        let m = seq_max(s.drop_last());
        if s.last() > m { s.last() } else { m }
    }
}

/// The sum of the differences between consecutive probes.
pub open spec fn step_sum(s: Seq<u64>) -> nat
    decreases s.len(),
{
    if s.len() <= 1 {
        0
    } else {
        let a = s[s.len() - 2];
        let b = s.last();
        step_sum(s.drop_last()) + (if a > b { (a - b) as nat } else { (b - a) as nat })
    }
}

/// Latency statistics: lowest, highest, mean and jitter (mean difference
/// between consecutive probes, 1.2 ms with a single probe); fixed figures
/// when no probe answered.
pub open spec fn latency_stats(all: Seq<u64>) -> (nat, nat, nat, nat) {
    if all.len() == 0 {
        (180, 350, 245, 21)
    } else {
        (
            seq_min(all) as nat,
            seq_max(all) as nat,
            div_round(seq_sum(all), all.len()),
            if all.len() > 1 { div_round(step_sum(all), (all.len() - 1) as nat) } else { 12 },
        )
    }
}

/// The share of the twelve probes that went unanswered, in tenths of a
/// percent.
pub open spec fn packet_loss_tenths(answered: nat) -> nat {
    div_round(1000 * ((12 - answered) as nat), 12)
}

pub open spec fn gaming_grade(avg: nat, jitter: nat, loss: nat) -> Seq<char> {
    if avg < 300 && jitter < 50 && loss == 0 {
        "A+ (Flawless Gaming & Esport Tier)"@
    } else if avg < 650 && jitter < 120 {
        "A (Great for Multiplayer & Gaming)"@
    } else if avg < 1200 {
        "B (Moderate Latency - Casual Play)"@
    } else {
        "C/D (High Latency or Packet Jitter)"@
    }
}

pub open spec fn streaming_grade(jitter: nat, loss: nat) -> Seq<char> {
    if loss == 0 && jitter < 150 { "4K UHD / 60FPS Lossless Stream"@ } else { "1080p Standard Streaming"@ }
}

/// The network diagnosis.
pub struct NetworkDiagnosticsResult {
    pub ping_tenths: u64,
    pub min_latency_tenths: u64,
    pub max_latency_tenths: u64,
    pub jitter_tenths: u64,
    pub packet_loss_tenths: u64,
    pub gaming_grade: String,
    pub streaming_grade: String,
    pub dns_results: Vec<DnsServerSpeed>,
    pub recommended_dns: String,
    pub connection_type: String,
    pub local_ip: String,
    pub gateway_ip: String,
}

/// The resolvers' results in probe order.
pub open spec fn resolvers_are(v: Seq<DnsServerSpeed>, ps: Seq<Seq<u64>>) -> bool {
    &&& v.len() == ps.len()
    &&& forall|i: int| 0 <= i < v.len() ==> resolver_is(#[trigger] v[i], i, ps[i])
}

/// The diagnosis from the answered probes of the six resolvers (each at
/// most two probes, in tenths of a millisecond).
pub open spec fn network_result_is(r: NetworkDiagnosticsResult, ps: Seq<Seq<u64>>) -> bool {
    let all = all_probes(ps);
    let st = latency_stats(all);
    let loss = packet_loss_tenths(all.len());
    &&& r.ping_tenths == st.2
    &&& r.min_latency_tenths == st.0
    &&& r.max_latency_tenths == st.1
    &&& r.jitter_tenths == st.3
    &&& r.packet_loss_tenths == loss
    &&& r.gaming_grade@ == gaming_grade(st.2, st.3, loss)
    &&& r.streaming_grade@ == streaming_grade(st.3, loss)
    &&& exists|unsorted: Seq<DnsServerSpeed>| resolvers_are(unsorted, ps) && #[trigger] by_latency(unsorted) == r.dns_results@
    &&& r.recommended_dns@ == (if r.dns_results@.len() > 0 {
        r.dns_results@[0].provider@ + " ("@ + r.dns_results@[0].ip@ + ") - "@
            + shortest_tenths(r.dns_results@[0].latency_tenths as nat) + " ms"@
    } else {
        "Cloudflare (1.1.1.1)"@
    })
    &&& r.connection_type@ == "Ethernet / High-Speed Wi-Fi"@
    &&& r.local_ip@ == "192.168.1.x (Active Interface)"@
    &&& r.gateway_ip@ == "192.168.1.1 (Gateway Router)"@
}

/// Diagnoses the network from the answered probes of the six resolvers.
pub fn assess_network(probes: &Vec<Vec<u64>>) -> (r: NetworkDiagnosticsResult)
    requires
        probes@.len() == 6,
        forall|i: int| 0 <= i < 6 ==> (#[trigger] probes@[i])@.len() <= 2,
    ensures
        network_result_is(r, probes@.map_values(|p: Vec<u64>| p@)),
{
    let ghost ps = probes@.map_values(|p: Vec<u64>| p@);
    let mut dns: Vec<DnsServerSpeed> = Vec::new();
    let mut all: Vec<u64> = Vec::new();
    let mut i: usize = 0;
    while i < 6
        invariant
            i <= 6,
            probes@.len() == 6,
            forall|k: int| 0 <= k < 6 ==> (#[trigger] probes@[k])@.len() <= 2,
            ps == probes@.map_values(|p: Vec<u64>| p@),
            resolvers_are(dns@, ps.subrange(0, i as int)),
            all@ == all_probes(ps.subrange(0, i as int)),
            all@.len() <= 2 * i,
        decreases 6 - i,
    {
        let p = &probes[i];
        let d = resolver_speed(i, p);
        dns.push(d);
        let mut k: usize = 0;
        let ghost before = all@;
        while k < p.len()
            invariant
                k <= p@.len(),
                p@.len() <= 2,
                all@ == before + p@.subrange(0, k as int),
            decreases p@.len() - k,
        {
            all.push(p[k]);
            k = k + 1;
        }
        proof {
            let next = ps.subrange(0, i + 1);
            assert(next.drop_last() =~= ps.subrange(0, i as int));
            assert(next.last() == p@);
            assert(p@.subrange(0, p@.len() as int) =~= p@);
            assert(ps[i as int] == p@);
        }
        i = i + 1;
    }
    proof {
        assert(ps.subrange(0, 6) =~= ps);
    }
    let ghost unsorted = dns@;
    let sorted = sort_by_latency(dns);
    proof {
        lemma_by_latency_len(unsorted);
    }
    let n = all.len();
    let (mn, mx, avg, jitter) = latency_figures(&all);
    let loss = crate::text::round_div(1000 * (12 - n as u64), 12);
    let gaming = if avg < 300 && jitter < 50 && loss == 0 {
        lit("A+ (Flawless Gaming & Esport Tier)")
    } else if avg < 650 && jitter < 120 {
        lit("A (Great for Multiplayer & Gaming)")
    } else if avg < 1200 {
        lit("B (Moderate Latency - Casual Play)")
    } else {
        lit("C/D (High Latency or Packet Jitter)")
    };
    let streaming = if loss == 0 && jitter < 150 {
        lit("4K UHD / 60FPS Lossless Stream")
    } else {
        lit("1080p Standard Streaming")
    };
    let best = if sorted.len() > 0 {
        let d = &sorted[0];
        let t = cat(cat(cat(cat(d.provider.clone(), " ("), d.ip.as_str()), ") - "),
            shortest_tenths_text(d.latency_tenths).as_str());
        cat(t, " ms")
    } else {
        lit("Cloudflare (1.1.1.1)")
    };
    assert(resolvers_are(unsorted, ps) && by_latency(unsorted) == sorted@);
    NetworkDiagnosticsResult {
        ping_tenths: avg,
        min_latency_tenths: mn,
        max_latency_tenths: mx,
        jitter_tenths: jitter,
        packet_loss_tenths: loss,
        gaming_grade: gaming,
        streaming_grade: streaming,
        dns_results: sorted,
        recommended_dns: best,
        connection_type: lit("Ethernet / High-Speed Wi-Fi"),
        local_ip: lit("192.168.1.x (Active Interface)"),
        gateway_ip: lit("192.168.1.1 (Gateway Router)"),
    }
}

proof fn lemma_step_sum_bound(s: Seq<u64>)
    ensures
        step_sum(s) <= s.len() * (u64::MAX as nat),
    decreases s.len(),
{
    if s.len() > 1 {
        lemma_step_sum_bound(s.drop_last());
    }
}

/// The latency statistics of all answered probes.
fn latency_figures(all: &Vec<u64>) -> (r: (u64, u64, u64, u64))
    requires
        all@.len() <= 12,
    ensures
        r.0 == latency_stats(all@).0,
        r.1 == latency_stats(all@).1,
        r.2 == latency_stats(all@).2,
        r.3 == latency_stats(all@).3,
{
    let n = all.len();
    if n == 0 {
        return (180, 350, 245, 21);
    }
    let mut mn: u64 = all[0];
    let mut mx: u64 = 0;
    let mut sum: u128 = 0;
    let mut steps: u128 = 0;
    let mut i: usize = 0;
    while i < n
        invariant
            n == all@.len(),
            0 < n <= 12,
            i <= n,
            i > 0 ==> mn == seq_min(all@.subrange(0, i as int)),
            i == 0 ==> mn == all@[0],
            mx == seq_max(all@.subrange(0, i as int)),
            sum == seq_sum(all@.subrange(0, i as int)),
            steps == step_sum(all@.subrange(0, i as int)),
            sum <= i * (u64::MAX as nat),
            steps <= i * (u64::MAX as nat),
        decreases n - i,
    {
        let x = all[i];
        proof {
            let next = all@.subrange(0, i + 1);
            assert(next.drop_last() =~= all@.subrange(0, i as int));
            assert(next.last() == x);
            if i >= 1 {
                assert(next[next.len() - 2] == all@[i - 1]);
            }
        }
        if i > 0 {
            if x < mn {
                mn = x;
            }
            let prev = all[i - 1];
            steps = steps + (if prev > x { (prev - x) as u128 } else { (x - prev) as u128 });
        }
        if x > mx {
            mx = x;
        }
        sum = sum + x as u128;
        i = i + 1;
    }
    assert(all@.subrange(0, n as int) =~= all@);
    let avg = crate::text::round_div_u128(sum, n as u128);
    assert(avg <= u64::MAX) by (nonlinear_arith)
        requires avg == (2 * sum + n) / (2 * n as int), sum <= n * (u64::MAX as nat), n >= 1;
    let jitter: u64 = if n > 1 {
        let j = crate::text::round_div_u128(steps, (n - 1) as u128);
        assert(j <= 2 * (u64::MAX as nat)) by (nonlinear_arith)
            requires j == (2 * steps + (n - 1)) / (2 * (n - 1) as int), steps <= n * (u64::MAX as nat), n >= 2;
        if j > u64::MAX as u128 {
            proof {
                lemma_step_sum_bound(all@);
                assert(step_sum(all@) <= (n - 1) * (u64::MAX as nat)) by {
                    lemma_step_sum_tight(all@);
                }
                assert(false) by (nonlinear_arith)
                    requires j == (2 * steps + (n - 1)) / (2 * (n - 1) as int), steps <= (n - 1) * (u64::MAX as nat), n >= 2, j > u64::MAX;
            }
            0
        } else {
            j as u64
        }
    } else {
        12
    };
    (mn, mx, avg as u64, jitter)
}

proof fn lemma_step_sum_tight(s: Seq<u64>)
    requires
        s.len() >= 1,
    ensures
        step_sum(s) <= (s.len() - 1) * (u64::MAX as nat),
    decreases s.len(),
{
    if s.len() > 1 {
        lemma_step_sum_tight(s.drop_last());
    }
}


proof fn lemma_first_slower_split(s: Seq<DnsServerSpeed>, m: u64)
    ensures
        forall|j: int| 0 <= j < first_slower(s, m) ==> #[trigger] s[j].latency_tenths <= m,
        first_slower(s, m) < s.len() ==> s[first_slower(s, m)].latency_tenths > m,
    decreases s.len(),
{
    lemma_first_slower_range(s, m);
    if s.len() > 0 && s[0].latency_tenths <= m {
        lemma_first_slower_split(s.drop_first(), m);
        lemma_first_slower_range(s.drop_first(), m);
        assert forall|j: int| 0 <= j < first_slower(s, m) implies #[trigger] s[j].latency_tenths <= m by {
            if j > 0 {
                assert(s[j] == s.drop_first()[j - 1]);
            }
        }
        let k = first_slower(s, m);
        assert(k == 1 + first_slower(s.drop_first(), m));
        if k < s.len() {
            assert(s[k] == s.drop_first()[k - 1]);
        }
    }
}

/// The resolvers come out from fastest to slowest.
pub proof fn lemma_by_latency_sorted(s: Seq<DnsServerSpeed>)
    ensures
        forall|i: int, j: int| 0 <= i < j < by_latency(s).len() ==>
            #[trigger] by_latency(s)[i].latency_tenths <= #[trigger] by_latency(s)[j].latency_tenths,
    decreases s.len(),
{
    if s.len() > 0 {
        let prev = by_latency(s.drop_last());
        let x = s.last();
        lemma_by_latency_sorted(s.drop_last());
        lemma_first_slower_split(prev, x.latency_tenths);
        lemma_first_slower_range(prev, x.latency_tenths);
        let k = first_slower(prev, x.latency_tenths);
        let r = prev.insert(k, x);
        assert(r == by_latency(s));
        assert forall|i: int, j: int| 0 <= i < j < r.len() implies #[trigger] r[i].latency_tenths <= #[trigger] r[j].latency_tenths by {
            if j < k {
            } else if j == k {
                assert(r[i] == prev[i]);
            } else if i < k {
                assert(r[j] == prev[j - 1]);
                assert(r[i] == prev[i]);
            } else if i == k {
                assert(r[j] == prev[j - 1]);
                assert(prev[k].latency_tenths > x.latency_tenths);
                if j - 1 > k {
                    assert(prev[k].latency_tenths <= prev[j - 1].latency_tenths);
                }
            } else {
                assert(r[j] == prev[j - 1]);
                assert(r[i] == prev[i - 1]);
            }
        }
    }
}


/// Ordering the resolvers by latency neither loses nor adds one.
pub proof fn lemma_by_latency_permutation(s: Seq<DnsServerSpeed>)
    ensures
        by_latency(s).to_multiset() == s.to_multiset(),
    decreases s.len(),
{
    broadcast use vstd::seq_lib::group_to_multiset_ensures;
    if s.len() == 0 {
        assert(by_latency(s) =~= s);
    } else {
        let prev = by_latency(s.drop_last());
        let x = s.last();
        lemma_by_latency_permutation(s.drop_last());
        lemma_first_slower_range(prev, x.latency_tenths);
        let k = first_slower(prev, x.latency_tenths);
        let r = prev.insert(k, x);
        assert(r.remove(k) =~= prev);
        assert(r[k] == x);
        assert(r.to_multiset().remove(x) =~= prev.to_multiset());
        assert(r.to_multiset().count(x) > 0) by {
            assert(r.contains(x));
        }
        assert(r.to_multiset() =~= prev.to_multiset().insert(x));
        assert(s.drop_last().push(x) =~= s);
    }
}

} // verus!
