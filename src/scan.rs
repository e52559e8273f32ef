use vstd::prelude::*;
use crate::duration::Duration;
use crate::extract::ExtractionError;

verus! {

/// The outcome of one scanned file: its duration, or a message that says why
/// there is none.
#[derive(Debug, PartialEq, Eq)]
pub enum ScanResult {
    Success(Duration),
    Failure(String),
}

/// What a sequence of outcomes adds up to: how many succeeded, their summed
/// nanoseconds, the shortest and longest of them (none without a success),
/// and how many failed.
pub struct Tally {
    pub count: nat,
    pub total: nat,
    pub shortest: Option<nat>,
    pub longest: Option<nat>,
    pub failures: nat,
}

/// The tally of no outcomes.
pub open spec fn empty_tally() -> Tally {
    Tally { count: 0, total: 0, shortest: None, longest: None, failures: 0 }
}

/// `t` with the outcome `r` counted in.
pub open spec fn tally_step(t: Tally, r: ScanResult) -> Tally {
    match r {
        ScanResult::Success(d) => Tally {
            count: t.count + 1,
            total: t.total + d.nanos as nat,
            shortest: match t.shortest {
                None => Some(d.nanos as nat),
                Some(m) => Some(if (d.nanos as nat) < m { d.nanos as nat } else { m }),
            },
            longest: match t.longest {
                None => Some(d.nanos as nat),
                Some(m) => Some(if (d.nanos as nat) > m { d.nanos as nat } else { m }),
            },
            failures: t.failures,
        },
        ScanResult::Failure(_) => Tally { failures: t.failures + 1, ..t },
    }
}

/// The tally of all outcomes in `rs`.
pub open spec fn tally(rs: Seq<ScanResult>) -> Tally
    decreases rs.len(),
{
    if rs.len() == 0 {
        empty_tally()
    } else {
        tally_step(tally(rs.drop_last()), rs.last())
    }
}

/// The messages of the failures in `rs`, in their order there.
pub open spec fn failure_texts(rs: Seq<ScanResult>) -> Seq<Seq<char>>
    decreases rs.len(),
{
    if rs.len() == 0 {
        Seq::empty()
    } else {
        match rs.last() {
            ScanResult::Success(_) => failure_texts(rs.drop_last()),
            ScanResult::Failure(m) => failure_texts(rs.drop_last()).push(m@),
        }
    }
}

/// Statistics over the successful outcomes of a scan, of which there is at
/// least one. Durations are in nanoseconds.
pub struct AggregateStats {
    pub file_count: usize,
    pub total_nanos: u128,
    pub average: Duration,
    pub min: Duration,
    pub max: Duration,
}

/// Everything a scan reports: statistics where any file succeeded, and the
/// failure messages.
pub struct Summary {
    pub stats: Option<AggregateStats>,
    pub errors: Vec<String>,
}

/// Whether `s` holds the statistics that the tally `t` gives.
pub open spec fn stats_of_tally(t: Tally, s: AggregateStats) -> bool {
    &&& t.count > 0
    &&& s.file_count == t.count
    &&& s.total_nanos == t.total
    &&& s.average.nanos == t.total / t.count
    &&& t.shortest == Some(s.min.nanos as nat)
    &&& t.longest == Some(s.max.nanos as nat)
}

/// The views of a list of strings.
pub open spec fn texts_of(v: Seq<String>) -> Seq<Seq<char>> {
    v.map_values(|s: String| s@)
}

/// Whether `r` is the summary of the outcomes `rs`.
pub open spec fn summarizes(rs: Seq<ScanResult>, r: Summary) -> bool {
    &&& texts_of(r.errors@) == failure_texts(rs)
    &&& r.errors@.len() == tally(rs).failures
    &&& match r.stats {
        None => tally(rs).count == 0,
        Some(s) => stats_of_tally(tally(rs), s),
    }
}

proof fn lemma_tally_facts(rs: Seq<ScanResult>)
    ensures
        tally(rs).count <= rs.len(),
        tally(rs).total <= tally(rs).count * 18446744073709551615,
        tally(rs).count == 0 <==> tally(rs).shortest is None,
        tally(rs).count == 0 <==> tally(rs).longest is None,
        failure_texts(rs).len() == tally(rs).failures,
        tally(rs).count > 0 ==> tally(rs).shortest->Some_0 * tally(rs).count <= tally(rs).total,
        tally(rs).count > 0 ==> tally(rs).total <= tally(rs).longest->Some_0 * tally(rs).count,
        tally(rs).count > 0 ==> tally(rs).shortest->Some_0 <= tally(rs).longest->Some_0,
    decreases rs.len(),
{
    if rs.len() > 0 {
        let p = tally(rs.drop_last());
        lemma_tally_facts(rs.drop_last());
        let t = tally(rs);
        if let ScanResult::Success(d) = rs.last() {
            let v = d.nanos as nat;
            if p.count > 0 {
                let lo = p.shortest->Some_0;
                let hi = p.longest->Some_0;
                let m = t.shortest->Some_0;
                let x = t.longest->Some_0;
                assert(m * t.count <= t.total) by (nonlinear_arith)
                    requires
                        lo * p.count <= p.total,
                        m <= lo,
                        m <= v,
                        t.count == p.count + 1,
                        t.total == p.total + v,
                ;
                assert(t.total <= x * t.count) by (nonlinear_arith)
                    requires
                        p.total <= hi * p.count,
                        hi <= x,
                        v <= x,
                        t.count == p.count + 1,
                        t.total == p.total + v,
                ;
            } else {
                assert(p.total == 0);
                assert(v * 1 == v) by (nonlinear_arith);
            }
        }
    }
}

/// The message for the file at `path` whose duration could not be taken.
pub open spec fn file_failure_text(path: Seq<char>, e: ExtractionError) -> Seq<char> {
    "Failed to read WAV file "@ + path + ": "@ + e.text()
}

/// The message for an entry of the directory tree that could not be read.
pub open spec fn entry_failure_text(reason: Seq<char>) -> Seq<char> {
    "Failed to read entry: "@ + reason
}

/// The outcome for the file at `path`, given what taking its duration gave.
pub fn file_result(path: &str, outcome: Result<Duration, ExtractionError>) -> (r: ScanResult)
    ensures
        match outcome {
            Ok(d) => r == ScanResult::Success(d),
            Err(e) => r is Failure && r->Failure_0@ == file_failure_text(path@, e),
        },
{
    match outcome {
        Ok(d) => ScanResult::Success(d),
        Err(e) => {
            let mut m = String::from_str("Failed to read WAV file ");
            m.append(path);
            m.append(": ");
            let t = e.message();
            m.append(t.as_str());
            ScanResult::Failure(m)
        },
    }
}

/// The outcome for an entry of the directory tree that could not be read,
/// for the reason `reason`.
pub fn entry_failure(reason: &str) -> (r: ScanResult)
    ensures
        r is Failure && r->Failure_0@ == entry_failure_text(reason@),
{
    let mut m = String::from_str("Failed to read entry: ");
    m.append(reason);
    ScanResult::Failure(m)
}

/// Combines the outcomes of a scan: the statistics of the durations found,
/// where there is any, and every failure message in the order given.
pub fn aggregate(results: &Vec<ScanResult>) -> (r: Summary)
    ensures
        summarizes(results@, r),
{
    let ghost rs = results@;
    let mut count: usize = 0;
    let mut total: u128 = 0;
    let mut min: u64 = 0;
    let mut max: u64 = 0;
    let mut errors: Vec<String> = Vec::new();
    let mut i: usize = 0;
    while i < results.len()
        invariant
            rs == results@,
            i <= rs.len(),
            count == tally(rs.take(i as int)).count,
            total == tally(rs.take(i as int)).total,
            tally(rs.take(i as int)).failures == errors@.len(),
            count > 0 ==> tally(rs.take(i as int)).shortest == Some(min as nat),
            count > 0 ==> tally(rs.take(i as int)).longest == Some(max as nat),
            texts_of(errors@) == failure_texts(rs.take(i as int)),
            count <= i,
            total <= count * 18446744073709551615,
        decreases rs.len() - i,
    {
        proof {
            lemma_tally_facts(rs.take(i as int));
            assert(rs.take(i as int + 1).drop_last() =~= rs.take(i as int));
            assert(rs.take(i as int + 1).last() == rs[i as int]);
        }
        match &results[i] {
            ScanResult::Success(d) => {
                if count == 0 || d.nanos < min {
                    min = d.nanos;
                }
                if count == 0 || d.nanos > max {
                    max = d.nanos;
                }
                count = count + 1;
                total = total + d.nanos as u128;
            },
            ScanResult::Failure(m) => {
                let ghost prev = errors@;
                errors.push(m.clone());
                assert(texts_of(errors@) =~= texts_of(prev).push(m@));
            },
        }
        i = i + 1;
    }
    proof {
        assert(rs.take(rs.len() as int) =~= rs);
        lemma_tally_facts(rs);
    }
    if count == 0 {
        return Summary { stats: None, errors };
    }
    let ghost t = tally(rs);
    assert(total / (count as u128) <= max as u128) by (nonlinear_arith)
        requires
            total <= (max as int) * (count as int),
            count > 0,
    ;
    let average = Duration { nanos: (total / (count as u128)) as u64 };
    let stats = AggregateStats {
        file_count: count,
        total_nanos: total,
        average,
        min: Duration { nanos: min },
        max: Duration { nanos: max },
    };
    Summary { stats: Some(stats), errors }
}

proof fn lemma_tally_step_commutes(t: Tally, x: ScanResult, y: ScanResult)
    ensures
        tally_step(tally_step(t, x), y) == tally_step(tally_step(t, y), x),
{
}

proof fn lemma_tally_remove(rs: Seq<ScanResult>, i: int)
    requires
        0 <= i < rs.len(),
    ensures
        tally(rs) == tally_step(tally(rs.remove(i)), rs[i]),
    decreases rs.len(),
{
    if i == rs.len() - 1 {
        assert(rs.remove(i) =~= rs.drop_last());
    } else {
        let front = rs.drop_last();
        lemma_tally_remove(front, i);
        assert(rs.remove(i).drop_last() =~= front.remove(i));
        assert(rs.remove(i).last() == rs.last());
        lemma_tally_step_commutes(tally(front.remove(i)), front[i], rs.last());
    }
}

proof fn lemma_tally_permutation(rs1: Seq<ScanResult>, rs2: Seq<ScanResult>)
    requires
        rs1.to_multiset() == rs2.to_multiset(),
    ensures
        tally(rs1) == tally(rs2),
    decreases rs1.len(),
{
    broadcast use vstd::seq_lib::group_to_multiset_ensures;

    if rs1.len() == 0 {
        assert(rs1.to_multiset().len() == 0);
        assert(rs2.to_multiset().len() == rs2.len());
    } else {
        let x = rs1.last();
        let front = rs1.drop_last();
        assert(rs1 =~= front.push(x));
        assert(rs1.to_multiset().count(x) > 0);
        assert(rs2.contains(x));
        let i = rs2.index_of(x);
        assert(rs2.remove(i).to_multiset() =~= front.to_multiset());
        lemma_tally_permutation(front, rs2.remove(i));
        lemma_tally_remove(rs2, i);
    }
}

/// Over any outcomes with at least one success, the average duration lies
/// between the shortest and the longest, and the average times the file count
/// falls short of the total by less than one nanosecond per file.
pub proof fn lemma_average_within_extremes(rs: Seq<ScanResult>, r: Summary)
    requires
        summarizes(rs, r),
        r.stats is Some,
    ensures
        ({
            let s = r.stats->Some_0;
            &&& s.min.nanos <= s.average.nanos <= s.max.nanos
            &&& s.average.nanos * s.file_count <= s.total_nanos
            &&& s.total_nanos < (s.average.nanos + 1) * s.file_count
        }),
{
    let s = r.stats->Some_0;
    lemma_tally_facts(rs);
    let lo = s.min.nanos as int;
    let hi = s.max.nanos as int;
    let n = s.file_count as int;
    let total = s.total_nanos as int;
    let avg = s.average.nanos as int;
    assert(lo <= avg <= hi && avg * n <= total < (avg + 1) * n) by (nonlinear_arith)
        requires
            n > 0,
            avg == total / n,
            lo * n <= total,
            total <= hi * n,
    ;
}

/// The order of the outcomes does not matter: two sequences that hold the
/// same outcomes, each as often, give the same statistics and the same number
/// of failures.
pub proof fn lemma_aggregate_order_independent(
    rs1: Seq<ScanResult>,
    rs2: Seq<ScanResult>,
    r1: Summary,
    r2: Summary,
)
    requires
        rs1.to_multiset() == rs2.to_multiset(),
        summarizes(rs1, r1),
        summarizes(rs2, r2),
    ensures
        r1.errors@.len() == r2.errors@.len(),
        r1.stats is Some <==> r2.stats is Some,
        r1.stats is Some ==> {
            let (s1, s2) = (r1.stats->Some_0, r2.stats->Some_0);
            &&& s1.file_count == s2.file_count
            &&& s1.total_nanos == s2.total_nanos
            &&& s1.average == s2.average
            &&& s1.min == s2.min
            &&& s1.max == s2.max
        },
{
    lemma_tally_permutation(rs1, rs2);
}

} // verus!
