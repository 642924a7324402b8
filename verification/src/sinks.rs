//! The closed set of output sinks and validation of sink identifiers.
//!
//! A scan writes each match to an ordered list of distinct sinks. The
//! identifiers arrive as text, are matched case-insensitively against the
//! recognized names, and duplicates are collapsed keeping the first
//! occurrence. An identifier outside the set rejects the configuration.

use vstd::prelude::*;

use crate::errors::ConfigError;
use crate::text::{eq_folded, lower_seq};

verus! {

/// One of the recognized output sinks.
#[derive(Clone, Copy, Debug, PartialEq, Eq, Structural)]
pub enum Sink {
    /// Structured log facility, warning level.
    Warn,
    /// Structured log facility, error level.
    Error,
    /// Human-readable sentence on the error stream.
    Stderr,
    /// Human-readable sentence on standard output.
    Stdout,
    /// Semicolon-delimited record on standard output.
    Csv,
}

/// The canonical (lowercase) name of a sink.
pub open spec fn sink_name(s: Sink) -> Seq<char> {
    match s {
        Sink::Warn => "warn"@,
        Sink::Error => "error"@,
        Sink::Stderr => "stderr"@,
        Sink::Stdout => "stdout"@,
        Sink::Csv => "csv"@,
    }
}

/// The sink an identifier names, matched case-insensitively; `None` for an
/// identifier outside the recognized set.
pub open spec fn sink_of(id: Seq<char>) -> Option<Sink> {
    if lower_seq(id) == "warn"@ {
        Some(Sink::Warn)
    } else if lower_seq(id) == "error"@ {
        Some(Sink::Error)
    } else if lower_seq(id) == "stderr"@ {
        Some(Sink::Stderr)
    } else if lower_seq(id) == "stdout"@ {
        Some(Sink::Stdout)
    } else if lower_seq(id) == "csv"@ {
        Some(Sink::Csv)
    } else {
        None
    }
}

/// Every identifier in the list names a sink.
pub open spec fn sinks_valid(ids: Seq<Seq<char>>) -> bool {
    forall|i: int| 0 <= i < ids.len() ==> sink_of(#[trigger] ids[i]) is Some
}

/// The sinks a list of valid identifiers names, in order, duplicates kept.
pub open spec fn mapped_sinks(ids: Seq<Seq<char>>) -> Seq<Sink>
    recommends
        sinks_valid(ids),
{
    ids.map_values(|id: Seq<char>| sink_of(id)->Some_0)
}

/// The list with every repeated sink removed, keeping first occurrences in
/// the order they stand in.
pub open spec fn dedup_sinks(s: Seq<Sink>) -> Seq<Sink>
    decreases s.len(),
{
    if s.len() == 0 {
        Seq::empty()
    } else if s.drop_last().contains(s.last()) {
        dedup_sinks(s.drop_last())
    } else {
        dedup_sinks(s.drop_last()).push(s.last())
    }
}

/// No sink appears twice.
pub open spec fn distinct_sinks(s: Seq<Sink>) -> bool {
    forall|i: int, j: int| 0 <= i < j < s.len() ==> s[i] != s[j]
}

/// Law: deduplication keeps exactly the sinks that were requested —
/// a sink stands in the deduplicated list if and only if it stands in the
/// requested one.
pub proof fn lemma_dedup_same_sinks(s: Seq<Sink>, x: Sink)
    ensures
        dedup_sinks(s).contains(x) <==> s.contains(x),
    decreases s.len(),
{
    if s.len() > 0 {
        let t = s.drop_last();
        let l = s.last();
        lemma_dedup_same_sinks(t, x);
        assert(s.contains(x) <==> (t.contains(x) || x == l)) by {
            if s.contains(x) {
                let i = choose|i: int| 0 <= i < s.len() && s[i] == x;
                if i < s.len() - 1 {
                    assert(t[i] == x);
                }
            }
            if t.contains(x) {
                let i = choose|i: int| 0 <= i < t.len() && t[i] == x;
                assert(s[i] == x);
            }
            if x == l {
                assert(s[s.len() - 1] == x);
            }
        }
        if !t.contains(l) {
            let d = dedup_sinks(t).push(l);
            assert(d.contains(x) <==> (dedup_sinks(t).contains(x) || x == l)) by {
                if d.contains(x) {
                    let i = choose|i: int| 0 <= i < d.len() && d[i] == x;
                    if i < d.len() - 1 {
                        assert(dedup_sinks(t)[i] == x);
                    }
                }
                if dedup_sinks(t).contains(x) {
                    let i = choose|i: int| 0 <= i < dedup_sinks(t).len() && dedup_sinks(t)[i]
                        == x;
                    assert(d[i] == x);
                }
                if x == l {
                    assert(d[d.len() - 1] == x);
                }
            }
        }
    }
}

/// The position of the first occurrence of `x` in `s`.
pub open spec fn first_index(s: Seq<Sink>, x: Sink) -> int
    recommends
        s.contains(x),
    decreases s.len(),
{
    if s.len() == 0 {
        0
    } else if s[0] == x {
        0
    } else {
        1 + first_index(s.drop_first(), x)
    }
}

/// The first occurrence of a present sink is a valid position holding it.
pub proof fn lemma_first_index_in_range(s: Seq<Sink>, x: Sink)
    requires
        s.contains(x),
    ensures
        0 <= first_index(s, x) < s.len(),
        s[first_index(s, x)] == x,
    decreases s.len(),
{
    if s[0] != x {
        let i = choose|i: int| 0 <= i < s.len() && s[i] == x;
        assert(s.drop_first()[i - 1] == x);
        assert(s.drop_first().contains(x));
        lemma_first_index_in_range(s.drop_first(), x);
        assert(s[1 + first_index(s.drop_first(), x)] == s.drop_first()[first_index(
            s.drop_first(),
            x,
        )]);
    }
}

/// Appending one sink moves no earlier first occurrence, and gives a new
/// sink its first occurrence at the end.
proof fn lemma_first_index_push(t: Seq<Sink>, l: Sink, x: Sink)
    ensures
        t.contains(x) ==> first_index(t.push(l), x) == first_index(t, x),
        !t.contains(x) && x == l ==> first_index(t.push(l), x) == t.len(),
    decreases t.len(),
{
    let u = t.push(l);
    if t.len() == 0 {
        if x == l {
            assert(u[0] == x);
        }
    } else {
        assert(u.drop_first() =~= t.drop_first().push(l));
        if u[0] == x {
            assert(t[0] == x);
            assert(t.contains(x));
        } else {
            lemma_first_index_push(t.drop_first(), l, x);
            if t.contains(x) {
                let i = choose|i: int| 0 <= i < t.len() && t[i] == x;
                assert(i != 0);
                assert(t.drop_first()[i - 1] == x);
                assert(t.drop_first().contains(x));
            } else {
                assert(!t.drop_first().contains(x)) by {
                    if t.drop_first().contains(x) {
                        let i = choose|i: int|
                            0 <= i < t.drop_first().len() && t.drop_first()[i] == x;
                        assert(t[i + 1] == x);
                    }
                }
            }
        }
    }
}

/// Law: deduplication preserves the order of first occurrences — two sinks
/// stand in the deduplicated list in the order in which they first appear
/// in the request.
pub proof fn lemma_dedup_keeps_first_occurrence_order(s: Seq<Sink>, i: int, j: int)
    requires
        0 <= i < j < dedup_sinks(s).len(),
    ensures
        first_index(s, dedup_sinks(s)[i]) < first_index(s, dedup_sinks(s)[j]),
    decreases s.len(),
{
    let t = s.drop_last();
    let l = s.last();
    let d = dedup_sinks(s);
    assert(t.push(l) =~= s);
    if t.contains(l) {
        lemma_dedup_keeps_first_occurrence_order(t, i, j);
        lemma_dedup_same_sinks(t, d[i]);
        lemma_dedup_same_sinks(t, d[j]);
        lemma_first_index_push(t, l, d[i]);
        lemma_first_index_push(t, l, d[j]);
    } else {
        let dt = dedup_sinks(t);
        if j < d.len() - 1 {
            assert(d[i] == dt[i] && d[j] == dt[j]);
            lemma_dedup_keeps_first_occurrence_order(t, i, j);
            lemma_dedup_same_sinks(t, dt[i]);
            lemma_dedup_same_sinks(t, dt[j]);
            lemma_first_index_push(t, l, dt[i]);
            lemma_first_index_push(t, l, dt[j]);
        } else {
            assert(d[j] == l);
            assert(d[i] == dt[i]);
            assert(dt.contains(dt[i]));
            lemma_dedup_same_sinks(t, dt[i]);
            lemma_first_index_push(t, l, dt[i]);
            lemma_first_index_in_range(t, dt[i]);
            lemma_first_index_push(t, l, l);
        }
    }
}

/// Law: after deduplication no sink appears twice.
pub proof fn lemma_dedup_distinct(s: Seq<Sink>)
    ensures
        distinct_sinks(dedup_sinks(s)),
    decreases s.len(),
{
    if s.len() > 0 {
        let t = s.drop_last();
        let l = s.last();
        lemma_dedup_distinct(t);
        if !t.contains(l) {
            lemma_dedup_same_sinks(t, l);
            let d = dedup_sinks(t).push(l);
            assert forall|i: int, j: int| 0 <= i < j < d.len() implies d[i] != d[j] by {
                if j < d.len() - 1 {
                    assert(d[i] == dedup_sinks(t)[i] && d[j] == dedup_sinks(t)[j]);
                } else {
                    assert(d[i] == dedup_sinks(t)[i]);
                    assert(dedup_sinks(t).contains(dedup_sinks(t)[i]));
                }
            }
        }
    }
}

impl Sink {
    /// The lowercase identifier this sink answers to.
    pub fn name(&self) -> (r: &'static str)
        ensures
            r@ == sink_name(*self),
    {
        match self {
            Sink::Warn => "warn",
            Sink::Error => "error",
            Sink::Stderr => "stderr",
            Sink::Stdout => "stdout",
            Sink::Csv => "csv",
        }
    }
}

/// Match one identifier against the recognized sink names.
pub fn parse_sink(id: &str) -> (r: Option<Sink>)
    ensures
        r == sink_of(id@),
{
    if eq_folded(id, "warn") {
        Some(Sink::Warn)
    } else if eq_folded(id, "error") {
        Some(Sink::Error)
    } else if eq_folded(id, "stderr") {
        Some(Sink::Stderr)
    } else if eq_folded(id, "stdout") {
        Some(Sink::Stdout)
    } else if eq_folded(id, "csv") {
        Some(Sink::Csv)
    } else {
        None
    }
}

/// Whether a sink already stands in the list.
fn contains_sink(v: &Vec<Sink>, s: Sink) -> (r: bool)
    ensures
        r == v@.contains(s),
{
    let mut i: usize = 0;
    while i < v.len()
        invariant
            i <= v@.len(),
            forall|j: int| 0 <= j < i ==> v@[j] != s,
        decreases v@.len() - i,
    {
        if v[i] == s {
            return true;
        }
        i += 1;
    }
    false
}

/// Validate a list of sink identifiers and collapse duplicates.
///
/// Identifiers are matched case-insensitively; the first occurrence of each
/// sink keeps its place and later repeats are dropped. The first identifier
/// outside the recognized set rejects the whole list.
pub fn normalize_sinks(ids: &Vec<String>) -> (r: Result<Vec<Sink>, ConfigError>)
    ensures
        r is Ok <==> sinks_valid(ids.deep_view()),
        r is Ok ==> r->Ok_0@ == dedup_sinks(mapped_sinks(ids.deep_view())),
        r is Err ==> r->Err_0 == ConfigError::UnknownSink,
{
    let ghost dv = ids.deep_view();
    let mut out: Vec<Sink> = Vec::new();
    let mut i: usize = 0;
    proof {
        assert(dv.len() == ids@.len());
    }
    while i < ids.len()
        invariant
            dv == ids.deep_view(),
            dv.len() == ids@.len(),
            i <= ids@.len(),
            forall|j: int| 0 <= j < i ==> sink_of(#[trigger] dv[j]) is Some,
            out@ == dedup_sinks(mapped_sinks(dv.subrange(0, i as int))),
        decreases ids@.len() - i,
    {
        let ghost prefix = dv.subrange(0, i as int);
        let ghost next_prefix = dv.subrange(0, i + 1);
        proof {
            assert(dv[i as int] == ids@[i as int]@);
        }
        match parse_sink(ids[i].as_str()) {
            None => {
                proof {
                    assert(sink_of(dv[i as int]) is None);
                }
                return Err(ConfigError::UnknownSink);
            },
            Some(s) => {
                proof {
                    assert(mapped_sinks(next_prefix) =~= mapped_sinks(prefix).push(s));
                    assert(mapped_sinks(next_prefix).drop_last() =~= mapped_sinks(prefix));
                    lemma_dedup_same_sinks(mapped_sinks(prefix), s);
                }
                if !contains_sink(&out, s) {
                    out.push(s);
                }
            },
        }
        i += 1;
    }
    proof {
        assert(dv.subrange(0, dv.len() as int) =~= dv);
    }
    Ok(out)
}

} // verus!
