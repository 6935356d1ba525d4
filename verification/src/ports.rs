//! Port discovery: the list of serial ports offered for selection.

use vstd::prelude::*;
use crate::text::{precedes, precedes_irreflexive, precedes_total, precedes_transitive, text_precedes};

verus! {

/// The time between two refreshes of the port list, in milliseconds.
pub const REFRESH_INTERVAL_MS: u64 = 5000;

/// How long after the start of an interval a refresh is still due, in
/// milliseconds.
pub const REFRESH_WINDOW_MS: u64 = 100;

/// Whether the port list is to be refreshed at `elapsed_ms` milliseconds of
/// process time: within the window that opens every interval.
pub fn refresh_due(elapsed_ms: u64) -> (r: bool)
    ensures
        r == (elapsed_ms % REFRESH_INTERVAL_MS < REFRESH_WINDOW_MS),
{
    elapsed_ms % REFRESH_INTERVAL_MS < REFRESH_WINDOW_MS
}

/// The names of a list of ports, as texts.
pub open spec fn names_of(ports: Seq<String>) -> Seq<Seq<char>> {
    ports.map_values(|p: String| p@)
}

/// Each name comes strictly before every later one.
pub open spec fn strictly_ascending(names: Seq<Seq<char>>) -> bool {
    forall|i: int, j: int| 0 <= i < j < names.len() ==> precedes(#[trigger] names[i], #[trigger] names[j])
}

/// Two lists name the same ports.
pub open spec fn same_names(a: Seq<Seq<char>>, b: Seq<Seq<char>>) -> bool {
    forall|n: Seq<char>| a.contains(n) <==> b.contains(n)
}

/// In an ascending list no name occurs twice.
pub proof fn ascending_names_are_distinct(names: Seq<Seq<char>>, i: int, j: int)
    requires
        strictly_ascending(names),
        0 <= i < names.len(),
        0 <= j < names.len(),
        i != j,
    ensures
        names[i] != names[j],
{
    precedes_irreflexive(names[i], 0);
    if i < j {
        assert(precedes(names[i], names[j]));
    } else {
        assert(precedes(names[j], names[i]));
    }
}

/// The position at which `name` belongs in an ascending list: the number
/// of names that come before it.
fn insertion_point(sorted: &Vec<String>, name: &str) -> (at: usize)
    requires
        strictly_ascending(names_of(sorted@)),
    ensures
        at <= sorted.len(),
        forall|k: int| 0 <= k < at ==> precedes(#[trigger] sorted@[k]@, name@),
        at < sorted.len() ==> !precedes(sorted@[at as int]@, name@),
{
    let mut at: usize = 0;
    while at < sorted.len()
        invariant
            at <= sorted.len(),
            forall|k: int| 0 <= k < at ==> precedes(#[trigger] sorted@[k]@, name@),
        decreases sorted.len() - at,
    {
        if !text_precedes(sorted[at].as_str(), name) {
            return at;
        }
        at = at + 1;
    }
    at
}

/// Adds `name` to an ascending list of distinct names, unless it is there.
fn insert_name(sorted: &mut Vec<String>, name: String)
    requires
        strictly_ascending(names_of(old(sorted)@)),
    ensures
        strictly_ascending(names_of(final(sorted)@)),
        forall|n: Seq<char>|
            names_of(final(sorted)@).contains(n) <==> (names_of(old(sorted)@).contains(n) || n
                == name@),
{
    let at: usize = insertion_point(sorted, name.as_str());
    let ghost before = names_of(sorted@);
    if at < sorted.len() && !text_precedes(name.as_str(), sorted[at].as_str()) {
        proof {
            precedes_total(name@, before[at as int], 0);
            assert(before.contains(name@));
        }
    } else {
        sorted.insert(at, name);
        proof {
            let after = names_of(sorted@);
            assert(after =~= before.insert(at as int, name@));
            assert forall|i: int, j: int| 0 <= i < j < after.len() implies precedes(
                #[trigger] after[i],
                #[trigger] after[j],
            ) by {
                if j < at {
                    assert(after[i] == before[i] && after[j] == before[j]);
                } else if j == at {
                    assert(after[i] == old(sorted)@[i]@);
                } else if i < at {
                    assert(after[i] == before[i] && after[j] == before[j - 1]);
                } else if i == at {
                    assert(after[j] == before[j - 1]);
                    assert(precedes(name@, before[at as int]));
                    if j - 1 > at {
                        assert(precedes(before[at as int], before[j - 1]));
                        precedes_transitive(name@, before[at as int], before[j - 1], 0);
                    }
                } else {
                    assert(after[i] == before[i - 1] && after[j] == before[j - 1]);
                }
            }
            assert forall|n: Seq<char>| after.contains(n) <==> (before.contains(n) || n
                == name@) by {
                if after.contains(n) {
                    let k = choose|k: int| 0 <= k < after.len() && after[k] == n;
                    if k < at {
                        assert(before[k] == n);
                    } else if k > at {
                        assert(before[k - 1] == n);
                    }
                }
                if before.contains(n) {
                    let k = choose|k: int| 0 <= k < before.len() && before[k] == n;
                    if k < at {
                        assert(after[k] == n);
                    } else {
                        assert(after[k + 1] == n);
                    }
                }
                if n == name@ {
                    assert(after[at as int] == n);
                }
            }
        }
    }
}

/// The ports to offer, from the names the host reported: every reported name
/// once, in ascending order.
pub fn discover_ports(reported: Vec<String>) -> (ports: Vec<String>)
    ensures
        strictly_ascending(names_of(ports@)),
        same_names(names_of(ports@), names_of(reported@)),
{
    let mut ports: Vec<String> = Vec::new();
    let mut i: usize = 0;
    while i < reported.len()
        invariant
            i <= reported.len(),
            strictly_ascending(names_of(ports@)),
            forall|n: Seq<char>|
                names_of(ports@).contains(n) <==> names_of(reported@).subrange(0, i as int).contains(n),
        decreases reported.len() - i,
    {
        let ghost seen = names_of(reported@).subrange(0, i as int);
        let ghost next = names_of(reported@).subrange(0, i + 1);
        let name: String = reported[i].clone();
        insert_name(&mut ports, name);
        proof {
            assert(next =~= seen.push(reported@[i as int]@));
            assert forall|n: Seq<char>| names_of(ports@).contains(n) <==> next.contains(n) by {
                if next.contains(n) {
                    let k = choose|k: int| 0 <= k < next.len() && next[k] == n;
                    if k < i {
                        assert(seen[k] == n);
                    }
                }
                if seen.contains(n) {
                    let k = choose|k: int| 0 <= k < seen.len() && seen[k] == n;
                    assert(next[k] == n);
                }
                if n == reported@[i as int]@ {
                    assert(next[i as int] == n);
                }
            }
        }
        i = i + 1;
    }
    proof {
        assert(names_of(reported@).subrange(0, i as int) =~= names_of(reported@));
    }
    ports
}

} // verus!
