//! The blocklist matching engine.
//!
//! A blocklist is published as a set of one-way digests of wildcard patterns
//! (`*.example.com`, `192.0.*`, or exact addresses), never the patterns
//! themselves. Given a query address, the engine derives candidate patterns
//! from most specific to least specific, hashes each, and reports the first
//! candidate whose digest is in the set.

use vstd::prelude::*;

use crate::address::{
    is_ipv4, is_ipv4_spec, join_dots_spec, join_range, split_dots, split_dots_spec,
};
use crate::digest::{compute_pattern_hash, pattern_hash};

verus! {

/// The candidate that generalizes an IPv4 address to its first `i` octets:
/// those octets joined with dots, then `.*`.
pub open spec fn ipv4_candidate(parts: Seq<Seq<char>>, i: int) -> Seq<char> {
    join_dots_spec(parts.take(i)) + seq!['.', '*']
}

/// The candidate that generalizes a hostname to its labels from index `i`
/// onward: `*.` followed by those labels joined with dots.
pub open spec fn host_candidate(parts: Seq<Seq<char>>, i: int) -> Seq<char> {
    seq!['*', '.'] + join_dots_spec(parts.skip(i))
}

/// The ordered candidate patterns for an address, most specific first: the
/// address verbatim, then, for an IPv4 literal, prefixes of shrinking length
/// (`a.b.c.*`, `a.b.*`, `a.*`), or, for a hostname, suffixes starting ever
/// later (`*.b.c`, `*.c`). The bare wildcard is never produced.
pub open spec fn candidates_spec(address: Seq<char>) -> Seq<Seq<char>> {
    let parts = split_dots_spec(address);
    if is_ipv4_spec(parts) {
        seq![address] + Seq::new(
            (parts.len() - 1) as nat,
            |k: int| ipv4_candidate(parts, parts.len() - 1 - k),
        )
    } else {
        seq![address] + Seq::new((parts.len() - 1) as nat, |k: int| host_candidate(parts, k + 1))
    }
}

/// Whether a pattern is on the blocklist: its hash-set entry occurs among
/// the stored digests.
pub open spec fn pattern_blocked(hashes: Seq<Seq<char>>, pattern: Seq<char>) -> bool {
    hashes.contains(pattern_hash(pattern))
}

/// The first candidate, in order, that is on the blocklist.
pub open spec fn first_blocked(hashes: Seq<Seq<char>>, cands: Seq<Seq<char>>) -> Option<Seq<char>>
    decreases cands.len(),
{
    if cands.len() == 0 {
        None
    } else if pattern_blocked(hashes, cands[0]) {
        Some(cands[0])
    } else {
        first_blocked(hashes, cands.drop_first())
    }
}

/// A blocked candidate whose predecessors are all clear is the one returned.
pub proof fn lemma_first_blocked_at(hashes: Seq<Seq<char>>, cands: Seq<Seq<char>>, i: int)
    requires
        0 <= i < cands.len(),
        pattern_blocked(hashes, cands[i]),
        forall|m: int| 0 <= m < i ==> !pattern_blocked(hashes, cands[m]),
    ensures
        first_blocked(hashes, cands) == Some(cands[i]),
    decreases i,
{
    if i > 0 {
        lemma_first_blocked_at(hashes, cands.drop_first(), i - 1);
    }
}

/// When no candidate is on the blocklist, nothing is returned.
pub proof fn lemma_first_blocked_none(hashes: Seq<Seq<char>>, cands: Seq<Seq<char>>)
    requires
        forall|m: int| 0 <= m < cands.len() ==> !pattern_blocked(hashes, cands[m]),
    ensures
        first_blocked(hashes, cands) is None,
    decreases cands.len(),
{
    if cands.len() > 0 {
        lemma_first_blocked_none(hashes, cands.drop_first());
    }
}

/// What a match means: a returned pattern is a blocked candidate all of whose
/// more specific alternatives are clear, and an empty answer means every
/// candidate is clear. The more specific of two blocked candidates always
/// wins, whichever it is.
pub proof fn lemma_first_blocked_characterization(hashes: Seq<Seq<char>>, cands: Seq<Seq<char>>)
    ensures
        match first_blocked(hashes, cands) {
            Some(c) => exists|i: int|
                0 <= i < cands.len() && cands[i] == c && pattern_blocked(hashes, cands[i]) && (
                forall|m: int| 0 <= m < i ==> !pattern_blocked(hashes, cands[m])),
            None => forall|m: int| 0 <= m < cands.len() ==> !pattern_blocked(hashes, cands[m]),
        },
    decreases cands.len(),
{
    if cands.len() > 0 {
        if !pattern_blocked(hashes, cands[0]) {
            let dropped = cands.drop_first();
            lemma_first_blocked_characterization(hashes, dropped);
            match first_blocked(hashes, dropped) {
                Some(c) => {
                    let j = choose|j: int|
                        0 <= j < dropped.len() && dropped[j] == c && pattern_blocked(
                            hashes,
                            dropped[j],
                        ) && (forall|m: int| 0 <= m < j ==> !pattern_blocked(hashes, dropped[m]));
                    let i = j + 1;
                    assert(cands[i] == dropped[j]);
                    assert forall|m: int| 0 <= m < i implies !pattern_blocked(
                        hashes,
                        cands[m],
                    ) by {
                        if m > 0 {
                            assert(cands[m] == dropped[m - 1]);
                        }
                    }
                    assert(0 <= i < cands.len() && cands[i] == c && pattern_blocked(
                        hashes,
                        cands[i],
                    ) && (forall|m: int| 0 <= m < i ==> !pattern_blocked(hashes, cands[m])));
                },
                None => {
                    assert forall|m: int| 0 <= m < cands.len() implies !pattern_blocked(
                        hashes,
                        cands[m],
                    ) by {
                        if m > 0 {
                            assert(cands[m] == dropped[m - 1]);
                        }
                    }
                },
            }
        }
    }
}

/// The first candidate for any address is the address itself.
pub proof fn lemma_first_candidate_is_address(address: Seq<char>)
    ensures
        candidates_spec(address).len() >= 1,
        candidates_spec(address)[0] == address,
{
}

/// If an address itself hashes to an entry of the set, a query returns the
/// address verbatim, whatever else the set contains.
pub proof fn lemma_exact_match(hashes: Seq<Seq<char>>, address: Seq<char>)
    requires
        pattern_blocked(hashes, address),
    ensures
        first_blocked(hashes, candidates_spec(address)) == Some(address),
{
    lemma_first_candidate_is_address(address);
}

/// Queries have no hidden state: against one hash set, two results for the
/// same address that each satisfy the query contract are the same result.
pub proof fn lemma_query_deterministic(
    servers: BlockedServers,
    address: Seq<char>,
    r1: Option<Seq<char>>,
    r2: Option<Seq<char>>,
)
    requires
        r1 == servers.query_result(address),
        r2 == servers.query_result(address),
    ensures
        r1 == r2,
{
}

/// A list of digests of blocked server patterns.
#[derive(Debug, Clone)]
pub struct BlockedServers {
    /// Hashes of the block patterns: lowercase hex SHA-1 digests.
    pub hashes: Vec<String>,
}

impl BlockedServers {
    /// The stored digests, as character sequences.
    pub open spec fn hashes_view(&self) -> Seq<Seq<char>> {
        self.hashes.deep_view()
    }

    /// The outcome a query for `address` must produce: the most specific
    /// blocked candidate, if any.
    pub open spec fn query_result(&self, address: Seq<char>) -> Option<Seq<char>> {
        first_blocked(self.hashes_view(), candidates_spec(address))
    }

    /// Checks whether a pattern is in the hashed pattern list.
    pub fn is_pattern_blocked(&self, pattern: &str) -> (r: bool)
        ensures
            r == pattern_blocked(self.hashes_view(), pattern@),
    {
        let hash = compute_pattern_hash(pattern);
        let mut k: usize = 0;
        while k < self.hashes.len()
            invariant
                k <= self.hashes@.len(),
                hash@ == pattern_hash(pattern@),
                forall|m: int| 0 <= m < k ==> self.hashes_view()[m] != pattern_hash(pattern@),
            decreases self.hashes@.len() - k,
        {
            if self.hashes[k] == hash {
                proof {
                    assert(self.hashes_view()[k as int] == pattern_hash(pattern@));
                }
                return true;
            }
            k += 1;
        }
        proof {
            assert forall|m: int| 0 <= m < self.hashes_view().len() implies self.hashes_view()[m]
                != pattern_hash(pattern@) by {}
        }
        false
    }

    /// Checks whether the address is in the blocklist; if it is, returns the
    /// matching pattern, always the most specific one.
    pub fn find_blocked_pattern(&self, address: &str) -> (r: Option<String>)
        ensures
            match r {
                Some(p) => self.query_result(address@) == Some(p@),
                None => self.query_result(address@) is None,
            },
    {
        let ghost cands = candidates_spec(address@);
        proof {
            lemma_first_candidate_is_address(address@);
        }
        if self.is_pattern_blocked(address) {
            proof {
                lemma_exact_match(self.hashes_view(), address@);
            }
            return Some(address.to_owned());
        }
        let parts = split_dots(address);
        let n = parts.len();

        let mut refs: Vec<&str> = Vec::new();
        let mut j: usize = 0;
        while j < n
            invariant
                n == parts@.len(),
                j <= n,
                refs@.len() == j,
                forall|m: int| 0 <= m < j ==> refs.deep_view()[m] == parts.deep_view()[m],
            decreases n - j,
        {
            refs.push(parts[j].as_str());
            j += 1;
        }
        proof {
            assert(refs.deep_view() =~~= parts.deep_view());
        }

        if is_ipv4(refs.as_slice()) {
            let mut i = n - 1;
            while i > 0
                invariant
                    n == parts@.len(),
                    0 <= i <= n - 1,
                    parts.deep_view() == split_dots_spec(address@),
                    is_ipv4_spec(parts.deep_view()),
                    cands == candidates_spec(address@),
                    cands.len() == n,
                    forall|m: int| 0 <= m < n - i ==> !pattern_blocked(self.hashes_view(), cands[m]),
                decreases i,
            {
                let cand = ipv4_candidate_exec(&parts, i);
                if self.is_pattern_blocked(cand.as_str()) {
                    proof {
                        assert(cands[n - i] == ipv4_candidate(parts.deep_view(), i as int));
                        lemma_first_blocked_at(self.hashes_view(), cands, n - i);
                    }
                    return Some(cand);
                }
                proof {
                    assert(cands[n - i] == ipv4_candidate(parts.deep_view(), i as int));
                }
                i -= 1;
            }
            proof {
                lemma_first_blocked_none(self.hashes_view(), cands);
            }
            None
        } else {
            let mut i: usize = 1;
            while i < n
                invariant
                    n == parts@.len(),
                    1 <= i <= n,
                    parts.deep_view() == split_dots_spec(address@),
                    !is_ipv4_spec(parts.deep_view()),
                    cands == candidates_spec(address@),
                    cands.len() == n,
                    forall|m: int| 0 <= m < i ==> !pattern_blocked(self.hashes_view(), cands[m]),
                decreases n - i,
            {
                let cand = host_candidate_exec(&parts, i);
                if self.is_pattern_blocked(cand.as_str()) {
                    proof {
                        assert(cands[i as int] == host_candidate(parts.deep_view(), i as int));
                        lemma_first_blocked_at(self.hashes_view(), cands, i as int);
                    }
                    return Some(cand);
                }
                proof {
                    assert(cands[i as int] == host_candidate(parts.deep_view(), i as int));
                }
                i += 1;
            }
            proof {
                lemma_first_blocked_none(self.hashes_view(), cands);
            }
            None
        }
    }

    /// Checks whether the supplied address is in the blocklist. Equal to
    /// `find_blocked_pattern` returning a match.
    pub fn is_blocked(&self, address: &str) -> (r: bool)
        ensures
            r == (self.query_result(address@) is Some),
    {
        self.find_blocked_pattern(address).is_some()
    }
}

fn ipv4_candidate_exec(parts: &Vec<String>, i: usize) -> (r: String)
    requires
        1 <= i < parts@.len(),
    ensures
        r@ == ipv4_candidate(parts.deep_view(), i as int),
{
    let mut r = join_range(parts, 0, i);
    r.append(".*");
    proof {
        reveal_strlit(".*");
        assert(".*"@ =~= seq!['.', '*']);
        assert(parts.deep_view().subrange(0, i as int) =~~= parts.deep_view().take(i as int));
    }
    r
}

fn host_candidate_exec(parts: &Vec<String>, i: usize) -> (r: String)
    requires
        1 <= i < parts@.len(),
    ensures
        r@ == host_candidate(parts.deep_view(), i as int),
{
    let mut r = String::new();
    r.append("*.");
    let rest = join_range(parts, i, parts.len());
    r.append(rest.as_str());
    proof {
        reveal_strlit("*.");
        assert("*."@ =~= seq!['*', '.']);
        assert(parts.deep_view().subrange(i as int, parts.deep_view().len() as int)
            =~~= parts.deep_view().skip(i as int));
        assert(r@ =~= host_candidate(parts.deep_view(), i as int));
    }
    r
}

} // verus!
