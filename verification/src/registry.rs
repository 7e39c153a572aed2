//! Version assignment at the storage boundary, modelled in memory: each
//! accepted submission of a graph under a fixed `(namespace, name)` is
//! stored beside the prior ones under the next, strictly greater version.
//! Stored graphs are superseded, never overwritten, so historical task
//! records can still resolve the version they ran against. The calling
//! service is responsible for serialising submissions per key; this model
//! captures the sequential behaviour it must preserve.

use vstd::prelude::*;

use crate::artifact::ComputeGraphCode;
use crate::convert;
use crate::errors::SchemaError;
use crate::model;
use crate::version::GraphVersion;
use crate::wire;

verus! {

/// The highest version among stored graphs matching `(namespace, name)`,
/// or 0 when none matches. Because versions per key are assigned in
/// increasing order, this is the version of the last match.
pub open spec fn latest_version_in(
    s: Seq<model::ComputeGraph>,
    namespace: Seq<char>,
    name: Seq<char>,
) -> u64
    decreases s.len(),
{
    if s.len() == 0 {
        0u64
    } else if s.last().namespace@ == namespace && s.last().name@ == name {
        s.last().version.0
    } else {
        latest_version_in(s.drop_last(), namespace, name)
    }
}

/// In-memory model of the graph store: the sequence of accepted
/// submissions, each carrying the version it was assigned.
pub struct GraphRegistry {
    entries: Vec<model::ComputeGraph>,
}

impl GraphRegistry {
    /// The stored graphs, in order of acceptance.
    pub closed spec fn graphs(self) -> Seq<model::ComputeGraph> {
        self.entries@
    }

    /// Registry invariant: every assigned version is at least 1 and at
    /// most the number of submissions so far, and for a fixed
    /// `(namespace, name)` versions strictly increase in order of
    /// acceptance — no version is ever reused.
    pub open spec fn wf(self) -> bool {
        &&& forall|i: int|
            0 <= i < self.graphs().len() ==> 1 <= (#[trigger] self.graphs()[i]).version.0 <= i
                + 1
        &&& forall|i: int, j: int|
            #![trigger self.graphs()[i], self.graphs()[j]]
            0 <= i < j < self.graphs().len() && self.graphs()[i].namespace@
                == self.graphs()[j].namespace@ && self.graphs()[i].name@
                == self.graphs()[j].name@ ==> self.graphs()[i].version.0
                < self.graphs()[j].version.0
    }

    pub fn new() -> (r: GraphRegistry)
        ensures
            r.graphs().len() == 0,
            r.wf(),
    {
        GraphRegistry { entries: Vec::new() }
    }

    pub fn len(&self) -> (n: usize)
        ensures
            n == self.graphs().len(),
    {
        self.entries.len()
    }

    /// Accept a wire submission: translate it, assign the next version in
    /// the strictly increasing sequence scoped to its
    /// `(namespace, name)`, and store it beside the prior versions. A
    /// rejected submission leaves the store untouched.
    #[verifier::loop_isolation(false)]
    pub fn submit(&mut self, wire_graph: wire::ComputeGraph, code: ComputeGraphCode) -> (r:
        Result<GraphVersion, SchemaError>)
        requires
            old(self).wf(),
            old(self).graphs().len() < usize::MAX,
        ensures
            final(self).wf(),
            match r {
                Ok(v) => {
                    &&& convert::wire_names_consistent(wire_graph)
                    &&& final(self).graphs().len() == old(self).graphs().len() + 1
                    &&& final(self).graphs().subrange(0, old(self).graphs().len() as int)
                        == old(self).graphs()
                    &&& convert::translates(wire_graph, code, final(self).graphs().last())
                    &&& final(self).graphs().last().wf()
                    &&& final(self).graphs().last().created_at == 0
                    &&& final(self).graphs().last().version == v
                    &&& v.0 == latest_version_in(
                        old(self).graphs(),
                        wire_graph.namespace@,
                        wire_graph.name@,
                    ) + 1
                },
                Err(e) => {
                    &&& convert::rejects_name_mismatch(wire_graph, e)
                    &&& final(self).graphs() == old(self).graphs()
                },
            },
    {
        let mut m = match model::ComputeGraph::from_wire(wire_graph, code) {
            Ok(m) => m,
            Err(e) => {
                return Err(e);
            },
        };
        let ghost s0 = self.entries@;
        let ghost ns = m.namespace@;
        let ghost nm = m.name@;
        let mut prior: u64 = 0;
        let mut i: usize = 0;
        while i < self.entries.len()
            invariant
                i <= self.entries@.len(),
                prior == latest_version_in(self.entries@.subrange(0, i as int), ns, nm),
            decreases self.entries@.len() - i,
        {
            let matches_key = crate::text::str_equal(
                self.entries[i].namespace.as_str(),
                m.namespace.as_str(),
            ) && crate::text::str_equal(self.entries[i].name.as_str(), m.name.as_str());
            if matches_key {
                prior = self.entries[i].version.0;
            }
            proof {
                let pre = self.entries@.subrange(0, i as int);
                let post = self.entries@.subrange(0, i + 1 as int);
                assert(post.drop_last() =~= pre);
                assert(post.last() == self.entries@[i as int]);
            }
            i += 1;
        }
        proof {
            assert(self.entries@.subrange(0, self.entries@.len() as int) =~= self.entries@);
            lemma_latest_bounded(self.entries@, ns, nm);
        }
        let version = GraphVersion(prior).next();
        m.version = version;
        let ghost stored = m;
        self.entries.push(m);
        proof {
            assert(self.entries@.subrange(0, s0.len() as int) =~= s0);
            lemma_latest_is_max(s0, ns, nm);
            assert forall|a: int, b: int|
                #![trigger self.graphs()[a], self.graphs()[b]]
                0 <= a < b < self.graphs().len() && self.graphs()[a].namespace@
                    == self.graphs()[b].namespace@ && self.graphs()[a].name@
                    == self.graphs()[b].name@ implies self.graphs()[a].version.0
                < self.graphs()[b].version.0 by {
                if b == s0.len() {
                    assert(self.graphs()[a] == s0[a]);
                    assert(self.graphs()[b] == stored);
                }
            }
        }
        Ok(version)
    }

    /// Retrieve the stored graph under `(namespace, name)` with exactly
    /// the given version, if any.
    pub fn get(&self, namespace: &str, name: &str, version: GraphVersion) -> (r: Option<
        &model::ComputeGraph,
    >)
        ensures
            match r {
                Some(g) => {
                    &&& exists|i: int|
                        0 <= i < self.graphs().len() && #[trigger] self.graphs()[i] == *g
                    &&& g.namespace@ == namespace@
                    &&& g.name@ == name@
                    &&& g.version == version
                },
                None => forall|i: int|
                    0 <= i < self.graphs().len() ==> !((#[trigger] self.graphs()[i]).namespace@
                        == namespace@ && self.graphs()[i].name@ == name@
                        && self.graphs()[i].version == version),
            },
    {
        let mut i: usize = 0;
        while i < self.entries.len()
            invariant
                i <= self.entries@.len(),
                forall|j: int|
                    0 <= j < i ==> !((#[trigger] self.entries@[j]).namespace@ == namespace@
                        && self.entries@[j].name@ == name@ && self.entries@[j].version
                        == version),
            decreases self.entries@.len() - i,
        {
            let e = &self.entries[i];
            if crate::text::str_equal(e.namespace.as_str(), namespace)
                && crate::text::str_equal(e.name.as_str(), name) && e.version == version {
                return Some(e);
            }
            i += 1;
        }
        None
    }
}

/// The latest version over a prefix never exceeds the prefix length,
/// because every assigned version is bounded by its position.
proof fn lemma_latest_bounded(s: Seq<model::ComputeGraph>, namespace: Seq<char>, name: Seq<char>)
    requires
        forall|i: int| 0 <= i < s.len() ==> (#[trigger] s[i]).version.0 <= i + 1,
    ensures
        latest_version_in(s, namespace, name) <= s.len(),
    decreases s.len(),
{
    if s.len() > 0 && !(s.last().namespace@ == namespace && s.last().name@ == name) {
        lemma_latest_bounded(s.drop_last(), namespace, name);
    }
}

/// With versions per key strictly increasing in order of acceptance, the
/// last match carries the greatest version: every stored match is bounded
/// by [`latest_version_in`].
proof fn lemma_latest_is_max(s: Seq<model::ComputeGraph>, namespace: Seq<char>, name: Seq<char>)
    requires
        forall|i: int, j: int|
            #![trigger s[i], s[j]]
            0 <= i < j < s.len() && s[i].namespace@ == s[j].namespace@ && s[i].name@ == s[j].name@
                ==> s[i].version.0 < s[j].version.0,
    ensures
        forall|i: int|
            0 <= i < s.len() && (#[trigger] s[i]).namespace@ == namespace && s[i].name@ == name
                ==> s[i].version.0 <= latest_version_in(s, namespace, name),
    decreases s.len(),
{
    if s.len() > 0 {
        let last = s.last();
        if last.namespace@ == namespace && last.name@ == name {
            assert forall|i: int|
                0 <= i < s.len() && (#[trigger] s[i]).namespace@ == namespace && s[i].name@
                    == name implies s[i].version.0 <= latest_version_in(s, namespace, name) by {
                if i < s.len() - 1 {
                    assert(s[i].version.0 < s[s.len() - 1].version.0);
                }
            }
        } else {
            lemma_latest_is_max(s.drop_last(), namespace, name);
            assert forall|i: int|
                0 <= i < s.len() && (#[trigger] s[i]).namespace@ == namespace && s[i].name@
                    == name implies s[i].version.0 <= latest_version_in(s, namespace, name) by {
                assert(i < s.len() - 1);
                assert(s.drop_last()[i] == s[i]);
            }
        }
    }
}

/// Version monotonicity law: under the registry invariant, of two stored
/// graphs with the same `(namespace, name)`, the later one carries the
/// strictly greater version; in particular no two submissions under that
/// pair ever receive the same version.
pub proof fn lemma_version_monotonicity(r: GraphRegistry, i: int, j: int)
    requires
        r.wf(),
        0 <= i < j < r.graphs().len(),
        r.graphs()[i].namespace@ == r.graphs()[j].namespace@,
        r.graphs()[i].name@ == r.graphs()[j].name@,
    ensures
        r.graphs()[i].version.0 < r.graphs()[j].version.0,
        r.graphs()[i].version != r.graphs()[j].version,
{
}

} // verus!
