//! Stable structural identity for one road segment, with the topological
//! queries (shared-endpoint detection, opposite-endpoint lookup) that graph
//! consolidation relies on.

use vstd::prelude::*;
use vstd::string::StringExecFns;
use crate::decimal::{dec_int, push_dec_i64};

verus! {

/// Opaque identifier of a map node, scoped to one import run; equality is
/// exact identifier match.
#[derive(Clone, Copy, PartialEq, Eq, Structural, PartialOrd, Ord, Hash, Debug)]
pub struct NodeID(pub i64);

/// Opaque identifier of a map way, scoped to one import run; equality is
/// exact identifier match.
#[derive(Clone, Copy, PartialEq, Eq, Structural, PartialOrd, Ord, Hash, Debug)]
pub struct WayID(pub i64);

/// Refers to a road segment between two nodes, using the source map's IDs.
/// Note these IDs are not stable over time.
///
/// Endpoint order is significant: a key built as `(way, a, b)` is not equal
/// to one built as `(way, b, a)`. Callers must construct keys in a single
/// canonical direction. Endpoint distinctness is intended but not enforced
/// by construction.
#[derive(Clone, Copy, PartialEq, Eq, Structural, PartialOrd, Ord, Hash, Debug)]
pub struct OriginalRoad {
    pub osm_way_id: WayID,
    pub i1: NodeID,
    pub i2: NodeID,
}

/// A violated precondition of an endpoint query: the caller asked about a
/// topological relationship that does not hold. This signals a caller bug,
/// not a reportable per-fixture error.
#[derive(Clone, Copy, PartialEq, Eq, Structural, Debug)]
pub enum InvariantViolation {
    /// The two keys share no endpoint.
    NoCommonEndpoint(OriginalRoad, OriginalRoad),
    /// The given node is neither endpoint of the key.
    NotAnEndpoint(OriginalRoad, NodeID),
}

impl InvariantViolation {
    /// The diagnostic text of this violation, naming the keys and node
    /// involved in their canonical textual form.
    pub open spec fn spec_describe(self) -> Seq<char> {
        match self {
            InvariantViolation::NoCommonEndpoint(a, b) => a.spec_code() + " and "@ + b.spec_code()
                + " have no common endpoint"@,
            InvariantViolation::NotAnEndpoint(k, n) => k.spec_code() + " does not have "@
                + dec_int(n.0 as int) + " on either side"@,
        }
    }

    /// Renders the diagnostic text of this violation.
    pub fn describe(&self) -> (r: String)
        ensures
            r@ == self.spec_describe(),
    {
        match self {
            InvariantViolation::NoCommonEndpoint(a, b) => {
                let mut s = a.as_string_code();
                s.append(" and ");
                let other = b.as_string_code();
                s.append(other.as_str());
                s.append(" have no common endpoint");
                proof {
                    assert(s@ =~= self.spec_describe());
                }
                s
            },
            InvariantViolation::NotAnEndpoint(k, n) => {
                let mut s = k.as_string_code();
                s.append(" does not have ");
                push_dec_i64(&mut s, n.0);
                s.append(" on either side");
                proof {
                    assert(s@ =~= self.spec_describe());
                }
                s
            },
        }
    }
}

impl OriginalRoad {
    /// True iff the two keys share at least one endpoint value, checked
    /// pairwise across both endpoints of each.
    pub open spec fn spec_has_common_endpoint(self, other: OriginalRoad) -> bool {
        self.i1 == other.i1 || self.i1 == other.i2 || self.i2 == other.i1 || self.i2 == other.i2
    }

    /// The shared endpoint, preferring `i1` when both endpoints are shared.
    pub open spec fn spec_common_endpt(self, other: OriginalRoad) -> Option<NodeID> {
        if self.i1 == other.i1 || self.i1 == other.i2 {
            Some(self.i1)
        } else if self.i2 == other.i1 || self.i2 == other.i2 {
            Some(self.i2)
        } else {
            None
        }
    }

    /// The endpoint opposite to `i`, checking `i1` first.
    pub open spec fn spec_other_side(self, i: NodeID) -> Option<NodeID> {
        if self.i1 == i {
            Some(self.i2)
        } else if self.i2 == i {
            Some(self.i1)
        } else {
            None
        }
    }

    /// The canonical textual form of the triple.
    pub open spec fn spec_code(self) -> Seq<char> {
        "OriginalRoad::new("@ + dec_int(self.osm_way_id.0 as int) + ", ("@ + dec_int(
            self.i1.0 as int,
        ) + ", "@ + dec_int(self.i2.0 as int) + "))"@
    }

    /// Builds a key from raw identifiers. No validation is performed; callers
    /// are responsible for endpoint distinctness.
    pub fn new(way: i64, endpts: (i64, i64)) -> (r: OriginalRoad)
        ensures
            r == (OriginalRoad {
                osm_way_id: WayID(way),
                i1: NodeID(endpts.0),
                i2: NodeID(endpts.1),
            }),
    {
        OriginalRoad { osm_way_id: WayID(way), i1: NodeID(endpts.0), i2: NodeID(endpts.1) }
    }

    /// Prints the key in a way that can be copied into source code.
    pub fn as_string_code(&self) -> (r: String)
        ensures
            r@ == self.spec_code(),
    {
        let mut s = String::new();
        s.append("OriginalRoad::new(");
        push_dec_i64(&mut s, self.osm_way_id.0);
        s.append(", (");
        push_dec_i64(&mut s, self.i1.0);
        s.append(", ");
        push_dec_i64(&mut s, self.i2.0);
        s.append("))");
        proof {
            assert(s@ =~= self.spec_code());
        }
        s
    }

    pub fn has_common_endpoint(&self, other: OriginalRoad) -> (r: bool)
        ensures
            r == self.spec_has_common_endpoint(other),
    {
        if self.i1 == other.i1 || self.i1 == other.i2 {
            return true;
        }
        if self.i2 == other.i1 || self.i2 == other.i2 {
            return true;
        }
        false
    }

    /// Returns a node that is an endpoint of both keys. When the two keys
    /// share no endpoint, the precondition of the query is violated and a
    /// typed failure is returned instead. When both endpoints coincide with
    /// `other`'s endpoints (parallel duplicate segments), `i1` is returned.
    pub fn common_endpt(&self, other: OriginalRoad) -> (r: Result<NodeID, InvariantViolation>)
        ensures
            match r {
                Ok(n) => self.spec_common_endpt(other) == Some(n),
                Err(e) => self.spec_common_endpt(other) is None && e
                    == InvariantViolation::NoCommonEndpoint(*self, other),
            },
    {
        if self.i1 == other.i1 || self.i1 == other.i2 {
            return Ok(self.i1);
        }
        if self.i2 == other.i1 || self.i2 == other.i2 {
            return Ok(self.i2);
        }
        Err(InvariantViolation::NoCommonEndpoint(*self, other))
    }

    /// Given a node equal to one endpoint, returns the opposite endpoint; a
    /// node matching neither endpoint violates the query's precondition and
    /// yields a typed failure.
    pub fn other_side(&self, i: NodeID) -> (r: Result<NodeID, InvariantViolation>)
        ensures
            match r {
                Ok(n) => self.spec_other_side(i) == Some(n),
                Err(e) => self.spec_other_side(i) is None && e == InvariantViolation::NotAnEndpoint(
                    *self,
                    i,
                ),
            },
    {
        if self.i1 == i {
            Ok(self.i2)
        } else if self.i2 == i {
            Ok(self.i1)
        } else {
            Err(InvariantViolation::NotAnEndpoint(*self, i))
        }
    }
}

/// For every key on distinct endpoints `a` and `b`, looking up the side
/// opposite `a` yields `b`, and the side opposite `b` yields `a`.
pub proof fn lemma_other_side_flips(way: i64, a: i64, b: i64)
    requires
        a != b,
    ensures
        ({
            let k = OriginalRoad { osm_way_id: WayID(way), i1: NodeID(a), i2: NodeID(b) };
            k.spec_other_side(NodeID(a)) == Some(NodeID(b)) && k.spec_other_side(NodeID(b)) == Some(
                NodeID(a),
            )
        }),
{
}

/// Shared-endpoint detection is symmetric in its two keys.
pub proof fn lemma_has_common_endpoint_symmetric(k1: OriginalRoad, k2: OriginalRoad)
    ensures
        k1.spec_has_common_endpoint(k2) == k2.spec_has_common_endpoint(k1),
{
}

/// Whenever two keys share an endpoint, the common-endpoint query returns a
/// node that is an endpoint of both; when they share none, it returns no
/// node (and the executable query reports an invariant violation).
pub proof fn lemma_common_endpt_is_shared(k1: OriginalRoad, k2: OriginalRoad)
    ensures
        k1.spec_has_common_endpoint(k2) ==> ({
            let n = k1.spec_common_endpt(k2)->Some_0;
            k1.spec_common_endpt(k2) is Some && (n == k1.i1 || n == k1.i2) && (n == k2.i1 || n
                == k2.i2)
        }),
        !k1.spec_has_common_endpoint(k2) ==> k1.spec_common_endpt(k2) is None,
{
}

} // verus!
