//! The origin-path algorithm: how one traversal hop grows an instance's
//! ancestry path, and the laws that hold of every hop.
//!
//! A schema-type instance carries an origin path whose length is the
//! instance's capacity; a root instance has capacity zero. Traversing a
//! foreign reference or a named relation consumes the caller and returns an
//! instance whose capacity is larger by exactly two: the caller's segments
//! are kept in order, an edge-marker segment is written after them, and the
//! traversed field's runtime identifier closes the path. In the generated
//! code the capacity is a const parameter of the instance's type; here it is
//! a checked value, so depth consistency is an invariant rather than a
//! type-level fact.

use vstd::prelude::*;
use vstd::string::StringExecFns;
use crate::field::FieldRelationType;
use crate::field::spec_edge;

verus! {

/// A fixed-length ordered sequence of path segments, owned by one schema
/// instance; its length is the instance's capacity.
pub struct OriginHolder {
    pub segments: Vec<String>,
}

impl OriginHolder {
    /// The path as a sequence of character sequences.
    pub open spec fn path(self) -> Seq<Seq<char>> {
        self.segments@.map_values(|s: String| s@)
    }

    pub fn new(segments: Vec<String>) -> (r: OriginHolder)
        ensures
            r.segments == segments,
    {
        OriginHolder { segments }
    }
}

/// One traversal hop: over a foreign reference, or over a named relation
/// in one of its two directions. The identifier is the traversed field's
/// runtime identifier, read from the caller's own descriptor.
pub enum Hop {
    Reference { identifier: Seq<char> },
    Relation { direction: FieldRelationType, identifier: Seq<char> },
}

/// The separator a foreign-reference hop writes after the caller's
/// segments: `.`, unless the path is empty or already ends in `.`.
pub open spec fn reference_separator(path: Seq<Seq<char>>) -> Seq<char> {
    if path.len() > 0 && path.last() != "."@ {
        "."@
    } else {
        Seq::<char>::empty()
    }
}

/// The path after one hop: the caller's segments, then the hop's edge
/// marker (conditional for a reference, the direction's marker for a
/// relation), then the traversed field's identifier.
pub open spec fn extend_path(path: Seq<Seq<char>>, hop: Hop) -> Seq<Seq<char>> {
    match hop {
        Hop::Reference { identifier } => path.push(reference_separator(path)).push(identifier),
        Hop::Relation { direction, identifier } => path.push(spec_edge(direction)).push(
            identifier,
        ),
    }
}

/// The path reached by chaining the given hops, in order, from a root.
pub open spec fn chain_paths(hops: Seq<Hop>) -> Seq<Seq<char>>
    decreases hops.len(),
{
    if hops.len() == 0 {
        Seq::<Seq<char>>::empty()
    } else {
        extend_path(chain_paths(hops.drop_last()), hops.last())
    }
}

/// One instance of a generated schema type, reduced to what the traversal
/// algorithm touches: its capacity and its origin path. A root instance has
/// capacity zero and no origin; an instance without an origin stands for an
/// all-empty path of its capacity.
pub struct SchemaInstance {
    pub capacity: usize,
    pub origin: Option<OriginHolder>,
}

impl SchemaInstance {
    /// An instance is well formed when its origin, if present, holds
    /// exactly `capacity` segments.
    pub open spec fn wf(self) -> bool {
        self.origin matches Some(o) ==> o.segments@.len() == self.capacity
    }

    /// The instance's effective origin path: the held path, or an all-empty
    /// path of the instance's capacity when none was set.
    pub open spec fn path(self) -> Seq<Seq<char>> {
        match self.origin {
            Some(o) => o.path(),
            None => Seq::new(self.capacity as nat, |i: int| Seq::<char>::empty()),
        }
    }

    /// A freshly constructed root instance: capacity zero, identity path.
    pub fn root() -> (r: SchemaInstance)
        ensures
            r.wf(),
            r.capacity == 0,
            r.path() == Seq::<Seq<char>>::empty(),
    {
        let r = SchemaInstance { capacity: 0, origin: None };
        proof {
            assert(r.path() =~= Seq::<Seq<char>>::empty());
        }
        r
    }

    /// An instance built from a non-root context: it owns the given origin
    /// and its capacity is the origin's length.
    pub fn with_origin(origin: OriginHolder) -> (r: SchemaInstance)
        ensures
            r.wf(),
            r.capacity == origin.segments@.len(),
            r.path() == origin.path(),
    {
        let capacity = origin.segments.len();
        SchemaInstance { capacity, origin: Some(origin) }
    }

    /// The caller's segments as owned values: the held segments, or
    /// `capacity` empty segments when no origin was set.
    fn into_segments(self) -> (r: Vec<String>)
        requires
            self.wf(),
        ensures
            r@.len() == self.capacity,
            r@.map_values(|s: String| s@) == self.path(),
    {
        let capacity = self.capacity;
        match self.origin {
            Some(o) => {
                proof {
                    assert(o.path() =~= self.path());
                }
                o.segments
            },
            None => {
                let mut v: Vec<String> = Vec::new();
                let mut i: usize = 0;
                while i < capacity
                    invariant
                        i <= capacity,
                        v@.len() == i,
                        forall|k: int| 0 <= k < i ==> v@[k]@ == Seq::<char>::empty(),
                    decreases capacity - i,
                {
                    v.push(String::new());
                    i = i + 1;
                }
                proof {
                    assert(v@.map_values(|s: String| s@) =~= self.path());
                }
                v
            },
        }
    }

    /// Traverses a foreign-reference field: consumes the caller and returns
    /// an instance two segments deeper, whose path is the caller's path,
    /// then a conditional `.` separator, then the field's identifier.
    pub fn traverse_reference(self, identifier: String) -> (r: SchemaInstance)
        requires
            self.wf(),
            self.capacity + 2 <= usize::MAX,
        ensures
            r.wf(),
            r.capacity == self.capacity + 2,
            r.origin is Some,
            r.path() == extend_path(self.path(), Hop::Reference { identifier: identifier@ }),
    {
        let ghost pre = self.path();
        let n = self.capacity;
        let mut segments = self.into_segments();
        let dot = String::from_str(".");
        let separator = if n > 0 && !(segments[n - 1] == dot) {
            String::from_str(".")
        } else {
            String::new()
        };
        segments.push(separator);
        segments.push(identifier);
        let r = SchemaInstance { capacity: n + 2, origin: Some(OriginHolder { segments }) };
        proof {
            assert(r.path() =~= extend_path(pre, Hop::Reference { identifier: identifier@ }));
        }
        r
    }

    /// Traverses a named-relation field: consumes the caller and returns an
    /// instance two segments deeper, whose path is the caller's path, then
    /// the direction's edge marker written unconditionally, then the
    /// field's identifier.
    pub fn traverse_relation(self, direction: FieldRelationType, identifier: String) -> (r:
        SchemaInstance)
        requires
            self.wf(),
            self.capacity + 2 <= usize::MAX,
        ensures
            r.wf(),
            r.capacity == self.capacity + 2,
            r.origin is Some,
            r.path() == extend_path(
                self.path(),
                Hop::Relation { direction, identifier: identifier@ },
            ),
    {
        let ghost pre = self.path();
        let n = self.capacity;
        let mut segments = self.into_segments();
        let marker = match &direction {
            FieldRelationType::OutgoingEdge => String::from_str("->"),
            FieldRelationType::IncomingEdge => String::from_str("<-"),
        };
        segments.push(marker);
        segments.push(identifier);
        let r = SchemaInstance { capacity: n + 2, origin: Some(OriginHolder { segments }) };
        proof {
            assert(r.path() =~= extend_path(
                pre,
                Hop::Relation { direction, identifier: identifier@ },
            ));
        }
        r
    }
}

/// Law: ancestry is preserved. Every hop grows the path by exactly two
/// segments, and the first `path.len()` segments of the grown path equal
/// the caller's segments, in order.
pub proof fn lemma_ancestry_preserved(path: Seq<Seq<char>>, hop: Hop)
    ensures
        extend_path(path, hop).len() == path.len() + 2,
        forall|i: int| 0 <= i < path.len() ==> extend_path(path, hop)[i] == path[i],
{
}

/// Law: the separator rule of a foreign-reference hop. Over an empty path
/// no separator is written; over a non-empty path a `.` is written exactly
/// when the last segment is not already `.`; the identifier closes the
/// path.
pub proof fn lemma_reference_separator_rule(path: Seq<Seq<char>>, identifier: Seq<char>)
    ensures
        path.len() == 0 ==> extend_path(path, Hop::Reference { identifier })[path.len() as int]
            == Seq::<char>::empty(),
        path.len() > 0 && path.last() != "."@ ==> extend_path(
            path,
            Hop::Reference { identifier },
        )[path.len() as int] == "."@,
        path.len() > 0 && path.last() == "."@ ==> extend_path(
            path,
            Hop::Reference { identifier },
        )[path.len() as int] == Seq::<char>::empty(),
        extend_path(path, Hop::Reference { identifier })[path.len() as int + 1] == identifier,
{
}

/// Law: a relation hop writes its direction's edge marker into the
/// separator slot unconditionally, whatever the path's length or prior
/// contents; the identifier closes the path.
pub proof fn lemma_relation_marker_rule(
    path: Seq<Seq<char>>,
    direction: FieldRelationType,
    identifier: Seq<char>,
)
    ensures
        extend_path(path, Hop::Relation { direction, identifier })[path.len() as int] == spec_edge(
            direction,
        ),
        extend_path(path, Hop::Relation { direction, identifier })[path.len() as int + 1] == identifier,
{
}

/// Law: depth accumulation. Chaining `k` hops from a root yields a path of
/// length exactly `2 * k`, whatever the hops are.
pub proof fn lemma_depth_accumulation(hops: Seq<Hop>)
    ensures
        chain_paths(hops).len() == 2 * hops.len(),
    decreases hops.len(),
{
    if hops.len() > 0 {
        lemma_depth_accumulation(hops.drop_last());
    }
}

} // verus!
