//! The field model: one value per schema field, and the emitters that turn
//! a field into its four code artifacts.
//!
//! A field is one of three shapes: a plain property, a foreign reference to
//! another schema type, or a named directional relation. For each shape the
//! emitters produce the member declaration, a default initializer, an
//! origin-carrying initializer and, for the traversable shapes, the text of
//! a traversal function. Every artifact is pinned down exactly by a spec
//! function over the field's attributes.

use vstd::prelude::*;
use vstd::string::StringExecFns;

verus! {

/// One schema field, already parsed and validated upstream.
#[derive(Debug, Clone)]
pub enum Field {
    Property(FieldProperty),
    ForeignNode(FieldForeignNode),
    Relation(FieldRelation),
}

/// A simple property: a scalar value, never a traversal target.
#[derive(Debug, Clone)]
pub struct FieldProperty {
    pub name: String,
}

/// A foreign node: a single-valued reference to another schema type.
#[derive(Debug, Clone)]
pub struct FieldForeignNode {
    pub name: String,
    pub foreign_type: String,
}

/// A named relation: a graph edge, exposed under `alias`, whose descriptor
/// key is the composite of its name, edge marker and target type.
#[derive(Debug, Clone)]
pub struct FieldRelation {
    pub name: String,
    pub foreign_type: String,
    pub alias: String,
    pub relation_type: FieldRelationType,
}

/// The direction of a relation edge.
#[derive(Debug, Clone)]
pub enum FieldRelationType {
    /// for `->` relations/edges
    OutgoingEdge,
    /// for `<-` relations/edges
    IncomingEdge,
}

/// The edge marker of a relation direction: `->` outgoing, `<-` incoming.
pub open spec fn spec_edge(t: FieldRelationType) -> Seq<char> {
    match t {
        FieldRelationType::OutgoingEdge => "->"@,
        FieldRelationType::IncomingEdge => "<-"@,
    }
}

/// The identifier under which a field's descriptor member is declared:
/// the field's name, except that a relation is exposed under its alias.
pub open spec fn accessor_name(f: Field) -> Seq<char> {
    match f {
        Field::Property(p) => p.name@,
        Field::ForeignNode(n) => n.name@,
        Field::Relation(r) => r.alias@,
    }
}

/// The runtime lookup key written into a field's descriptor: the name for
/// properties and foreign nodes, the composite `name ++ edge ++ target`
/// for relations.
pub open spec fn descriptor_key(f: Field) -> Seq<char> {
    match f {
        Field::Property(p) => p.name@,
        Field::ForeignNode(n) => n.name@,
        Field::Relation(r) => r.name@ + spec_edge(r.relation_type) + r.foreign_type@,
    }
}

/// The descriptor-kind expression written into a field's initializers.
pub open spec fn descriptor_kind_code(f: Field) -> Seq<char> {
    match f {
        Field::Property(_) => "SchemaFieldType::Property"@,
        Field::ForeignNode(_) => "SchemaFieldType::Property"@,
        Field::Relation(r) => match r.relation_type {
            FieldRelationType::OutgoingEdge => "SchemaFieldType::Relation"@,
            FieldRelationType::IncomingEdge => "SchemaFieldType::ForeignRelation"@,
        },
    }
}

/// The declaration artifact: a public descriptor member under the field's
/// accessor name.
pub open spec fn declaration_code(f: Field) -> Seq<char> {
    "pub "@ + accessor_name(f) + ": SchemaField<N>"@
}

/// The default-initializer artifact: constructs the descriptor from its key
/// and kind, with an empty origin context.
pub open spec fn initialization_code(f: Field) -> Seq<char> {
    accessor_name(f) + ": SchemaField::new(\""@ + descriptor_key(f) + "\", "@
        + descriptor_kind_code(f) + ")"@
}

/// The origin-carrying initializer artifact: as the default initializer,
/// but threading the surrounding `origin` value into the constructor.
pub open spec fn initialization_with_origin_code(f: Field) -> Seq<char> {
    accessor_name(f) + ": SchemaField::with_origin(\""@ + descriptor_key(f) + "\", "@
        + descriptor_kind_code(f) + ", origin.clone())"@
}

/// The traversal-function artifact of a foreign node named `name` whose
/// target type is `target`: a function that consumes the caller, grows its
/// origin path by a conditional `.` separator and the field's runtime
/// identifier, and returns a `target` instance two segments deeper.
pub open spec fn foreign_traversal_code(name: Seq<char>, target: Seq<char>) -> Seq<char> {
    "pub fn "@ + name + "(self) -> "@ + target + "<{ N + 2 }> {\n"@
        + "    let origin = self.origin.unwrap_or_else(|| OriginHolder::new([\"\"; N]));\n"@
        + "    let mut new_origin: [&'static str; N + 2] = [\"\"; N + 2];\n"@
        + "    new_origin[..N].clone_from_slice(&origin.segments);\n"@
        + "    if N > 0 && new_origin[N - 1] != \".\" {\n        new_origin[N] = \".\";\n    }\n"@
        + "    new_origin[N + 1] = self."@ + name + ".identifier;\n"@
        + "    "@ + target + "::with_origin(OriginHolder::new(new_origin))\n}"@
}

/// The traversal-function artifact of a relation exposed under `alias` with
/// target type `target` and edge marker `edge`: as the foreign-node
/// traversal, but the edge marker is written unconditionally.
pub open spec fn relation_traversal_code(alias: Seq<char>, target: Seq<char>, edge: Seq<char>) -> Seq<char> {
    "pub fn "@ + alias + "(self) -> "@ + target + "<{ N + 2 }> {\n"@
        + "    let origin = self.origin.unwrap_or_else(|| OriginHolder::new([\"\"; N]));\n"@
        + "    let mut new_origin: [&'static str; N + 2] = [\"\"; N + 2];\n"@
        + "    new_origin[..N].clone_from_slice(&origin.segments);\n"@
        + "    new_origin[N] = \""@ + edge + "\";\n"@
        + "    new_origin[N + 1] = self."@ + alias + ".identifier;\n"@
        + "    "@ + target + "::with_origin(OriginHolder::new(new_origin))\n}"@
}

/// The traversal-function artifact: empty for a property, which is never a
/// traversal target; the hop function for the two traversable shapes.
pub open spec fn traversal_code(f: Field) -> Seq<char> {
    match f {
        Field::Property(_) => Seq::<char>::empty(),
        Field::ForeignNode(n) => foreign_traversal_code(n.name@, n.foreign_type@),
        Field::Relation(r) => relation_traversal_code(
            r.alias@,
            r.foreign_type@,
            spec_edge(r.relation_type),
        ),
    }
}

impl Field {
    /// Emits the declaration artifact for this field.
    pub fn emit_field(&self) -> (r: String)
        ensures
            r@ == declaration_code(*self),
    {
        match self {
            Field::Property(x) => x.emit_field(),
            Field::ForeignNode(x) => x.emit_field(),
            Field::Relation(x) => x.emit_field(),
        }
    }

    /// Emits the default-initializer artifact for this field.
    pub fn emit_initialization(&self) -> (r: String)
        ensures
            r@ == initialization_code(*self),
    {
        match self {
            Field::Property(x) => x.emit_initialization(),
            Field::ForeignNode(x) => x.emit_initialization(),
            Field::Relation(x) => x.emit_initialization(),
        }
    }

    /// Emits the origin-carrying initializer artifact for this field.
    pub fn emit_initialization_with_origin(&self) -> (r: String)
        ensures
            r@ == initialization_with_origin_code(*self),
    {
        match self {
            Field::Property(x) => x.emit_initialization_with_origin(),
            Field::ForeignNode(x) => x.emit_initialization_with_origin(),
            Field::Relation(x) => x.emit_initialization_with_origin(),
        }
    }

    /// Emits the traversal-function artifact for this field: empty for a
    /// property, a hop function for a foreign node or relation.
    pub fn emit_foreign_field_function(&self) -> (r: String)
        ensures
            r@ == traversal_code(*self),
    {
        match self {
            Field::Property(x) => x.emit_foreign_field_function(),
            Field::ForeignNode(x) => x.emit_foreign_field_function(),
            Field::Relation(x) => x.emit_foreign_field_function(),
        }
    }
}

impl FieldProperty {
    fn emit_field(&self) -> (r: String)
        ensures
            r@ == declaration_code(Field::Property(*self)),
    {
        let mut s = String::from_str("pub ");
        s.append(self.name.as_str());
        s.append(": SchemaField<N>");
        s
    }

    pub fn emit_initialization(&self) -> (r: String)
        ensures
            r@ == initialization_code(Field::Property(*self)),
    {
        let mut s = self.name.clone();
        s.append(": SchemaField::new(\"");
        s.append(self.name.as_str());
        s.append("\", ");
        s.append("SchemaFieldType::Property");
        s.append(")");
        s
    }

    pub fn emit_initialization_with_origin(&self) -> (r: String)
        ensures
            r@ == initialization_with_origin_code(Field::Property(*self)),
    {
        let mut s = self.name.clone();
        s.append(": SchemaField::with_origin(\"");
        s.append(self.name.as_str());
        s.append("\", ");
        s.append("SchemaFieldType::Property");
        s.append(", origin.clone())");
        s
    }

    /// A property is never a traversal target: its artifact is empty.
    pub fn emit_foreign_field_function(&self) -> (r: String)
        ensures
            r@ == traversal_code(Field::Property(*self)),
    {
        String::new()
    }
}

impl FieldForeignNode {
    fn emit_field(&self) -> (r: String)
        ensures
            r@ == declaration_code(Field::ForeignNode(*self)),
    {
        let mut s = String::from_str("pub ");
        s.append(self.name.as_str());
        s.append(": SchemaField<N>");
        s
    }

    pub fn emit_initialization(&self) -> (r: String)
        ensures
            r@ == initialization_code(Field::ForeignNode(*self)),
    {
        let mut s = self.name.clone();
        s.append(": SchemaField::new(\"");
        s.append(self.name.as_str());
        s.append("\", ");
        s.append("SchemaFieldType::Property");
        s.append(")");
        s
    }

    pub fn emit_initialization_with_origin(&self) -> (r: String)
        ensures
            r@ == initialization_with_origin_code(Field::ForeignNode(*self)),
    {
        let mut s = self.name.clone();
        s.append(": SchemaField::with_origin(\"");
        s.append(self.name.as_str());
        s.append("\", ");
        s.append("SchemaFieldType::Property");
        s.append(", origin.clone())");
        s
    }

    /// The traversal function of a foreign reference: the separator `.` is
    /// written only over a non-empty path whose last segment is not already
    /// a separator.
    pub fn emit_foreign_field_function(&self) -> (r: String)
        ensures
            r@ == traversal_code(Field::ForeignNode(*self)),
    {
        let mut s = String::from_str("pub fn ");
        s.append(self.name.as_str());
        s.append("(self) -> ");
        s.append(self.foreign_type.as_str());
        s.append("<{ N + 2 }> {\n");
        s.append("    let origin = self.origin.unwrap_or_else(|| OriginHolder::new([\"\"; N]));\n");
        s.append("    let mut new_origin: [&'static str; N + 2] = [\"\"; N + 2];\n");
        s.append("    new_origin[..N].clone_from_slice(&origin.segments);\n");
        s.append("    if N > 0 && new_origin[N - 1] != \".\" {\n        new_origin[N] = \".\";\n    }\n");
        s.append("    new_origin[N + 1] = self.");
        s.append(self.name.as_str());
        s.append(".identifier;\n");
        s.append("    ");
        s.append(self.foreign_type.as_str());
        s.append("::with_origin(OriginHolder::new(new_origin))\n}");
        proof {
            assert(s@ =~= traversal_code(Field::ForeignNode(*self)));
        }
        s
    }
}

impl FieldRelation {
    fn emit_field(&self) -> (r: String)
        ensures
            r@ == declaration_code(Field::Relation(*self)),
    {
        let mut s = String::from_str("pub ");
        s.append(self.alias.as_str());
        s.append(": SchemaField<N>");
        s
    }

    /// The composite runtime lookup key of this relation: its name, its
    /// direction's edge marker, and its target type, in that order.
    pub fn composite_key(&self) -> (r: String)
        ensures
            r@ == descriptor_key(Field::Relation(*self)),
    {
        let mut key = self.name.clone();
        key.append(self.edge());
        key.append(self.foreign_type.as_str());
        key
    }

    pub fn emit_initialization(&self) -> (r: String)
        ensures
            r@ == initialization_code(Field::Relation(*self)),
    {
        let key = self.composite_key();
        let mut s = self.alias.clone();
        s.append(": SchemaField::new(\"");
        s.append(key.as_str());
        s.append("\", ");
        s.append(self.field_type());
        s.append(")");
        s
    }

    pub fn emit_initialization_with_origin(&self) -> (r: String)
        ensures
            r@ == initialization_with_origin_code(Field::Relation(*self)),
    {
        let key = self.composite_key();
        let mut s = self.alias.clone();
        s.append(": SchemaField::with_origin(\"");
        s.append(key.as_str());
        s.append("\", ");
        s.append(self.field_type());
        s.append(", origin.clone())");
        s
    }

    /// The traversal function of a relation: the direction's edge marker is
    /// written into the separator slot unconditionally.
    pub fn emit_foreign_field_function(&self) -> (r: String)
        ensures
            r@ == traversal_code(Field::Relation(*self)),
    {
        let mut s = String::from_str("pub fn ");
        s.append(self.alias.as_str());
        s.append("(self) -> ");
        s.append(self.foreign_type.as_str());
        s.append("<{ N + 2 }> {\n");
        s.append("    let origin = self.origin.unwrap_or_else(|| OriginHolder::new([\"\"; N]));\n");
        s.append("    let mut new_origin: [&'static str; N + 2] = [\"\"; N + 2];\n");
        s.append("    new_origin[..N].clone_from_slice(&origin.segments);\n");
        s.append("    new_origin[N] = \"");
        s.append(self.edge());
        s.append("\";\n");
        s.append("    new_origin[N + 1] = self.");
        s.append(self.alias.as_str());
        s.append(".identifier;\n");
        s.append("    ");
        s.append(self.foreign_type.as_str());
        s.append("::with_origin(OriginHolder::new(new_origin))\n}");
        proof {
            assert(s@ =~= traversal_code(Field::Relation(*self)));
        }
        s
    }

    /// The literal edge marker of this relation's direction.
    pub fn edge(&self) -> (r: &'static str)
        ensures
            r@ == spec_edge(self.relation_type),
    {
        match &self.relation_type {
            FieldRelationType::OutgoingEdge => "->",
            FieldRelationType::IncomingEdge => "<-",
        }
    }

    /// The descriptor-kind expression of this relation's direction.
    fn field_type(&self) -> (r: &'static str)
        ensures
            r@ == descriptor_kind_code(Field::Relation(*self)),
    {
        match &self.relation_type {
            FieldRelationType::OutgoingEdge => "SchemaFieldType::Relation",
            FieldRelationType::IncomingEdge => "SchemaFieldType::ForeignRelation",
        }
    }
}

/// Law: a property field is never a traversal target — its traversal
/// artifact is empty — and its descriptor is built from the kind
/// `Property` under a key equal to the field's own name.
pub proof fn lemma_property_artifacts(p: FieldProperty)
    ensures
        traversal_code(Field::Property(p)) == Seq::<char>::empty(),
        descriptor_kind_code(Field::Property(p)) == "SchemaFieldType::Property"@,
        descriptor_key(Field::Property(p)) == p.name@,
{
}

/// Law: a relation's composite descriptor key is its name, then `->` for
/// an outgoing edge or `<-` for an incoming one, then its target type; its
/// descriptor kind is `Relation` outgoing and `ForeignRelation` incoming.
pub proof fn lemma_relation_descriptor(r: FieldRelation)
    ensures
        r.relation_type is OutgoingEdge ==> descriptor_key(Field::Relation(r)) == r.name@ + "->"@
            + r.foreign_type@,
        r.relation_type is IncomingEdge ==> descriptor_key(Field::Relation(r)) == r.name@ + "<-"@
            + r.foreign_type@,
        r.relation_type is OutgoingEdge ==> descriptor_kind_code(Field::Relation(r))
            == "SchemaFieldType::Relation"@,
        r.relation_type is IncomingEdge ==> descriptor_kind_code(Field::Relation(r))
            == "SchemaFieldType::ForeignRelation"@,
{
}

} // verus!
