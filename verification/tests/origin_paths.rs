use schema_codegen::field::FieldRelationType;
use schema_codegen::origin::OriginHolder;
use schema_codegen::origin::SchemaInstance;

fn segments_of(instance: &SchemaInstance) -> Vec<String> {
    match &instance.origin {
        Some(holder) => holder.segments.clone(),
        None => Vec::new(),
    }
}

#[test]
fn root_has_capacity_zero_and_no_origin() {
    let root = SchemaInstance::root();
    assert_eq!(root.capacity, 0);
    assert!(root.origin.is_none());
}

#[test]
fn reference_from_root_leaves_separator_empty() {
    let root = SchemaInstance::root();
    let person = root.traverse_reference("author".to_string());
    assert_eq!(person.capacity, 2);
    assert_eq!(segments_of(&person), vec!["".to_string(), "author".to_string()]);
}

#[test]
fn reference_after_reference_writes_dot_separator() {
    let root = SchemaInstance::root();
    let person = root.traverse_reference("author".to_string());
    let company = person.traverse_reference("employer".to_string());
    assert_eq!(company.capacity, 4);
    assert_eq!(
        segments_of(&company),
        vec![
            "".to_string(),
            "author".to_string(),
            ".".to_string(),
            "employer".to_string(),
        ]
    );
}

#[test]
fn reference_after_dot_segment_does_not_double_separator() {
    let holder = OriginHolder::new(vec!["x".to_string(), ".".to_string()]);
    let caller = SchemaInstance::with_origin(holder);
    assert_eq!(caller.capacity, 2);
    let next = caller.traverse_reference("owner".to_string());
    assert_eq!(next.capacity, 4);
    assert_eq!(
        segments_of(&next),
        vec![
            "x".to_string(),
            ".".to_string(),
            "".to_string(),
            "owner".to_string(),
        ]
    );
}

#[test]
fn outgoing_relation_from_root_writes_marker_unconditionally() {
    let root = SchemaInstance::root();
    let post = root.traverse_relation(FieldRelationType::OutgoingEdge, "wrote".to_string());
    assert_eq!(post.capacity, 2);
    assert_eq!(segments_of(&post), vec!["->".to_string(), "wrote".to_string()]);
}

#[test]
fn incoming_relation_writes_incoming_marker() {
    let root = SchemaInstance::root();
    let person = root.traverse_relation(FieldRelationType::IncomingEdge, "wrote".to_string());
    assert_eq!(person.capacity, 2);
    assert_eq!(segments_of(&person), vec!["<-".to_string(), "wrote".to_string()]);
}

#[test]
fn chained_outgoing_relations_mark_every_edge() {
    let root = SchemaInstance::root();
    let post = root.traverse_relation(FieldRelationType::OutgoingEdge, "wrote".to_string());
    let comment = post.traverse_relation(FieldRelationType::OutgoingEdge, "drew".to_string());
    assert_eq!(comment.capacity, 4);
    let segments = segments_of(&comment);
    assert_eq!(segments[2], "->");
    assert_eq!(
        segments,
        vec![
            "->".to_string(),
            "wrote".to_string(),
            "->".to_string(),
            "drew".to_string(),
        ]
    );
}

#[test]
fn ancestry_is_preserved_by_every_hop() {
    let root = SchemaInstance::root();
    let person = root.traverse_reference("author".to_string());
    let before = segments_of(&person);
    let post = person.traverse_relation(FieldRelationType::OutgoingEdge, "wrote".to_string());
    let after = segments_of(&post);
    assert_eq!(&after[..before.len()], &before[..]);
}

#[test]
fn three_hops_from_root_reach_capacity_six() {
    let root = SchemaInstance::root();
    let a = root.traverse_reference("author".to_string());
    let b = a.traverse_relation(FieldRelationType::OutgoingEdge, "wrote".to_string());
    let c = b.traverse_relation(FieldRelationType::IncomingEdge, "liked".to_string());
    assert_eq!(c.capacity, 6);
    assert_eq!(segments_of(&c).len(), 6);
}

#[test]
fn with_origin_takes_capacity_from_segments() {
    let holder = OriginHolder::new(vec!["->".to_string(), "wrote".to_string()]);
    let instance = SchemaInstance::with_origin(holder);
    assert_eq!(instance.capacity, 2);
    assert_eq!(segments_of(&instance), vec!["->".to_string(), "wrote".to_string()]);
}
