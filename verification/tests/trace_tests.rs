use agent::trace::TraceContext;

#[test]
fn test_new_trace_id() {
    let id1 = TraceContext::new_trace_id();
    let id2 = TraceContext::new_trace_id();

    assert_ne!(id1, id2);
    assert!(id1.len() > 0);
}

#[test]
fn test_extract_or_generate_with_existing() {
    let trace_id = TraceContext::extract_or_generate(Some("test-trace-id"));
    assert_eq!(trace_id, "test-trace-id");
}

#[test]
fn test_extract_or_generate_without_existing() {
    let trace_id = TraceContext::extract_or_generate(None);

    assert!(trace_id.len() > 0);
    assert!(trace_id.contains('-'));
}

#[test]
fn generated_trace_id_has_uuid_shape() {
    let id = TraceContext::new_trace_id();
    assert_eq!(id.len(), 36);
    let dashes: Vec<usize> = id.char_indices().filter(|(_, c)| *c == '-').map(|(i, _)| i).collect();
    assert_eq!(dashes, vec![8, 13, 18, 23]);
}
