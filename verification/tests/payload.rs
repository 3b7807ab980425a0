use lazy_panic::payload::{
    render_payload, standard_types, Payload, STRING_TYPE_ID, STR_TYPE_ID, UNKNOWN_TYPE_ID,
};

fn sample(type_id: u64) -> Payload {
    Payload {
        type_id,
        display: b"shown".to_vec(),
        debug: b"\"debugged\"".to_vec(),
    }
}

#[test]
fn matching_candidate_yields_display_text() {
    let p = sample(STR_TYPE_ID);
    let out = render_payload(&p, &vec![STR_TYPE_ID]);
    assert_eq!(out, b"shown".to_vec());
}

#[test]
fn later_candidate_still_matches() {
    let p = sample(STRING_TYPE_ID);
    let out = render_payload(&p, &vec![7, 19, STRING_TYPE_ID]);
    assert_eq!(out, b"shown".to_vec());
}

#[test]
fn candidate_order_does_not_matter() {
    let p = sample(STRING_TYPE_ID);
    let head = render_payload(&p, &vec![STRING_TYPE_ID, 7, 19]);
    let mid = render_payload(&p, &vec![7, STRING_TYPE_ID, 19]);
    let tail = render_payload(&p, &vec![7, 19, STRING_TYPE_ID]);
    assert_eq!(head, mid);
    assert_eq!(mid, tail);
    assert_eq!(tail, b"shown".to_vec());
}

#[test]
fn absent_type_falls_back_to_debug_text() {
    let p = sample(UNKNOWN_TYPE_ID);
    let out = render_payload(&p, &vec![STR_TYPE_ID, STRING_TYPE_ID]);
    assert_eq!(out, b"\"debugged\"".to_vec());
}

#[test]
fn standard_types_try_str_then_string() {
    let cands = standard_types();
    assert_eq!(cands, vec![STR_TYPE_ID, STRING_TYPE_ID]);
    let p = sample(STR_TYPE_ID);
    assert_eq!(render_payload(&p, &cands), b"shown".to_vec());
    let q = sample(STRING_TYPE_ID);
    assert_eq!(render_payload(&q, &cands), b"shown".to_vec());
}
