//! The boundary-conversion model and the opaque-handle arena, on concrete
//! values: field round trips, the optional and vector encodings, result
//! mapping, and the delete wrapper's null behavior.

use ring_codegen::boundary::{
    bool_field_get, bool_field_set, number_field_get, number_field_set, opt_num_field_set,
    opt_text_field_get, opt_text_field_set, result_num_return, text_field_get, text_field_set,
    vec_num_field_get, vec_num_field_set, CallOutcome, RtArg, RtItem,
};
use ring_codegen::handle::Arena;

#[test]
fn number_round_trip() {
    for v in [0i64, -1, 42, i64::MAX, i64::MIN] {
        let stored = number_field_set(&RtArg::NumArg(v)).unwrap();
        assert_eq!(number_field_get(stored), CallOutcome::NumValue(v));
    }
    assert!(number_field_set(&RtArg::TextArg("7".to_string())).is_err());
}

#[test]
fn text_round_trip() {
    for s in ["", "hello", "Hello, World!"] {
        let stored = text_field_set(&RtArg::TextArg(s.to_string())).unwrap();
        assert_eq!(text_field_get(&stored), CallOutcome::TextValue(s.to_string()));
    }
    assert!(text_field_set(&RtArg::NumArg(1)).is_err());
}

#[test]
fn bool_encoding() {
    assert_eq!(bool_field_set(&RtArg::NumArg(5)), Ok(true));
    assert_eq!(bool_field_set(&RtArg::NumArg(0)), Ok(false));
    assert_eq!(bool_field_get(true), CallOutcome::NumValue(1));
    assert_eq!(bool_field_get(false), CallOutcome::NumValue(0));
}

#[test]
fn optional_text_encoding() {
    // an absent field returns no value, not an empty one
    assert_eq!(opt_text_field_get(&None), CallOutcome::NoValue);
    assert_eq!(
        opt_text_field_get(&Some("some text".to_string())),
        CallOutcome::TextValue("some text".to_string())
    );
    // the empty string is the universal absent encoding, and any other
    // kind also stores the absent value — never an error
    assert_eq!(opt_text_field_set(&RtArg::TextArg(String::new())), None);
    assert_eq!(
        opt_text_field_set(&RtArg::TextArg("x".to_string())),
        Some("x".to_string())
    );
    assert_eq!(opt_text_field_set(&RtArg::NumArg(0)), None);
    assert_eq!(opt_text_field_set(&RtArg::ListArg(vec![])), None);
}

#[test]
fn optional_number_encoding() {
    assert_eq!(opt_num_field_set(&RtArg::TextArg(String::new())), None);
    assert_eq!(opt_num_field_set(&RtArg::NumArg(9)), Some(9));
    // a non-empty string and any other kind store the absent value
    assert_eq!(opt_num_field_set(&RtArg::TextArg("x".to_string())), None);
    assert_eq!(opt_num_field_set(&RtArg::ListArg(vec![])), None);
}

#[test]
fn vector_round_trip() {
    let list = RtArg::ListArg(vec![RtItem::NumItem(1), RtItem::NumItem(2), RtItem::NumItem(3)]);
    let stored = vec_num_field_set(&list).unwrap();
    assert_eq!(stored, vec![1, 2, 3]);
    assert_eq!(
        vec_num_field_get(&stored),
        CallOutcome::ListValue(vec![RtItem::NumItem(1), RtItem::NumItem(2), RtItem::NumItem(3)])
    );
}

#[test]
fn vector_lenient_skip() {
    // a non-number element is silently dropped, not an error
    let list = RtArg::ListArg(vec![
        RtItem::NumItem(1),
        RtItem::TextItem("two".to_string()),
        RtItem::NumItem(3),
    ]);
    assert_eq!(vec_num_field_set(&list), Ok(vec![1, 3]));
    assert!(vec_num_field_set(&RtArg::NumArg(1)).is_err());
}

#[test]
fn result_mapping() {
    assert_eq!(result_num_return(&Ok(7)), CallOutcome::NumValue(7));
    // a failure raises the error's text and produces no return value
    assert_eq!(
        result_num_return(&Err("boom".to_string())),
        CallOutcome::ErrorSignal("boom".to_string())
    );
}

#[test]
fn delete_is_null_safe() {
    let mut arena = Arena::new();
    let addr = arena.construct("Counter");
    assert_ne!(addr, 0);
    // a null pointer is silently ignored, as often as one likes
    assert!(!arena.delete(0, "Counter"));
    assert!(!arena.delete(0, "Counter"));
    assert_eq!(arena.slots.len(), 1);
    // a mismatched tag reclaims nothing
    assert!(!arena.delete(addr, "Other"));
    assert_eq!(arena.slots.len(), 1);
    // the matching delete reclaims exactly the allocation, once
    assert!(arena.delete(addr, "Counter"));
    assert_eq!(arena.slots.len(), 0);
    assert!(!arena.delete(addr, "Counter"));
}

#[test]
fn construct_hands_out_fresh_addresses() {
    let mut arena = Arena::new();
    let a = arena.construct("A");
    let b = arena.construct("B");
    assert_ne!(a, b);
    assert!(arena.delete(a, "A"));
    assert!(arena.delete(b, "B"));
    assert_eq!(arena.slots.len(), 0);
}
