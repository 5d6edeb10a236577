use dap_types::capabilities::Capabilities;
use dap_types::entities::{Scope, StackFrame};
use dap_types::value::{normalize, Value};

#[test]
fn normalizer_collapses_absent_and_empty_records_only() {
    assert_eq!(normalize(None), None);
    assert_eq!(normalize(Some(Value::Obj(vec![]))), None);
    let nonempty = Value::Obj(vec![("k".to_string(), Value::Int(1))]);
    assert_eq!(
        normalize(Some(Value::Obj(vec![("k".to_string(), Value::Int(1))]))),
        Some(nonempty)
    );
    assert_eq!(normalize(Some(Value::Int(7))), Some(Value::Int(7)));
    assert_eq!(
        normalize(Some(Value::Str("x".to_string()))),
        Some(Value::Str("x".to_string()))
    );
    assert_eq!(normalize(Some(Value::Arr(vec![]))), Some(Value::Arr(vec![])));
}

#[test]
fn merge_is_right_biased_per_field() {
    let mut base = Capabilities::default();
    base.supports_step_back = Some(false);
    base.supports_restart_request = Some(true);
    base.completion_trigger_characters = Some(vec![".".to_string()]);

    let mut update = Capabilities::default();
    update.supports_step_back = Some(true);
    update.supports_cancel_request = Some(true);

    let merged = base.merge(update);
    // present in the update: the update wins
    assert_eq!(merged.supports_step_back, Some(true));
    assert_eq!(merged.supports_cancel_request, Some(true));
    // absent in the update: the base is kept
    assert_eq!(merged.supports_restart_request, Some(true));
    assert_eq!(
        merged.completion_trigger_characters,
        Some(vec![".".to_string()])
    );
    // absent in both: still absent
    assert_eq!(merged.supports_modules_request, None);
}

#[test]
fn merge_with_the_default_changes_nothing() {
    let mut base = Capabilities::default();
    base.supports_conditional_breakpoints = Some(true);
    base.supported_checksum_algorithms = Some(vec!["MD5".to_string()]);
    base.exception_breakpoint_filters =
        Some(vec![Value::Obj(vec![("filter".to_string(), Value::Str("raised".to_string()))])]);

    let merged = base.merge(Capabilities::default());
    assert_eq!(merged.supports_conditional_breakpoints, Some(true));
    assert_eq!(
        merged.supported_checksum_algorithms,
        Some(vec!["MD5".to_string()])
    );
    assert_eq!(merged, base);
}

#[test]
fn frames_and_scopes_order_by_identifier_alone() {
    let mut frames = vec![
        StackFrame { id: 5, name: "e".to_string() },
        StackFrame { id: 1, name: "a".to_string() },
        StackFrame { id: 3, name: "c".to_string() },
    ];
    frames.sort_by(|a, b| a.cmp(b));
    let ids: Vec<u64> = frames.iter().map(|f| f.id).collect();
    assert_eq!(ids, vec![1, 3, 5]);

    let a = StackFrame { id: 2, name: "one".to_string() };
    let b = StackFrame { id: 2, name: "another".to_string() };
    assert_eq!(a.cmp(&b), std::cmp::Ordering::Equal);

    let s1 = Scope { variables_reference: 9, name: "locals".to_string() };
    let s2 = Scope { variables_reference: 4, name: "globals".to_string() };
    assert_eq!(s1.cmp(&s2), std::cmp::Ordering::Greater);
    assert_eq!(s2.cmp(&s1), std::cmp::Ordering::Less);
}
