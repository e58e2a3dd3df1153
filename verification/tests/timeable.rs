use balthazar::timeable::{init, metric_in_use, METRIC_SUFFIX};

#[test]
fn metric_is_named_after_the_service() {
    assert_eq!(init("orders"), "orders_task_duration_ms");
    assert_eq!(init(""), "_task_duration_ms");
    assert_eq!(METRIC_SUFFIX, "task_duration_ms");
}

#[test]
fn metric_falls_back_to_the_suffix() {
    let registered = "orders_task_duration_ms".to_string();
    assert_eq!(metric_in_use(Some(&registered)), "orders_task_duration_ms");
    assert_eq!(metric_in_use(None), "task_duration_ms");
}
