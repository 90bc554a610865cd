use errdef::query::QueryOutput;

#[test]
fn items_sets_total_to_item_count() {
    let output = QueryOutput::<u32>::default().items(vec![1, 2, 3]);
    assert_eq!(output.items, vec![1, 2, 3]);
    assert_eq!(output.total, 3);
    assert_eq!(output.limit, 0);
}

#[test]
fn limit_changes_only_the_limit() {
    let output = QueryOutput::<u32>::default().items(vec![7]).limit(25);
    assert_eq!(output.limit, 25);
    assert_eq!(output.total, 1);
    assert_eq!(output.items, vec![7]);
}

#[test]
fn total_overrides_the_default_count() {
    let output = QueryOutput::<u32>::default().items(vec![1, 2]).total(100);
    assert_eq!(output.total, 100);
    assert_eq!(output.items, vec![1, 2]);
}
