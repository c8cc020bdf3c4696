use ios_ui_automation::add;

#[test]
fn this_test_passes() {
    let result = add(2, 2);
    assert_eq!(result, 4);
}

#[test]
fn this_test_fails() {
    let result = add(2, 2);
    assert_ne!(result, 5);
}

#[test]
fn add_reaches_the_largest_size() {
    assert_eq!(add(0, usize::MAX), usize::MAX);
    assert_eq!(add(usize::MAX - 3, 3), usize::MAX);
    assert_eq!(add(7, 0), 7);
}
