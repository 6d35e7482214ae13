use medic::util::StringOrList;

#[test]
fn iterator_yields_string_references_not_clones() {
    let string_or_list = StringOrList(vec!["first".to_string(), "second".to_string()]);
    let mut iter = (&string_or_list).into_iter();

    let first_item = iter.next().unwrap();
    let second_item = iter.next().unwrap();

    assert!(std::ptr::eq(first_item.as_str(), string_or_list.0[0].as_str()));
    assert!(std::ptr::eq(second_item.as_str(), string_or_list.0[1].as_str()));

    assert_eq!(first_item, "first");
    assert_eq!(second_item, "second");
}
