use chat_agent::format::Formatted;

#[test]
fn test_formatted() {
    assert_eq!(234_567_890.formatted(), "234,567,890".to_string());
}

#[test]
fn formatted_small_numbers_have_no_separator() {
    assert_eq!(0usize.formatted(), "0");
    assert_eq!(7usize.formatted(), "7");
    assert_eq!(999usize.formatted(), "999");
}

#[test]
fn formatted_pads_inner_groups() {
    assert_eq!(1000usize.formatted(), "1,000");
    assert_eq!(1_002_030usize.formatted(), "1,002,030");
    assert_eq!(12_345usize.formatted(), "12,345");
}

#[test]
fn formatted_largest_count() {
    assert_eq!(usize::MAX.formatted(), "18,446,744,073,709,551,615");
}
