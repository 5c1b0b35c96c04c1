use screen::adapter::extract_monitor_index;

#[test]
fn bare_group() {
    assert_eq!(extract_monitor_index("(#7)".as_bytes()), Some(7));
}

#[test]
fn group_after_adapter_text() {
    assert_eq!(extract_monitor_index("AMD Radeon RX 5700 XT(#0)".as_bytes()), Some(0));
}

#[test]
fn garbage_not_found() {
    assert_eq!(extract_monitor_index("garbage".as_bytes()), None);
}

#[test]
fn empty_digits_not_found() {
    assert_eq!(extract_monitor_index("(#)".as_bytes()), None);
}

#[test]
fn empty_string_not_found() {
    assert_eq!(extract_monitor_index("".as_bytes()), None);
}

#[test]
fn last_group_wins() {
    assert_eq!(extract_monitor_index("GPU(#1) twin(#2)".as_bytes()), Some(2));
}

#[test]
fn earlier_parentheses_ignored() {
    assert_eq!(extract_monitor_index("NVIDIA (TM) GeForce(#3)".as_bytes()), Some(3));
}

#[test]
fn non_digit_content_not_found() {
    assert_eq!(extract_monitor_index("(#1a)".as_bytes()), None);
}

#[test]
fn close_before_marker_not_found() {
    assert_eq!(extract_monitor_index(")(#5".as_bytes()), None);
}

#[test]
fn no_close_not_found() {
    assert_eq!(extract_monitor_index("abc(#12".as_bytes()), None);
}

#[test]
fn later_close_captures_junk() {
    assert_eq!(extract_monitor_index("(#5)x)".as_bytes()), None);
}

#[test]
fn leading_zeros_accepted() {
    assert_eq!(extract_monitor_index("(#007)".as_bytes()), Some(7));
}

#[test]
fn oversized_number_not_found() {
    assert_eq!(extract_monitor_index("(#99999999999999999999999999)".as_bytes()), None);
}
