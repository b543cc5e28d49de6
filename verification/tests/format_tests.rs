use rustfs_launcher::logbuf::format_log_entry;
use rustfs_launcher::numfmt::push_dec_u64;
use rustfs_launcher::numfmt::push_oct_u32;
use rustfs_launcher::numfmt::push_pad2;
use rustfs_launcher::strutil::take_chars;

#[test]
fn decimal_rendering() {
    let mut s = String::new();
    push_dec_u64(&mut s, 0);
    assert_eq!(s, "0");
    let mut s = String::new();
    push_dec_u64(&mut s, 9000);
    assert_eq!(s, "9000");
    let mut s = "pid ".to_string();
    push_dec_u64(&mut s, 18446744073709551615);
    assert_eq!(s, "pid 18446744073709551615");
}

#[test]
fn octal_rendering() {
    let mut s = String::new();
    push_oct_u32(&mut s, 0o755);
    assert_eq!(s, "755");
    let mut s = String::new();
    push_oct_u32(&mut s, 0);
    assert_eq!(s, "0");
    let mut s = String::new();
    push_oct_u32(&mut s, 8);
    assert_eq!(s, "10");
}

#[test]
fn two_digit_padding() {
    let mut s = String::new();
    push_pad2(&mut s, 7);
    push_pad2(&mut s, 42);
    push_pad2(&mut s, 0);
    assert_eq!(s, "074200");
}

#[test]
fn entries_are_stamped_and_cleaned() {
    let entry = format_log_entry(9, 5, 30, "\x1b[31mboom\x1b[0m");
    assert_eq!(entry, "[09:05:30] boom");
}

#[test]
fn take_chars_cuts_at_character_boundaries() {
    assert_eq!(take_chars("hello", 200), "hello");
    assert_eq!(take_chars("hello", 2), "he");
    assert_eq!(take_chars("", 5), "");
    assert_eq!(take_chars("äöü", 2), "äö");
}
