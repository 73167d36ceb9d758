use my_thread::{push_decimal, push_padded_decimal, MyThread, Thread};

#[test]
fn decimal_rendering() {
    let mut s = String::new();
    push_decimal(&mut s, 0);
    assert_eq!(s, "0");
    let mut s = String::new();
    push_decimal(&mut s, 9);
    assert_eq!(s, "9");
    let mut s = String::new();
    push_decimal(&mut s, 10);
    assert_eq!(s, "10");
    let mut s = String::new();
    push_decimal(&mut s, 90210);
    assert_eq!(s, "90210");
    let mut s = String::from("t=");
    push_decimal(&mut s, 18446744073709551615);
    assert_eq!(s, "t=18446744073709551615");
}

#[test]
fn padded_rendering() {
    let mut s = String::new();
    push_padded_decimal(&mut s, 7);
    assert_eq!(s, "   7");
    let mut s = String::new();
    push_padded_decimal(&mut s, 42);
    assert_eq!(s, "  42");
    let mut s = String::new();
    push_padded_decimal(&mut s, 995);
    assert_eq!(s, " 995");
    let mut s = String::new();
    push_padded_decimal(&mut s, 4321);
    assert_eq!(s, "4321");
    let mut s = String::new();
    push_padded_decimal(&mut s, 12345);
    assert_eq!(s, "12345");
}

#[test]
fn thread_description() {
    let t = MyThread::new(3, "X", 7);
    assert_eq!(t.describe(), "id: 3\nname: X\nruntime: 7");
    let t = MyThread::new(255, "THREAD_2", 1000000);
    assert_eq!(t.describe(), "id: 255\nname: THREAD_2\nruntime: 1000000");
}
