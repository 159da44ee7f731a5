use victron_energy_api::text::append_i32;

fn written(n: i32) -> String {
    let mut out = String::new();
    append_i32(&mut out, n);
    out
}

#[test]
fn append_i32_writes_decimal() {
    assert_eq!(written(0), "0");
    assert_eq!(written(7), "7");
    assert_eq!(written(10), "10");
    assert_eq!(written(42), "42");
    assert_eq!(written(1000), "1000");
    assert_eq!(written(2147483647), "2147483647");
}

#[test]
fn append_i32_writes_a_minus_sign() {
    assert_eq!(written(-1), "-1");
    assert_eq!(written(-10), "-10");
    assert_eq!(written(-2147483648), "-2147483648");
}

#[test]
fn append_i32_keeps_what_was_there() {
    let mut out = String::from("/users/");
    append_i32(&mut out, 305);
    out.push_str("/addSite");
    assert_eq!(out, "/users/305/addSite");
}

#[test]
fn append_i32_agrees_with_the_standard_library() {
    for n in [-100000, -99, -9, 0, 9, 99, 100, 101, 65535, 123456789] {
        assert_eq!(written(n), format!("{}", n));
    }
}
