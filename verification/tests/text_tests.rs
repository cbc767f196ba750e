use perplexica_mcp::text::{push_decimal, trim_trailing_slashes};

fn decimal(n: usize) -> String {
    let mut out = String::new();
    push_decimal(&mut out, n);
    out
}

#[test]
fn push_decimal_writes_the_numeral() {
    assert_eq!(decimal(0), "0");
    assert_eq!(decimal(7), "7");
    assert_eq!(decimal(10), "10");
    assert_eq!(decimal(500), "500");
    assert_eq!(decimal(1234567890), "1234567890");
    assert_eq!(decimal(usize::MAX), usize::MAX.to_string());
}

#[test]
fn push_decimal_appends() {
    let mut out = "status ".to_string();
    push_decimal(&mut out, 404);
    push_decimal(&mut out, 9);
    assert_eq!(out, "status 4049");
}

#[test]
fn trim_trailing_slashes_drops_only_the_end() {
    assert_eq!(trim_trailing_slashes("http://localhost:3000/"), "http://localhost:3000");
    assert_eq!(trim_trailing_slashes("http://localhost:3000///"), "http://localhost:3000");
    assert_eq!(trim_trailing_slashes("http://localhost:3000"), "http://localhost:3000");
    assert_eq!(trim_trailing_slashes("/a/b/"), "/a/b");
    assert_eq!(trim_trailing_slashes("///"), "");
    assert_eq!(trim_trailing_slashes(""), "");
    assert_eq!(trim_trailing_slashes("http://h\u{e9}te/\u{1F600}/"), "http://h\u{e9}te/\u{1F600}");
}
