use waifud::text::{int_string, join3, nat_string};

#[test]
fn decimal_of_zero() {
    assert_eq!(nat_string(0), "0");
}

#[test]
fn decimal_of_numbers() {
    assert_eq!(nat_string(7), "7");
    assert_eq!(nat_string(10), "10");
    assert_eq!(nat_string(1234567890), "1234567890");
    assert_eq!(int_string(25), "25");
    assert_eq!(int_string(-5), "-5");
    assert_eq!(int_string(i32::MIN), "-2147483648");
    assert_eq!(int_string(i32::MAX), "2147483647");
}

#[test]
fn joins_in_order() {
    assert_eq!(join3("a", "/", "b"), "a/b");
}

#[test]
fn split_agrees_with_the_standard_library() {
    let cases = [
        ("", "\n"),
        ("a", "\n"),
        ("a\nb\n", "\n"),
        ("\n\n", "\n"),
        ("abc *file.img\ndef *other.img", " *"),
        ("aaa", "aa"),
        ("aaaa", "aa"),
        ("a  b   c", "  "),
        ("SHA256 (x) = abc", " "),
        ("héllo wörld é", "é"),
        ("abc", "abcd"),
        ("abc", "abc"),
        ("xabcxabc", "abc"),
    ];
    for (text, sep) in cases {
        let want: Vec<String> = text.split(sep).map(|s| s.to_string()).collect();
        assert_eq!(waifud::text::split(text, sep), want, "{:?} by {:?}", text, sep);
    }
    assert_eq!(waifud::text::split("abc", ""), vec!["abc"]);
}

#[test]
fn prefixes_suffixes_and_parts() {
    let cases = [
        ("", ""),
        ("abc", ""),
        ("", "a"),
        ("abc", "a"),
        ("abc", "c"),
        ("abc", "b"),
        ("abc", "abc"),
        ("abc", "abcd"),
        ("amzn2-kvm-2.0.qcow2", "amzn2-kvm"),
        ("jammy-server-cloudimg-amd64.img", "-server-cloudimg-amd64.img"),
        ("Rocky-9-GenericCloud.latest.x86_64.qcow2", "latest"),
        ("ééé", "é"),
        ("aab", "ab"),
    ];
    for (text, part) in cases {
        assert_eq!(waifud::text::starts_with(text, part), text.starts_with(part));
        assert_eq!(waifud::text::ends_with(text, part), text.ends_with(part));
        assert_eq!(waifud::text::contains(text, part), text.contains(part));
    }
    assert_eq!(waifud::text::chars("aé"), vec!['a', 'é']);
}
