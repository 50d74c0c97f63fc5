#[test]
fn template_placeholder_takes_the_number() {
    assert_eq!(mtos_runtime::template::format("Value: {}", 42).as_str(), "Value: 42");
    assert_eq!(mtos_runtime::template::format("{}", 0).as_str(), "0");
    assert_eq!(mtos_runtime::template::format("{} ms", 4200000000).as_str(), "4200000000 ms");
}

#[test]
fn template_every_placeholder_takes_the_number() {
    assert_eq!(mtos_runtime::template::format("{} + {} = {}", 7).as_str(), "7 + 7 = 7");
    assert_eq!(mtos_runtime::template::format("{}{}", 12).as_str(), "1212");
}

#[test]
fn template_without_placeholder_is_copied() {
    assert_eq!(mtos_runtime::template::format("", 5).as_str(), "");
    assert_eq!(mtos_runtime::template::format("plain text", 5).as_str(), "plain text");
    assert_eq!(mtos_runtime::template::format("closing } only", 5).as_str(), "closing } only");
}

#[test]
fn template_open_brace_keeps_what_follows() {
    assert_eq!(mtos_runtime::template::format("{", 1).as_str(), "{");
    assert_eq!(mtos_runtime::template::format("end{", 1).as_str(), "end{");
    assert_eq!(mtos_runtime::template::format("a{b}", 1).as_str(), "a{b}");
    assert_eq!(mtos_runtime::template::format("{{}", 5).as_str(), "{{}");
    assert_eq!(mtos_runtime::template::format("{{{}", 5).as_str(), "{{5");
    assert_eq!(mtos_runtime::template::format("{ }", 5).as_str(), "{ }");
}

#[test]
fn template_longer_than_the_buffer_is_cut() {
    let long = "a".repeat(70);
    assert_eq!(mtos_runtime::template::format(&long, 1).as_str(), "a".repeat(64));
    let exact = "b".repeat(64);
    assert_eq!(mtos_runtime::template::format(&exact, 1).as_str(), exact);
}

#[test]
fn template_number_is_cut_where_the_buffer_ends() {
    let mut template = "c".repeat(60);
    template.push_str("{}");
    let mut expected = "c".repeat(60);
    expected.push_str("1234");
    assert_eq!(mtos_runtime::template::format(&template, 1234567).as_str(), expected);
}

#[test]
fn template_wide_character_is_dropped_and_a_narrow_one_still_fits() {
    let mut template = "d".repeat(63);
    template.push('\u{e9}');
    template.push('e');
    template.push('f');
    let mut expected = "d".repeat(63);
    expected.push('e');
    assert_eq!(mtos_runtime::template::format(&template, 0).as_str(), expected);
}

#[test]
fn template_keeps_wide_characters_that_fit() {
    assert_eq!(mtos_runtime::template::format("\u{1F9EE} {} \u{e9}", 3).as_str(), "\u{1F9EE} 3 \u{e9}");
}
