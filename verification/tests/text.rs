use prompt_relay::footer::{footer, footer_for, round_hundredths};
use prompt_relay::template::PromptTemplate;
use prompt_relay::words::{is_whitespace, split_words};

fn render(template: &str, line: &str) -> String {
    PromptTemplate::new(template.to_string()).render(line)
}

fn words(text: &str) -> Vec<String> {
    split_words(text)
}

fn std_words(text: &str) -> Vec<String> {
    text.split_whitespace().map(|w| w.to_string()).collect()
}

fn footer_string(secs: u64, nanos: u32) -> String {
    String::from_utf8(footer(secs, nanos)).unwrap()
}

#[test]
fn question_template_renders_and_splits() {
    let prompt = render("Q: {{prompt}}\\nA:", "hello");
    assert_eq!(prompt, "Q: hello\\nA:");
    assert_eq!(words(&prompt), vec!["Q:".to_string(), "hello\\nA:".to_string()]);
}

#[test]
fn line_feed_in_template_separates_words() {
    let prompt = render("Q: {{prompt}}\nA:", "hello");
    assert_eq!(prompt, "Q: hello\nA:");
    assert_eq!(words(&prompt), vec!["Q:".to_string(), "hello".to_string(), "A:".to_string()]);
}

#[test]
fn render_replaces_the_reference() {
    let template = "say {{prompt}} now";
    let out = render(template, "it");
    assert_eq!(out, "say it now");
    assert_ne!(out, template);
    assert_ne!(out, "it");
}

#[test]
fn render_replaces_every_reference() {
    assert_eq!(render("{{prompt}}-{{prompt}}", "ab"), "ab-ab");
}

#[test]
fn render_keeps_single_braces() {
    assert_eq!(render("Q: {prompt}", "hello"), "Q: {prompt}");
}

#[test]
fn render_keeps_unknown_variables() {
    assert_eq!(render("{{other}} {{prompt}}", "hi"), "{{other}} hi");
    assert_eq!(render("{{ prompt }}", "hi"), "{{ prompt }}");
}

#[test]
fn render_without_reference_is_the_template() {
    assert_eq!(render("fixed text", "anything"), "fixed text");
    assert_eq!(render("", "anything"), "");
}

#[test]
fn render_does_not_escape_or_expand_the_line() {
    assert_eq!(render("<{{prompt}}>", "{{prompt}} & \"x\""), "<{{prompt}} & \"x\">");
    assert_eq!(render("<{{prompt}}>", ""), "<>");
}

#[test]
fn render_does_not_truncate() {
    let line = "word ".repeat(2000);
    let out = render("{{prompt}}", &line);
    assert_eq!(out, line);
}

#[test]
fn distinct_lines_give_distinct_prompts() {
    let template = "a {{prompt}} b {{prompt}}";
    assert_ne!(render(template, "x"), render(template, "y"));
    assert_ne!(render(template, ""), render(template, " "));
    assert_ne!(render(template, "b"), render(template, "b b"));
}

#[test]
fn rendering_twice_gives_the_same_prompt() {
    let template = PromptTemplate::new("User: {{prompt}}".to_string());
    let first = template.render("same");
    let second = template.render("same");
    assert_eq!(first, second);
    assert_eq!(template.source(), "User: {{prompt}}");
}

#[test]
fn split_of_empty_text_is_empty() {
    assert_eq!(words(""), Vec::<String>::new());
    assert_eq!(words(" \t\r\n "), Vec::<String>::new());
}

#[test]
fn split_ignores_leading_and_trailing_space() {
    assert_eq!(words("  one   two\tthree\n"), vec!["one", "two", "three"]);
    assert_eq!(words("single"), vec!["single"]);
}

#[test]
fn split_leaves_punctuation_alone() {
    assert_eq!(words("Hello, world! (yes?)"), vec!["Hello,", "world!", "(yes?)"]);
}

#[test]
fn split_knows_unicode_space() {
    assert_eq!(words("a\u{3000}b\u{00A0}c\u{0085}d\u{2003}e\u{1680}f"), vec!["a", "b", "c", "d", "e", "f"]);
    assert_eq!(words("z\u{200B}y"), vec!["z\u{200B}y"]);
    assert_eq!(words("h\u{00E9}llo w\u{00F6}rld"), vec!["h\u{00E9}llo", "w\u{00F6}rld"]);
}

#[test]
fn split_agrees_with_std() {
    let samples = [
        "",
        " ",
        "a",
        " a",
        "a ",
        "a  b",
        "\u{2028}x\u{2029}y\u{202F}z\u{205F}",
        "tabs\tand\nlines\r\nmixed \u{000B}\u{000C} end",
        "Q: hello\nA:",
    ];
    for sample in samples.iter() {
        assert_eq!(words(sample), std_words(sample));
    }
}

#[test]
fn whitespace_agrees_with_std_on_every_char() {
    let mut n: u32 = 0;
    while n <= 0x10FFFF {
        if let Some(c) = char::from_u32(n) {
            assert_eq!(is_whitespace(c), c.is_whitespace());
        }
        n += 1;
    }
}

#[test]
fn footer_of_no_time() {
    assert_eq!(footer(0, 0), b"\r\n(took 0.00s)\r\n".to_vec());
}

#[test]
fn footer_rounds_to_two_places() {
    assert_eq!(footer_string(1, 234_567_891), "\r\n(took 1.23s)\r\n");
    assert_eq!(footer_string(1, 235_000_001), "\r\n(took 1.24s)\r\n");
    assert_eq!(footer_string(0, 4_999_999), "\r\n(took 0.00s)\r\n");
    assert_eq!(footer_string(0, 999_999_999), "\r\n(took 1.00s)\r\n");
    assert_eq!(footer_string(12, 70_000_000), "\r\n(took 12.07s)\r\n");
    assert_eq!(footer_string(3600, 500_000_000), "\r\n(took 3600.50s)\r\n");
}

#[test]
fn footer_ties_go_to_even() {
    assert_eq!(footer_string(0, 5_000_000), "\r\n(took 0.00s)\r\n");
    assert_eq!(footer_string(0, 15_000_000), "\r\n(took 0.02s)\r\n");
    assert_eq!(footer_string(0, 125_000_000), "\r\n(took 0.12s)\r\n");
    assert_eq!(footer_string(0, 375_000_000), "\r\n(took 0.38s)\r\n");
}

#[test]
fn footer_of_extreme_times() {
    assert_eq!(footer_string(u64::MAX, 999_999_999), "\r\n(took 18446744073709551616.00s)\r\n");
    assert_eq!(footer_string(0, u32::MAX), "\r\n(took 4.29s)\r\n");
}

#[test]
fn footer_agrees_with_float_formatting() {
    let cases: [(u64, u32); 6] = [
        (0, 1),
        (0, 123_456_789),
        (2, 718_281_828),
        (59, 994_999_999),
        (100, 6_000_000),
        (7, 0),
    ];
    for (secs, nanos) in cases.iter() {
        let seconds = std::time::Duration::new(*secs, *nanos).as_secs_f64();
        assert_eq!(footer_string(*secs, *nanos), format!("\r\n(took {:.2}s)\r\n", seconds));
    }
}

#[test]
fn footer_always_has_its_shape() {
    let mut nanos: u32 = 0;
    while nanos < 1_000_000_000 {
        for secs in [0u64, 9, 10, 99, 100, 12345].iter() {
            let text = footer_string(*secs, nanos);
            assert!(text.starts_with("\r\n(took "));
            assert!(text.ends_with("s)\r\n"));
            let number = &text[8..text.len() - 4];
            let (whole, fraction) = number.split_once('.').unwrap();
            assert!(!whole.is_empty() && whole.chars().all(|c| c.is_ascii_digit()));
            assert!(fraction.len() == 2 && fraction.chars().all(|c| c.is_ascii_digit()));
        }
        nanos += 3_333_333;
    }
}

#[test]
fn hundredths_are_rounded_to_nearest() {
    assert_eq!(round_hundredths(0, 0), 0);
    assert_eq!(round_hundredths(1, 0), 100);
    assert_eq!(round_hundredths(1, 234_567_891), 123);
    assert_eq!(round_hundredths(0, 995_000_000), 100);
    assert_eq!(round_hundredths(0, 985_000_000), 98);
    assert_eq!(round_hundredths(u64::MAX, 0), 1_844_674_407_370_955_161_500);
}

#[test]
fn footer_for_hundredths() {
    assert_eq!(footer_for(0), b"\r\n(took 0.00s)\r\n".to_vec());
    assert_eq!(footer_for(7), b"\r\n(took 0.07s)\r\n".to_vec());
    assert_eq!(footer_for(1050), b"\r\n(took 10.50s)\r\n".to_vec());
}

#[test]
fn split_of_long_text_agrees_with_std() {
    let ascii = "alpha  beta\tgamma\n".repeat(4000);
    assert_eq!(words(&ascii), std_words(&ascii));
    assert_eq!(words(&ascii).len(), 12000);
    let mixed = "caf\u{00E9} \u{4F60}\u{597D}\u{3000}ok ".repeat(200);
    assert_eq!(words(&mixed), std_words(&mixed));
    assert_eq!(words(&mixed).len(), 600);
}
