use uiautomator::number::{parse_i32, parse_u32};
use uiautomator::text::{chars_of, lines_of};

fn chars(s: &str) -> Vec<char> {
    s.chars().collect()
}

#[test]
fn parse_u32_like_str_parse() {
    for s in ["0", "+7", "4294967295", "4294967296", "", "+", "-1", "12a", "007"] {
        assert_eq!(parse_u32(&chars(s)), s.parse::<u32>().ok(), "input {:?}", s);
    }
}

#[test]
fn parse_i32_like_str_parse() {
    for s in [
        "0",
        "-0",
        "+5",
        "-2147483648",
        "2147483647",
        "2147483648",
        "-2147483649",
        "-",
        "--1",
        " 1",
    ] {
        assert_eq!(parse_i32(&chars(s)), s.parse::<i32>().ok(), "input {:?}", s);
    }
}

#[test]
fn lines_like_str_lines() {
    for s in ["", "a", "a\n", "a\r\nb", "a\n\nb\n", "x\r", "\r\n", "a\rb\n"] {
        let ours: Vec<String> = lines_of(&chars_of(s))
            .into_iter()
            .map(|l| l.into_iter().collect())
            .collect();
        let std_lines: Vec<String> = s.lines().map(|l| l.to_string()).collect();
        assert_eq!(ours, std_lines, "input {:?}", s);
    }
}
