use any_terminal_size::text::{chars_of, is_whitespace, parse_u32, push_decimal, IntError};
use any_terminal_size::unix_impl::{parse_parent_pid, proc_fd_path, proc_stat_path, StatError};

#[test]
fn parent_pid_of_typical_stat() {
    let stat = "4242 (bash) S 4100 4242 4242 34816 4242 4194560 1 0 0 0 0 0 0 0 20 0 1 0\n";
    assert_eq!(parse_parent_pid(stat), Ok(4100));
}

#[test]
fn parent_pid_after_last_parenthesis() {
    let stat = "17 (a) b) (c)) R 9 17 17 0 -1";
    assert_eq!(parse_parent_pid(stat), Ok(9));
}

#[test]
fn parent_pid_with_unicode_whitespace() {
    let stat = "1 (x)\u{3000}S\u{00A0}\u{2003}77\u{85}rest";
    assert_eq!(parse_parent_pid(stat), Ok(77));
}

#[test]
fn parent_pid_without_parenthesis() {
    assert_eq!(parse_parent_pid("1 bash S 0"), Err(StatError::NoClosingParenthesis));
    assert_eq!(parse_parent_pid(""), Err(StatError::NoClosingParenthesis));
}

#[test]
fn parent_pid_missing_fields() {
    assert_eq!(parse_parent_pid("1 (bash)"), Err(StatError::MissingState));
    assert_eq!(parse_parent_pid("1 (bash)  \n\t "), Err(StatError::MissingState));
    assert_eq!(parse_parent_pid("1 (bash) S"), Err(StatError::MissingParentPid));
    assert_eq!(parse_parent_pid("1 (bash) S   "), Err(StatError::MissingParentPid));
}

#[test]
fn parent_pid_not_a_number() {
    assert_eq!(
        parse_parent_pid("1 (bash) S -1 1"),
        Err(StatError::InvalidParentPid(IntError::InvalidDigit))
    );
    assert_eq!(
        parse_parent_pid("1 (bash) S 12a 1"),
        Err(StatError::InvalidParentPid(IntError::InvalidDigit))
    );
    assert_eq!(
        parse_parent_pid("1 (bash) S 4294967296 1"),
        Err(StatError::InvalidParentPid(IntError::PosOverflow))
    );
    assert_eq!(parse_parent_pid("1 (bash) S 4294967295 1"), Ok(4294967295));
    assert_eq!(parse_parent_pid("1 (bash) S +8 1"), Ok(8));
}

fn parse_all(s: &str) -> Result<u32, IntError> {
    let v = chars_of(s);
    parse_u32(&v, 0, v.len())
}

fn std_kind(s: &str) -> Result<u32, IntError> {
    match s.parse::<u32>() {
        Ok(v) => Ok(v),
        Err(e) => Err(match e.kind() {
            std::num::IntErrorKind::Empty => IntError::Empty,
            std::num::IntErrorKind::PosOverflow => IntError::PosOverflow,
            _ => IntError::InvalidDigit,
        }),
    }
}

#[test]
fn parse_u32_exact_values() {
    assert_eq!(parse_all("0"), Ok(0));
    assert_eq!(parse_all("007"), Ok(7));
    assert_eq!(parse_all("+123"), Ok(123));
    assert_eq!(parse_all(""), Err(IntError::Empty));
    assert_eq!(parse_all("+"), Err(IntError::InvalidDigit));
    assert_eq!(parse_all("-"), Err(IntError::InvalidDigit));
    assert_eq!(parse_all("-0"), Err(IntError::InvalidDigit));
    assert_eq!(parse_all("99999999999x"), Err(IntError::PosOverflow));
    assert_eq!(parse_all("1x99999999999"), Err(IntError::InvalidDigit));
}

#[test]
fn parse_u32_agrees_with_std() {
    let samples = [
        "", "+", "-", "0", "1", "+0", "-0", "42", "4294967295", "4294967296", "42949672950",
        "00000000004294967295", " 1", "1 ", "1_000", "٣", "+-1", "++1", "12345678901234567890",
        "9x", "x9", "429496729", "4294967289", "4294967290",
    ];
    for s in samples.iter() {
        assert_eq!(parse_all(s), std_kind(s), "on {:?}", s);
    }
    for n in (0u64..=4294967300u64).step_by(9_999_991) {
        let s = n.to_string();
        assert_eq!(parse_all(&s), std_kind(&s), "on {:?}", s);
    }
}

#[test]
fn whitespace_agrees_with_std() {
    for u in 0u32..=0x10FFFF {
        if let Some(c) = char::from_u32(u) {
            assert_eq!(is_whitespace(c), c.is_whitespace(), "on U+{:04X}", u);
        }
    }
}

#[test]
fn decimal_digits_as_to_string() {
    for n in [0u32, 7, 10, 99, 100, 4096, 65535, 1000000, 4294967295].iter() {
        let mut out = vec![b'x'];
        push_decimal(&mut out, *n);
        assert_eq!(out, format!("x{}", n).into_bytes());
    }
}

#[test]
fn decimal_round_trips_through_parse() {
    for n in [0u32, 1, 9, 10, 12345, 4294967295].iter() {
        let mut out = Vec::new();
        push_decimal(&mut out, *n);
        let text = String::from_utf8(out).unwrap();
        assert_eq!(parse_all(&text), Ok(*n));
    }
}

#[test]
fn stat_path_of_process() {
    assert_eq!(proc_stat_path(1234), b"/proc/1234/stat".to_vec());
    assert_eq!(proc_stat_path(0), b"/proc/0/stat".to_vec());
    assert_eq!(proc_stat_path(4294967295), b"/proc/4294967295/stat".to_vec());
}

#[test]
fn fd_path_of_process() {
    assert_eq!(proc_fd_path(1234, 1), b"/proc/1234/fd/1".to_vec());
    assert_eq!(proc_fd_path(7, 2), b"/proc/7/fd/2".to_vec());
    assert_eq!(proc_fd_path(10, 255), b"/proc/10/fd/255".to_vec());
}
