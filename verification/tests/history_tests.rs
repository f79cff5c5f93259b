use atask::history::{parse_git_log, scan_git_log};
use atask::error::ParseError;

#[test]
fn header_with_one_stat_line() {
    let text = "abc123|Jane Doe|jane@x.com|2024-01-01 10:00:00 +0000|Fix bug\n3\t1\tsrc/main.rs";
    let commits = parse_git_log(text).unwrap();
    assert_eq!(commits.len(), 1);
    let c = &commits[0];
    assert_eq!(c.hash, "abc123");
    assert_eq!(c.author_name, "Jane Doe");
    assert_eq!(c.author_email, "jane@x.com");
    assert_eq!(c.message, "Fix bug");
    assert_eq!(c.insertions, 3);
    assert_eq!(c.deletions, 1);
    assert_eq!(c.files_changed, vec!["src/main.rs".to_string()]);
    assert_eq!(c.commit_date.secs, 1704103200);
    assert_eq!(c.commit_date.nanos, 0);
    assert_eq!(c.id, None);
}

#[test]
fn unreadable_date_fails_the_log() {
    let text = "abc|a|b|not a date|subject\n1\t1\tf";
    assert_eq!(parse_git_log(text).unwrap_err(), ParseError::InvalidDate);
    let (commits, failed) = scan_git_log(text);
    assert!(failed);
    assert!(commits.is_empty());
}

#[test]
fn stat_block_ends_at_blank_line_and_at_next_header() {
    let text = "\
1111111111111111111111111111111111111111|Ann|ann@x.org|2024-03-01 12:00:00 +0200|First subject
2\t0\ta.txt
-\t-\timage.png

ignored\tline\there
2222222222222222222222222222222222222222|Bob|bob@x.org|2024-03-02 00:30:00 -0100|Second
10\t4\tsrc/lib.rs
3333333333333333333333333333333333333333|Cy|cy@x.org|2024-03-03 00:00:00 +0000|Third
";
    let commits = parse_git_log(text).unwrap();
    assert_eq!(commits.len(), 3);
    assert_eq!(commits[0].hash, "1111111111111111111111111111111111111111");
    assert_eq!(commits[0].files_changed, vec!["a.txt".to_string(), "image.png".to_string()]);
    assert_eq!(commits[0].insertions, 2);
    assert_eq!(commits[0].deletions, 0);
    assert_eq!(commits[0].commit_date.secs, 1709287200);
    assert_eq!(commits[1].author_name, "Bob");
    assert_eq!(commits[1].files_changed, vec!["src/lib.rs".to_string()]);
    assert_eq!(commits[1].insertions, 10);
    assert_eq!(commits[1].deletions, 4);
    assert_eq!(commits[1].commit_date.secs, 1709343000);
    assert_eq!(commits[2].message, "Third");
    assert!(commits[2].files_changed.is_empty());
    assert_eq!(commits[2].insertions, 0);
}

#[test]
fn short_line_with_pipe_stays_in_the_stat_block() {
    let text = "abc|a|b|2024-01-01 10:00:00 +0000|s\n1\t2\tdir/a|b.txt\n4\t5\tc.txt";
    let commits = parse_git_log(text).unwrap();
    assert_eq!(commits.len(), 1);
    assert_eq!(commits[0].files_changed, vec!["dir/a|b.txt".to_string(), "c.txt".to_string()]);
    assert_eq!(commits[0].insertions, 5);
    assert_eq!(commits[0].deletions, 7);
}

#[test]
fn long_line_with_pipe_ends_the_stat_block() {
    let text = "abc|a|b|2024-01-01 10:00:00 +0000|s\n1\t2\tsome/very/long/directory/name/with/a|pipe.txt\n4\t5\tc.txt";
    let commits = parse_git_log(text).unwrap();
    assert_eq!(commits.len(), 1);
    assert!(commits[0].files_changed.is_empty());
    assert_eq!(commits[0].insertions, 0);
    assert_eq!(commits[0].deletions, 0);
}

#[test]
fn counts_that_are_no_numbers_count_as_zero() {
    let text = "abc|a|b|2024-01-01 10:00:00 +0000|s\nx\t7\tone\n+3\t-2\ttwo\n99999999999\t1\tthree\na\t\tfour\textra\n\t\tfive";
    let commits = parse_git_log(text).unwrap();
    assert_eq!(
        commits[0].files_changed,
        vec!["one".to_string(), "two".to_string(), "three".to_string(), "four".to_string()]
    );
    assert_eq!(commits[0].insertions, 3);
    assert_eq!(commits[0].deletions, 8);
}

#[test]
fn totals_stop_at_the_largest_count() {
    let text = "abc|a|b|2024-01-01 10:00:00 +0000|s\n2147483647\t1\tone\n5\t1\ttwo";
    let commits = parse_git_log(text).unwrap();
    assert_eq!(commits[0].insertions, i32::MAX);
    assert_eq!(commits[0].deletions, 2);
}

#[test]
fn lines_that_are_no_header_are_passed_over() {
    let text = "\n\nno header here\na|b|c\n1\t2\tf\n  abc|a|b|2024-01-01 10:00:00 +0000|  padded subject  \r\n";
    let commits = parse_git_log(text).unwrap();
    assert_eq!(commits.len(), 1);
    assert_eq!(commits[0].hash, "abc");
    assert_eq!(commits[0].message, "padded subject");
    assert!(parse_git_log("").unwrap().is_empty());
}

#[test]
fn subject_keeps_its_pipes() {
    let text = "abc|a|b|2024-01-01 10:00:00 +0000|left | right";
    let commits = parse_git_log(text).unwrap();
    assert_eq!(commits[0].message, "left | right");
}

#[test]
fn scan_keeps_the_records_before_an_unreadable_date() {
    let text = "abc|a|b|2024-01-01 10:00:00 +0000|ok\n1\t1\tf\n\ndef|a|b|yesterday|bad\n2\t2\tg";
    let (commits, failed) = scan_git_log(text);
    assert!(failed);
    assert_eq!(commits.len(), 1);
    assert_eq!(commits[0].hash, "abc");
    assert_eq!(commits[0].insertions, 1);
    assert_eq!(parse_git_log(text).unwrap_err(), ParseError::InvalidDate);
}

#[test]
fn no_record_has_a_negative_count() {
    let text = "abc|a|b|2024-01-01 10:00:00 +0000|s\n-5\t-7\tf\n-0\t3\tg";
    let commits = parse_git_log(text).unwrap();
    assert!(commits.iter().all(|c| c.insertions >= 0 && c.deletions >= 0));
    assert_eq!(commits[0].insertions, 0);
    assert_eq!(commits[0].deletions, 3);
}

#[test]
fn lines_are_trimmed_of_exactly_the_white_space_of_unicode() {
    for code in 0..=0x10FFFFu32 {
        let c = match char::from_u32(code) {
            Some(c) => c,
            None => continue,
        };
        if c == '\n' || c == '|' {
            continue;
        }
        if !(c.is_whitespace() || code < 0x3100 || code % 0x101 == 0) {
            continue;
        }
        let text = format!("{c}abc|a|b|2024-01-01 10:00:00 +0000|s{c}");
        let commits = parse_git_log(&text).unwrap();
        assert_eq!(commits.len(), 1);
        let line = format!("{c}abc");
        assert_eq!(commits[0].hash, line.trim(), "code point {:x}", code);
        let subject = format!("s{c}");
        assert_eq!(commits[0].message, subject.trim(), "code point {:x}", code);
    }
}

#[test]
fn header_length_is_measured_in_bytes() {
    let wide = "ééééééééééééééééééé|é";
    assert_eq!(wide.chars().count(), 21);
    assert_eq!(wide.len(), 41);
    let text = format!("abc|a|b|2024-01-01 10:00:00 +0000|s\n1\t1\tf\n{wide}\n2\t2\tg");
    let commits = parse_git_log(&text).unwrap();
    assert_eq!(commits[0].files_changed, vec!["f".to_string()]);
    let narrow = "éééééééééééééééééé|éx";
    assert_eq!(narrow.len(), 40);
    let text = format!("abc|a|b|2024-01-01 10:00:00 +0000|s\n1\t1\tf\n{narrow}\n2\t2\tg");
    let commits = parse_git_log(&text).unwrap();
    assert_eq!(commits[0].files_changed, vec!["f".to_string(), "g".to_string()]);
}
