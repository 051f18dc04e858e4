use lozgrep::execute_main_operations::simple_grep;
use lozgrep::parse_and_build_arguments::build_running_configuration;
use lozgrep::probe::{PathKind, PathProbe};

fn grep(query: &str, contents: &str) -> Vec<String> {
    simple_grep(&query.to_string(), &contents.to_string())
}

fn lines(expected: &[&str]) -> Vec<String> {
    expected.iter().map(|line| line.to_string()).collect()
}

fn with_std(query: &str, contents: &str) -> Vec<String> {
    contents.lines().filter(|line| line.contains(query)).map(|line| line.to_string()).collect()
}

#[test]
fn finds_the_lines_that_hold_the_query() {
    let hosts = "127.0.0.1 localhost\n::1 ip6-localhost ip6-loopback\nfe00::0 ip6-localnet\n";
    assert_eq!(
        grep("localhost", hosts),
        lines(&["127.0.0.1 localhost", "::1 ip6-localhost ip6-loopback"])
    );
    assert_eq!(grep("ip6", hosts), lines(&["::1 ip6-localhost ip6-loopback", "fe00::0 ip6-localnet"]));
    assert_eq!(grep("nowhere", hosts), lines(&[]));
}

#[test]
fn scan_after_a_successful_run_reports_a_match() {
    let options = build_running_configuration(
        &lines(&["--simple-grep", "--path", "/etc/hosts", "--query", "localhost"]),
        &PathProbe::Found(PathKind::File),
    )
    .unwrap();
    assert!(options.simple_grep);
    assert_eq!(options.query_item, "localhost");
    assert_eq!(options.path_item, "/etc/hosts");
    let found = simple_grep(&options.query_item, &"127.0.0.1 localhost\n".to_string());
    assert_eq!(found, lines(&["127.0.0.1 localhost"]));
}

#[test]
fn empty_text_has_no_lines() {
    assert_eq!(grep("", ""), lines(&[]));
    assert_eq!(grep("x", ""), lines(&[]));
}

#[test]
fn empty_query_matches_every_line() {
    assert_eq!(grep("", "a\n\nb"), lines(&["a", "", "b"]));
    assert_eq!(grep("", "\n"), lines(&[""]));
    assert_eq!(grep("", "\n\n"), lines(&["", ""]));
}

#[test]
fn last_line_needs_no_line_feed() {
    assert_eq!(grep("b", "ab\ncb"), lines(&["ab", "cb"]));
    assert_eq!(grep("b", "ab\ncb\n"), lines(&["ab", "cb"]));
    assert_eq!(grep("b", "b"), lines(&["b"]));
}

#[test]
fn carriage_return_before_line_feed_is_dropped() {
    assert_eq!(grep("a", "a\r\nb\r\na"), lines(&["a", "a"]));
    assert_eq!(grep("\r", "a\r\nb\r\n"), lines(&[]));
    assert_eq!(grep("a", "a\r\r\n"), lines(&["a\r"]));
}

#[test]
fn other_carriage_returns_stay() {
    assert_eq!(grep("\r", "a\rb\nc"), lines(&["a\rb"]));
    assert_eq!(grep("a", "xa\r"), lines(&["xa\r"]));
    assert_eq!(grep("\r", "\r"), lines(&["\r"]));
}

#[test]
fn query_is_matched_anywhere_in_the_line() {
    assert_eq!(grep("abc", "abc\nxabc\nabcx\nxabcx\nab c\nabac"), lines(&["abc", "xabc", "abcx", "xabcx"]));
    assert_eq!(grep("aab", "aaab\naba"), lines(&["aaab"]));
    assert_eq!(grep("longer than the line", "short"), lines(&[]));
    assert_eq!(grep("whole line", "whole line"), lines(&["whole line"]));
}

#[test]
fn query_does_not_match_across_lines() {
    assert_eq!(grep("ab", "a\nb"), lines(&[]));
    assert_eq!(grep("a\nb", "a\nb"), lines(&[]));
}

#[test]
fn search_is_case_sensitive() {
    assert_eq!(grep("Local", "localhost\nLocalhost"), lines(&["Localhost"]));
}

#[test]
fn characters_outside_ascii_are_whole_characters() {
    assert_eq!(grep("\u{e9}", "caf\u{e9}\ncafe\n\u{e9}t\u{e9}"), lines(&["caf\u{e9}", "\u{e9}t\u{e9}"]));
    assert_eq!(grep("\u{1F50D}", "a \u{1F50D} b\r\nnone"), lines(&["a \u{1F50D} b"]));
}

#[test]
fn agrees_with_the_standard_library() {
    let texts = [
        "",
        "\n",
        "\r",
        "\r\n",
        "\n\r",
        "a",
        "a\n",
        "a\r",
        "a\r\n",
        "a\n\nb",
        "a\r\n\r\nb\r",
        "one two\ntwo three\r\nthree four\n\nfour one",
        "caf\u{e9}\r\n\u{e9}t\u{e9}\n",
    ];
    let queries = ["", "a", "b", "\r", "two", "o", " ", "\u{e9}", "four one", "\n"];
    for text in texts {
        for query in queries {
            assert_eq!(grep(query, text), with_std(query, text), "{:?} in {:?}", query, text);
        }
    }
}
