use lozgrep::errors::{CompatibilityRule, ConfigError, PathError, SyntaxError};
use lozgrep::parse_and_build_arguments::{
    bind_values, check_for_exact_duplicate_options, check_for_logically_duplicate_options,
    check_if_the_given_options_work_together, decode_escape, parse_path_and_query,
    validate_path, verify_argument_length, verify_options_are_valid, verify_values_are_valid,
    Options,
};
use lozgrep::probe::{PathKind, PathProbe};
use lozgrep::tokens::{
    collect_options, collect_values, contains_token, is_option_token, join, same_text,
};
use lozgrep::vocabulary::{long_option, option_present, possible_options, OptionId};

fn list(tokens: &[&str]) -> Vec<String> {
    tokens.iter().map(|token| token.to_string()).collect()
}

#[test]
fn option_tokens_start_with_a_dash() {
    assert!(is_option_token(&"-h".to_string()));
    assert!(is_option_token(&"--help".to_string()));
    assert!(is_option_token(&"-".to_string()));
    assert!(is_option_token(&"-\u{e9}".to_string()));
    assert!(!is_option_token(&"".to_string()));
    assert!(!is_option_token(&"h-".to_string()));
    assert!(!is_option_token(&"/-h".to_string()));
    assert!(!is_option_token(&"\u{2212}h".to_string()));
}

#[test]
fn same_text_compares_character_by_character() {
    assert!(same_text(&"-q".to_string(), "-q"));
    assert!(!same_text(&"-q".to_string(), "-Q"));
    assert!(!same_text(&"-q".to_string(), "-q "));
    assert!(same_text(&"".to_string(), ""));
}

#[test]
fn contains_token_looks_for_the_whole_token() {
    let tokens = list(&["-h", "--path", "x"]);
    assert!(contains_token(&tokens, "--path"));
    assert!(contains_token(&tokens, "x"));
    assert!(!contains_token(&tokens, "--pat"));
    assert!(!contains_token(&tokens, "-p"));
    assert!(!contains_token(&list(&[]), "-h"));
}

#[test]
fn classification_keeps_the_order() {
    let args = list(&["-sg", "b", "-p", "", "a", "--", "-"]);
    assert_eq!(collect_options(&args), list(&["-sg", "-p", "--", "-"]));
    assert_eq!(collect_values(&args), list(&["b", "", "a"]));
    assert_eq!(collect_options(&list(&[])), list(&[]));
    assert_eq!(collect_values(&list(&["-a"])), list(&[]));
}

#[test]
fn join_puts_the_separator_between_neighbours() {
    assert_eq!(join(&list(&[]), ", "), "");
    assert_eq!(join(&list(&["a"]), ", "), "a");
    assert_eq!(join(&list(&["a", "b", "c"]), ", "), "a, b, c");
    assert_eq!(join(&list(&["", "b", ""]), "-"), "-b-");
    assert_eq!(join(&list(&["a", "b"]), ""), "ab");
}

#[test]
fn the_table_holds_the_fourteen_tokens() {
    assert_eq!(
        possible_options(),
        [
            "--help", "-h", "--version", "-ver", "--verbose", "-v", "--query", "-q", "--path",
            "-p", "--simple-grep", "-sg", "--simple-find", "-sf",
        ]
    );
}

#[test]
fn the_spellings_of_each_option() {
    let table = possible_options();
    let ids = [
        OptionId::Help,
        OptionId::Version,
        OptionId::Verbose,
        OptionId::Query,
        OptionId::Path,
        OptionId::SimpleGrep,
        OptionId::SimpleFind,
    ];
    for (at, id) in ids.iter().enumerate() {
        assert_eq!(id.long_name(), table[2 * at]);
        assert_eq!(id.short_name(), table[2 * at + 1]);
        assert!(id.is_spelled_by(&table[2 * at].to_string()));
        assert!(id.is_spelled_by(&table[2 * at + 1].to_string()));
        assert_eq!(long_option(&table[2 * at].to_string()), Some(*id));
        assert_eq!(long_option(&table[2 * at + 1].to_string()), None);
        for (other_at, other) in ids.iter().enumerate() {
            if other_at != at {
                assert!(!other.is_spelled_by(&table[2 * at].to_string()));
                assert!(!other.is_spelled_by(&table[2 * at + 1].to_string()));
            }
        }
    }
    assert_eq!(long_option(&"--helpful".to_string()), None);
}

#[test]
fn option_present_accepts_either_spelling() {
    assert!(option_present(&list(&["-v", "--query"]), OptionId::Query));
    assert!(option_present(&list(&["-q"]), OptionId::Query));
    assert!(!option_present(&list(&["-v", "query", "q"]), OptionId::Query));
    assert!(!option_present(&list(&[]), OptionId::Help));
}

#[test]
fn length_guard_accepts_one_to_twenty() {
    assert_eq!(verify_argument_length(&list(&[])), Err(SyntaxError::ArgumentCount { count: 0 }));
    assert_eq!(verify_argument_length(&list(&["x"])), Ok(()));
    assert_eq!(verify_argument_length(&list(&["x"; 20])), Ok(()));
    assert_eq!(
        verify_argument_length(&list(&["x"; 21])),
        Err(SyntaxError::ArgumentCount { count: 21 })
    );
}

#[test]
fn exact_duplicates_are_found() {
    assert!(!check_for_exact_duplicate_options(&list(&[])));
    assert!(!check_for_exact_duplicate_options(&list(&["-h"])));
    assert!(!check_for_exact_duplicate_options(&list(&["-h", "--help", "-H"])));
    assert!(check_for_exact_duplicate_options(&list(&["-h", "-h"])));
    assert!(check_for_exact_duplicate_options(&list(&["-p", "-h", "-v", "-p"])));
}

#[test]
fn logical_duplicates_are_found() {
    assert_eq!(check_for_logically_duplicate_options(&list(&[])), Ok(()));
    assert_eq!(check_for_logically_duplicate_options(&list(&["--help", "-v", "--path"])), Ok(()));
    assert_eq!(
        check_for_logically_duplicate_options(&list(&["-p", "--help", "--path", "-h"])),
        Err(SyntaxError::AliasConflict { pairs: vec![OptionId::Help, OptionId::Path] })
    );
    assert_eq!(
        check_for_logically_duplicate_options(&list(&["--help", "-h", "--help"])),
        Err(SyntaxError::AliasConflict { pairs: vec![OptionId::Help, OptionId::Help] })
    );
}

#[test]
fn option_validator_keeps_the_options_in_order() {
    let table = possible_options();
    assert_eq!(
        verify_options_are_valid(&list(&["-sg", "-p", "/tmp/f", "-q", "needle"]), &table),
        Ok(list(&["-sg", "-p", "-q"]))
    );
    assert_eq!(verify_options_are_valid(&list(&["a", "b"]), &table), Ok(list(&[])));
}

#[test]
fn option_validator_goes_by_the_table_it_is_given() {
    let table = [
        "-a", "-b", "-c", "-d", "-e", "-f", "-g", "-h", "-i", "-j", "-k", "-l", "-m", "-n",
    ];
    assert_eq!(verify_options_are_valid(&list(&["-a", "x", "-n"]), &table), Ok(list(&["-a", "-n"])));
    assert_eq!(
        verify_options_are_valid(&list(&["-a", "--help", "-q"]), &table),
        Err(SyntaxError::UnknownOption { tokens: list(&["--help", "-q"]) })
    );
}

#[test]
fn option_validator_reports_the_first_failing_check() {
    let table = possible_options();
    assert_eq!(
        verify_options_are_valid(&list(&["-h", "-h", "--help", "-y", "x"]), &table),
        Err(SyntaxError::UnknownOption { tokens: list(&["-y"]) })
    );
    assert_eq!(
        verify_options_are_valid(&list(&["-h", "-h", "--help", "x"]), &table),
        Err(SyntaxError::DuplicateOption { options: list(&["-h", "-h", "--help"]) })
    );
    assert_eq!(
        verify_options_are_valid(&list(&["-h", "--help", "x"]), &table),
        Err(SyntaxError::AliasConflict { pairs: vec![OptionId::Help] })
    );
}

#[test]
fn value_validator_accepts_none_or_two() {
    assert_eq!(verify_values_are_valid(&list(&["-h", "-v"]), &list(&["-h", "-v"])), Ok(list(&[])));
    assert_eq!(
        verify_values_are_valid(&list(&["-q", "a", "-p", "b"]), &list(&["-q", "-p"])),
        Ok(list(&["a", "b"]))
    );
    assert_eq!(verify_values_are_valid(&list(&["a", "b"]), &list(&[])), Ok(list(&["a", "b"])));
}

#[test]
fn value_validator_rejects_other_counts() {
    assert_eq!(
        verify_values_are_valid(&list(&["--query"]), &list(&["--query"])),
        Err(SyntaxError::MissingValue { query: true, path: false })
    );
    assert_eq!(
        verify_values_are_valid(&list(&["-p"]), &list(&["-p"])),
        Err(SyntaxError::MissingValue { query: false, path: true })
    );
    assert_eq!(
        verify_values_are_valid(&list(&["-p", "--query"]), &list(&["-p", "--query"])),
        Err(SyntaxError::MissingValue { query: true, path: true })
    );
    assert_eq!(
        verify_values_are_valid(&list(&["-q", "a"]), &list(&["-q"])),
        Err(SyntaxError::TooFewValues { value: "a".to_string() })
    );
    assert_eq!(
        verify_values_are_valid(&list(&["a", "-q", "b", "c", "d"]), &list(&["-q"])),
        Err(SyntaxError::TooManyValues { values: list(&["a", "b", "c", "d"]) })
    );
}

#[test]
fn binder_gives_the_query_first() {
    let args = list(&["-sg", "-p", "/tmp/f", "-q", "needle"]);
    let values = collect_values(&args);
    assert_eq!(bind_values(&args, &values), Ok(("needle".to_string(), "/tmp/f".to_string())));
    let args = list(&["--query", "/needle", "--path", "/tmp/f"]);
    let values = collect_values(&args);
    assert_eq!(bind_values(&args, &values), Ok(("/needle".to_string(), "/tmp/f".to_string())));
}

#[test]
fn binder_rejects_what_it_cannot_bind() {
    let args = list(&["a", "-q", "-p", "b"]);
    assert_eq!(bind_values(&args, &collect_values(&args)), Err(SyntaxError::ValueBeforeOption));
    let args = list(&["-q", "a", "b", "-p"]);
    assert_eq!(
        bind_values(&args, &collect_values(&args)),
        Err(SyntaxError::UnboundValue { query_bound: true, path_bound: false })
    );
    let args = list(&["-h", "a", "-p", "b"]);
    assert_eq!(
        bind_values(&args, &collect_values(&args)),
        Err(SyntaxError::UnboundValue { query_bound: false, path_bound: true })
    );
    let args = list(&["-h", "a", "b"]);
    assert_eq!(
        bind_values(&args, &collect_values(&args)),
        Err(SyntaxError::UnboundValue { query_bound: false, path_bound: false })
    );
}

#[test]
fn binder_keeps_the_last_value_of_a_role() {
    let args = list(&["-q", "first", "-q", "second"]);
    assert_eq!(
        bind_values(&args, &collect_values(&args)),
        Ok(("second".to_string(), "".to_string()))
    );
    let args = list(&["-p", "first", "--path", "second"]);
    assert_eq!(
        bind_values(&args, &collect_values(&args)),
        Ok(("".to_string(), "second".to_string()))
    );
}

#[test]
fn escape_decoder_takes_one_marker_off() {
    assert_eq!(decode_escape("/--help".to_string()), "--help");
    assert_eq!(decode_escape("//".to_string()), "/");
    assert_eq!(decode_escape("/".to_string()), "");
    assert_eq!(decode_escape("".to_string()), "");
    assert_eq!(decode_escape("a/b".to_string()), "a/b");
    assert_eq!(decode_escape("///x".to_string()), "//x");
    assert_eq!(decode_escape("/\u{e9}t\u{e9}".to_string()), "\u{e9}t\u{e9}");
    assert_eq!(decode_escape("\u{e9}/".to_string()), "\u{e9}/");
}

#[test]
fn escape_round_trip_on_samples() {
    for query in ["", "x", "/", "//", "/x", "-q", "--help", "a/b", "\u{1F50D} search"] {
        assert_eq!(decode_escape(format!("/{}", query)), query);
        if !query.starts_with('/') {
            assert_eq!(decode_escape(query.to_string()), query);
        }
    }
}

#[test]
fn path_validator_maps_each_answer() {
    assert_eq!(validate_path(&PathProbe::Found(PathKind::File)), Ok(PathKind::File));
    assert_eq!(validate_path(&PathProbe::Found(PathKind::Directory)), Ok(PathKind::Directory));
    assert_eq!(validate_path(&PathProbe::Found(PathKind::Other)), Ok(PathKind::Other));
    assert_eq!(validate_path(&PathProbe::NotFound), Err(PathError::NotFound));
    assert_eq!(validate_path(&PathProbe::PermissionDenied), Err(PathError::PermissionDenied));
    assert_eq!(validate_path(&PathProbe::Failed), Err(PathError::Inaccessible));
}

#[test]
fn found_kind_of_each_answer() {
    assert_eq!(PathProbe::Found(PathKind::File).found_kind(), PathKind::File);
    assert_eq!(PathProbe::Found(PathKind::Directory).found_kind(), PathKind::Directory);
    assert_eq!(PathProbe::NotFound.found_kind(), PathKind::Other);
    assert_eq!(PathProbe::PermissionDenied.found_kind(), PathKind::Other);
    assert_eq!(PathProbe::Failed.found_kind(), PathKind::Other);
}

#[test]
fn parse_path_and_query_decodes_the_query_only() {
    let args = list(&["-p", "/tmp/f", "-q", "/-v"]);
    let values = collect_values(&args);
    assert_eq!(
        parse_path_and_query(&args, &values, &PathProbe::Found(PathKind::File)),
        Ok(("-v".to_string(), "/tmp/f".to_string()))
    );
}

#[test]
fn parse_path_and_query_reports_binding_before_path() {
    let args = list(&["-p", "/tmp/f", "-v", "x"]);
    let values = collect_values(&args);
    assert_eq!(
        parse_path_and_query(&args, &values, &PathProbe::NotFound),
        Err(ConfigError::Syntax(SyntaxError::UnboundValue { query_bound: false, path_bound: true }))
    );
    let args = list(&["-p", "/tmp/f", "-q", "x"]);
    let values = collect_values(&args);
    assert_eq!(
        parse_path_and_query(&args, &values, &PathProbe::NotFound),
        Err(ConfigError::Path(PathError::NotFound))
    );
    assert_eq!(
        parse_path_and_query(&args, &values, &PathProbe::PermissionDenied),
        Err(ConfigError::Path(PathError::PermissionDenied))
    );
    assert_eq!(
        parse_path_and_query(&args, &values, &PathProbe::Failed),
        Err(ConfigError::Path(PathError::Inaccessible))
    );
}

fn compatible(options: &[&str], query: &str, path: &str, kind: PathKind) -> Result<(), SyntaxError> {
    check_if_the_given_options_work_together(
        &list(options),
        &query.to_string(),
        &path.to_string(),
        kind,
    )
}

fn broken(rule: CompatibilityRule) -> Result<(), SyntaxError> {
    Err(SyntaxError::IncompatibleOptions { rule })
}

#[test]
fn compatibility_rules_in_order() {
    assert_eq!(
        compatible(&["-sg", "--simple-find"], "null", "null", PathKind::Directory),
        broken(CompatibilityRule::ExclusiveModes)
    );
    assert_eq!(
        compatible(&["-sg"], "null", "null", PathKind::Directory),
        broken(CompatibilityRule::ModeWithoutValues)
    );
    assert_eq!(
        compatible(&["--simple-find"], "null", "null", PathKind::File),
        broken(CompatibilityRule::ModeWithoutValues)
    );
    assert_eq!(
        compatible(&["--simple-grep"], "x", "null", PathKind::Directory),
        broken(CompatibilityRule::GrepOnDirectory)
    );
    assert_eq!(
        compatible(&["-sf"], "null", "/etc/hosts", PathKind::File),
        broken(CompatibilityRule::FindOnFile)
    );
}

#[test]
fn compatibility_accepts_the_rest() {
    assert_eq!(compatible(&[], "null", "null", PathKind::Other), Ok(()));
    assert_eq!(compatible(&["-h", "-v"], "null", "null", PathKind::Directory), Ok(()));
    assert_eq!(compatible(&["-sg"], "x", "/etc/hosts", PathKind::File), Ok(()));
    assert_eq!(compatible(&["-sg"], "x", "/dev/null", PathKind::Other), Ok(()));
    assert_eq!(compatible(&["-sf"], "x", "/etc", PathKind::Directory), Ok(()));
    assert_eq!(compatible(&["-sf"], "x", "/dev/null", PathKind::Other), Ok(()));
    assert_eq!(compatible(&["-q", "-p"], "x", "/etc", PathKind::Directory), Ok(()));
}

#[test]
fn builder_takes_the_values_as_they_are() {
    let built = Options::build_options(
        list(&["-v", "--simple-find", "junk", "--query"]),
        "/needle".to_string(),
        "".to_string(),
    );
    assert_eq!(
        built,
        Options {
            help: false,
            version: false,
            verbose: true,
            query: true,
            path: false,
            simple_grep: false,
            simple_find: true,
            query_item: "/needle".to_string(),
            path_item: "".to_string(),
        }
    );
}

#[test]
fn builder_sets_every_flag() {
    let built = Options::build_options(
        list(&["-h", "--version", "-v", "-q", "--path", "-sg", "--simple-find"]),
        "q".to_string(),
        "p".to_string(),
    );
    assert!(built.help && built.version && built.verbose && built.query && built.path);
    assert!(built.simple_grep && built.simple_find);
    let built = Options::build_options(list(&[]), "q".to_string(), "p".to_string());
    assert!(!built.help && !built.version && !built.verbose && !built.query && !built.path);
    assert!(!built.simple_grep && !built.simple_find);
}
