use lozgrep::errors::{CompatibilityRule, ConfigError, PathError, SyntaxError};
use lozgrep::parse_and_build_arguments::build_running_configuration;
use lozgrep::probe::{PathKind, PathProbe};
use lozgrep::vocabulary::OptionId;

fn list(tokens: &[&str]) -> Vec<String> {
    tokens.iter().map(|token| token.to_string()).collect()
}

const TAIL: &str = " Use \"--help\" or \"-h\" to see options and syntax.";

fn framed(detail: &str) -> String {
    format!("Invalid syntax. {}{}", detail, TAIL)
}

#[test]
fn message_of_argument_count() {
    assert_eq!(
        SyntaxError::ArgumentCount { count: 0 }.message(),
        "Invalid syntax. Zero arguments were passed. Use \"--help\" or \"-h\" to see options and syntax."
    );
    assert_eq!(
        SyntaxError::ArgumentCount { count: 21 }.message(),
        framed("Too many arguments were passed.")
    );
}

#[test]
fn message_of_unknown_option() {
    assert_eq!(
        SyntaxError::UnknownOption { tokens: list(&["--colour"]) }.message(),
        framed("An unknown option was passed: --colour.")
    );
    assert_eq!(
        SyntaxError::UnknownOption { tokens: list(&["--colour", "-x", "-"]) }.message(),
        framed("Unknown options were passed: --colour, -x, -.")
    );
}

#[test]
fn message_of_duplicate_option() {
    assert_eq!(
        SyntaxError::DuplicateOption { options: list(&["-h", "-v", "-h"]) }.message(),
        framed("Duplicated options were passed: -h, -v, -h.")
    );
}

#[test]
fn message_of_alias_conflict() {
    assert_eq!(
        SyntaxError::AliasConflict { pairs: vec![OptionId::Help] }.message(),
        framed("Duplicate options were passed: --help -h .")
    );
    assert_eq!(
        SyntaxError::AliasConflict {
            pairs: vec![
                OptionId::SimpleFind,
                OptionId::Version,
                OptionId::Verbose,
                OptionId::Query,
                OptionId::Path,
                OptionId::SimpleGrep,
            ],
        }
        .message(),
        framed(
            "Duplicate options were passed: --simple-find -sf --version -ver --verbose -v --query -q --path -p --simple-grep -sg ."
        )
    );
}

#[test]
fn message_of_missing_value() {
    assert_eq!(
        SyntaxError::MissingValue { query: true, path: true }.message(),
        framed(
            "The query (--query, -q) and path (--path, -p) options require a non-option value to follow it."
        )
    );
    assert_eq!(
        SyntaxError::MissingValue { query: true, path: false }.message(),
        framed("The query (--query, -q) option requires a non-option value to follow it.")
    );
    assert_eq!(
        SyntaxError::MissingValue { query: false, path: true }.message(),
        framed("The path (--path, -p) option requires a non-option value to follow it.")
    );
}

#[test]
fn message_of_value_counts() {
    assert_eq!(
        SyntaxError::TooFewValues { value: "needle".to_string() }.message(),
        framed("Too few non-option values were passed: needle.")
    );
    assert_eq!(
        SyntaxError::TooManyValues { values: list(&["a", "b", "c"]) }.message(),
        framed("Too many non-option values were passed: a, b, c.")
    );
}

#[test]
fn message_of_value_before_option() {
    assert_eq!(
        SyntaxError::ValueBeforeOption.message(),
        framed("An option has to be the first argument passed.")
    );
}

#[test]
fn message_of_unbound_value() {
    assert_eq!(
        SyntaxError::UnboundValue { query_bound: false, path_bound: false }.message(),
        framed(
            "The query option (--query, -q) and path option (--path, -p) are not followed by a non-option value."
        )
    );
    assert_eq!(
        SyntaxError::UnboundValue { query_bound: false, path_bound: true }.message(),
        framed("The query option (--query, -q) is not followed by a non-option value.")
    );
    assert_eq!(
        SyntaxError::UnboundValue { query_bound: true, path_bound: false }.message(),
        framed("The path option (--path, -p) is not followed by a non-option value.")
    );
}

#[test]
fn message_of_incompatible_options() {
    assert_eq!(
        SyntaxError::IncompatibleOptions { rule: CompatibilityRule::ExclusiveModes }.message(),
        framed(
            "The simple-grep (--simple-grep, -sg) and simple-find (--simple-find, -sf) options cannot be used together. Those processes can only be ran one at a time."
        )
    );
    assert_eq!(
        SyntaxError::IncompatibleOptions { rule: CompatibilityRule::ModeWithoutValues }.message(),
        framed(
            "The simple-grep (--simple-grep, -sg) and simple-find (--simple-find, -sf) options cannot be used if a query (--query, -q) and path (--path, -p) are not passed."
        )
    );
    assert_eq!(
        SyntaxError::IncompatibleOptions { rule: CompatibilityRule::GrepOnDirectory }.message(),
        framed(
            "When using simple-grep (--simple-grep, -sg) the path specified needs to be a file. simple-grep searches the contents of files."
        )
    );
    assert_eq!(
        SyntaxError::IncompatibleOptions { rule: CompatibilityRule::FindOnFile }.message(),
        framed(
            "When using simple-find (--simple-find, -sf) the path specified needs to be a directory. simple-find searches a directory for a file."
        )
    );
}

#[test]
fn rules_describe_themselves() {
    assert_eq!(
        CompatibilityRule::GrepOnDirectory.describe(),
        "When using simple-grep (--simple-grep, -sg) the path specified needs to be a file. simple-grep searches the contents of files"
    );
}

#[test]
fn message_of_path_errors() {
    assert_eq!(
        PathError::NotFound.message(),
        "Path error. The path given is not valid because the path cannot be found."
    );
    assert_eq!(
        PathError::PermissionDenied.message(),
        "Path error. The path given is not valid because permission was denied."
    );
    assert_eq!(
        PathError::Inaccessible.message(),
        "Path error. The lozgrep cannot access the specified path"
    );
}

#[test]
fn message_of_a_failed_run() {
    let error = build_running_configuration(
        &list(&["-sg", "--frobnicate", "-q", "x", "-p", "/tmp", "-zz"]),
        &PathProbe::Found(PathKind::File),
    )
    .unwrap_err();
    assert_eq!(
        error.message(),
        framed("Unknown options were passed: --frobnicate, -zz.")
    );
    let error = build_running_configuration(
        &list(&["-sg", "-q", "x", "-p", "/nonexistent"]),
        &PathProbe::NotFound,
    )
    .unwrap_err();
    assert_eq!(error, ConfigError::Path(PathError::NotFound));
    assert_eq!(
        error.message(),
        "Path error. The path given is not valid because the path cannot be found."
    );
}
