//! The fixed vocabulary: seven options, each with a long and a short
//! spelling.

use vstd::prelude::*;
use crate::tokens::{contains_token, is_option_like, same_text};

verus! {

/// The seven options of the command line.
#[derive(Clone, Copy, Debug, PartialEq, Eq, Structural)]
pub enum OptionId {
    Help,
    Version,
    Verbose,
    Query,
    Path,
    SimpleGrep,
    SimpleFind,
}

impl OptionId {
    /// The long spelling, with two dashes.
    pub open spec fn long_form(self) -> Seq<char> {
        match self {
            OptionId::Help => "--help"@,
            OptionId::Version => "--version"@,
            OptionId::Verbose => "--verbose"@,
            OptionId::Query => "--query"@,
            OptionId::Path => "--path"@,
            OptionId::SimpleGrep => "--simple-grep"@,
            OptionId::SimpleFind => "--simple-find"@,
        }
    }

    /// The short spelling, with one dash.
    pub open spec fn short_form(self) -> Seq<char> {
        match self {
            OptionId::Help => "-h"@,
            OptionId::Version => "-ver"@,
            OptionId::Verbose => "-v"@,
            OptionId::Query => "-q"@,
            OptionId::Path => "-p"@,
            OptionId::SimpleGrep => "-sg"@,
            OptionId::SimpleFind => "-sf"@,
        }
    }

    /// Whether `token` is one of the two spellings of this option.
    pub open spec fn spelled_by(self, token: Seq<char>) -> bool {
        token == self.long_form() || token == self.short_form()
    }

    /// The long spelling.
    pub fn long_name(self) -> (name: &'static str)
        ensures
            name@ == self.long_form(),
    {
        match self {
            OptionId::Help => "--help",
            OptionId::Version => "--version",
            OptionId::Verbose => "--verbose",
            OptionId::Query => "--query",
            OptionId::Path => "--path",
            OptionId::SimpleGrep => "--simple-grep",
            OptionId::SimpleFind => "--simple-find",
        }
    }

    /// The short spelling.
    pub fn short_name(self) -> (name: &'static str)
        ensures
            name@ == self.short_form(),
    {
        match self {
            OptionId::Help => "-h",
            OptionId::Version => "-ver",
            OptionId::Verbose => "-v",
            OptionId::Query => "-q",
            OptionId::Path => "-p",
            OptionId::SimpleGrep => "-sg",
            OptionId::SimpleFind => "-sf",
        }
    }

    /// Whether `token` is one of the two spellings of this option.
    pub fn is_spelled_by(self, token: &String) -> (b: bool)
        ensures
            b == self.spelled_by(token@),
    {
        same_text(token, self.long_name()) || same_text(token, self.short_name())
    }
}

/// The seven options in the order of the vocabulary.
pub open spec fn all_options() -> Seq<OptionId> {
    seq![
        OptionId::Help,
        OptionId::Version,
        OptionId::Verbose,
        OptionId::Query,
        OptionId::Path,
        OptionId::SimpleGrep,
        OptionId::SimpleFind,
    ]
}

/// The fourteen accepted tokens: each option's long spelling followed by its
/// short one.
pub open spec fn vocabulary() -> Seq<Seq<char>> {
    seq![
        "--help"@,
        "-h"@,
        "--version"@,
        "-ver"@,
        "--verbose"@,
        "-v"@,
        "--query"@,
        "-q"@,
        "--path"@,
        "-p"@,
        "--simple-grep"@,
        "-sg"@,
        "--simple-find"@,
        "-sf"@,
    ]
}

/// The views of the entries of an option table.
pub open spec fn table_view(table: &[&str; 14]) -> Seq<Seq<char>> {
    Seq::new(14, |i: int| table@[i]@)
}

/// Whether one of the two spellings of `id` occurs among `options`.
pub open spec fn has_option(options: Seq<Seq<char>>, id: OptionId) -> bool {
    options.contains(id.long_form()) || options.contains(id.short_form())
}

/// The option whose long spelling `token` is, if it is one.
pub open spec fn long_spelling_of(token: Seq<char>) -> Option<OptionId> {
    if token == OptionId::Help.long_form() {
        Some(OptionId::Help)
    } else if token == OptionId::Version.long_form() {
        Some(OptionId::Version)
    } else if token == OptionId::Verbose.long_form() {
        Some(OptionId::Verbose)
    } else if token == OptionId::Query.long_form() {
        Some(OptionId::Query)
    } else if token == OptionId::Path.long_form() {
        Some(OptionId::Path)
    } else if token == OptionId::SimpleGrep.long_form() {
        Some(OptionId::SimpleGrep)
    } else if token == OptionId::SimpleFind.long_form() {
        Some(OptionId::SimpleFind)
    } else {
        None
    }
}

/// The table of accepted tokens.
pub fn possible_options() -> (table: [&'static str; 14])
    ensures
        table_view(&table) == vocabulary(),
{
    let table = [
        "--help",
        "-h",
        "--version",
        "-ver",
        "--verbose",
        "-v",
        "--query",
        "-q",
        "--path",
        "-p",
        "--simple-grep",
        "-sg",
        "--simple-find",
        "-sf",
    ];
    assert(table_view(&table) =~= vocabulary());
    table
}

/// Whether one of the two spellings of `id` occurs among `options`.
pub fn option_present(options: &Vec<String>, id: OptionId) -> (b: bool)
    ensures
        b == has_option(options.deep_view(), id),
{
    contains_token(options, id.long_name()) || contains_token(options, id.short_name())
}

/// The option whose long spelling `token` is, if it is one.
pub fn long_option(token: &String) -> (id: Option<OptionId>)
    ensures
        id == long_spelling_of(token@),
{
    if same_text(token, OptionId::Help.long_name()) {
        Some(OptionId::Help)
    } else if same_text(token, OptionId::Version.long_name()) {
        Some(OptionId::Version)
    } else if same_text(token, OptionId::Verbose.long_name()) {
        Some(OptionId::Verbose)
    } else if same_text(token, OptionId::Query.long_name()) {
        Some(OptionId::Query)
    } else if same_text(token, OptionId::Path.long_name()) {
        Some(OptionId::Path)
    } else if same_text(token, OptionId::SimpleGrep.long_name()) {
        Some(OptionId::SimpleGrep)
    } else if same_text(token, OptionId::SimpleFind.long_name()) {
        Some(OptionId::SimpleFind)
    } else {
        None
    }
}

/// The length of a token and its last character: enough to tell the
/// fourteen tokens of the vocabulary apart.
spec fn fingerprint(token: Seq<char>) -> (nat, char) {
    (token.len(), token.last())
}

/// The fourteen tokens of the vocabulary are option-like and differ from
/// each other; a long spelling names exactly its own option, and no short
/// spelling is a long one.
pub proof fn vocabulary_is_distinct()
    ensures
        forall|i: int| 0 <= i < 14 ==> is_option_like(#[trigger] vocabulary()[i]),
        forall|id: OptionId| is_option_like(#[trigger] id.long_form()),
        forall|id: OptionId| is_option_like(#[trigger] id.short_form()),
        vocabulary().no_duplicates(),
        forall|id: OptionId| #[trigger] long_spelling_of(id.long_form()) == Some(id),
        forall|id: OptionId| long_spelling_of(#[trigger] id.short_form()) is None,
        forall|id: OptionId, other: OptionId|
            id.short_form() == other.short_form() ==> id == other,
{
    reveal_strlit("--help");
    reveal_strlit("-h");
    reveal_strlit("--version");
    reveal_strlit("-ver");
    reveal_strlit("--verbose");
    reveal_strlit("-v");
    reveal_strlit("--query");
    reveal_strlit("-q");
    reveal_strlit("--path");
    reveal_strlit("-p");
    reveal_strlit("--simple-grep");
    reveal_strlit("-sg");
    reveal_strlit("--simple-find");
    reveal_strlit("-sf");
    let v = vocabulary();
    assert(fingerprint(v[0]) == (6nat, 'p') && v[0][0] == '-');
    assert(fingerprint(v[1]) == (2nat, 'h') && v[1][0] == '-');
    assert(fingerprint(v[2]) == (9nat, 'n') && v[2][0] == '-');
    assert(fingerprint(v[3]) == (4nat, 'r') && v[3][0] == '-');
    assert(fingerprint(v[4]) == (9nat, 'e') && v[4][0] == '-');
    assert(fingerprint(v[5]) == (2nat, 'v') && v[5][0] == '-');
    assert(fingerprint(v[6]) == (7nat, 'y') && v[6][0] == '-');
    assert(fingerprint(v[7]) == (2nat, 'q') && v[7][0] == '-');
    assert(fingerprint(v[8]) == (6nat, 'h') && v[8][0] == '-');
    assert(fingerprint(v[9]) == (2nat, 'p') && v[9][0] == '-');
    assert(fingerprint(v[10]) == (13nat, 'p') && v[10][0] == '-');
    assert(fingerprint(v[11]) == (3nat, 'g') && v[11][0] == '-');
    assert(fingerprint(v[12]) == (13nat, 'd') && v[12][0] == '-');
    assert(fingerprint(v[13]) == (3nat, 'f') && v[13][0] == '-');
    assert forall|i: int, j: int| 0 <= i < 14 && 0 <= j < 14 && i != j implies v[i] != v[j] by {
        assert(fingerprint(v[i]) != fingerprint(v[j]));
    }
    assert forall|id: OptionId| #[trigger] long_spelling_of(id.long_form()) == Some(id) by {
        assert(fingerprint(id.long_form()).0 >= 6);
    }
    assert forall|id: OptionId| long_spelling_of(#[trigger] id.short_form()) is None by {
        assert(fingerprint(id.short_form()).0 <= 4);
    }
    assert forall|id: OptionId, other: OptionId|
        id.short_form() == other.short_form() implies id == other by {
        assert(fingerprint(id.short_form()) == fingerprint(other.short_form()));
    }
}

} // verus!
