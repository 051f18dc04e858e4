//! What can go wrong with an argument list, and the line that reports it.
//!
//! Every error is fatal to a run. The executable types carry the offending
//! tokens; their views carry the same tokens as sequences of characters, and
//! the message of an error is a function of its view.

use vstd::prelude::*;
use crate::tokens::{join, joined};
use crate::vocabulary::OptionId;

verus! {

/// The four rules on options that do not work together.
#[derive(Clone, Copy, Debug, PartialEq, Eq, Structural)]
pub enum CompatibilityRule {
    /// Content search and name search were both asked for.
    ExclusiveModes,
    /// A search mode was asked for without a query and a path.
    ModeWithoutValues,
    /// Content search was pointed at a directory.
    GrepOnDirectory,
    /// Name search was pointed at a plain file.
    FindOnFile,
}

/// A violation of the command grammar.
#[derive(Debug, PartialEq, Eq)]
pub enum SyntaxError {
    /// No argument at all, or more than the ceiling allows.
    ArgumentCount { count: usize },
    /// Option-like tokens outside the vocabulary, in the order of the list.
    UnknownOption { tokens: Vec<String> },
    /// Some option was written twice; holds all option-like tokens.
    DuplicateOption { options: Vec<String> },
    /// Both spellings of an option were given; holds each such option.
    AliasConflict { pairs: Vec<OptionId> },
    /// Query or path was asked for and no value was given; the flags say
    /// which of the two options are present.
    MissingValue { query: bool, path: bool },
    /// Exactly one value was given.
    TooFewValues { value: String },
    /// More than two values were given.
    TooManyValues { values: Vec<String> },
    /// The argument list opens with a value.
    ValueBeforeOption,
    /// A value does not directly follow the query or the path option; the
    /// flags say which of the two roles did get a value.
    UnboundValue { query_bound: bool, path_bound: bool },
    /// The options given do not work together.
    IncompatibleOptions { rule: CompatibilityRule },
}

/// The view of a [`SyntaxError`].
pub enum SyntaxFault {
    ArgumentCount { count: nat },
    UnknownOption { tokens: Seq<Seq<char>> },
    DuplicateOption { options: Seq<Seq<char>> },
    AliasConflict { pairs: Seq<OptionId> },
    MissingValue { query: bool, path: bool },
    TooFewValues { value: Seq<char> },
    TooManyValues { values: Seq<Seq<char>> },
    ValueBeforeOption,
    UnboundValue { query_bound: bool, path_bound: bool },
    IncompatibleOptions { rule: CompatibilityRule },
}

/// Why the path cannot be used.
#[derive(Clone, Copy, Debug, PartialEq, Eq, Structural)]
pub enum PathError {
    NotFound,
    PermissionDenied,
    Inaccessible,
}

/// Any failure of a run.
#[derive(Debug, PartialEq, Eq)]
pub enum ConfigError {
    Syntax(SyntaxError),
    Path(PathError),
}

/// The view of a [`ConfigError`].
pub enum ConfigFault {
    Syntax(SyntaxFault),
    Path(PathError),
}

impl View for SyntaxError {
    type V = SyntaxFault;

    open spec fn view(&self) -> SyntaxFault {
        match self {
            SyntaxError::ArgumentCount { count } => SyntaxFault::ArgumentCount {
                count: *count as nat,
            },
            SyntaxError::UnknownOption { tokens } => SyntaxFault::UnknownOption {
                tokens: tokens.deep_view(),
            },
            SyntaxError::DuplicateOption { options } => SyntaxFault::DuplicateOption {
                options: options.deep_view(),
            },
            SyntaxError::AliasConflict { pairs } => SyntaxFault::AliasConflict { pairs: pairs@ },
            SyntaxError::MissingValue { query, path } => SyntaxFault::MissingValue {
                query: *query,
                path: *path,
            },
            SyntaxError::TooFewValues { value } => SyntaxFault::TooFewValues { value: value@ },
            SyntaxError::TooManyValues { values } => SyntaxFault::TooManyValues {
                values: values.deep_view(),
            },
            SyntaxError::ValueBeforeOption => SyntaxFault::ValueBeforeOption,
            SyntaxError::UnboundValue { query_bound, path_bound } => SyntaxFault::UnboundValue {
                query_bound: *query_bound,
                path_bound: *path_bound,
            },
            SyntaxError::IncompatibleOptions { rule } => SyntaxFault::IncompatibleOptions {
                rule: *rule,
            },
        }
    }
}

impl View for ConfigError {
    type V = ConfigFault;

    open spec fn view(&self) -> ConfigFault {
        match self {
            ConfigError::Syntax(error) => ConfigFault::Syntax(error@),
            ConfigError::Path(error) => ConfigFault::Path(*error),
        }
    }
}

/// A result as mathematics: the deep view of its value, which reaches into
/// lists of tokens, or the view of its error.
pub open spec fn outcome<T: DeepView, E: View>(result: Result<T, E>) -> Result<T::V, E::V> {
    match result {
        Ok(value) => Ok(value.deep_view()),
        Err(error) => Err(error@),
    }
}

/// The spellings of conflicting options, each pair as `long short` followed
/// by a space.
pub open spec fn pairs_text(pairs: Seq<OptionId>) -> Seq<char>
    decreases pairs.len(),
{
    if pairs.len() == 0 {
        Seq::empty()
    } else {
        pairs_text(pairs.drop_last()) + pairs.last().long_form() + " "@
            + pairs.last().short_form() + " "@
    }
}

impl CompatibilityRule {
    /// What the report says of the rule that was broken.
    pub open spec fn detail(self) -> Seq<char> {
        match self {
            CompatibilityRule::ExclusiveModes =>
                "The simple-grep (--simple-grep, -sg) and simple-find (--simple-find, -sf) options cannot be used together. Those processes can only be ran one at a time"@,
            CompatibilityRule::ModeWithoutValues =>
                "The simple-grep (--simple-grep, -sg) and simple-find (--simple-find, -sf) options cannot be used if a query (--query, -q) and path (--path, -p) are not passed"@,
            CompatibilityRule::GrepOnDirectory =>
                "When using simple-grep (--simple-grep, -sg) the path specified needs to be a file. simple-grep searches the contents of files"@,
            CompatibilityRule::FindOnFile =>
                "When using simple-find (--simple-find, -sf) the path specified needs to be a directory. simple-find searches a directory for a file"@,
        }
    }

    /// What the report says of the rule that was broken.
    pub fn describe(self) -> (text: &'static str)
        ensures
            text@ == self.detail(),
    {
        match self {
            CompatibilityRule::ExclusiveModes =>
                "The simple-grep (--simple-grep, -sg) and simple-find (--simple-find, -sf) options cannot be used together. Those processes can only be ran one at a time",
            CompatibilityRule::ModeWithoutValues =>
                "The simple-grep (--simple-grep, -sg) and simple-find (--simple-find, -sf) options cannot be used if a query (--query, -q) and path (--path, -p) are not passed",
            CompatibilityRule::GrepOnDirectory =>
                "When using simple-grep (--simple-grep, -sg) the path specified needs to be a file. simple-grep searches the contents of files",
            CompatibilityRule::FindOnFile =>
                "When using simple-find (--simple-find, -sf) the path specified needs to be a directory. simple-find searches a directory for a file",
        }
    }
}

impl SyntaxFault {
    /// The part of the report that names the problem and echoes the
    /// offending tokens.
    pub open spec fn detail(self) -> Seq<char> {
        match self {
            SyntaxFault::ArgumentCount { count } => if count == 0 {
                "Zero arguments were passed"@
            } else {
                "Too many arguments were passed"@
            },
            SyntaxFault::UnknownOption { tokens } => if tokens.len() == 1 {
                "An unknown option was passed: "@ + joined(tokens, ", "@)
            } else {
                "Unknown options were passed: "@ + joined(tokens, ", "@)
            },
            SyntaxFault::DuplicateOption { options } => "Duplicated options were passed: "@
                + joined(options, ", "@),
            SyntaxFault::AliasConflict { pairs } => "Duplicate options were passed: "@
                + pairs_text(pairs),
            SyntaxFault::MissingValue { query, path } => if query && path {
                "The query (--query, -q) and path (--path, -p) options require a non-option value to follow it"@
            } else if query {
                "The query (--query, -q) option requires a non-option value to follow it"@
            } else {
                "The path (--path, -p) option requires a non-option value to follow it"@
            },
            SyntaxFault::TooFewValues { value } => "Too few non-option values were passed: "@
                + value,
            SyntaxFault::TooManyValues { values } => "Too many non-option values were passed: "@
                + joined(values, ", "@),
            SyntaxFault::ValueBeforeOption => "An option has to be the first argument passed"@,
            SyntaxFault::UnboundValue { query_bound, path_bound } => if !query_bound
                && !path_bound {
                "The query option (--query, -q) and path option (--path, -p) are not followed by a non-option value"@
            } else if !query_bound {
                "The query option (--query, -q) is not followed by a non-option value"@
            } else {
                "The path option (--path, -p) is not followed by a non-option value"@
            },
            SyntaxFault::IncompatibleOptions { rule } => rule.detail(),
        }
    }

    /// The whole line of the report: the problem, framed by the common
    /// opening and the pointer to the help text.
    pub open spec fn message(self) -> Seq<char> {
        "Invalid syntax. "@ + self.detail()
            + ". Use \"--help\" or \"-h\" to see options and syntax."@
    }
}

impl PathError {
    /// The line of the report.
    pub open spec fn message_text(self) -> Seq<char> {
        match self {
            PathError::NotFound =>
                "Path error. The path given is not valid because the path cannot be found."@,
            PathError::PermissionDenied =>
                "Path error. The path given is not valid because permission was denied."@,
            PathError::Inaccessible => "Path error. The lozgrep cannot access the specified path"@,
        }
    }

    /// The line that reports this error.
    pub fn message(&self) -> (text: String)
        ensures
            text@ == self.message_text(),
    {
        match self {
            PathError::NotFound => String::from_str(
                "Path error. The path given is not valid because the path cannot be found.",
            ),
            PathError::PermissionDenied => String::from_str(
                "Path error. The path given is not valid because permission was denied.",
            ),
            PathError::Inaccessible => String::from_str(
                "Path error. The lozgrep cannot access the specified path",
            ),
        }
    }
}

impl ConfigFault {
    /// The line of the report.
    pub open spec fn message(self) -> Seq<char> {
        match self {
            ConfigFault::Syntax(fault) => fault.message(),
            ConfigFault::Path(error) => error.message_text(),
        }
    }
}

/// The spellings of the given options, each pair as `long short` followed by
/// a space.
fn write_pairs(pairs: &Vec<OptionId>) -> (text: String)
    ensures
        text@ == pairs_text(pairs@),
{
    let mut text = String::new();
    let mut i: usize = 0;
    while i < pairs.len()
        invariant
            i <= pairs.len(),
            text@ == pairs_text(pairs@.take(i as int)),
        decreases pairs.len() - i,
    {
        text.append(pairs[i].long_name());
        text.append(" ");
        text.append(pairs[i].short_name());
        text.append(" ");
        proof {
            let next = pairs@.take(i + 1);
            assert(next.drop_last() =~= pairs@.take(i as int));
            assert(next.last() == pairs@[i as int]);
        }
        i += 1;
    }
    proof {
        pairs@.lemma_take_len();
    }
    text
}

impl SyntaxError {
    /// The part of the report that names the problem.
    fn describe(&self) -> (text: String)
        ensures
            text@ == self@.detail(),
    {
        match self {
            SyntaxError::ArgumentCount { count } => if *count == 0 {
                String::from_str("Zero arguments were passed")
            } else {
                String::from_str("Too many arguments were passed")
            },
            SyntaxError::UnknownOption { tokens } => {
                let listed = join(tokens, ", ");
                let opening = if tokens.len() == 1 {
                    String::from_str("An unknown option was passed: ")
                } else {
                    String::from_str("Unknown options were passed: ")
                };
                opening.concat(listed.as_str())
            },
            SyntaxError::DuplicateOption { options } => {
                let listed = join(options, ", ");
                String::from_str("Duplicated options were passed: ").concat(listed.as_str())
            },
            SyntaxError::AliasConflict { pairs } => {
                let listed = write_pairs(pairs);
                String::from_str("Duplicate options were passed: ").concat(listed.as_str())
            },
            SyntaxError::MissingValue { query, path } => if *query && *path {
                String::from_str(
                    "The query (--query, -q) and path (--path, -p) options require a non-option value to follow it",
                )
            } else if *query {
                String::from_str(
                    "The query (--query, -q) option requires a non-option value to follow it",
                )
            } else {
                String::from_str(
                    "The path (--path, -p) option requires a non-option value to follow it",
                )
            },
            SyntaxError::TooFewValues { value } => String::from_str(
                "Too few non-option values were passed: ",
            ).concat(value.as_str()),
            SyntaxError::TooManyValues { values } => {
                let listed = join(values, ", ");
                String::from_str("Too many non-option values were passed: ").concat(
                    listed.as_str(),
                )
            },
            SyntaxError::ValueBeforeOption => String::from_str(
                "An option has to be the first argument passed",
            ),
            SyntaxError::UnboundValue { query_bound, path_bound } => if !*query_bound
                && !*path_bound {
                String::from_str(
                    "The query option (--query, -q) and path option (--path, -p) are not followed by a non-option value",
                )
            } else if !*query_bound {
                String::from_str(
                    "The query option (--query, -q) is not followed by a non-option value",
                )
            } else {
                String::from_str(
                    "The path option (--path, -p) is not followed by a non-option value",
                )
            },
            SyntaxError::IncompatibleOptions { rule } => String::from_str(rule.describe()),
        }
    }

    /// The line that reports this error.
    pub fn message(&self) -> (text: String)
        ensures
            text@ == self@.message(),
    {
        let detail = self.describe();
        String::from_str("Invalid syntax. ").concat(detail.as_str()).concat(
            ". Use \"--help\" or \"-h\" to see options and syntax.",
        )
    }
}

impl ConfigError {
    /// The line that reports this error.
    pub fn message(&self) -> (text: String)
        ensures
            text@ == self@.message(),
    {
        match self {
            ConfigError::Syntax(error) => error.message(),
            ConfigError::Path(error) => error.message(),
        }
    }
}

} // verus!
