//! The command grammar as mathematics: what each stage of the pipeline
//! accepts, what it rejects and with which fault, and what a whole run
//! yields. The executable stages are specified against these functions.

use vstd::prelude::*;
use crate::errors::{CompatibilityRule, ConfigFault, PathError, SyntaxFault};
use crate::probe::{PathKind, PathProbe};
use crate::tokens::{is_option_like, option_candidates, value_candidates};
use crate::vocabulary::{has_option, long_spelling_of, vocabulary, OptionId};

verus! {

/// The largest number of arguments a run accepts.
pub const MAX_ARGUMENTS: usize = 20;

/// The character that protects a query from being read as an option.
pub const ESCAPE_MARKER: char = '/';

/// What stands for a query or a path that was not given.
pub open spec fn absent() -> Seq<char> {
    "null"@
}

/// Length guard: a run needs at least one argument and at most
/// [`MAX_ARGUMENTS`].
pub open spec fn length_checked(count: nat) -> Result<(), SyntaxFault> {
    if count == 0 || count > MAX_ARGUMENTS {
        Err(SyntaxFault::ArgumentCount { count })
    } else {
        Ok(())
    }
}

/// The predicate that keeps the tokens that `accepted` does not hold.
pub open spec fn outside(accepted: Seq<Seq<char>>) -> spec_fn(Seq<char>) -> bool {
    |token: Seq<char>| !accepted.contains(token)
}

/// The option candidates that `accepted` does not hold, in order.
pub open spec fn unknown_options(candidates: Seq<Seq<char>>, accepted: Seq<Seq<char>>) -> Seq<
    Seq<char>,
> {
    candidates.filter(outside(accepted))
}

/// Whether some token occurs more than once: there are fewer distinct
/// tokens than tokens.
pub open spec fn has_exact_duplicate(candidates: Seq<Seq<char>>) -> bool {
    candidates.len() != candidates.to_set().len()
}

/// The option that `token` spells in its long form while `options` also
/// holds the short form, if there is such an option.
pub open spec fn conflict_of(options: Seq<Seq<char>>, token: Seq<char>) -> Option<OptionId> {
    match long_spelling_of(token) {
        Some(id) => if options.contains(id.short_form()) {
            Some(id)
        } else {
            None
        },
        None => None,
    }
}

/// The function that maps a token to the conflict it takes part in.
pub open spec fn conflict_in(options: Seq<Seq<char>>) -> spec_fn(Seq<char>) -> Option<OptionId> {
    |token: Seq<char>| conflict_of(options, token)
}

/// The options given in both spellings, in the order of their long forms.
pub open spec fn alias_conflicts(options: Seq<Seq<char>>) -> Seq<OptionId> {
    options.filter_map(conflict_in(options))
}

/// The check for options given in both spellings: fails with the list of
/// those options when there is one.
pub open spec fn aliases_checked(options: Seq<Seq<char>>) -> Result<(), SyntaxFault> {
    let conflicts = alias_conflicts(options);
    if conflicts.len() > 0 {
        Err(SyntaxFault::AliasConflict { pairs: conflicts })
    } else {
        Ok(())
    }
}

/// Option classifier and validator: the option candidates of `args`, unless
/// one is unknown, one is repeated, or an option comes in both spellings.
pub open spec fn options_checked(args: Seq<Seq<char>>, accepted: Seq<Seq<char>>) -> Result<
    Seq<Seq<char>>,
    SyntaxFault,
> {
    let candidates = option_candidates(args);
    let unknown = unknown_options(candidates, accepted);
    if unknown.len() > 0 {
        Err(SyntaxFault::UnknownOption { tokens: unknown })
    } else if has_exact_duplicate(candidates) {
        Err(SyntaxFault::DuplicateOption { options: candidates })
    } else {
        match aliases_checked(candidates) {
            Err(fault) => Err(fault),
            Ok(_) => Ok(candidates),
        }
    }
}

/// Value validator: the value candidates of `args`, which must be none
/// (and then neither query nor path may be asked for) or exactly two.
pub open spec fn values_checked(args: Seq<Seq<char>>, options: Seq<Seq<char>>) -> Result<
    Seq<Seq<char>>,
    SyntaxFault,
> {
    let values = value_candidates(args);
    let query = has_option(options, OptionId::Query);
    let path = has_option(options, OptionId::Path);
    if values.len() == 0 && (query || path) {
        Err(SyntaxFault::MissingValue { query, path })
    } else if values.len() == 1 {
        Err(SyntaxFault::TooFewValues { value: values[0] })
    } else if values.len() > 2 {
        Err(SyntaxFault::TooManyValues { values })
    } else {
        Ok(values)
    }
}

/// What a scan of the argument list has bound so far.
pub struct Binding {
    /// The value that follows the query option, once one was seen.
    pub query: Option<Seq<char>>,
    /// The value that follows the path option, once one was seen.
    pub path: Option<Seq<char>>,
    /// How many values followed neither.
    pub unbound: nat,
}

/// The binding after the first `upto` positions of `args`: each value is
/// given the role that the token directly before it names.
pub open spec fn bound_after(args: Seq<Seq<char>>, upto: int) -> Binding
    decreases upto,
{
    if upto <= 0 {
        Binding { query: None, path: None, unbound: 0 }
    } else {
        let before = bound_after(args, upto - 1);
        let at = upto - 1;
        if at == 0 || is_option_like(args[at]) {
            before
        } else if OptionId::Query.spelled_by(args[at - 1]) {
            Binding { query: Some(args[at]), ..before }
        } else if OptionId::Path.spelled_by(args[at - 1]) {
            Binding { path: Some(args[at]), ..before }
        } else {
            Binding { unbound: before.unbound + 1, ..before }
        }
    }
}

/// The text of a role: the value bound to it, or nothing.
pub open spec fn text_of(bound: Option<Seq<char>>) -> Seq<char> {
    match bound {
        Some(value) => value,
        None => Seq::empty(),
    }
}

/// Positional binder: the query and the path of `args`, in this order.
/// A value may not open the list, and each value must follow the query
/// or the path option directly.
pub open spec fn values_bound(args: Seq<Seq<char>>) -> Result<(Seq<char>, Seq<char>), SyntaxFault> {
    let binding = bound_after(args, args.len() as int);
    if args.len() > 0 && !is_option_like(args[0]) {
        Err(SyntaxFault::ValueBeforeOption)
    } else if binding.unbound > 0 {
        Err(
            SyntaxFault::UnboundValue {
                query_bound: binding.query is Some,
                path_bound: binding.path is Some,
            },
        )
    } else {
        Ok((text_of(binding.query), text_of(binding.path)))
    }
}

/// Escape decoder: the query without one leading escape marker.
pub open spec fn unescaped(query: Seq<char>) -> Seq<char> {
    if query.len() > 0 && query[0] == ESCAPE_MARKER {
        query.drop_first()
    } else {
        query
    }
}

/// Path validator: the kind of the thing found, or why the path cannot be
/// used.
pub open spec fn path_checked(probe: PathProbe) -> Result<PathKind, PathError> {
    match probe {
        PathProbe::Found(kind) => Ok(kind),
        PathProbe::NotFound => Err(PathError::NotFound),
        PathProbe::PermissionDenied => Err(PathError::PermissionDenied),
        PathProbe::Failed => Err(PathError::Inaccessible),
    }
}

/// Compatibility checker: the first rule that the options break, if any.
/// `kind` says what the path names.
pub open spec fn broken_rule(
    options: Seq<Seq<char>>,
    query: Seq<char>,
    path: Seq<char>,
    kind: PathKind,
) -> Option<CompatibilityRule> {
    let grep = has_option(options, OptionId::SimpleGrep);
    let find = has_option(options, OptionId::SimpleFind);
    if grep && find {
        Some(CompatibilityRule::ExclusiveModes)
    } else if query == absent() && path == absent() && (grep || find) {
        Some(CompatibilityRule::ModeWithoutValues)
    } else if grep && kind == PathKind::Directory {
        Some(CompatibilityRule::GrepOnDirectory)
    } else if find && kind == PathKind::File {
        Some(CompatibilityRule::FindOnFile)
    } else {
        None
    }
}

/// The configuration of a run: one flag for each option, and the two
/// values.
pub struct Configuration {
    pub help: bool,
    pub version: bool,
    pub verbose: bool,
    pub query: bool,
    pub path: bool,
    pub simple_grep: bool,
    pub simple_find: bool,
    pub query_item: Seq<char>,
    pub path_item: Seq<char>,
}

/// Configuration builder: each flag says whether the option was given in
/// either spelling; the values are taken as they are.
pub open spec fn configured(options: Seq<Seq<char>>, query: Seq<char>, path: Seq<char>)
    -> Configuration {
    Configuration {
        help: has_option(options, OptionId::Help),
        version: has_option(options, OptionId::Version),
        verbose: has_option(options, OptionId::Verbose),
        query: has_option(options, OptionId::Query),
        path: has_option(options, OptionId::Path),
        simple_grep: has_option(options, OptionId::SimpleGrep),
        simple_find: has_option(options, OptionId::SimpleFind),
        query_item: query,
        path_item: path,
    }
}

/// Compatibility checker as a gate: fails with the first rule that the
/// options break.
pub open spec fn compatibility_checked(
    options: Seq<Seq<char>>,
    query: Seq<char>,
    path: Seq<char>,
    kind: PathKind,
) -> Result<(), SyntaxFault> {
    match broken_rule(options, query, path, kind) {
        Some(rule) => Err(SyntaxFault::IncompatibleOptions { rule }),
        None => Ok(()),
    }
}

/// The last two stages: the options must work together, then the
/// configuration is built.
pub open spec fn assembled(
    options: Seq<Seq<char>>,
    query: Seq<char>,
    path: Seq<char>,
    kind: PathKind,
) -> Result<Configuration, ConfigFault> {
    match compatibility_checked(options, query, path, kind) {
        Err(fault) => Err(ConfigFault::Syntax(fault)),
        Ok(_) => Ok(configured(options, query, path)),
    }
}

/// Binder, path validator and escape decoder in a row: the decoded query
/// and the path of `args`, where `probe` says that the path can be used.
pub open spec fn query_and_path(args: Seq<Seq<char>>, probe: PathProbe) -> Result<
    (Seq<char>, Seq<char>),
    ConfigFault,
> {
    match values_bound(args) {
        Err(fault) => Err(ConfigFault::Syntax(fault)),
        Ok((query, path)) => match path_checked(probe) {
            Err(error) => Err(ConfigFault::Path(error)),
            Ok(_) => Ok((unescaped(query), path)),
        },
    }
}

/// A whole run: the stages in their fixed order, the first fault wins.
/// `probe` is what the file system says about the bound path; it is read
/// only when the binder has bound one.
pub open spec fn running_configuration(args: Seq<Seq<char>>, probe: PathProbe) -> Result<
    Configuration,
    ConfigFault,
> {
    match length_checked(args.len()) {
        Err(fault) => Err(ConfigFault::Syntax(fault)),
        Ok(_) => match options_checked(args, vocabulary()) {
            Err(fault) => Err(ConfigFault::Syntax(fault)),
            Ok(options) => match values_checked(args, options) {
                Err(fault) => Err(ConfigFault::Syntax(fault)),
                Ok(values) => if values.len() == 0 {
                    assembled(options, absent(), absent(), PathKind::Other)
                } else {
                    match query_and_path(args, probe) {
                        Err(fault) => Err(fault),
                        Ok((query, path)) => assembled(options, query, path, probe.kind()),
                    }
                },
            },
        },
    }
}

/// The path whose metadata a run on `args` needs: the bound path, when the
/// stages before the path validator all pass and values were given.
pub open spec fn probed_path(args: Seq<Seq<char>>) -> Option<Seq<char>> {
    match length_checked(args.len()) {
        Err(_) => None,
        Ok(_) => match options_checked(args, vocabulary()) {
            Err(_) => None,
            Ok(options) => match values_checked(args, options) {
                Err(_) => None,
                Ok(values) => if values.len() == 0 {
                    None
                } else {
                    match values_bound(args) {
                        Err(_) => None,
                        Ok((_, path)) => Some(path),
                    }
                },
            },
        },
    }
}

} // verus!
