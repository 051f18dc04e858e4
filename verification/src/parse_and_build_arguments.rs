//! The pipeline that turns an argument list into a configuration: length
//! guard, option validator, value validator, positional binder, escape
//! decoder, path validator, compatibility checker and configuration
//! builder, in this order.

use vstd::prelude::*;
use vstd::hash_set::StringHashSet;
use crate::errors::{outcome, CompatibilityRule, ConfigError, PathError, SyntaxError};
use crate::grammar::{
    aliases_checked, bound_after, compatibility_checked, configured, conflict_in,
    has_exact_duplicate, length_checked, options_checked, outside, path_checked, probed_path,
    query_and_path, running_configuration, text_of, unescaped, unknown_options, values_bound,
    values_checked, Configuration, ESCAPE_MARKER, MAX_ARGUMENTS,
};
use crate::probe::{PathKind, PathProbe};
use crate::tokens::{
    collect_options, collect_values, contains_token, is_option_like, same_text,
    value_candidates, value_like,
};
use crate::vocabulary::{long_option, option_present, possible_options, table_view, OptionId};

verus! {

/// The configuration of a run: one flag for each option, and the two
/// values. Where no value was given, both items hold `null`.
#[derive(Debug, PartialEq, Eq)]
pub struct Options {
    pub help: bool,
    pub version: bool,
    pub verbose: bool,
    pub query: bool,
    pub path: bool,
    pub simple_grep: bool,
    pub simple_find: bool,
    pub query_item: String,
    pub path_item: String,
}

impl View for Options {
    type V = Configuration;

    open spec fn view(&self) -> Configuration {
        Configuration {
            help: self.help,
            version: self.version,
            verbose: self.verbose,
            query: self.query,
            path: self.path,
            simple_grep: self.simple_grep,
            simple_find: self.simple_find,
            query_item: self.query_item@,
            path_item: self.path_item@,
        }
    }
}

impl DeepView for Options {
    type V = Configuration;

    open spec fn deep_view(&self) -> Configuration {
        self@
    }
}

impl Options {
    /// Configuration builder: sets each flag when the option occurs among
    /// `build_options` in either spelling, and takes the two values as
    /// they are.
    pub fn build_options(build_options: Vec<String>, build_query: String, build_path: String) -> (built:
        Options)
        ensures
            built@ == configured(build_options.deep_view(), build_query@, build_path@),
    {
        Options {
            help: option_present(&build_options, OptionId::Help),
            version: option_present(&build_options, OptionId::Version),
            verbose: option_present(&build_options, OptionId::Verbose),
            query: option_present(&build_options, OptionId::Query),
            path: option_present(&build_options, OptionId::Path),
            simple_grep: option_present(&build_options, OptionId::SimpleGrep),
            simple_find: option_present(&build_options, OptionId::SimpleFind),
            query_item: build_query,
            path_item: build_path,
        }
    }
}

/// Length guard: accepts between one and [`MAX_ARGUMENTS`] arguments.
pub fn verify_argument_length(args: &Vec<String>) -> (result: Result<(), SyntaxError>)
    ensures
        outcome(result) == length_checked(args.len() as nat),
        args.len() == 0 ==> result is Err,
{
    if args.len() == 0 || args.len() > MAX_ARGUMENTS {
        return Err(SyntaxError::ArgumentCount { count: args.len() });
    }
    Ok(())
}

/// Whether some option was written more than once: there are fewer
/// distinct tokens among `options` than tokens.
pub fn check_for_exact_duplicate_options(options: &Vec<String>) -> (duplicated: bool)
    ensures
        duplicated == has_exact_duplicate(options.deep_view()),
        duplicated == !options.deep_view().no_duplicates(),
{
    let ghost all = options.deep_view();
    let mut distinct = StringHashSet::new();
    let mut i: usize = 0;
    assert(all.take(0).to_set() =~= Set::<Seq<char>>::empty());
    while i < options.len()
        invariant
            i <= options.len(),
            all == options.deep_view(),
            distinct@ == all.take(i as int).to_set(),
        decreases options.len() - i,
    {
        distinct.insert(options[i].clone());
        proof {
            all.lemma_take_succ_push(i as int);
            all.take(i as int).lemma_push_to_set_commute(all[i as int]);
        }
        i += 1;
    }
    proof {
        all.lemma_take_len();
        if all.no_duplicates() {
            all.unique_seq_to_set();
        }
        if all.len() == all.to_set().len() {
            all.lemma_no_dup_set_cardinality();
        }
    }
    options.len() != distinct.len()
}

/// The check for options given in both spellings. For every long
/// spelling among `options`, in order, looks for the short spelling of
/// the same option; fails with the options found that way.
pub fn check_for_logically_duplicate_options(options: &Vec<String>) -> (result: Result<
    (),
    SyntaxError,
>)
    ensures
        outcome(result) == aliases_checked(options.deep_view()),
{
    let ghost all = options.deep_view();
    let mut pairs: Vec<OptionId> = Vec::new();
    let mut i: usize = 0;
    while i < options.len()
        invariant
            i <= options.len(),
            all == options.deep_view(),
            pairs@ == all.take(i as int).filter_map(conflict_in(all)),
        decreases options.len() - i,
    {
        let ghost before = pairs@;
        match long_option(&options[i]) {
            Some(id) => {
                if contains_token(options, id.short_name()) {
                    pairs.push(id);
                    assert(pairs@ =~= before + seq![id]);
                }
            },
            None => {},
        }
        proof {
            assert(all[i as int] == options[i as int]@);
            all.lemma_filter_map_take_succ(conflict_in(all), i as int);
            assert(pairs@ =~= all.take(i + 1).filter_map(conflict_in(all)));
        }
        i += 1;
    }
    proof {
        all.lemma_take_len();
    }
    if pairs.len() > 0 {
        return Err(SyntaxError::AliasConflict { pairs });
    }
    Ok(())
}

/// Whether `token` is an entry of `table`.
fn in_table(token: &String, table: &[&str; 14]) -> (found: bool)
    ensures
        found == table_view(table).contains(token@),
{
    let mut i: usize = 0;
    while i < 14
        invariant
            i <= 14,
            forall|j: int| 0 <= j < i ==> table_view(table)[j] != token@,
        decreases 14 - i,
    {
        if same_text(token, table[i]) {
            assert(table_view(table)[i as int] == token@);
            return true;
        }
        i += 1;
    }
    false
}

/// Option classifier and validator. Keeps the option-like tokens of
/// `args` in their order and checks them: each must be an entry of
/// `possible_options`, none may occur twice, and no option may come in
/// both spellings. The first of these checks that fails decides the
/// error.
pub fn verify_options_are_valid(args: &Vec<String>, possible_options: &[&str; 14]) -> (result:
    Result<Vec<String>, SyntaxError>)
    ensures
        outcome(result) == options_checked(args.deep_view(), table_view(possible_options)),
{
    let filtered_options = collect_options(args);
    let ghost candidates = filtered_options.deep_view();
    let ghost accepted = table_view(possible_options);
    let mut bad_options: Vec<String> = Vec::new();
    let mut i: usize = 0;
    while i < filtered_options.len()
        invariant
            i <= filtered_options.len(),
            candidates == filtered_options.deep_view(),
            accepted == table_view(possible_options),
            bad_options.deep_view() == unknown_options(candidates.take(i as int), accepted),
        decreases filtered_options.len() - i,
    {
        let ghost before = bad_options.deep_view();
        if !in_table(&filtered_options[i], possible_options) {
            bad_options.push(filtered_options[i].clone());
            assert(bad_options.deep_view() =~= before.push(candidates[i as int]));
        }
        proof {
            assert(candidates[i as int] == filtered_options[i as int]@);
            candidates.lemma_take_succ_push(i as int);
            candidates.take(i as int).lemma_filter_push(candidates[i as int], outside(accepted));
        }
        i += 1;
    }
    proof {
        candidates.lemma_take_len();
    }
    if bad_options.len() > 0 {
        return Err(SyntaxError::UnknownOption { tokens: bad_options });
    }
    if check_for_exact_duplicate_options(&filtered_options) {
        return Err(SyntaxError::DuplicateOption { options: filtered_options });
    }
    match check_for_logically_duplicate_options(&filtered_options) {
        Ok(_) => Ok(filtered_options),
        Err(error) => Err(error),
    }
}

/// Value validator. Keeps the tokens of `args` that are not option-like,
/// in their order. No value is accepted only when `validated_options`
/// asks for neither query nor path; otherwise there must be exactly two.
pub fn verify_values_are_valid(args: &Vec<String>, validated_options: &Vec<String>) -> (result:
    Result<Vec<String>, SyntaxError>)
    ensures
        outcome(result) == values_checked(args.deep_view(), validated_options.deep_view()),
{
    let mut filtered_values = collect_values(args);
    let query_present = option_present(validated_options, OptionId::Query);
    let path_present = option_present(validated_options, OptionId::Path);
    if filtered_values.len() == 0 && (query_present || path_present) {
        return Err(SyntaxError::MissingValue { query: query_present, path: path_present });
    }
    if filtered_values.len() == 1 {
        assert(filtered_values.deep_view()[0] == filtered_values[0]@);
        let value = filtered_values.remove(0);
        return Err(SyntaxError::TooFewValues { value });
    }
    if filtered_values.len() > 2 {
        return Err(SyntaxError::TooManyValues { values: filtered_values });
    }
    Ok(filtered_values)
}

/// A token of `args` is one of its value candidates exactly when it is not
/// option-like.
proof fn value_candidates_hold(args: Seq<Seq<char>>, at: int)
    requires
        0 <= at < args.len(),
    ensures
        value_candidates(args).contains(args[at]) <==> !is_option_like(args[at]),
{
    let values = value_candidates(args);
    if !is_option_like(args[at]) {
        args.lemma_filter_contains(value_like(), at);
    }
    if values.contains(args[at]) {
        let j = choose|j: int| 0 <= j < values.len() && values[j] == args[at];
        args.lemma_filter_pred(value_like(), j);
    }
}

/// Positional binder. Walks `args` and gives each of the two `values` the
/// role that the token directly before it names: the value after the query
/// option is the query, the value after the path option is the path.
///
/// Fails with `ValueBeforeOption` when a value opens the list, and with
/// `UnboundValue` when a value follows anything but the query or the path
/// option. On success the result is `(query, path)`.
pub fn bind_values(args: &Vec<String>, values: &Vec<String>) -> (result: Result<
    (String, String),
    SyntaxError,
>)
    requires
        values.len() == 2,
        values.deep_view() == value_candidates(args.deep_view()),
    ensures
        outcome(result) == values_bound(args.deep_view()),
{
    let ghost all = args.deep_view();
    proof {
        if args.len() == 0 {
            reveal(Seq::filter);
        }
        value_candidates_hold(all, 0);
        assert(values.deep_view()[0] == values[0]@);
        assert(values.deep_view()[1] == values[1]@);
    }
    if args[0] == values[0] || args[0] == values[1] {
        return Err(SyntaxError::ValueBeforeOption);
    }
    let mut query = String::new();
    let mut path = String::new();
    let mut query_bound = false;
    let mut path_bound = false;
    let mut unbound_seen = false;
    let mut count: usize = 1;
    assert(bound_after(all, 1) == bound_after(all, 0)) by {
        reveal_with_fuel(bound_after, 2);
    }
    while count < args.len()
        invariant
            1 <= count <= args.len(),
            values.len() == 2,
            all == args.deep_view(),
            values.deep_view() == value_candidates(all),
            query_bound == (bound_after(all, count as int).query is Some),
            path_bound == (bound_after(all, count as int).path is Some),
            unbound_seen == (bound_after(all, count as int).unbound > 0),
            query_bound ==> bound_after(all, count as int).query == Some(query@),
            path_bound ==> bound_after(all, count as int).path == Some(path@),
            !query_bound ==> query@.len() == 0,
            !path_bound ==> path@.len() == 0,
        decreases args.len() - count,
    {
        proof {
            value_candidates_hold(all, count as int);
            assert(values.deep_view()[0] == values[0]@);
            assert(values.deep_view()[1] == values[1]@);
            assert(all[count as int] == args[count as int]@);
            assert(all[count - 1] == args[count - 1]@);
        }
        if args[count] == values[0] || args[count] == values[1] {
            if OptionId::Query.is_spelled_by(&args[count - 1]) {
                query = args[count].clone();
                query_bound = true;
            } else if OptionId::Path.is_spelled_by(&args[count - 1]) {
                path = args[count].clone();
                path_bound = true;
            } else {
                unbound_seen = true;
            }
        }
        count += 1;
    }
    if unbound_seen {
        return Err(SyntaxError::UnboundValue { query_bound, path_bound });
    }
    assert(query@ =~= text_of(bound_after(all, all.len() as int).query));
    assert(path@ =~= text_of(bound_after(all, all.len() as int).path));
    Ok((query, path))
}

/// Escape decoder: takes one leading escape marker off the query, so that
/// a query may start with a dash. A query that is to start with the marker
/// itself has to double it.
pub fn decode_escape(query: String) -> (decoded: String)
    ensures
        decoded@ == unescaped(query@),
{
    let text = query.as_str();
    if !text.is_empty() && text.get_char(0) == ESCAPE_MARKER {
        let length = text.unicode_len();
        let rest = text.substring_char(1, length);
        assert(rest@ =~= query@.drop_first());
        rest.to_string()
    } else {
        query
    }
}

/// Path validator: reads what the file system answered about the bound
/// path. A path that was found passes, with the kind of what it names; the
/// three kinds of failure map to the three path errors.
pub fn validate_path(probe: &PathProbe) -> (result: Result<PathKind, PathError>)
    ensures
        result == path_checked(*probe),
{
    match probe {
        PathProbe::Found(kind) => Ok(*kind),
        PathProbe::NotFound => Err(PathError::NotFound),
        PathProbe::PermissionDenied => Err(PathError::PermissionDenied),
        PathProbe::Failed => Err(PathError::Inaccessible),
    }
}

/// Binds the two values to their roles, checks that the path can be used
/// and decodes the query. `probe` is the file system's answer for the path
/// that [`bind_values`] binds. On success the result is `(query, path)`.
pub fn parse_path_and_query(args: &Vec<String>, values: &Vec<String>, probe: &PathProbe) -> (result:
    Result<(String, String), ConfigError>)
    requires
        values.len() == 2,
        values.deep_view() == value_candidates(args.deep_view()),
    ensures
        outcome(result) == query_and_path(args.deep_view(), *probe),
{
    let (query, path) = match bind_values(args, values) {
        Ok(bound) => bound,
        Err(error) => {
            return Err(ConfigError::Syntax(error));
        },
    };
    match validate_path(probe) {
        Ok(_) => {},
        Err(error) => {
            return Err(ConfigError::Path(error));
        },
    }
    Ok((decode_escape(query), path))
}

/// Compatibility checker. `kind` says what the path names. The rules, in
/// order: content search and name search exclude each other; neither may be
/// asked for when query and path are both absent; content search needs a
/// path that is no directory; name search needs a path that is no plain
/// file.
pub fn check_if_the_given_options_work_together(
    validated_options: &Vec<String>,
    valid_query: &String,
    valid_path: &String,
    kind: PathKind,
) -> (result: Result<(), SyntaxError>)
    ensures
        outcome(result) == compatibility_checked(
            validated_options.deep_view(),
            valid_query@,
            valid_path@,
            kind,
        ),
{
    let grep = option_present(validated_options, OptionId::SimpleGrep);
    let find = option_present(validated_options, OptionId::SimpleFind);
    if grep && find {
        return Err(SyntaxError::IncompatibleOptions { rule: CompatibilityRule::ExclusiveModes });
    }
    if same_text(valid_query, "null") && same_text(valid_path, "null") && (grep || find) {
        return Err(
            SyntaxError::IncompatibleOptions { rule: CompatibilityRule::ModeWithoutValues },
        );
    }
    if grep {
        match kind {
            PathKind::Directory => {
                return Err(
                    SyntaxError::IncompatibleOptions { rule: CompatibilityRule::GrepOnDirectory },
                );
            },
            _ => {},
        }
    }
    if find {
        match kind {
            PathKind::File => {
                return Err(
                    SyntaxError::IncompatibleOptions { rule: CompatibilityRule::FindOnFile },
                );
            },
            _ => {},
        }
    }
    Ok(())
}

/// The path that a run on these arguments has to ask the file system
/// about: the bound path, when the length guard, the two validators and
/// the binder all pass and values were given. Otherwise the run ends, or
/// succeeds, without looking at any path.
pub fn path_to_probe(collected_arguments: &Vec<String>) -> (path: Option<String>)
    ensures
        path.deep_view() == probed_path(collected_arguments.deep_view()),
{
    if verify_argument_length(collected_arguments).is_err() {
        return None;
    }
    let possible = possible_options();
    let validated_options = match verify_options_are_valid(collected_arguments, &possible) {
        Ok(options) => options,
        Err(_) => {
            return None;
        },
    };
    let validated_values = match verify_values_are_valid(collected_arguments, &validated_options) {
        Ok(values) => values,
        Err(_) => {
            return None;
        },
    };
    if validated_values.len() == 0 {
        return None;
    }
    match bind_values(collected_arguments, &validated_values) {
        Ok((_, path)) => Some(path),
        Err(_) => None,
    }
}

/// A whole run of the pipeline on the arguments of the program (without
/// its name). `probe` is the file system's answer for the path that
/// [`path_to_probe`] names; where that names none, `probe` is not read.
///
/// The stages run in their fixed order and the first fault ends the run.
pub fn build_running_configuration(collected_arguments: &Vec<String>, probe: &PathProbe) -> (result:
    Result<Options, ConfigError>)
    ensures
        outcome(result) == running_configuration(collected_arguments.deep_view(), *probe),
        collected_arguments.len() == 0 ==> result is Err,
{
    match verify_argument_length(collected_arguments) {
        Ok(_) => {},
        Err(error) => {
            return Err(ConfigError::Syntax(error));
        },
    }
    let possible = possible_options();
    let validated_options = match verify_options_are_valid(collected_arguments, &possible) {
        Ok(options) => options,
        Err(error) => {
            return Err(ConfigError::Syntax(error));
        },
    };
    let validated_values = match verify_values_are_valid(collected_arguments, &validated_options) {
        Ok(values) => values,
        Err(error) => {
            return Err(ConfigError::Syntax(error));
        },
    };
    if validated_values.len() == 0 {
        let null_query = "null".to_string();
        let null_path = "null".to_string();
        match check_if_the_given_options_work_together(
            &validated_options,
            &null_query,
            &null_path,
            PathKind::Other,
        ) {
            Ok(_) => {},
            Err(error) => {
                return Err(ConfigError::Syntax(error));
            },
        }
        Ok(Options::build_options(validated_options, null_query, null_path))
    } else {
        let (valid_query, valid_path) = match parse_path_and_query(
            collected_arguments,
            &validated_values,
            probe,
        ) {
            Ok(bound) => bound,
            Err(error) => {
                return Err(error);
            },
        };
        match check_if_the_given_options_work_together(
            &validated_options,
            &valid_query,
            &valid_path,
            probe.found_kind(),
        ) {
            Ok(_) => {},
            Err(error) => {
                return Err(ConfigError::Syntax(error));
            },
        }
        Ok(Options::build_options(validated_options, valid_query, valid_path))
    }
}

} // verus!
