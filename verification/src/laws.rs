//! What holds of every run, proved from the grammar.

use vstd::prelude::*;
use vstd::seq_lib::{to_multiset_build, to_multiset_contains, to_multiset_len};
use crate::errors::{ConfigFault, SyntaxFault};
use crate::grammar::{
    absent, alias_conflicts, bound_after, configured, conflict_in, conflict_of,
    has_exact_duplicate, length_checked, options_checked, outside, probed_path,
    running_configuration, unescaped, unknown_options, Configuration, ESCAPE_MARKER,
    MAX_ARGUMENTS,
};
use crate::probe::{PathKind, PathProbe};
use crate::tokens::{is_option_like, option_candidates, option_like, value_candidates, value_like};
use crate::vocabulary::{has_option, vocabulary, vocabulary_is_distinct, OptionId};

verus! {

/// A filter keeps exactly the members that satisfy its predicate.
pub proof fn filter_membership<A>(list: Seq<A>, keep: spec_fn(A) -> bool, item: A)
    ensures
        list.filter(keep).contains(item) <==> list.contains(item) && keep(item),
{
    let kept = list.filter(keep);
    if kept.contains(item) {
        list.lemma_filter_contains_rev(keep, item);
        let j = choose|j: int| 0 <= j < kept.len() && kept[j] == item;
        list.lemma_filter_pred(keep, j);
    }
    if list.contains(item) && keep(item) {
        let i = choose|i: int| 0 <= i < list.len() && list[i] == item;
        list.lemma_filter_contains(keep, i);
    }
}

/// A filter keeps every occurrence of an item that satisfies its predicate
/// and none of any other.
pub proof fn filter_counts<A>(list: Seq<A>, keep: spec_fn(A) -> bool, item: A)
    ensures
        list.filter(keep).to_multiset().count(item) == if keep(item) {
            list.to_multiset().count(item)
        } else {
            0
        },
    decreases list.len(),
{
    broadcast use vstd::multiset::group_multiset_axioms;

    if list.len() == 0 {
        reveal(Seq::filter);
        assert(list.filter(keep) =~= list);
        to_multiset_len(list);
        assert(list.to_multiset().count(item) == 0) by {
            to_multiset_contains(list, item);
        }
    } else {
        let front = list.drop_last();
        let last = list.last();
        assert(list =~= front.push(last));
        filter_counts(front, keep, item);
        front.lemma_filter_push(last, keep);
        to_multiset_build(front, last);
        if keep(last) {
            to_multiset_build(front.filter(keep), last);
        }
    }
}

/// Lists with the same members, each as often, keep the same members, each
/// as often, under a filter.
pub proof fn filter_of_reordered<A>(first: Seq<A>, second: Seq<A>, keep: spec_fn(A) -> bool)
    requires
        first.to_multiset() == second.to_multiset(),
    ensures
        first.filter(keep).to_multiset() == second.filter(keep).to_multiset(),
{
    assert forall|item: A|
        first.filter(keep).to_multiset().count(item) == second.filter(keep).to_multiset().count(
            item,
        ) by {
        filter_counts(first, keep, item);
        filter_counts(second, keep, item);
    }
    assert(first.filter(keep).to_multiset() =~= second.filter(keep).to_multiset());
}

/// Lists with the same members, each as often, have the same length and
/// hold the same items.
pub proof fn reordered_lists_agree<A>(first: Seq<A>, second: Seq<A>)
    requires
        first.to_multiset() == second.to_multiset(),
    ensures
        first.len() == second.len(),
        forall|item: A| first.contains(item) == second.contains(item),
        first.to_set() == second.to_set(),
{
    to_multiset_len(first);
    to_multiset_len(second);
    assert forall|item: A| first.contains(item) == second.contains(item) by {
        to_multiset_contains(first, item);
        to_multiset_contains(second, item);
    }
    assert(first.to_set() =~= second.to_set());
}

/// An option is reported as a conflict exactly when both of its spellings
/// occur.
pub proof fn conflicts_are_double_spellings(options: Seq<Seq<char>>, id: OptionId)
    ensures
        alias_conflicts(options).contains(id) <==> options.contains(id.long_form())
            && options.contains(id.short_form()),
{
    vocabulary_is_distinct();
    let found = alias_conflicts(options);
    if found.contains(id) {
        options.lemma_filter_map_contains(conflict_in(options), id);
        let token = choose|token: Seq<char>| #[trigger]
            options.contains(token) && conflict_in(options)(token) == Some(id);
        assert(conflict_of(options, token) == Some(id));
        assert(token == id.long_form());
    }
    if options.contains(id.long_form()) && options.contains(id.short_form()) {
        let at = choose|at: int| 0 <= at < options.len() && options[at] == id.long_form();
        assert(conflict_of(options, options[at]) == Some(id));
        mapped_member_is_kept(options, conflict_in(options), at);
    }
}

/// What a member of a list is mapped to is a member of the mapped list.
proof fn mapped_member_is_kept<A, B>(list: Seq<A>, map: spec_fn(A) -> Option<B>, at: int)
    requires
        0 <= at < list.len(),
        map(list[at]) is Some,
    ensures
        list.filter_map(map).contains(map(list[at])->0),
    decreases list.len(),
{
    let front = list.drop_last();
    let mapped = list.filter_map(map);
    if at == list.len() - 1 {
        assert(mapped.last() == map(list[at])->0);
    } else {
        mapped_member_is_kept(front, map, at);
        let wanted = map(list[at])->0;
        let j = choose|j: int| 0 <= j < front.filter_map(map).len() && front.filter_map(map)[j]
            == wanted;
        assert(mapped[j] == wanted);
    }
}

/// An empty argument list is rejected for its length, whatever else holds.
pub proof fn no_arguments_are_rejected(args: Seq<Seq<char>>, probe: PathProbe)
    requires
        args.len() == 0,
    ensures
        running_configuration(args, probe) == Err::<Configuration, ConfigFault>(
            ConfigFault::Syntax(SyntaxFault::ArgumentCount { count: 0 }),
        ),
{
}

/// Among lists of accepted length, a run fails with `UnknownOption`
/// exactly when some option-like token is outside the vocabulary. The
/// error then holds exactly those tokens: each option-like token of the
/// list that the vocabulary lacks, and nothing else.
pub proof fn unknown_options_are_rejected(args: Seq<Seq<char>>, probe: PathProbe)
    requires
        1 <= args.len() <= MAX_ARGUMENTS,
    ensures
        (exists|at: int|
            0 <= at < args.len() && is_option_like(#[trigger] args[at]) && !vocabulary().contains(
                args[at],
            )) <==> (running_configuration(args, probe) matches Err(
            ConfigFault::Syntax(SyntaxFault::UnknownOption { .. }),
        )),
        running_configuration(args, probe) matches Err(
            ConfigFault::Syntax(SyntaxFault::UnknownOption { tokens }),
        ) ==> tokens.len() > 0 && forall|token: Seq<char>|
            #![trigger tokens.contains(token)]
            tokens.contains(token) <==> args.contains(token) && is_option_like(token)
                && !vocabulary().contains(token),
{
    let candidates = option_candidates(args);
    let unknown = unknown_options(candidates, vocabulary());
    assert forall|token: Seq<char>| #![trigger unknown.contains(token)]
        unknown.contains(token) <==> args.contains(token) && is_option_like(token)
            && !vocabulary().contains(token) by {
        unknown_membership(args, vocabulary(), token);
    }
    if unknown.len() > 0 {
        let token = unknown[0];
        assert(unknown.contains(token));
        unknown_membership(args, vocabulary(), token);
        let at = choose|at: int| 0 <= at < args.len() && args[at] == token;
        assert(is_option_like(args[at]) && !vocabulary().contains(args[at]));
    }
    if exists|at: int|
        0 <= at < args.len() && is_option_like(#[trigger] args[at]) && !vocabulary().contains(
            args[at],
        ) {
        let at = choose|at: int|
            0 <= at < args.len() && is_option_like(#[trigger] args[at]) && !vocabulary().contains(
                args[at],
            );
        assert(args.contains(args[at]));
        unknown_membership(args, vocabulary(), args[at]);
        assert(unknown.len() > 0);
    }
    assert(running_configuration(args, probe) matches Err(
        ConfigFault::Syntax(SyntaxFault::UnknownOption { tokens }),
    ) ==> tokens == unknown && unknown.len() > 0);
}

/// The unknown options of a list are its option-like tokens that are not
/// accepted.
proof fn unknown_membership(args: Seq<Seq<char>>, accepted: Seq<Seq<char>>, token: Seq<char>)
    ensures
        unknown_options(option_candidates(args), accepted).contains(token) <==> args.contains(
            token,
        ) && is_option_like(token) && !accepted.contains(token),
{
    filter_membership(option_candidates(args), outside(accepted), token);
    filter_membership(args, option_like(), token);
}

/// A list that holds both spellings of an option never yields a
/// configuration.
pub proof fn both_spellings_never_pass(args: Seq<Seq<char>>, probe: PathProbe, id: OptionId)
    requires
        args.contains(id.long_form()),
        args.contains(id.short_form()),
    ensures
        running_configuration(args, probe) is Err,
{
    both_spellings_reach_the_options(args, id);
    conflicts_are_double_spellings(option_candidates(args), id);
    assert(alias_conflicts(option_candidates(args)).len() > 0);
}

/// Both spellings of an option are option-like, so they are among the
/// option candidates of a list that holds them.
proof fn both_spellings_reach_the_options(args: Seq<Seq<char>>, id: OptionId)
    requires
        args.contains(id.long_form()),
        args.contains(id.short_form()),
    ensures
        option_candidates(args).contains(id.long_form()),
        option_candidates(args).contains(id.short_form()),
{
    vocabulary_is_distinct();
    filter_membership(args, option_like(), id.long_form());
    filter_membership(args, option_like(), id.short_form());
}

/// A list of accepted length whose option-like tokens are all known and
/// all different, and which holds both spellings of an option, fails with
/// `AliasConflict`, and the error names that option.
pub proof fn both_spellings_are_rejected(args: Seq<Seq<char>>, probe: PathProbe, id: OptionId)
    requires
        args.contains(id.long_form()),
        args.contains(id.short_form()),
        1 <= args.len() <= MAX_ARGUMENTS,
        unknown_options(option_candidates(args), vocabulary()).len() == 0,
        !has_exact_duplicate(option_candidates(args)),
    ensures
        running_configuration(args, probe) matches Err(
            ConfigFault::Syntax(SyntaxFault::AliasConflict { pairs }),
        ) && pairs.contains(id),
{
    both_spellings_reach_the_options(args, id);
    conflicts_are_double_spellings(option_candidates(args), id);
    assert(alias_conflicts(option_candidates(args)).len() > 0);
}

/// The order of the arguments does not matter to the length guard, to the
/// option validator or to the flags: two lists with the same tokens, each
/// as often, pass or fail these checks alike, with the same kind of
/// fault, and set the same flags.
pub proof fn order_does_not_change_the_options(
    first: Seq<Seq<char>>,
    second: Seq<Seq<char>>,
    accepted: Seq<Seq<char>>,
)
    requires
        first.to_multiset() == second.to_multiset(),
    ensures
        length_checked(first.len()) == length_checked(second.len()),
        options_checked(first, accepted) is Ok <==> options_checked(second, accepted) is Ok,
        options_checked(first, accepted) matches Err(SyntaxFault::UnknownOption { .. })
            <==> options_checked(second, accepted) matches Err(SyntaxFault::UnknownOption { .. }),
        options_checked(first, accepted) matches Err(SyntaxFault::DuplicateOption { .. })
            <==> options_checked(second, accepted) matches Err(
            SyntaxFault::DuplicateOption { .. },
        ),
        options_checked(first, accepted) matches Err(SyntaxFault::AliasConflict { .. })
            <==> options_checked(second, accepted) matches Err(SyntaxFault::AliasConflict { .. }),
        forall|id: OptionId|
            has_option(option_candidates(first), id) == has_option(option_candidates(second), id),
        forall|query: Seq<char>, path: Seq<char>|
            configured(option_candidates(first), query, path) == configured(
                option_candidates(second),
                query,
                path,
            ),
{
    let one = option_candidates(first);
    let two = option_candidates(second);
    reordered_lists_agree(first, second);
    filter_of_reordered(first, second, option_like());
    reordered_lists_agree(one, two);
    filter_of_reordered(one, two, outside(accepted));
    reordered_lists_agree(unknown_options(one, accepted), unknown_options(two, accepted));
    assert((alias_conflicts(one).len() > 0) == (alias_conflicts(two).len() > 0)) by {
        conflicts_follow_membership(one, two);
        conflicts_follow_membership(two, one);
    }
}

/// Where every token of one list of options occurs in another, every
/// conflict of the first is one of the second.
proof fn conflicts_follow_membership(one: Seq<Seq<char>>, two: Seq<Seq<char>>)
    requires
        forall|token: Seq<char>| one.contains(token) == two.contains(token),
    ensures
        alias_conflicts(one).len() > 0 ==> alias_conflicts(two).len() > 0,
{
    let found = alias_conflicts(one);
    if found.len() > 0 {
        let id = found[0];
        assert(found.contains(id));
        conflicts_are_double_spellings(one, id);
        conflicts_are_double_spellings(two, id);
        assert(alias_conflicts(two).contains(id));
    }
}

/// Decoding gives back any query that was protected by one escape marker
/// in front, also one that starts with the marker itself; a query without
/// the marker in front is left as it is.
pub proof fn escape_round_trip(query: Seq<char>)
    ensures
        unescaped(seq![ESCAPE_MARKER] + query) == query,
        !(query.len() > 0 && query[0] == ESCAPE_MARKER) ==> unescaped(query) == query,
{
    assert((seq![ESCAPE_MARKER] + query).drop_first() =~= query);
}

/// A filter that keeps two items keeps them from two places.
proof fn two_kept_from_two_places<A>(list: Seq<A>, keep: spec_fn(A) -> bool) -> (places: (int, int))
    requires
        list.filter(keep).len() >= 2,
    ensures
        0 <= places.0 < places.1 < list.len(),
        keep(list[places.0]),
        keep(list[places.1]),
    decreases list.len(),
{
    reveal(Seq::filter);
    let front = list.drop_last();
    if keep(list.last()) {
        let kept = front.filter(keep);
        assert(kept.contains(kept[0]));
        filter_membership(front, keep, kept[0]);
        let at = choose|at: int| 0 <= at < front.len() && front[at] == kept[0];
        (at, list.len() - 1)
    } else {
        two_kept_from_two_places(front, keep)
    }
}

/// A token that stands at two places of a list occurs at least twice in it.
proof fn two_places_count_twice<A>(list: Seq<A>, first: int, second: int)
    requires
        0 <= first < second < list.len(),
        list[first] == list[second],
    ensures
        list.to_multiset().count(list[first]) >= 2,
{
    broadcast use vstd::multiset::group_multiset_axioms;

    let head = list.subrange(0, second);
    let tail = list.subrange(second, list.len() as int);
    assert(list =~= head + tail);
    vstd::seq_lib::lemma_multiset_commutative(head, tail);
    assert(head[first] == list[first]);
    assert(head.contains(list[first]));
    assert(tail[0] == list[first]);
    assert(tail.contains(list[first]));
    to_multiset_contains(head, list[first]);
    to_multiset_contains(tail, list[first]);
}

/// In a list whose options passed the validator, an option is spelled at
/// one place at most.
proof fn valid_options_are_spelled_once(
    args: Seq<Seq<char>>,
    id: OptionId,
    first: int,
    second: int,
)
    requires
        options_checked(args, vocabulary()) is Ok,
        0 <= first < second < args.len(),
        id.spelled_by(args[first]),
    ensures
        !id.spelled_by(args[second]),
{
    let candidates = option_candidates(args);
    assert(args.contains(args[first]) && args.contains(args[second]));
    if !id.spelled_by(args[second]) {
    } else if args[first] == args[second] {
        let token = args[first];
        two_places_count_twice(args, first, second);
        filter_counts(args, option_like(), token);
        vocabulary_is_distinct();
        candidates.lemma_no_dup_set_cardinality();
        candidates.lemma_multiset_has_no_duplicates();
        to_multiset_contains(candidates, token);
    } else {
        assert(args.contains(id.long_form()) && args.contains(id.short_form()));
        both_spellings_reach_the_options(args, id);
        conflicts_are_double_spellings(candidates, id);
        assert(alias_conflicts(candidates).len() > 0);
    }
}

/// Whether the token at `at` is a value that directly follows a spelling
/// of `id`.
pub open spec fn follows(args: Seq<Seq<char>>, at: int, id: OptionId) -> bool {
    0 < at < args.len() && !is_option_like(args[at]) && id.spelled_by(args[at - 1])
}

/// What the scan of the binder amounts to. A role is bound exactly when
/// some value directly follows the option of that role, and then to such a
/// value; the scan counts no unbound value exactly when every value past
/// the first place follows the query or the path option.
pub proof fn binder_reads_the_token_before(args: Seq<Seq<char>>, upto: int)
    requires
        0 <= upto <= args.len(),
    ensures
        bound_after(args, upto).query matches Some(value) ==> exists|at: int|
            at < upto && #[trigger] follows(args, at, OptionId::Query) && value == args[at],
        bound_after(args, upto).query is None ==> forall|at: int|
            at < upto ==> !#[trigger] follows(args, at, OptionId::Query),
        bound_after(args, upto).path matches Some(value) ==> exists|at: int|
            at < upto && #[trigger] follows(args, at, OptionId::Path) && value == args[at],
        bound_after(args, upto).path is None ==> forall|at: int|
            at < upto && !follows(args, at, OptionId::Query) ==> !#[trigger] follows(
                args,
                at,
                OptionId::Path,
            ),
        bound_after(args, upto).unbound == 0 <==> forall|at: int|
            0 < at < upto && !is_option_like(#[trigger] args[at]) ==> follows(
                args,
                at,
                OptionId::Query,
            ) || follows(args, at, OptionId::Path),
    decreases upto,
{
    if upto > 0 {
        binder_reads_the_token_before(args, upto - 1);
        let at = upto - 1;
        let before = bound_after(args, upto - 1);
        let after = bound_after(args, upto);
        if at == 0 || is_option_like(args[at]) {
        } else if OptionId::Query.spelled_by(args[at - 1]) {
            assert(follows(args, at, OptionId::Query));
        } else if OptionId::Path.spelled_by(args[at - 1]) {
            assert(follows(args, at, OptionId::Path));
        } else {
            assert(!follows(args, at, OptionId::Query) && !follows(args, at, OptionId::Path));
        }
        if after.unbound == 0 {
            assert forall|other: int|
                0 < other < upto && !is_option_like(#[trigger] args[other]) implies follows(
                args,
                other,
                OptionId::Query,
            ) || follows(args, other, OptionId::Path) by {
                if other < at {
                    assert(before.unbound == 0);
                }
            }
        }
    }
}

/// What a successful run has established.
///
/// Content search and name search are never both set, and content search
/// is not pointed at a directory, nor name search at a plain file. The
/// query and the path flag are set together. Where they are not set, no
/// value was given, both items are absent and no search mode is set. Where
/// they are set, the file system found the path, the query item is the
/// decoded value that directly follows the query option, and the path item
/// is the value that directly follows the path option.
pub proof fn a_configuration_holds_what_was_bound(
    args: Seq<Seq<char>>,
    probe: PathProbe,
    config: Configuration,
)
    requires
        running_configuration(args, probe) == Ok::<Configuration, ConfigFault>(config),
    ensures
        !(config.simple_grep && config.simple_find),
        config.simple_grep ==> probe.kind() != PathKind::Directory,
        config.simple_find ==> probe.kind() != PathKind::File,
        config.query == config.path,
        !config.query ==> {
            &&& value_candidates(args).len() == 0
            &&& config.query_item == absent()
            &&& config.path_item == absent()
            &&& !config.simple_grep
            &&& !config.simple_find
        },
        config.query ==> {
            &&& value_candidates(args).len() == 2
            &&& probe is Found
            &&& exists|at: int| #[trigger]
                follows(args, at, OptionId::Query) && config.query_item == unescaped(args[at])
            &&& exists|at: int| #[trigger]
                follows(args, at, OptionId::Path) && config.path_item == args[at]
        },
{
    let options = option_candidates(args);
    let values = value_candidates(args);
    let length = args.len() as int;
    if values.len() == 2 {
        let (first, second) = two_kept_from_two_places(args, value_like());
        assert(is_option_like(args[0]));
        binder_reads_the_token_before(args, length);
        let binding = bound_after(args, length);
        assert(binding.unbound == 0);
        assert(follows(args, first, OptionId::Query) || follows(args, first, OptionId::Path));
        assert(follows(args, second, OptionId::Query) || follows(args, second, OptionId::Path));
        if follows(args, first, OptionId::Query) && follows(args, second, OptionId::Query) {
            valid_options_are_spelled_once(args, OptionId::Query, first - 1, second - 1);
        }
        if follows(args, first, OptionId::Path) && follows(args, second, OptionId::Path) {
            valid_options_are_spelled_once(args, OptionId::Path, first - 1, second - 1);
        }
        let query_at = if follows(args, first, OptionId::Query) {
            first
        } else {
            second
        };
        let path_at = if follows(args, first, OptionId::Path) {
            first
        } else {
            second
        };
        assert(follows(args, query_at, OptionId::Query));
        assert(follows(args, path_at, OptionId::Path));
        vocabulary_is_distinct();
        assert(args.contains(args[query_at - 1]) && args.contains(args[path_at - 1]));
        filter_membership(args, option_like(), args[query_at - 1]);
        filter_membership(args, option_like(), args[path_at - 1]);
        assert(has_option(options, OptionId::Query));
        assert(has_option(options, OptionId::Path));
    }
}

/// Where a run needs no path, what the file system says does not matter:
/// the run ends the same way under any two answers.
pub proof fn an_unread_probe_changes_nothing(
    args: Seq<Seq<char>>,
    one: PathProbe,
    other: PathProbe,
)
    requires
        probed_path(args) is None,
    ensures
        running_configuration(args, one) == running_configuration(args, other),
{
}

/// Where a run needs a path and succeeds, the path it asked about is the
/// path of the configuration, and the file system found it.
pub proof fn the_probed_path_is_the_configured_path(
    args: Seq<Seq<char>>,
    probe: PathProbe,
    config: Configuration,
)
    requires
        running_configuration(args, probe) == Ok::<Configuration, ConfigFault>(config),
        probed_path(args) is Some,
    ensures
        probed_path(args) == Some(config.path_item),
        probe is Found,
{
}

} // verus!
