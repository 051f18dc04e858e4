//! Tokens of the argument list: how they are told apart, filtered and joined.
//!
//! A token is modelled by its sequence of characters, an argument list by the
//! sequence of its tokens (`deep_view` of a `Vec<String>`).

use vstd::prelude::*;

verus! {

/// The marker that opens every option token.
pub const OPTION_MARKER: char = '-';

/// A token is option-like when it starts with a dash: `-x`, `--xyz`, and
/// also `-` and `--` alone.
pub open spec fn is_option_like(token: Seq<char>) -> bool {
    token.len() > 0 && token[0] == OPTION_MARKER
}

/// The predicate that keeps option-like tokens.
pub open spec fn option_like() -> spec_fn(Seq<char>) -> bool {
    |token: Seq<char>| is_option_like(token)
}

/// The predicate that keeps the tokens that are not option-like.
pub open spec fn value_like() -> spec_fn(Seq<char>) -> bool {
    |token: Seq<char>| !is_option_like(token)
}

/// The option-like tokens of an argument list, in the order of the list.
pub open spec fn option_candidates(args: Seq<Seq<char>>) -> Seq<Seq<char>> {
    args.filter(option_like())
}

/// The tokens of an argument list that are not option-like, in the order
/// of the list.
pub open spec fn value_candidates(args: Seq<Seq<char>>) -> Seq<Seq<char>> {
    args.filter(value_like())
}

/// The parts of a list written one after the other, with `separator`
/// between each two neighbours.
pub open spec fn joined(parts: Seq<Seq<char>>, separator: Seq<char>) -> Seq<char>
    decreases parts.len(),
{
    if parts.len() == 0 {
        Seq::empty()
    } else if parts.len() == 1 {
        parts[0]
    } else {
        joined(parts.drop_last(), separator) + separator + parts.last()
    }
}

/// Whether the token starts with a dash.
pub fn is_option_token(token: &String) -> (b: bool)
    ensures
        b == is_option_like(token@),
{
    let text = token.as_str();
    !text.is_empty() && text.get_char(0) == OPTION_MARKER
}

/// Whether `text` and `token` hold the same characters.
pub fn same_text(token: &String, text: &str) -> (b: bool)
    ensures
        b == (token@ == text@),
{
    let owned = text.to_string();
    *token == owned
}

/// Whether `text` occurs among `tokens`.
pub fn contains_token(tokens: &Vec<String>, text: &str) -> (b: bool)
    ensures
        b == tokens.deep_view().contains(text@),
{
    let wanted = text.to_string();
    let mut i: usize = 0;
    while i < tokens.len()
        invariant
            i <= tokens.len(),
            wanted@ == text@,
            forall|j: int| 0 <= j < i ==> tokens.deep_view()[j] != text@,
        decreases tokens.len() - i,
    {
        if tokens[i] == wanted {
            assert(tokens.deep_view()[i as int] == text@);
            return true;
        }
        i += 1;
    }
    false
}

/// The option-like tokens of `args`, in order.
pub fn collect_options(args: &Vec<String>) -> (options: Vec<String>)
    ensures
        options.deep_view() == option_candidates(args.deep_view()),
{
    let mut options: Vec<String> = Vec::new();
    let mut i: usize = 0;
    while i < args.len()
        invariant
            i <= args.len(),
            options.deep_view() == option_candidates(args.deep_view().take(i as int)),
        decreases args.len() - i,
    {
        let ghost before = options.deep_view();
        if is_option_token(&args[i]) {
            options.push(args[i].clone());
            assert(options.deep_view() =~= before.push(args.deep_view()[i as int]));
        }
        proof {
            let all = args.deep_view();
            all.lemma_take_succ_push(i as int);
            all.take(i as int).lemma_filter_push(all[i as int], option_like());
        }
        i += 1;
    }
    proof {
        args.deep_view().lemma_take_len();
    }
    options
}

/// The tokens of `args` that are not option-like, in order.
pub fn collect_values(args: &Vec<String>) -> (values: Vec<String>)
    ensures
        values.deep_view() == value_candidates(args.deep_view()),
{
    let mut values: Vec<String> = Vec::new();
    let mut i: usize = 0;
    while i < args.len()
        invariant
            i <= args.len(),
            values.deep_view() == value_candidates(args.deep_view().take(i as int)),
        decreases args.len() - i,
    {
        let ghost before = values.deep_view();
        if !is_option_token(&args[i]) {
            values.push(args[i].clone());
            assert(values.deep_view() =~= before.push(args.deep_view()[i as int]));
        }
        proof {
            let all = args.deep_view();
            all.lemma_take_succ_push(i as int);
            all.take(i as int).lemma_filter_push(all[i as int], value_like());
        }
        i += 1;
    }
    proof {
        args.deep_view().lemma_take_len();
    }
    values
}

/// The tokens written one after the other with `separator` between them.
pub fn join(parts: &Vec<String>, separator: &str) -> (text: String)
    ensures
        text@ == joined(parts.deep_view(), separator@),
{
    let mut text = String::new();
    let mut i: usize = 0;
    while i < parts.len()
        invariant
            i <= parts.len(),
            text@ == joined(parts.deep_view().take(i as int), separator@),
        decreases parts.len() - i,
    {
        if i > 0 {
            text.append(separator);
        }
        text.append(parts[i].as_str());
        proof {
            let all = parts.deep_view();
            let next = all.take(i + 1);
            assert(next.drop_last() =~= all.take(i as int));
            assert(next.last() == all[i as int]);
        }
        i += 1;
    }
    proof {
        parts.deep_view().lemma_take_len();
    }
    text
}

} // verus!
