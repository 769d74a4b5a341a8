//! The arguments a script is started with.
//!
//! They are the values of the request parameters named `args` or `args[]`,
//! those of the query string first, then those of the form body, each group
//! in the order in which it was sent.

use vstd::prelude::*;

verus! {

/// A request parameter: its name and its value.
pub type Pair = (Seq<char>, Seq<char>);

/// Whether a parameter of this name is an argument of the script.
pub open spec fn is_arg_key(key: Seq<char>) -> bool {
    key == "args"@ || key == "args[]"@
}

/// The values of the parameters that are arguments, in order.
pub open spec fn arg_values(pairs: Seq<Pair>) -> Seq<Seq<char>> {
    pairs.filter(|pair: Pair| is_arg_key(pair.0)).map_values(|pair: Pair| pair.1)
}

/// The argument vector of a request with these query and form parameters.
pub open spec fn argument_vector(query: Seq<Pair>, form: Seq<Pair>) -> Seq<Seq<char>> {
    arg_values(query + form)
}

/// One more parameter adds its value if it is an argument, and nothing
/// otherwise.
pub proof fn lemma_arg_values_push(pairs: Seq<Pair>, pair: Pair)
    ensures
        is_arg_key(pair.0) ==> arg_values(pairs.push(pair)) == arg_values(pairs).push(pair.1),
        !is_arg_key(pair.0) ==> arg_values(pairs.push(pair)) == arg_values(pairs),
{
    reveal(Seq::filter);
    assert(pairs.push(pair).drop_last() =~= pairs);
}

/// The arguments of two groups of parameters are those of the first group,
/// then those of the second.
pub proof fn lemma_arg_values_concat(first: Seq<Pair>, second: Seq<Pair>)
    ensures
        arg_values(first + second) == arg_values(first) + arg_values(second),
    decreases second.len(),
{
    if second.len() == 0 {
        reveal(Seq::filter);
    } else {
        let init = second.drop_last();
        lemma_arg_values_concat(first, init);
        lemma_arg_values_push(first + init, second.last());
        lemma_arg_values_push(init, second.last());
    }
}

/// Appends to `args` the values of those of `pairs` that are arguments.
fn collect_args(pairs: &Vec<(String, String)>, args: &mut Vec<String>)
    ensures
        final(args).deep_view() == old(args).deep_view() + arg_values(pairs.deep_view()),
{
    let plain = "args".to_owned();
    let bracketed = "args[]".to_owned();
    let mut i: usize = 0;
    proof {
        reveal(Seq::filter);
    }
    while i < pairs.len()
        invariant
            i <= pairs.len(),
            plain@ == "args"@,
            bracketed@ == "args[]"@,
            args.deep_view() == old(args).deep_view() + arg_values(
                pairs.deep_view().take(i as int),
            ),
        decreases pairs.len() - i,
    {
        let ghost seen = pairs.deep_view().take(i as int);
        let ghost pair: Pair = (pairs[i as int].0@, pairs[i as int].1@);
        let ghost before = args.deep_view();
        proof {
            lemma_arg_values_push(seen, pair);
            assert(pairs.deep_view().take(i + 1) =~= seen.push(pair));
        }
        if pairs[i].0 == plain || pairs[i].0 == bracketed {
            args.push(pairs[i].1.clone());
            assert(args.deep_view() =~= before.push(pair.1));
        }
        i = i + 1;
    }
    assert(pairs.deep_view().take(i as int) =~= pairs.deep_view());
}

/// The argument vector of a request: the values of the parameters named
/// `args` or `args[]`, those of the query first, then those of the form, in
/// the order in which they stand. Parameters of any other name are left out.
pub fn extract_args(query: &Vec<(String, String)>, form: &Vec<(String, String)>) -> (args: Vec<
    String,
>)
    ensures
        args.deep_view() == argument_vector(query.deep_view(), form.deep_view()),
        args.deep_view() == arg_values(query.deep_view()) + arg_values(form.deep_view()),
{
    let mut args: Vec<String> = Vec::new();
    collect_args(query, &mut args);
    collect_args(form, &mut args);
    proof {
        lemma_arg_values_concat(query.deep_view(), form.deep_view());
    }
    args
}

} // verus!
