use vstd::prelude::*;
use crate::invocation::{Invocation, InvocationView};

verus! {

broadcast use vstd::string::group_string_axioms;

/// A token sets the newline-suppressing flag exactly when it is the
/// two-character token `-n`.
pub open spec fn is_flag_n(token: Seq<char>) -> bool {
    token == "-n"@
}

/// A token sets the escape-interpreting flag exactly when it is the
/// two-character token `-e`.
pub open spec fn is_flag_e(token: Seq<char>) -> bool {
    token == "-e"@
}

/// A token is consumed as a flag exactly when it is `-n` or `-e`; every
/// other token, hyphen-prefixed or not, is positional data.
pub open spec fn is_flag(token: Seq<char>) -> bool {
    is_flag_n(token) || is_flag_e(token)
}

/// The positional arguments among the given tokens: everything that is not
/// a flag token, in the order given.
pub open spec fn positionals_of(tokens: Seq<Seq<char>>) -> Seq<Seq<char>>
    decreases tokens.len(),
{
    if tokens.len() == 0 {
        Seq::empty()
    } else if is_flag(tokens.last()) {
        positionals_of(tokens.drop_last())
    } else {
        positionals_of(tokens.drop_last()).push(tokens.last())
    }
}

/// The parse of a token sequence (the raw arguments with the program name
/// already removed): each flag is set exactly when its token occurs
/// somewhere among the tokens, and the rest are positional, in order.
pub open spec fn parse_spec(tokens: Seq<Seq<char>>) -> InvocationView {
    InvocationView {
        suppress_newline: exists|i: int| 0 <= i < tokens.len() && is_flag_n(#[trigger] tokens[i]),
        interpret_escapes: exists|i: int| 0 <= i < tokens.len() && is_flag_e(#[trigger] tokens[i]),
        positional_args: positionals_of(tokens),
    }
}

/// The tokens a command line hands the parser: everything after the leading
/// program name.
pub open spec fn cli_tokens(argv: Seq<Seq<char>>) -> Seq<Seq<char>> {
    if argv.len() == 0 {
        argv
    } else {
        argv.drop_first()
    }
}

/// Tokens that are not flag tokens pass through the parser untouched: when
/// no token is exactly `-n` or `-e`, the positional arguments are the whole
/// token sequence, unknown hyphen-prefixed tokens included.
pub proof fn lemma_unknown_tokens_are_positional(tokens: Seq<Seq<char>>)
    requires
        forall|i: int| 0 <= i < tokens.len() ==> !is_flag(#[trigger] tokens[i]),
    ensures
        positionals_of(tokens) == tokens,
    decreases tokens.len(),
{
    if tokens.len() == 0 {
        assert(positionals_of(tokens) =~= tokens);
    } else {
        lemma_unknown_tokens_are_positional(tokens.drop_last());
        assert(tokens.drop_last().push(tokens.last()) =~= tokens);
    }
}

/// Scan raw tokens (program name already removed) into an `Invocation`:
/// `-n` and `-e` are recognized by exact token match, anywhere among the
/// tokens; every other token is a positional argument, in the order given.
pub fn parse_tokens(tokens: &Vec<String>) -> (r: Invocation)
    ensures
        r@ == parse_spec(tokens.deep_view()),
{
    let flag_n: String = String::from_str("-n");
    let flag_e: String = String::from_str("-e");
    let mut suppress_newline = false;
    let mut interpret_escapes = false;
    let mut positional_args: Vec<String> = Vec::new();
    let mut i: usize = 0;
    proof {
        assert(positional_args.deep_view() =~= positionals_of(
            tokens.deep_view().subrange(0, 0),
        ));
    }
    while i < tokens.len()
        invariant
            i <= tokens.len(),
            flag_n@ == "-n"@,
            flag_e@ == "-e"@,
            suppress_newline == exists|j: int|
                0 <= j < i && is_flag_n(#[trigger] tokens.deep_view()[j]),
            interpret_escapes == exists|j: int|
                0 <= j < i && is_flag_e(#[trigger] tokens.deep_view()[j]),
            positional_args.deep_view() == positionals_of(
                tokens.deep_view().subrange(0, i as int),
            ),
        decreases tokens.len() - i,
    {
        let ghost dv = tokens.deep_view();
        let token = &tokens[i];
        proof {
            reveal_strlit("-n");
            reveal_strlit("-e");
            assert("-n"@[1] == 'n' && "-e"@[1] == 'e');
            assert(dv[i as int] == token@);
            assert(dv.subrange(0, i + 1).drop_last() =~= dv.subrange(0, i as int));
            assert(dv.subrange(0, i + 1).last() == dv[i as int]);
        }
        if *token == flag_n {
            suppress_newline = true;
        } else if *token == flag_e {
            interpret_escapes = true;
        } else {
            let ghost old_positionals = positional_args.deep_view();
            positional_args.push(token.clone());
            proof {
                assert(positional_args.deep_view() =~= old_positionals.push(token@));
            }
        }
        i = i + 1;
    }
    proof {
        assert(tokens.deep_view().subrange(0, tokens.len() as int) =~= tokens.deep_view());
    }
    Invocation { suppress_newline, interpret_escapes, positional_args }
}

/// Parse a full argument vector as handed to a process: the first element
/// is the program name and is skipped; the remaining tokens are scanned as
/// `parse_tokens` does.
pub fn parse_argv(argv: &Vec<String>) -> (r: Invocation)
    ensures
        r@ == parse_spec(cli_tokens(argv.deep_view())),
{
    let mut tokens: Vec<String> = Vec::new();
    let mut i: usize = 1;
    proof {
        if argv.deep_view().len() > 0 {
            assert(tokens.deep_view() =~= argv.deep_view().subrange(1, 1));
        }
    }
    while i < argv.len()
        invariant
            1 <= i,
            i <= argv.len() || i == 1,
            argv.len() > 0 ==> tokens.deep_view() == argv.deep_view().subrange(1, i as int),
            argv.len() == 0 ==> tokens.deep_view() == Seq::<Seq<char>>::empty(),
        decreases argv.len() - i,
    {
        let ghost old_tokens = tokens.deep_view();
        tokens.push(argv[i].clone());
        proof {
            assert(tokens.deep_view() =~= old_tokens.push(argv.deep_view()[i as int]));
            assert(argv.deep_view().subrange(1, i as int).push(argv.deep_view()[i as int])
                =~= argv.deep_view().subrange(1, i + 1));
        }
        i = i + 1;
    }
    proof {
        if argv.deep_view().len() > 0 {
            assert(argv.deep_view().subrange(1, argv.len() as int) =~= cli_tokens(
                argv.deep_view(),
            ));
        } else {
            assert(tokens.deep_view() =~= cli_tokens(argv.deep_view()));
        }
    }
    parse_tokens(&tokens)
}

} // verus!
