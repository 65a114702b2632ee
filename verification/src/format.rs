use vstd::prelude::*;
use crate::escape::{resolve_escapes, quoted_spec, unescape_of, EchoError};
use crate::invocation::{Invocation, InvocationView};
use crate::join::{join_args, join_spec};
use crate::parse::{cli_tokens, parse_argv, parse_spec};

verus! {

broadcast use vstd::string::group_string_axioms;

/// The line ending the formatter appends: nothing when the newline is
/// suppressed, one newline character otherwise.
pub open spec fn line_ending_spec(suppress_newline: bool) -> Seq<char> {
    if suppress_newline {
        Seq::empty()
    } else {
        seq!['\n']
    }
}

/// The body of the output, before the line ending: the joined positional
/// arguments, passed through the escape interpreter exactly when the
/// invocation asks for it. `None` marks an escape-parse failure, which can
/// only arise when escapes are interpreted.
pub open spec fn body_spec(inv: InvocationView) -> Option<Seq<char>> {
    let joined = join_spec(inv.positional_args);
    if inv.interpret_escapes {
        unescape_of(quoted_spec(joined))
    } else {
        Some(joined)
    }
}

/// Everything the formatter writes for an invocation: the body followed by
/// the conditional line ending, or `None` on an escape-parse failure.
pub open spec fn output_spec(inv: InvocationView) -> Option<Seq<char>> {
    match body_spec(inv) {
        Some(body) => Some(body + line_ending_spec(inv.suppress_newline)),
        None => None,
    }
}

/// Append the conditional line ending to a finished body.
pub fn append_line_ending(body: String, suppress_newline: bool) -> (r: String)
    ensures
        r@ == body@ + line_ending_spec(suppress_newline),
{
    if suppress_newline {
        proof {
            assert(body@ + line_ending_spec(true) =~= body@);
        }
        body
    } else {
        let mut out = body;
        out.append("\n");
        proof {
            reveal_strlit("\n");
            assert("\n"@ =~= seq!['\n']);
        }
        out
    }
}

/// Format one invocation: join the positional arguments with single spaces,
/// interpret backslash escapes exactly when `-e` was given, and append a
/// newline exactly when `-n` was not. The one error is a malformed escape,
/// and it comes exactly when escapes are interpreted and the unescaper
/// rejects the joined string.
pub fn format_echo(inv: &Invocation) -> (r: Result<String, EchoError>)
    ensures
        r is Ok <==> output_spec(inv@) is Some,
        r is Ok ==> r->Ok_0@ == output_spec(inv@)->Some_0,
        r is Err ==> r->Err_0 == EchoError::EscapeParse,
{
    let joined = join_args(&inv.positional_args);
    let body = if inv.interpret_escapes {
        match resolve_escapes(&joined) {
            Ok(unescaped) => unescaped,
            Err(e) => {
                return Err(e);
            },
        }
    } else {
        joined
    };
    Ok(append_line_ending(body, inv.suppress_newline))
}

/// Run the whole pipeline on an argument vector (program name first): parse,
/// join, optionally unescape, and append the line ending.
pub fn echo_argv(argv: &Vec<String>) -> (r: Result<String, EchoError>)
    ensures
        r is Ok <==> output_spec(parse_spec(cli_tokens(argv.deep_view()))) is Some,
        r is Ok ==> r->Ok_0@ == output_spec(parse_spec(cli_tokens(argv.deep_view())))->Some_0,
        r is Err ==> r->Err_0 == EchoError::EscapeParse,
{
    let inv = parse_argv(argv);
    format_echo(&inv)
}

/// The formatter is a pure function of the invocation: two runs on the same
/// invocation, each meeting the formatter's contract, fail alike and produce
/// byte-identical output.
pub proof fn lemma_formatter_deterministic(
    inv: InvocationView,
    r1: Option<Seq<char>>,
    r2: Option<Seq<char>>,
)
    requires
        r1 == output_spec(inv),
        r2 == output_spec(inv),
    ensures
        r1 == r2,
{
}

/// When escapes are not interpreted, the output is exactly the joined
/// arguments plus the line ending: every backslash sequence in the input
/// passes through unmodified, and no failure is possible.
pub proof fn lemma_no_escape_passthrough(inv: InvocationView)
    requires
        !inv.interpret_escapes,
    ensures
        output_spec(inv) == Some(join_spec(inv.positional_args) + line_ending_spec(
            inv.suppress_newline,
        )),
{
}

} // verus!
