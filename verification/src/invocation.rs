use vstd::prelude::*;

verus! {

/// The mathematical model of a parsed command line: the two flag states and
/// the positional arguments, each argument a sequence of characters in the
/// order it was given.
pub ghost struct InvocationView {
    pub suppress_newline: bool,
    pub interpret_escapes: bool,
    pub positional_args: Seq<Seq<char>>,
}

/// The parsed command-line state. `suppress_newline` records a `-n` token,
/// `interpret_escapes` records a `-e` token, and `positional_args` holds
/// every other token, in the order given.
pub struct Invocation {
    pub suppress_newline: bool,
    pub interpret_escapes: bool,
    pub positional_args: Vec<String>,
}

impl View for Invocation {
    type V = InvocationView;

    open spec fn view(&self) -> InvocationView {
        InvocationView {
            suppress_newline: self.suppress_newline,
            interpret_escapes: self.interpret_escapes,
            positional_args: self.positional_args.deep_view(),
        }
    }
}

} // verus!
