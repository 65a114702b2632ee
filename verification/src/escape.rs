use vstd::prelude::*;

verus! {

broadcast use vstd::string::group_string_axioms;

/// The one failure this library reports: the escape interpreter was asked to
/// resolve a string it cannot parse (a malformed backslash sequence).
#[derive(Clone, Copy, Debug, PartialEq, Eq, Structural)]
pub enum EchoError {
    EscapeParse,
}

/// The error snailquote's unescaper reports on a malformed escape sequence.
#[verifier::external_type_specification]
#[verifier::external_body]
pub struct ExUnescapeError(snailquote::UnescapeError);

/// What snailquote's unescaper makes of a quoted string: `Some` of the
/// unescaped characters when the string parses, `None` when it reports an
/// error. The result is a function of the input characters alone.
pub uninterp spec fn unescape_of(s: Seq<char>) -> Option<Seq<char>>;

/// Relies on snailquote::unescape: it resolves quoting and backslash escape
/// sequences in its input, errs exactly on malformed escapes, and computes
/// its result from the input characters alone.
#[verifier::external_body]
fn unescape_raw(s: &String) -> (r: Result<String, snailquote::UnescapeError>)
    ensures
        r is Ok <==> unescape_of(s@) is Some,
        r is Ok ==> r->Ok_0@ == unescape_of(s@)->Some_0,
{
    snailquote::unescape(s.as_str())
}

/// The given characters wrapped in one pair of double quotes.
pub open spec fn quoted_spec(s: Seq<char>) -> Seq<char> {
    seq!['"'] + s + seq!['"']
}

/// Wrap a string in double quotes, marking the whole of it as one
/// double-quoted region for the escape interpreter.
pub fn quote_wrap(s: &str) -> (r: String)
    ensures
        r@ == quoted_spec(s@),
{
    let mut out = String::from_str("\"");
    out.append(s);
    out.append("\"");
    proof {
        reveal_strlit("\"");
        assert(out@ =~= quoted_spec(s@));
    }
    out
}

/// Resolve backslash escape sequences in the joined argument string: the
/// string is treated as one double-quoted region and unescaped. A malformed
/// escape is the one error, and it comes exactly when the unescaper rejects
/// the quoted string.
pub fn resolve_escapes(joined: &String) -> (r: Result<String, EchoError>)
    ensures
        r is Ok <==> unescape_of(quoted_spec(joined@)) is Some,
        r is Ok ==> r->Ok_0@ == unescape_of(quoted_spec(joined@))->Some_0,
        r is Err ==> r->Err_0 == EchoError::EscapeParse,
{
    let quoted = quote_wrap(joined.as_str());
    match unescape_raw(&quoted) {
        Ok(unescaped) => Ok(unescaped),
        Err(_) => Err(EchoError::EscapeParse),
    }
}

} // verus!
