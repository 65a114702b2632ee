use vstd::prelude::*;

verus! {

/// The joined form of a sequence of arguments: the arguments in order, with
/// exactly one ASCII space between consecutive elements, no leading or
/// trailing space. The empty sequence joins to the empty string.
pub open spec fn join_spec(args: Seq<Seq<char>>) -> Seq<char>
    decreases args.len(),
{
    if args.len() == 0 {
        Seq::empty()
    } else if args.len() == 1 {
        args[0]
    } else {
        args[0] + seq![' '] + join_spec(args.drop_first())
    }
}

/// Appending one more argument extends the joined string by a separating
/// space (when anything precedes it) and the argument itself.
pub proof fn lemma_join_push(args: Seq<Seq<char>>, arg: Seq<char>)
    ensures
        join_spec(args.push(arg)) == if args.len() == 0 {
            arg
        } else {
            join_spec(args) + seq![' '] + arg
        },
    decreases args.len(),
{
    let p = args.push(arg);
    if args.len() == 0 {
        assert(p.len() == 1);
        assert(p[0] == arg);
    } else if args.len() == 1 {
        assert(p.drop_first() =~= seq![arg]);
        assert(join_spec(seq![arg]) == arg);
        assert(join_spec(p) == p[0] + seq![' '] + join_spec(p.drop_first()));
        assert(p[0] == args[0]);
    } else {
        assert(p.drop_first() =~= args.drop_first().push(arg));
        lemma_join_push(args.drop_first(), arg);
        assert(join_spec(p) == p[0] + seq![' '] + join_spec(p.drop_first()));
        assert(p[0] == args[0]);
        let d = join_spec(args.drop_first());
        assert((args[0] + seq![' ']) + ((d + seq![' ']) + arg) =~= (((args[0] + seq![' ']) + d)
            + seq![' ']) + arg);
    }
}

/// The fields of a string split on single spaces: every space is a
/// separator, and the fields are what stands between them. The empty string
/// has one empty field, so the result is never empty.
pub open spec fn split_spaces(s: Seq<char>) -> Seq<Seq<char>>
    decreases s.len(),
{
    if s.len() == 0 {
        seq![Seq::<char>::empty()]
    } else if s[0] == ' ' {
        seq![Seq::<char>::empty()] + split_spaces(s.drop_first())
    } else {
        let rest = split_spaces(s.drop_first());
        seq![seq![s[0]] + rest[0]] + rest.drop_first()
    }
}

/// A string without a space is one whole field.
proof fn lemma_split_no_space(s: Seq<char>)
    requires
        !s.contains(' '),
    ensures
        split_spaces(s) == seq![s],
    decreases s.len(),
{
    if s.len() == 0 {
        assert(split_spaces(s) =~~= seq![s]);
    } else {
        assert(s[0] != ' ');
        assert(!s.drop_first().contains(' ')) by {
            if s.drop_first().contains(' ') {
                let j = choose|j: int| 0 <= j < s.drop_first().len() && s.drop_first()[j] == ' ';
                assert(s[j + 1] == ' ');
            }
        }
        lemma_split_no_space(s.drop_first());
        let rest = split_spaces(s.drop_first());
        assert(rest[0] == s.drop_first());
        assert(seq![s[0]] + s.drop_first() =~= s);
        assert(split_spaces(s) =~~= seq![s]);
    }
}

/// Splitting a string that starts with one space-free field and a space
/// peels that field off the front.
proof fn lemma_split_prefix(field: Seq<char>, tail: Seq<char>)
    requires
        !field.contains(' '),
    ensures
        split_spaces(field + seq![' '] + tail) == seq![field] + split_spaces(tail),
    decreases field.len(),
{
    let s = field + seq![' '] + tail;
    if field.len() == 0 {
        assert(s =~= seq![' '] + tail);
        assert(s[0] == ' ');
        assert(s.drop_first() =~= tail);
        assert(split_spaces(s) =~~= seq![field] + split_spaces(tail));
    } else {
        assert(s[0] == field[0]);
        assert(field.contains(' ') <== field[0] == ' ');
        assert(s[0] != ' ');
        assert(!field.drop_first().contains(' ')) by {
            if field.drop_first().contains(' ') {
                let j = choose|j: int|
                    0 <= j < field.drop_first().len() && field.drop_first()[j] == ' ';
                assert(field[j + 1] == ' ');
            }
        }
        assert(s.drop_first() =~= field.drop_first() + seq![' '] + tail);
        lemma_split_prefix(field.drop_first(), tail);
        let rest = split_spaces(s.drop_first());
        assert(rest == seq![field.drop_first()] + split_spaces(tail));
        assert(rest[0] == field.drop_first());
        assert(rest.drop_first() =~~= split_spaces(tail));
        assert(seq![s[0]] + rest[0] =~= field);
        assert(split_spaces(s) =~~= seq![field] + split_spaces(tail));
    }
}

/// Joining with single spaces is inverted by splitting on single spaces:
/// for a non-empty argument sequence in which no argument itself contains a
/// space, splitting the joined string recovers the arguments exactly. (The
/// empty sequence is left out: it joins to the empty string, which splits
/// to one empty field.)
pub proof fn lemma_join_split_inverse(args: Seq<Seq<char>>)
    requires
        args.len() > 0,
        forall|i: int| 0 <= i < args.len() ==> !(#[trigger] args[i]).contains(' '),
    ensures
        split_spaces(join_spec(args)) == args,
    decreases args.len(),
{
    if args.len() == 1 {
        lemma_split_no_space(args[0]);
        assert(split_spaces(join_spec(args)) =~~= args);
    } else {
        lemma_split_prefix(args[0], join_spec(args.drop_first()));
        lemma_join_split_inverse(args.drop_first());
        assert(seq![args[0]] + args.drop_first() =~~= args);
    }
}

/// Concatenate the arguments into one string, inserting exactly one space
/// between consecutive elements.
pub fn join_args(args: &Vec<String>) -> (r: String)
    ensures
        r@ == join_spec(args.deep_view()),
{
    let mut out = String::new();
    let mut i: usize = 0;
    proof {
        reveal_strlit(" ");
        assert(args.deep_view().subrange(0, 0) =~= Seq::<Seq<char>>::empty());
    }
    while i < args.len()
        invariant
            i <= args.len(),
            out@ == join_spec(args.deep_view().subrange(0, i as int)),
        decreases args.len() - i,
    {
        let ghost dv = args.deep_view();
        let ghost prefix = dv.subrange(0, i as int);
        if i > 0 {
            out.append(" ");
        }
        out.append(args[i].as_str());
        proof {
            reveal_strlit(" ");
            lemma_join_push(prefix, dv[i as int]);
            assert(dv[i as int] == args@[i as int]@);
            assert(" "@ =~= seq![' ']);
            if i == 0 {
                assert(out@ =~= join_spec(prefix.push(dv[i as int])));
            } else {
                assert(out@ == join_spec(prefix) + " "@ + dv[i as int]);
            }
            assert(prefix.push(dv[i as int]) =~= dv.subrange(0, i + 1));
        }
        i = i + 1;
    }
    proof {
        assert(args.deep_view().subrange(0, args.len() as int) =~= args.deep_view());
    }
    out
}

} // verus!
