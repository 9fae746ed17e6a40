//! Quoting of a command line for logs, in the style of a Unix shell.
//!
//! The quoting is for a reader of the log. It is never used to start a
//! process: an argument vector goes to the operating system as it is.

use vstd::prelude::*;
use vstd::std_specs::iter::IteratorSpec;

verus! {

broadcast use {vstd::string::next_postcondition, vstd::string::axiom_spec_iter};

/// The characters that get a backslash in front: blank, tab, line feed,
/// carriage return, backslash, and the two quote characters.
pub open spec fn needs_escape(c: char) -> bool {
    c == ' ' || c == '\t' || c == '\n' || c == '\r' || c == '\\' || c == '\'' || c == '"'
}

/// One argument with a backslash before each character that needs one.
pub open spec fn quoted_arg(s: Seq<char>) -> Seq<char>
    decreases s.len(),
{
    if s.len() == 0 {
        Seq::empty()
    } else if needs_escape(s.last()) {
        quoted_arg(s.drop_last()).push('\\').push(s.last())
    } else {
        quoted_arg(s.drop_last()).push(s.last())
    }
}

/// The parts in their order, with one blank between each two neighbours.
pub open spec fn joined_by_blank(parts: Seq<Seq<char>>) -> Seq<char>
    decreases parts.len(),
{
    if parts.len() == 0 {
        Seq::empty()
    } else if parts.len() == 1 {
        parts[0]
    } else {
        joined_by_blank(parts.drop_last()).push(' ') + parts.last()
    }
}

/// The text of each string of an argument vector.
pub open spec fn texts(argv: Seq<String>) -> Seq<Seq<char>> {
    argv.map_values(|s: String| s@)
}

/// The quoted command line: each argument quoted, joined by blanks.
pub open spec fn shell_quoted(argv: Seq<Seq<char>>) -> Seq<char> {
    joined_by_blank(argv.map_values(|s: Seq<char>| quoted_arg(s)))
}

/// `String::push` of std: the string afterwards is the string before with the
/// one character added at its end.
#[verifier::external_body]
fn push_char(s: &mut String, c: char)
    ensures
        final(s)@ == old(s)@.push(c),
{
    s.push(c)
}

fn is_escaped(c: char) -> (r: bool)
    ensures
        r == needs_escape(c),
{
    c == ' ' || c == '\t' || c == '\n' || c == '\r' || c == '\\' || c == '\'' || c == '"'
}

/// Appends the quoted form of `arg` to `out`.
fn push_quoted(out: &mut String, arg: &str)
    ensures
        final(out)@ == old(out)@ + quoted_arg(arg@),
{
    let ghost before = out@;
    let ghost mut done: int = 0;
    let mut rest = arg.chars();
    assert(arg@.take(0) =~= Seq::<char>::empty());
    assert(arg@.skip(0) =~= arg@);
    loop
        invariant
            0 <= done <= arg@.len(),
            before == old(out)@,
            rest.remaining() == arg@.skip(done),
            out@ == before + quoted_arg(arg@.take(done)),
        decreases arg@.len() - done,
    {
        match rest.next() {
            None => {
                assert(arg@.skip(done).len() == 0);
                assert(arg@.take(done) =~= arg@);
                return ;
            },
            Some(c) => {
                proof {
                    assert(c == arg@[done]);
                    assert(arg@.skip(done).drop_first() =~= arg@.skip(done + 1));
                    assert(arg@.take(done + 1).drop_last() =~= arg@.take(done));
                    assert(arg@.take(done + 1).last() == c);
                }
                if is_escaped(c) {
                    push_char(out, '\\');
                }
                push_char(out, c);
                proof {
                    done = done + 1;
                    assert(out@ =~= before + quoted_arg(arg@.take(done)));
                }
            },
        }
    }
}

/// Quote an argument vector in Unix shell style: a backslash before each
/// blank, tab, line break, backslash and quote character, and one blank
/// between the arguments.
pub fn cheap_shell_quote(argv: &[String]) -> (r: String)
    ensures
        r@ == shell_quoted(texts(argv@)),
{
    let mut out = String::new();
    let mut i: usize = 0;
    let ghost all = texts(argv@).map_values(|s: Seq<char>| quoted_arg(s));
    assert(all.take(0) =~= Seq::<Seq<char>>::empty());
    while i < argv.len()
        invariant
            0 <= i <= argv.len(),
            all == texts(argv@).map_values(|s: Seq<char>| quoted_arg(s)),
            out@ == joined_by_blank(all.take(i as int)),
        decreases argv.len() - i,
    {
        if i > 0 {
            push_char(&mut out, ' ');
        }
        push_quoted(&mut out, argv[i].as_str());
        proof {
            let upto = all.take(i + 1);
            assert(upto.drop_last() =~= all.take(i as int));
            assert(upto.last() == quoted_arg(argv@[i as int]@));
            if i == 0 {
                assert(upto[0] == upto.last());
                assert(out@ =~= upto[0]);
            }
        }
        i += 1;
    }
    assert(all.take(i as int) =~= all);
    out
}

/// Quoting changes nothing in an argument that holds no character to escape.
pub proof fn lemma_plain_arg_unchanged(s: Seq<char>)
    requires
        forall|i: int| 0 <= i < s.len() ==> !needs_escape(#[trigger] s[i]),
    ensures
        quoted_arg(s) == s,
    decreases s.len(),
{
    if s.len() > 0 {
        lemma_plain_arg_unchanged(s.drop_last());
        assert(s.drop_last().push(s.last()) =~= s);
    }
}

/// Each character is quoted by itself: one that needs an escape becomes a
/// backslash and the character, any other stays as it is.
pub proof fn lemma_quoted_char(c: char)
    ensures
        needs_escape(c) ==> quoted_arg(seq![c]) == seq!['\\', c],
        !needs_escape(c) ==> quoted_arg(seq![c]) == seq![c],
{
    let one = seq![c];
    assert(one.drop_last() =~= Seq::<char>::empty());
    assert(quoted_arg(one.drop_last()) =~= Seq::<char>::empty());
    assert(quoted_arg(Seq::<char>::empty()).push('\\').push(c) =~= seq!['\\', c]);
    assert(quoted_arg(Seq::<char>::empty()).push(c) =~= seq![c]);
}

/// Quoting goes through an argument from left to right and looks at nothing
/// but the character at hand: the quoted form of two texts in a row is the
/// quoted forms of the two in a row.
pub proof fn lemma_quoted_concat(s: Seq<char>, t: Seq<char>)
    ensures
        quoted_arg(s + t) == quoted_arg(s) + quoted_arg(t),
    decreases t.len(),
{
    if t.len() == 0 {
        assert(s + t =~= s);
        assert(quoted_arg(s) + quoted_arg(t) =~= quoted_arg(s));
    } else {
        lemma_quoted_concat(s, t.drop_last());
        assert((s + t).drop_last() =~= s + t.drop_last());
        assert((s + t).last() == t.last());
        if needs_escape(t.last()) {
            assert(quoted_arg(s + t) =~= quoted_arg(s) + quoted_arg(t));
        } else {
            assert(quoted_arg(s + t) =~= quoted_arg(s) + quoted_arg(t));
        }
    }
}

/// The quoted command line of a single argument without a character to
/// escape is that argument.
pub proof fn lemma_single_plain_argument(s: Seq<char>)
    requires
        forall|i: int| 0 <= i < s.len() ==> !needs_escape(#[trigger] s[i]),
    ensures
        shell_quoted(seq![s]) == s,
{
    lemma_plain_arg_unchanged(s);
    assert(seq![s].map_values(|a: Seq<char>| quoted_arg(a)) =~= seq![quoted_arg(s)]);
}

} // verus!
