use vstd::prelude::*;
use vstd::string::StrSliceExecFns;

verus! {

/// The five characters that carry meaning in the wifi-QR grammar and must be
/// escaped when they occur in user-supplied text.
pub open spec fn is_reserved_char(c: char) -> bool {
    c == '\\' || c == '"' || c == ';' || c == ',' || c == ':'
}

/// How one character of user-supplied text is rendered: a reserved character
/// gains a leading backslash, every other character passes through unchanged.
pub open spec fn escape_char(c: char) -> Seq<char> {
    if is_reserved_char(c) {
        seq!['\\', c]
    } else {
        seq![c]
    }
}

/// The escaped form of a text: each character rendered by `escape_char`,
/// in order.
pub open spec fn escape_text(s: Seq<char>) -> Seq<char>
    decreases s.len(),
{
    if s.len() == 0 {
        Seq::<char>::empty()
    } else {
        escape_char(s[0]) + escape_text(s.drop_first())
    }
}

/// The inverse reading of an escaped text: a backslash consumes the character
/// after it, which stands for itself; every other character stands for itself.
pub open spec fn unescape_text(s: Seq<char>) -> Seq<char>
    decreases s.len(),
{
    if s.len() == 0 {
        Seq::<char>::empty()
    } else if s[0] == '\\' && s.len() >= 2 {
        seq![s[1]] + unescape_text(s.skip(2))
    } else {
        seq![s[0]] + unescape_text(s.drop_first())
    }
}

/// Escaping distributes over concatenation of texts.
pub proof fn lemma_escape_text_concat(a: Seq<char>, b: Seq<char>)
    ensures
        escape_text(a + b) == escape_text(a) + escape_text(b),
    decreases a.len(),
{
    if a.len() == 0 {
        assert(a + b =~= b);
        assert(escape_text(a) + escape_text(b) =~= escape_text(b));
    } else {
        lemma_escape_text_concat(a.drop_first(), b);
        assert((a + b).drop_first() =~= a.drop_first() + b);
        assert((a + b)[0] == a[0]);
        assert(escape_char(a[0]) + (escape_text(a.drop_first()) + escape_text(b)) =~= (
        escape_char(a[0]) + escape_text(a.drop_first())) + escape_text(b));
    }
}

/// Round trip: applying the unescape reading to the escaped form of any text
/// recovers that text exactly.
pub proof fn lemma_unescape_escape(s: Seq<char>)
    ensures
        unescape_text(escape_text(s)) == s,
    decreases s.len(),
{
    if s.len() == 0 {
        assert(unescape_text(escape_text(s)) =~= s);
    } else {
        let rest = s.drop_first();
        lemma_unescape_escape(rest);
        let e = escape_text(s);
        if is_reserved_char(s[0]) {
            assert(e =~= seq!['\\', s[0]] + escape_text(rest));
            assert(e[0] == '\\' && e.len() >= 2);
            assert(e[1] == s[0]);
            assert(e.skip(2) =~= escape_text(rest));
            assert(unescape_text(e) =~= seq![s[0]] + rest);
            assert(seq![s[0]] + rest =~= s);
        } else {
            assert(e =~= seq![s[0]] + escape_text(rest));
            assert(e[0] == s[0] && s[0] != '\\');
            assert(e.drop_first() =~= escape_text(rest));
            assert(unescape_text(e) =~= seq![s[0]] + rest);
            assert(seq![s[0]] + rest =~= s);
        }
    }
}

/// Relies on `String::push`: appends the given character to the end of the
/// string.
#[verifier::external_body]
fn push_char(out: &mut String, c: char)
    ensures
        final(out)@ == old(out)@.push(c),
{
    out.push(c);
}

/// Escape a text for inclusion in a payload segment: each of the five
/// reserved characters gains a leading backslash; everything else, including
/// any other Unicode character, passes through unchanged.
pub fn escape(input: &str) -> (r: String)
    ensures
        r@ == escape_text(input@),
{
    let len: usize = input.unicode_len();
    let mut out: String = String::new();
    let mut i: usize = 0;
    while i < len
        invariant
            i <= len,
            len == input@.len(),
            out@ == escape_text(input@.take(i as int)),
        decreases len - i,
    {
        let c: char = input.get_char(i);
        if c == '\\' || c == '"' || c == ';' || c == ',' || c == ':' {
            push_char(&mut out, '\\');
            push_char(&mut out, c);
        } else {
            push_char(&mut out, c);
        }
        proof {
            let prefix = input@.take(i as int);
            assert(input@.take(i as int + 1) =~= prefix + seq![input@[i as int]]);
            lemma_escape_text_concat(prefix, seq![input@[i as int]]);
            assert(seq![c].drop_first() =~= Seq::<char>::empty());
            assert(escape_text(Seq::<char>::empty()) =~= Seq::<char>::empty());
            assert(escape_char(c) + Seq::<char>::empty() =~= escape_char(c));
            assert(seq![c].len() != 0 && seq![c][0] == c);
            assert(escape_text(seq![c]) == escape_char(c) + escape_text(seq![c].drop_first()));
            assert(escape_text(seq![c]) =~= escape_char(c));
            assert(out@ =~= escape_text(prefix) + escape_char(c));
        }
        i = i + 1;
    }
    proof {
        assert(input@.take(len as int) =~= input@);
    }
    out
}

/// Undo the escaping of a payload segment: a backslash consumes the character
/// after it, which stands for itself; every other character stands for
/// itself. Applied to the escaped form of a text, this recovers the text
/// (`lemma_unescape_escape`).
pub fn unescape(input: &str) -> (r: String)
    ensures
        r@ == unescape_text(input@),
{
    let len: usize = input.unicode_len();
    let mut out: String = String::new();
    let mut i: usize = 0;
    proof {
        assert(input@.skip(0) =~= input@);
        assert(Seq::<char>::empty() + unescape_text(input@) =~= unescape_text(input@));
    }
    while i < len
        invariant
            i <= len,
            len == input@.len(),
            unescape_text(input@) == out@ + unescape_text(input@.skip(i as int)),
        decreases len - i,
    {
        let c: char = input.get_char(i);
        proof {
            assert(input@.skip(i as int)[0] == input@[i as int]);
        }
        let ghost out0 = out@;
        if c == '\\' && i + 1 < len {
            let next: char = input.get_char(i + 1);
            push_char(&mut out, next);
            proof {
                let rem = input@.skip(i as int);
                assert(rem.len() >= 2 && rem[1] == next);
                assert(rem.skip(2) =~= input@.skip(i as int + 2));
                assert(out@ =~= out0 + seq![next]);
                assert(out0 + (seq![next] + unescape_text(input@.skip(i as int + 2))) =~= out@
                    + unescape_text(input@.skip(i as int + 2)));
            }
            i = i + 2;
        } else {
            push_char(&mut out, c);
            proof {
                let rem = input@.skip(i as int);
                assert(!(rem[0] == '\\' && rem.len() >= 2));
                assert(rem.drop_first() =~= input@.skip(i as int + 1));
                assert(out@ =~= out0 + seq![c]);
                assert(out0 + (seq![c] + unescape_text(input@.skip(i as int + 1))) =~= out@
                    + unescape_text(input@.skip(i as int + 1)));
            }
            i = i + 1;
        }
    }
    proof {
        assert(input@.skip(len as int) =~= Seq::<char>::empty());
        assert(out@ + Seq::<char>::empty() =~= out@);
    }
    out
}

} // verus!
