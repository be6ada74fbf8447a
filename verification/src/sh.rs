//! Quoting for POSIX `sh`: single-quoting arbitrary strings, and rendering a
//! configured directory so that a leading `~` expands on the remote side.
use vstd::prelude::*;

use crate::text::{chars_of, chars_eq, has_prefix, is_ws, starts_with};

verus! {

// ---------------------------------------------------------------------------
// What the quoting produces
// ---------------------------------------------------------------------------
/// How one character is written between single quotes: a quote closes the
/// quoting, is escaped with a backslash, and reopens it.
pub open spec fn quote_char(c: char) -> Seq<char> {
    if c == '\'' {
        seq!['\'', '\\', '\'', '\'']
    } else {
        seq![c]
    }
}

/// The text between the outer quotes of `sh_quote(s)`.
pub open spec fn quote_body(s: Seq<char>) -> Seq<char>
    decreases s.len(),
{
    if s.len() == 0 {
        Seq::empty()
    } else {
        quote_char(s[0]) + quote_body(s.drop_first())
    }
}

/// `sh_quote(s)`: `s` wrapped in single quotes, each inner quote as `'\''`.
pub open spec fn sh_quoted(s: Seq<char>) -> Seq<char> {
    seq!['\''] + quote_body(s) + seq!['\'']
}

/// The double-quoted home-directory parameter, `"$HOME"`.
pub open spec fn home_word() -> Seq<char> {
    seq!['"', '$', 'H', 'O', 'M', 'E', '"']
}

/// The shell text that `remote_path_expr` renders for the path `p`.
pub open spec fn remote_path(p: Seq<char>) -> Seq<char> {
    if p == seq!['~'] {
        home_word()
    } else if has_prefix(p, seq!['~', '/']) {
        home_word() + seq!['/'] + sh_quoted(p.skip(2))
    } else {
        sh_quoted(p)
    }
}

/// The directory `p` names once the remote shell has expanded a leading `~`
/// (the whole path, or followed by `/`) to `home`.
pub open spec fn expand_home(p: Seq<char>, home: Seq<char>) -> Seq<char> {
    if p == seq!['~'] {
        home
    } else if has_prefix(p, seq!['~', '/']) {
        home + p.skip(1)
    } else {
        p
    }
}

// ---------------------------------------------------------------------------
// What the remote shell makes of a word
// ---------------------------------------------------------------------------
/// Characters that this model of an unquoted shell word does not interpret;
/// a word holding one of them unquoted gets no value.
pub open spec fn unmodelled(c: char) -> bool {
    ||| is_ws(c)
    ||| c == '"' || c == '$' || c == '`' || c == ';' || c == '&' || c == '|'
    ||| c == '<' || c == '>' || c == '(' || c == ')' || c == '*' || c == '?'
    ||| c == '[' || c == '#' || c == '~' || c == '{' || c == '}'
}

pub open spec fn prepend(p: Seq<char>, v: Option<Seq<char>>) -> Option<Seq<char>> {
    match v {
        Some(x) => Some(p + x),
        None => None,
    }
}

/// The value of the shell word `w` after quote removal and expansion of
/// `"$HOME"` to `home`, for words made of single-quoted runs, backslash
/// escapes, `"$HOME"` and plain characters; `quoted` says whether `w` starts
/// inside single quotes.  `None` when the word is unterminated or holds
/// something outside this model.
pub open spec fn shell_value(w: Seq<char>, quoted: bool, home: Seq<char>) -> Option<Seq<char>>
    decreases w.len(),
{
    if w.len() == 0 {
        if quoted {
            None
        } else {
            Some(Seq::empty())
        }
    } else if quoted {
        if w[0] == '\'' {
            shell_value(w.drop_first(), false, home)
        } else {
            prepend(seq![w[0]], shell_value(w.drop_first(), true, home))
        }
    } else if w[0] == '\'' {
        shell_value(w.drop_first(), true, home)
    } else if w[0] == '\\' {
        if w.len() >= 2 {
            prepend(seq![w[1]], shell_value(w.skip(2), false, home))
        } else {
            None
        }
    } else if has_prefix(w, home_word()) {
        prepend(home, shell_value(w.skip(7), false, home))
    } else if unmodelled(w[0]) {
        None
    } else {
        prepend(seq![w[0]], shell_value(w.drop_first(), false, home))
    }
}

proof fn lemma_quote_body_push(s: Seq<char>, c: char)
    ensures
        quote_body(s.push(c)) == quote_body(s) + quote_char(c),
    decreases s.len(),
{
    if s.len() == 0 {
        assert(s.push(c).drop_first() =~= Seq::<char>::empty());
        assert(s.push(c)[0] == c);
        assert(quote_body(Seq::<char>::empty()) == Seq::<char>::empty());
        assert(quote_body(s) == Seq::<char>::empty());
        assert(quote_body(s.push(c)) =~= quote_char(c));
    } else {
        assert(s.push(c).drop_first() =~= s.drop_first().push(c));
        lemma_quote_body_push(s.drop_first(), c);
        assert(quote_body(s.push(c)) =~= quote_body(s) + quote_char(c));
    }
}

/// Reading the quoted run of `sh_quote(s)` yields `s`, then what follows the
/// closing quote.
proof fn lemma_inside_quotes(s: Seq<char>, tail: Seq<char>, home: Seq<char>)
    ensures
        shell_value(quote_body(s) + seq!['\''] + tail, true, home) == prepend(
            s,
            shell_value(tail, false, home),
        ),
    decreases s.len(),
{
    let w = quote_body(s) + seq!['\''] + tail;
    if s.len() == 0 {
        assert(quote_body(s) == Seq::<char>::empty());
        assert(w =~= seq!['\''] + tail);
        assert(w[0] == '\'');
        assert(w.drop_first() =~= tail);
        assert(shell_value(w, true, home) == shell_value(tail, false, home));
        match shell_value(tail, false, home) {
            Some(v) => assert(s + v =~= v),
            None => {},
        }
    } else {
        let c = s[0];
        let rest = s.drop_first();
        lemma_inside_quotes(rest, tail, home);
        let inner = quote_body(rest) + seq!['\''] + tail;
        if c == '\'' {
            assert(quote_body(s) == quote_char(c) + quote_body(rest));
            assert(w =~= seq!['\'', '\\', '\'', '\''] + inner);
            let w1 = w.drop_first();
            assert(w1 =~= seq!['\\', '\'', '\''] + inner);
            let w3 = w1.skip(2);
            assert(w3 =~= seq!['\''] + inner);
            assert(w3.drop_first() =~= inner);
            assert(shell_value(w3, false, home) == shell_value(inner, true, home));
            assert(w1[1] == '\'');
            assert(shell_value(w1, false, home) == prepend(seq!['\''], shell_value(w3, false, home)));
            assert(shell_value(w, true, home) == shell_value(w1, false, home));
            assert(s =~= seq![c] + rest);
            match shell_value(tail, false, home) {
                Some(v) => assert(seq![c] + (rest + v) =~= s + v),
                None => {},
            }
        } else {
            assert(quote_body(s) == quote_char(c) + quote_body(rest));
            assert(w =~= seq![c] + inner);
            assert(w.drop_first() =~= inner);
            assert(shell_value(w, true, home) == prepend(seq![c], shell_value(inner, true, home)));
            assert(s =~= seq![c] + rest);
            match shell_value(tail, false, home) {
                Some(v) => assert(seq![c] + (rest + v) =~= s + v),
                None => {},
            }
        }
    }
}

/// Law: the remote shell reads `sh_quote(s)` back as exactly `s`, whatever `s`
/// holds (quotes, `$`, backquotes, newlines, ...).
pub proof fn lemma_sh_quote_reads_back(s: Seq<char>, home: Seq<char>)
    ensures
        shell_value(sh_quoted(s), false, home) == Some(s),
{
    let w = sh_quoted(s);
    assert(w.drop_first() =~= quote_body(s) + seq!['\''] + Seq::<char>::empty());
    lemma_inside_quotes(s, Seq::<char>::empty(), home);
    assert(s + Seq::<char>::empty() =~= s);
}

/// Law: the remote shell reads `remote_path_expr(p)` as the directory `p`
/// names, with a leading `~` (alone or before `/`) expanded to its `$HOME`
/// and every other character taken literally.
pub proof fn lemma_remote_path_reads_back(p: Seq<char>, home: Seq<char>)
    ensures
        shell_value(remote_path(p), false, home) == Some(expand_home(p, home)),
{
    if p == seq!['~'] {
        let w = home_word();
        assert(has_prefix(w, home_word())) by {
            assert(w.take(7) =~= w);
        }
        assert(w.skip(7) =~= Seq::<char>::empty());
        assert(shell_value(Seq::<char>::empty(), false, home) == Some(Seq::<char>::empty()));
        assert(w[0] == '"');
        assert(!unmodelled('H'));
        assert(shell_value(w, false, home) == prepend(home, shell_value(w.skip(7), false, home)));
        assert(home + Seq::<char>::empty() =~= home);
    } else if has_prefix(p, seq!['~', '/']) {
        let q = sh_quoted(p.skip(2));
        let w = home_word() + seq!['/'] + q;
        assert(has_prefix(w, home_word())) by {
            assert(w.take(7) =~= home_word());
        }
        assert(w.skip(7) =~= seq!['/'] + q);
        let w2 = seq!['/'] + q;
        assert(w2.drop_first() =~= q);
        lemma_sh_quote_reads_back(p.skip(2), home);
        assert(!is_ws('/'));
        assert(w2[0] == '/');
        assert(!has_prefix(w2, home_word()));
        assert(shell_value(w2, false, home) == prepend(seq!['/'], shell_value(q, false, home)));
        assert(w[0] == '"');
        assert(shell_value(w, false, home) == prepend(home, shell_value(w2, false, home)));
        assert(p.skip(1) =~= seq!['/'] + p.skip(2));
        assert(home + (seq!['/'] + p.skip(2)) =~= home + p.skip(1));
    } else {
        lemma_sh_quote_reads_back(p, home);
    }
}

// ---------------------------------------------------------------------------
// The executable quoting
// ---------------------------------------------------------------------------
fn push_quoted(dst: &mut String, cs: &[char])
    ensures
        final(dst)@ == old(dst)@ + sh_quoted(cs@),
{
    dst.push('\'');
    let ghost start = dst@;
    let mut i: usize = 0;
    proof {
        assert(cs@.take(0) =~= Seq::<char>::empty());
        assert(quote_body(Seq::<char>::empty()) =~= Seq::<char>::empty());
        assert(start + Seq::<char>::empty() =~= start);
    }
    while i < cs.len()
        invariant
            i <= cs@.len(),
            dst@ == start + quote_body(cs@.take(i as int)),
        decreases cs.len() - i,
    {
        let c = cs[i];
        proof {
            assert(cs@.take(i + 1) =~= cs@.take(i as int).push(c));
            lemma_quote_body_push(cs@.take(i as int), c);
        }
        if c == '\'' {
            dst.push('\'');
            dst.push('\\');
            dst.push('\'');
            dst.push('\'');
            proof {
                assert(dst@ =~= start + quote_body(cs@.take(i + 1)));
            }
        } else {
            dst.push(c);
            proof {
                assert(dst@ =~= start + quote_body(cs@.take(i + 1)));
            }
        }
        i = i + 1;
    }
    dst.push('\'');
    proof {
        assert(cs@.take(cs@.len() as int) =~= cs@);
        assert(dst@ =~= old(dst)@ + sh_quoted(cs@));
    }
}

/// Quotes `s` as one word for POSIX `sh`: the shell reads it back as exactly
/// `s` (see `lemma_sh_quote_reads_back`).
pub fn sh_quote(s: &str) -> (out: String)
    ensures
        out@ == sh_quoted(s@),
{
    let cs = chars_of(s);
    let mut out = String::new();
    push_quoted(&mut out, cs.as_slice());
    proof {
        assert(out@ =~= sh_quoted(s@));
    }
    out
}

fn push_home_word(dst: &mut String)
    ensures
        final(dst)@ == old(dst)@ + home_word(),
{
    dst.push('"');
    dst.push('$');
    dst.push('H');
    dst.push('O');
    dst.push('M');
    dst.push('E');
    dst.push('"');
    proof {
        assert(dst@ =~= old(dst)@ + home_word());
    }
}

/// Renders a configured directory for a remote shell: `~` and a leading `~/`
/// become `"$HOME"` so that the remote side expands them, the rest is quoted
/// (see `lemma_remote_path_reads_back`).
pub fn remote_path_expr(path: &str) -> (out: String)
    ensures
        out@ == remote_path(path@),
{
    let cs = chars_of(path);
    let tilde = vec!['~'];
    let tilde_slash = vec!['~', '/'];
    let mut out = String::new();
    proof {
        assert(tilde@ =~= seq!['~']);
        assert(tilde_slash@ =~= seq!['~', '/']);
    }
    if chars_eq(cs.as_slice(), tilde.as_slice()) {
        push_home_word(&mut out);
    } else if starts_with(cs.as_slice(), tilde_slash.as_slice()) {
        push_home_word(&mut out);
        out.push('/');
        let rest = cs.as_slice().split_at(2).1;
        push_quoted(&mut out, rest);
        proof {
            assert(rest@ =~= path@.skip(2));
        }
    } else {
        push_quoted(&mut out, cs.as_slice());
    }
    proof {
        assert(out@ =~= remote_path(path@));
    }
    out
}

} // verus!
