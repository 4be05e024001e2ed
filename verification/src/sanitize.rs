//! The diagram sanitizer: escapes untrusted text so it can be spliced into a
//! backtick-delimited template literal of generated script source without
//! terminating the literal or injecting executable script.
//!
//! The transformation, per character: a backslash becomes an escaped
//! backslash, a backtick becomes an escaped backtick, a newline becomes the
//! two-character sequence `\n`, and a carriage return is removed outright.
//! Escaping the backslash first (reflected here by mapping each character in
//! a single pass) prevents double-escaping of the backslashes the later
//! rules introduce.

use vstd::prelude::*;
use vstd::string::StrSliceExecFns;
use vstd::string::StringExecFns;

use crate::text::push_char;

verus! {

/// What one character of the raw diagram text contributes to the escaped
/// output.
pub open spec fn escape_char(c: char) -> Seq<char> {
    if c == '\\' {
        seq!['\\', '\\']
    } else if c == '`' {
        seq!['\\', '`']
    } else if c == '\n' {
        seq!['\\', 'n']
    } else if c == '\r' {
        Seq::<char>::empty()
    } else {
        seq![c]
    }
}

/// The escaped form of a whole character sequence: each character mapped
/// through [`escape_char`], in order.
pub open spec fn escape_spec(s: Seq<char>) -> Seq<char>
    decreases s.len(),
{
    if s.len() == 0 {
        Seq::<char>::empty()
    } else {
        escape_char(s[0]) + escape_spec(s.skip(1))
    }
}

/// A character sequence that is safe to splice verbatim between the
/// backticks of a template literal: it holds no raw newline or carriage
/// return, and every backtick or backslash occurs only as the second
/// character of a two-character escape beginning with a backslash — so no
/// unescaped literal-terminating character survives, and the text cannot
/// break out of the literal.
pub open spec fn well_escaped(s: Seq<char>) -> bool
    decreases s.len(),
{
    if s.len() == 0 {
        true
    } else if s[0] == '\\' {
        s.len() >= 2 && well_escaped(s.skip(2))
    } else {
        s[0] != '`' && s[0] != '\n' && s[0] != '\r' && well_escaped(s.skip(1))
    }
}

/// Escaping distributes over concatenation.
proof fn lemma_escape_append(a: Seq<char>, b: Seq<char>)
    ensures
        escape_spec(a + b) == escape_spec(a) + escape_spec(b),
    decreases a.len(),
{
    if a.len() == 0 {
        assert(a + b =~= b);
        assert(escape_spec(a) + escape_spec(b) =~= escape_spec(b));
    } else {
        assert((a + b).skip(1) =~= a.skip(1) + b);
        lemma_escape_append(a.skip(1), b);
        assert(escape_char((a + b)[0]) + (escape_spec(a.skip(1)) + escape_spec(b)) =~= (
        escape_char(a[0]) + escape_spec(a.skip(1))) + escape_spec(b));
    }
}

/// Escaping one more character extends the escaped prefix by that
/// character's contribution.
proof fn lemma_escape_snoc(s: Seq<char>, i: int)
    requires
        0 <= i < s.len(),
    ensures
        escape_spec(s.take(i + 1)) == escape_spec(s.take(i)) + escape_char(s[i]),
{
    assert(s.take(i + 1) =~= s.take(i) + seq![s[i]]);
    lemma_escape_append(s.take(i), seq![s[i]]);
    assert(seq![s[i]].skip(1) =~= Seq::<char>::empty());
    assert(escape_spec(seq![s[i]]) == escape_char(s[i]) + escape_spec(Seq::<char>::empty()));
    assert(escape_char(s[i]) + Seq::<char>::empty() =~= escape_char(s[i]));
}

/// Law: the sanitizer's output is always safe to embed in a template
/// literal. For any diagram text — in particular one containing backslashes,
/// backticks, newlines, or carriage returns — the escaped form satisfies
/// [`well_escaped`], so splicing it between the backticks of a template
/// literal leaves the generated script source syntactically intact.
pub proof fn lemma_escape_well_escaped(s: Seq<char>)
    ensures
        well_escaped(escape_spec(s)),
    decreases s.len(),
{
    if s.len() == 0 {
    } else {
        lemma_escape_well_escaped(s.skip(1));
        let rest = escape_spec(s.skip(1));
        let c = s[0];
        if c == '\\' || c == '`' || c == '\n' {
            assert((escape_char(c) + rest).skip(2) =~= rest);
        } else if c == '\r' {
            assert(escape_char(c) + rest =~= rest);
        } else {
            assert((escape_char(c) + rest).skip(1) =~= rest);
        }
    }
}

/// The text a template literal containing `s` denotes, for the escapes the
/// sanitizer emits: a two-character escape decodes to the character it
/// stands for (`\n` to a newline, an escaped backslash or backtick to
/// itself), and every other character to itself.
pub open spec fn template_denotes(s: Seq<char>) -> Seq<char>
    decreases s.len(),
{
    if s.len() == 0 {
        Seq::<char>::empty()
    } else if s[0] == '\\' && s.len() >= 2 {
        (if s[1] == 'n' {
            seq!['\n']
        } else {
            seq![s[1]]
        }) + template_denotes(s.skip(2))
    } else {
        seq![s[0]] + template_denotes(s.skip(1))
    }
}

/// The characters of `s` with every carriage return removed.
pub open spec fn strip_cr(s: Seq<char>) -> Seq<char>
    decreases s.len(),
{
    if s.len() == 0 {
        Seq::<char>::empty()
    } else if s[0] == '\r' {
        strip_cr(s.skip(1))
    } else {
        seq![s[0]] + strip_cr(s.skip(1))
    }
}

/// Law: the sanitizer is content-faithful. A template literal holding the
/// escaped text denotes exactly the raw text with its carriage returns
/// removed — escaping loses nothing else and invents nothing.
pub proof fn lemma_escape_faithful(s: Seq<char>)
    ensures
        template_denotes(escape_spec(s)) == strip_cr(s),
    decreases s.len(),
{
    if s.len() == 0 {
    } else {
        lemma_escape_faithful(s.skip(1));
        let rest = escape_spec(s.skip(1));
        let c = s[0];
        if c == '\\' || c == '`' || c == '\n' {
            let e = escape_char(c) + rest;
            assert(e[0] == '\\' && e.len() >= 2);
            assert(e.skip(2) =~= rest);
            assert(template_denotes(e) =~= seq![c] + strip_cr(s.skip(1)));
        } else if c == '\r' {
            assert(escape_char(c) + rest =~= rest);
        } else {
            let e = escape_char(c) + rest;
            assert(e.skip(1) =~= rest);
            assert(template_denotes(e) =~= seq![c] + strip_cr(s.skip(1)));
        }
    }
}

/// Escapes a diagram (or theme) string for safe embedding inside a
/// template literal of generated script source. Pure and total: every input
/// is accepted and the output is exactly the per-character escaped form.
pub fn escape(raw: &str) -> (out: String)
    ensures
        out@ == escape_spec(raw@),
{
    let n = raw.unicode_len();
    let mut out = String::new();
    let mut i: usize = 0;
    while i < n
        invariant
            i <= n,
            n == raw@.len(),
            out@ == escape_spec(raw@.take(i as int)),
        decreases n - i,
    {
        let c = raw.get_char(i);
        proof {
            lemma_escape_snoc(raw@, i as int);
        }
        if c == '\\' {
            proof {
                reveal_strlit("\\\\");
            }
            out.append("\\\\");
            assert(out@ =~= escape_spec(raw@.take(i + 1)));
        } else if c == '`' {
            proof {
                reveal_strlit("\\`");
            }
            out.append("\\`");
            assert(out@ =~= escape_spec(raw@.take(i + 1)));
        } else if c == '\n' {
            proof {
                reveal_strlit("\\n");
            }
            out.append("\\n");
            assert(out@ =~= escape_spec(raw@.take(i + 1)));
        } else if c == '\r' {
            assert(out@ =~= escape_spec(raw@.take(i + 1)));
        } else {
            push_char(&mut out, c);
            assert(out@ =~= escape_spec(raw@.take(i + 1)));
        }
        i = i + 1;
    }
    proof {
        assert(raw@.take(n as int) =~= raw@);
    }
    out
}

} // verus!
