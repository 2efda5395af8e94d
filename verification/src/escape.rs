use vstd::prelude::*;

verus! {

/// The expansion of one character inside a JavaScript single-quoted string
/// literal. The ES specification forbids a literal to contain the closing
/// quote, a reverse solidus, and the four line terminators, so those six
/// characters are rewritten; every other character stands for itself.
pub open spec fn escaped_char(c: char) -> Seq<char> {
    if c == '\n' {
        seq!['\\', 'n']
    } else if c == '\r' {
        seq!['\\', 'r']
    } else if c == '\'' {
        seq!['\\', '\'']
    } else if c == '\\' {
        seq!['\\', '\\']
    } else if c == '\u{2028}' {
        seq!['\\', 'u', '2', '0', '2', '8']
    } else if c == '\u{2029}' {
        seq!['\\', 'u', '2', '0', '2', '9']
    } else {
        seq![c]
    }
}

/// The body of a JavaScript string literal holding the text `s`: each
/// character expanded by `escaped_char`, in order.
pub open spec fn escaped_text(s: Seq<char>) -> Seq<char>
    decreases s.len(),
{
    if s.len() == 0 {
        Seq::<char>::empty()
    } else {
        escaped_char(s[0]) + escaped_text(s.drop_first())
    }
}

/// A complete JavaScript string literal holding the text `s`: the escaped
/// body between single quotes.
pub open spec fn js_string_literal(s: Seq<char>) -> Seq<char> {
    seq!['\''] + escaped_text(s) + seq!['\'']
}

/// Escaping distributes over concatenation.
proof fn lemma_escaped_text_append(a: Seq<char>, b: Seq<char>)
    ensures
        escaped_text(a + b) == escaped_text(a) + escaped_text(b),
    decreases a.len(),
{
    if a.len() == 0 {
        assert(a + b =~= b);
        assert(escaped_text(a) + escaped_text(b) =~= escaped_text(b));
    } else {
        assert((a + b).drop_first() =~= a.drop_first() + b);
        lemma_escaped_text_append(a.drop_first(), b);
        assert((a + b)[0] == a[0]);
        assert(escaped_char(a[0]) + (escaped_text(a.drop_first()) + escaped_text(b)) =~= (
        escaped_char(a[0]) + escaped_text(a.drop_first())) + escaped_text(b));
    }
}

/// Escaping a single character yields exactly that character's expansion.
proof fn lemma_escaped_text_singleton(c: char)
    ensures
        escaped_text(seq![c]) == escaped_char(c),
{
    assert(seq![c][0] == c);
    assert(seq![c].drop_first() =~= Seq::<char>::empty());
    assert(escaped_text(seq![c]) == escaped_char(c) + escaped_text(Seq::<char>::empty()));
    assert(escaped_char(c) + Seq::<char>::empty() =~= escaped_char(c));
}

/// Extending the escaped prefix of `s` by one character.
proof fn lemma_escaped_prefix_step(s: Seq<char>, i: int)
    requires
        0 <= i < s.len(),
    ensures
        escaped_text(s.subrange(0, i + 1)) == escaped_text(s.subrange(0, i)) + escaped_char(s[i]),
{
    assert(s.subrange(0, i + 1) =~= s.subrange(0, i) + seq![s[i]]);
    lemma_escaped_text_append(s.subrange(0, i), seq![s[i]]);
    lemma_escaped_text_singleton(s[i]);
}

/// Turn arbitrary text into a JavaScript string literal that denotes it, so
/// that it can be pasted into a script evaluated in the page.
pub fn escape_text(s: &str) -> (r: String)
    ensures
        r@ == js_string_literal(s@),
{
    let n: usize = s.unicode_len();
    let mut r: String = String::from_str("'");
    proof {
        reveal_strlit("'");
        assert(r@ =~= seq!['\'']);
        assert(s@.subrange(0, 0) =~= Seq::<char>::empty());
        assert(r@ =~= seq!['\''] + escaped_text(s@.subrange(0, 0)));
    }
    let mut i: usize = 0;
    while i < n
        invariant
            n == s@.len(),
            i <= n,
            r@ == seq!['\''] + escaped_text(s@.subrange(0, i as int)),
        decreases n - i,
    {
        let c = s.get_char(i);
        if c == '\n' {
            r.append("\\n");
            proof {
                reveal_strlit("\\n");
                assert("\\n"@ =~= escaped_char(c));
            }
        } else if c == '\r' {
            r.append("\\r");
            proof {
                reveal_strlit("\\r");
                assert("\\r"@ =~= escaped_char(c));
            }
        } else if c == '\'' {
            r.append("\\'");
            proof {
                reveal_strlit("\\'");
                assert("\\'"@ =~= escaped_char(c));
            }
        } else if c == '\\' {
            r.append("\\\\");
            proof {
                reveal_strlit("\\\\");
                assert("\\\\"@ =~= escaped_char(c));
            }
        } else if c == '\u{2028}' {
            r.append("\\u2028");
            proof {
                reveal_strlit("\\u2028");
                assert("\\u2028"@ =~= escaped_char(c));
            }
        } else if c == '\u{2029}' {
            r.append("\\u2029");
            proof {
                reveal_strlit("\\u2029");
                assert("\\u2029"@ =~= escaped_char(c));
            }
        } else {
            let piece = s.substring_char(i, i + 1);
            r.append(piece);
            proof {
                assert(piece@ =~= seq![c]);
                assert(piece@ =~= escaped_char(c));
            }
        }
        proof {
            lemma_escaped_prefix_step(s@, i as int);
            assert(r@ =~= seq!['\''] + escaped_text(s@.subrange(0, i + 1)));
        }
        i = i + 1;
    }
    proof {
        assert(s@.subrange(0, n as int) =~= s@);
    }
    r.append("'");
    proof {
        reveal_strlit("'");
        assert(r@ =~= js_string_literal(s@));
    }
    r
}

} // verus!
