//! JSON string escaping and small text utilities.
//!
//! The relay embeds caller text inside JSON string literals, both in the
//! outbound payload and in the reply body. The escaping below follows the
//! JSON grammar: `"` and `\` get a backslash escape, the common control
//! characters get their short escapes, and every other control character is
//! written as a `\u00XX` sequence. All other characters pass unchanged.

use vstd::prelude::*;

verus! {

/// The hexadecimal digit (lower case) for a value below sixteen.
pub open spec fn spec_hex_digit(n: int) -> char {
    if n == 0 {
        '0'
    } else if n == 1 {
        '1'
    } else if n == 2 {
        '2'
    } else if n == 3 {
        '3'
    } else if n == 4 {
        '4'
    } else if n == 5 {
        '5'
    } else if n == 6 {
        '6'
    } else if n == 7 {
        '7'
    } else if n == 8 {
        '8'
    } else if n == 9 {
        '9'
    } else if n == 10 {
        'a'
    } else if n == 11 {
        'b'
    } else if n == 12 {
        'c'
    } else if n == 13 {
        'd'
    } else if n == 14 {
        'e'
    } else {
        'f'
    }
}

/// A character that cannot stand bare inside a JSON string literal.
pub open spec fn needs_escape(c: char) -> bool {
    c == '"' || c == '\\' || (c as u32) < 32
}

/// The escape sequence a single character contributes to a JSON string
/// literal.
pub open spec fn escape_char(c: char) -> Seq<char> {
    if c == '"' {
        seq!['\\', '"']
    } else if c == '\\' {
        seq!['\\', '\\']
    } else if c == '\n' {
        seq!['\\', 'n']
    } else if c == '\r' {
        seq!['\\', 'r']
    } else if c == '\t' {
        seq!['\\', 't']
    } else if (c as u32) < 32 {
        seq!['\\', 'u', '0', '0', spec_hex_digit((c as u32) as int / 16), spec_hex_digit(
            (c as u32) as int % 16,
        )]
    } else {
        seq![c]
    }
}

/// A whole text escaped for use inside a JSON string literal.
pub open spec fn escape_seq(s: Seq<char>) -> Seq<char>
    decreases s.len(),
{
    if s.len() == 0 {
        Seq::empty()
    } else {
        escape_char(s[0]) + escape_seq(s.subrange(1, s.len() as int))
    }
}

/// Escaping distributes over concatenation.
pub proof fn lemma_escape_seq_concat(a: Seq<char>, b: Seq<char>)
    ensures
        escape_seq(a + b) == escape_seq(a) + escape_seq(b),
    decreases a.len(),
{
    if a.len() == 0 {
        assert(a + b =~= b);
        assert(escape_seq(a) + escape_seq(b) =~= escape_seq(b));
    } else {
        assert((a + b).subrange(1, (a + b).len() as int) =~= a.subrange(1, a.len() as int) + b);
        lemma_escape_seq_concat(a.subrange(1, a.len() as int), b);
        assert(escape_seq(a + b) =~= escape_seq(a) + escape_seq(b));
    }
}

/// Adding one character on the right adds its escape sequence on the right.
pub proof fn lemma_escape_seq_push(s: Seq<char>, c: char)
    ensures
        escape_seq(s.push(c)) == escape_seq(s) + escape_char(c),
{
    assert(s.push(c) =~= s + seq![c]);
    lemma_escape_seq_concat(s, seq![c]);
    assert(seq![c].subrange(1, 1) =~= Seq::<char>::empty());
    assert(seq![c][0] == c);
    assert(escape_seq(seq![c]) == escape_char(c) + escape_seq(seq![c].subrange(1, 1)));
    assert(escape_char(c) + Seq::<char>::empty() =~= escape_char(c));
}

/// A text without characters that need escaping is its own escape.
pub proof fn lemma_escape_seq_plain(s: Seq<char>)
    requires
        forall|i: int| 0 <= i < s.len() ==> !needs_escape(s[i]),
    ensures
        escape_seq(s) == s,
    decreases s.len(),
{
    if s.len() == 0 {
        assert(escape_seq(s) =~= s);
    } else {
        lemma_escape_seq_plain(s.subrange(1, s.len() as int));
        assert(escape_char(s[0]) =~= seq![s[0]]);
        assert(escape_seq(s) =~= s);
    }
}

/// The one-character string for a hexadecimal digit, used when spelling a
/// control character as `\u00XX`.
fn hex_digit_str(n: u32) -> (r: &'static str)
    requires
        n < 16,
    ensures
        r@ == seq![spec_hex_digit(n as int)],
{
    proof {
        reveal_strlit("0");
        reveal_strlit("1");
        reveal_strlit("2");
        reveal_strlit("3");
        reveal_strlit("4");
        reveal_strlit("5");
        reveal_strlit("6");
        reveal_strlit("7");
        reveal_strlit("8");
        reveal_strlit("9");
        reveal_strlit("a");
        reveal_strlit("b");
        reveal_strlit("c");
        reveal_strlit("d");
        reveal_strlit("e");
        reveal_strlit("f");
    }
    let r: &'static str = if n == 0 {
        "0"
    } else if n == 1 {
        "1"
    } else if n == 2 {
        "2"
    } else if n == 3 {
        "3"
    } else if n == 4 {
        "4"
    } else if n == 5 {
        "5"
    } else if n == 6 {
        "6"
    } else if n == 7 {
        "7"
    } else if n == 8 {
        "8"
    } else if n == 9 {
        "9"
    } else if n == 10 {
        "a"
    } else if n == 11 {
        "b"
    } else if n == 12 {
        "c"
    } else if n == 13 {
        "d"
    } else if n == 14 {
        "e"
    } else {
        "f"
    };
    proof {
        assert(r@ =~= seq![spec_hex_digit(n as int)]);
    }
    r
}

/// Appends the escaped form of `s` to `out`.
pub fn append_escaped(out: &mut String, s: &str)
    ensures
        final(out)@ == old(out)@ + escape_seq(s@),
{
    let ghost start: Seq<char> = out@;
    let n = s.unicode_len();
    let mut i: usize = 0;
    while i < n
        invariant
            n == s@.len(),
            i <= n,
            out@ == start + escape_seq(s@.subrange(0, i as int)),
        decreases n - i,
    {
        let c = s.get_char(i);
        if c == '"' {
            out.append("\\\"");
            proof {
                reveal_strlit("\\\"");
                assert("\\\""@ =~= escape_char(c));
            }
        } else if c == '\\' {
            out.append("\\\\");
            proof {
                reveal_strlit("\\\\");
                assert("\\\\"@ =~= escape_char(c));
            }
        } else if c == '\n' {
            out.append("\\n");
            proof {
                reveal_strlit("\\n");
                assert("\\n"@ =~= escape_char(c));
            }
        } else if c == '\r' {
            out.append("\\r");
            proof {
                reveal_strlit("\\r");
                assert("\\r"@ =~= escape_char(c));
            }
        } else if c == '\t' {
            out.append("\\t");
            proof {
                reveal_strlit("\\t");
                assert("\\t"@ =~= escape_char(c));
            }
        } else if (c as u32) < 32 {
            out.append("\\u00");
            out.append(hex_digit_str((c as u32) / 16));
            out.append(hex_digit_str((c as u32) % 16));
            proof {
                reveal_strlit("\\u00");
                assert("\\u00"@ + seq![spec_hex_digit(((c as u32) / 16) as int)] + seq![
                    spec_hex_digit(((c as u32) % 16) as int),
                ] =~= escape_char(c));
            }
        } else {
            out.append(s.substring_char(i, i + 1));
            proof {
                assert(s@.subrange(i as int, i as int + 1) =~= seq![s@[i as int]]);
                assert(seq![s@[i as int]] =~= escape_char(c));
            }
        }
        proof {
            assert(s@.subrange(0, i as int + 1) =~= s@.subrange(0, i as int).push(s@[i as int]));
            lemma_escape_seq_push(s@.subrange(0, i as int), s@[i as int]);
        }
        i = i + 1;
    }
    proof {
        assert(s@.subrange(0, n as int) =~= s@);
    }
}

/// The JSON string literal that denotes a text: quotes around its escape.
pub open spec fn json_string_of(s: Seq<char>) -> Seq<char> {
    seq!['"'] + escape_seq(s) + seq!['"']
}

/// Renders a text as a JSON string literal.
pub fn json_string(t: &str) -> (r: String)
    ensures
        r@ == json_string_of(t@),
{
    let mut out = String::from_str("\"");
    append_escaped(&mut out, t);
    out.append("\"");
    proof {
        reveal_strlit("\"");
        assert(out@ =~= json_string_of(t@));
    }
    out
}

/// Character-for-character string equality, usable where the verifier must
/// know what the comparison means.
pub fn str_eq(a: &str, b: &str) -> (r: bool)
    ensures
        r == (a@ == b@),
{
    let na = a.unicode_len();
    let nb = b.unicode_len();
    if na != nb {
        return false;
    }
    let mut i: usize = 0;
    while i < na
        invariant
            na == a@.len(),
            na == b@.len(),
            i <= na,
            forall|j: int| 0 <= j < i ==> a@[j] == b@[j],
        decreases na - i,
    {
        if a.get_char(i) != b.get_char(i) {
            return false;
        }
        i = i + 1;
    }
    proof {
        assert(a@ =~= b@);
    }
    true
}

} // verus!
