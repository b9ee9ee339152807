//! JSON encoding of a day's message batch.
//!
//! The archive hands each captured message payload back as text; the batch
//! sent to the summarizer is a JSON array of those payloads as JSON strings,
//! in insertion order. The encoding is pinned down character by character so
//! the summarizer provably receives the archived content unaltered.

use vstd::prelude::*;

verus! {

/// Hexadecimal digit for a value below 16, lower case.
pub open spec fn hex_digit(n: int) -> char {
    if n == 0 {
        '0'
    } else if n == 1 {
        '1'
    } else if n == 2 {
        '2'
    } else if n == 3 {
        '3'
    } else if n == 4 {
        '4'
    } else if n == 5 {
        '5'
    } else if n == 6 {
        '6'
    } else if n == 7 {
        '7'
    } else if n == 8 {
        '8'
    } else if n == 9 {
        '9'
    } else if n == 10 {
        'a'
    } else if n == 11 {
        'b'
    } else if n == 12 {
        'c'
    } else if n == 13 {
        'd'
    } else if n == 14 {
        'e'
    } else {
        'f'
    }
}

/// How one character appears inside a JSON string literal.
pub open spec fn escape_char(c: char) -> Seq<char> {
    if c == '"' {
        seq!['\\', '"']
    } else if c == '\\' {
        seq!['\\', '\\']
    } else if c == '\n' {
        seq!['\\', 'n']
    } else if c == '\r' {
        seq!['\\', 'r']
    } else if c == '\t' {
        seq!['\\', 't']
    } else if (c as u32) < 32 {
        seq!['\\', 'u', '0', '0', hex_digit((c as u32) as int / 16), hex_digit((c as u32) as int % 16)]
    } else {
        seq![c]
    }
}

/// A whole character sequence escaped for a JSON string literal.
pub open spec fn escape_seq(s: Seq<char>) -> Seq<char>
    decreases s.len(),
{
    if s.len() == 0 {
        Seq::empty()
    } else {
        escape_seq(s.drop_last()) + escape_char(s.last())
    }
}

/// A JSON string literal holding `s`.
pub open spec fn quoted(s: Seq<char>) -> Seq<char> {
    seq!['"'] + escape_seq(s) + seq!['"']
}

/// The JSON string literals of a batch, joined by commas.
pub open spec fn join_quoted(items: Seq<Seq<char>>) -> Seq<char>
    decreases items.len(),
{
    if items.len() == 0 {
        Seq::empty()
    } else if items.len() == 1 {
        quoted(items[0])
    } else {
        join_quoted(items.drop_last()) + seq![','] + quoted(items.last())
    }
}

/// A batch of message payloads as a JSON array of strings.
pub open spec fn encode_batch_spec(items: Seq<Seq<char>>) -> Seq<char> {
    seq!['['] + join_quoted(items) + seq![']']
}

/// Relies on `String::push`: appends exactly the given character.
#[verifier::external_body]
fn push_char(out: &mut String, c: char)
    ensures
        final(out)@ == old(out)@.push(c),
{
    out.push(c);
}

/// Executable counterpart of [`hex_digit`].
fn hex_digit_of(n: u8) -> (c: char)
    requires
        n < 16,
    ensures
        c == hex_digit(n as int),
{
    if n == 0 {
        '0'
    } else if n == 1 {
        '1'
    } else if n == 2 {
        '2'
    } else if n == 3 {
        '3'
    } else if n == 4 {
        '4'
    } else if n == 5 {
        '5'
    } else if n == 6 {
        '6'
    } else if n == 7 {
        '7'
    } else if n == 8 {
        '8'
    } else if n == 9 {
        '9'
    } else if n == 10 {
        'a'
    } else if n == 11 {
        'b'
    } else if n == 12 {
        'c'
    } else if n == 13 {
        'd'
    } else if n == 14 {
        'e'
    } else {
        'f'
    }
}

/// Append `s`, escaped for the inside of a JSON string literal, to `out`.
fn append_escaped(out: &mut String, s: &str)
    ensures
        final(out)@ == old(out)@ + escape_seq(s@),
{
    let n = s.unicode_len();
    let mut i: usize = 0;
    proof {
        assert(s@.take(0) =~= Seq::<char>::empty());
        assert(out@ =~= old(out)@ + escape_seq(s@.take(0)));
    }
    while i < n
        invariant
            n == s@.len(),
            i <= n,
            out@ == old(out)@ + escape_seq(s@.take(i as int)),
        decreases n - i,
    {
        let c = s.get_char(i);
        proof {
            assert(s@.take(i + 1).drop_last() =~= s@.take(i as int));
            assert(s@.take(i + 1).last() == s@[i as int]);
        }
        if c == '"' {
            out.append("\\\"");
            proof {
                reveal_strlit("\\\"");
                assert(("\\\"")@ =~= escape_char(c));
            }
        } else if c == '\\' {
            out.append("\\\\");
            proof {
                reveal_strlit("\\\\");
                assert(("\\\\")@ =~= escape_char(c));
            }
        } else if c == '\n' {
            out.append("\\n");
            proof {
                reveal_strlit("\\n");
                assert(("\\n")@ =~= escape_char(c));
            }
        } else if c == '\r' {
            out.append("\\r");
            proof {
                reveal_strlit("\\r");
                assert(("\\r")@ =~= escape_char(c));
            }
        } else if c == '\t' {
            out.append("\\t");
            proof {
                reveal_strlit("\\t");
                assert(("\\t")@ =~= escape_char(c));
            }
        } else if (c as u32) < 32 {
            let code = c as u32;
            out.append("\\u00");
            push_char(out, hex_digit_of((code / 16) as u8));
            push_char(out, hex_digit_of((code % 16) as u8));
            proof {
                reveal_strlit("\\u00");
                assert(("\\u00")@.push(hex_digit(code as int / 16)).push(
                    hex_digit(code as int % 16),
                ) =~= escape_char(c));
            }
        } else {
            push_char(out, c);
            proof {
                assert(Seq::<char>::empty().push(c) =~= escape_char(c));
            }
        }
        proof {
            assert(out@ =~= old(out)@ + escape_seq(s@.take(i + 1)));
        }
        i = i + 1;
    }
    proof {
        assert(s@.take(n as int) =~= s@);
    }
}

/// Encode a batch of message payloads as a JSON array of strings, in order.
pub fn encode_batch(items: &Vec<String>) -> (r: String)
    ensures
        r@ == encode_batch_spec(items.deep_view()),
{
    let mut out = String::new();
    out.append("[");
    proof {
        reveal_strlit("[");
        assert(items.deep_view().take(0) =~= Seq::<Seq<char>>::empty());
        assert(out@ =~= seq!['['] + join_quoted(items.deep_view().take(0)));
    }
    let n = items.len();
    let mut i: usize = 0;
    while i < n
        invariant
            n == items@.len(),
            i <= n,
            out@ == seq!['['] + join_quoted(items.deep_view().take(i as int)),
        decreases n - i,
    {
        if i > 0 {
            out.append(",");
            proof {
                reveal_strlit(",");
            }
        }
        out.append("\"");
        append_escaped(&mut out, items[i].as_str());
        out.append("\"");
        proof {
            reveal_strlit("\"");
            let dv = items.deep_view();
            assert(dv[i as int] == items@[i as int]@);
            assert(dv.take(i + 1).drop_last() =~= dv.take(i as int));
            assert(dv.take(i + 1).last() == dv[i as int]);
            assert(out@ =~= seq!['['] + join_quoted(dv.take(i + 1)));
        }
        i = i + 1;
    }
    out.append("]");
    proof {
        reveal_strlit("]");
        assert(items.deep_view().take(n as int) =~= items.deep_view());
        assert(out@ =~= encode_batch_spec(items.deep_view()));
    }
    out
}

} // verus!
