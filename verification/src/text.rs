//! Text rendering helpers: lowercase hexadecimal, decimal numerals, and
//! JSON string escaping.

use vstd::prelude::*;

verus! {

use vstd::slice::slice_index_get;
use vstd::string::StringExecFns;
use vstd::std_specs::iter::IteratorSpec;

broadcast use vstd::string::group_string_axioms;

/// Appending a character to a `String`.
///
/// Relies on `String::push` of std: it appends the given character to the
/// end of the string.
pub assume_specification[ String::push ](s: &mut String, c: char)
    ensures
        final(s)@ == old(s)@.push(c),
;

/// The character for the value `n` of one hexadecimal digit.
pub open spec fn nibble_char(n: nat) -> char {
    "0123456789abcdef"@[n as int]
}

/// A one-character string slice holding the hexadecimal digit `n`.
pub fn nibble_str(n: u8) -> (r: &'static str)
    requires
        n < 16,
    ensures
        r@ =~= seq![nibble_char(n as nat)],
{
    proof {
        reveal_strlit("0123456789abcdef");
        reveal_strlit("0");
        reveal_strlit("1");
        reveal_strlit("2");
        reveal_strlit("3");
        reveal_strlit("4");
        reveal_strlit("5");
        reveal_strlit("6");
        reveal_strlit("7");
        reveal_strlit("8");
        reveal_strlit("9");
        reveal_strlit("a");
        reveal_strlit("b");
        reveal_strlit("c");
        reveal_strlit("d");
        reveal_strlit("e");
        reveal_strlit("f");
    }
    if n == 0 {
        "0"
    } else if n == 1 {
        "1"
    } else if n == 2 {
        "2"
    } else if n == 3 {
        "3"
    } else if n == 4 {
        "4"
    } else if n == 5 {
        "5"
    } else if n == 6 {
        "6"
    } else if n == 7 {
        "7"
    } else if n == 8 {
        "8"
    } else if n == 9 {
        "9"
    } else if n == 10 {
        "a"
    } else if n == 11 {
        "b"
    } else if n == 12 {
        "c"
    } else if n == 13 {
        "d"
    } else if n == 14 {
        "e"
    } else {
        "f"
    }
}

/// The lowercase hexadecimal rendering of a byte string, two digits for
/// each byte.
pub open spec fn hex_of(b: Seq<u8>) -> Seq<char>
    decreases b.len(),
{
    if b.len() == 0 {
        Seq::empty()
    } else {
        hex_of(b.drop_last()) + seq![
            nibble_char((b.last() / 16) as nat),
            nibble_char((b.last() % 16) as nat),
        ]
    }
}

/// Renders a byte string as lowercase hexadecimal.
pub fn hex_encode(b: &[u8]) -> (s: String)
    ensures
        s@ == hex_of(b@),
{
    let mut s = String::new();
    let n: usize = b.len();
    let mut i: usize = 0;
    while i < n
        invariant
            i <= n,
            n == b@.len(),
            s@ == hex_of(b@.take(i as int)),
        decreases n - i,
    {
        let byte = *slice_index_get(b, i);
        s.append(nibble_str(byte / 16));
        s.append(nibble_str(byte % 16));
        i += 1;
        proof {
            let t1 = b@.take(i as int);
            assert(t1.drop_last() =~= b@.take(i as int - 1));
            assert(s@ =~= hex_of(t1));
        }
    }
    proof {
        assert(b@.take(n as int) =~= b@);
    }
    s
}

/// The decimal rendering of a natural number, without leading zeros.
pub open spec fn dec_of(n: nat) -> Seq<char>
    decreases n,
{
    if n < 10 {
        seq![nibble_char(n)]
    } else {
        dec_of(n / 10) + seq![nibble_char(n % 10)]
    }
}

/// Renders a number in decimal.
pub fn u64_to_dec(n: u64) -> (s: String)
    ensures
        s@ == dec_of(n as nat),
    decreases n,
{
    if n < 10 {
        String::from_str(nibble_str(n as u8))
    } else {
        let mut s = u64_to_dec(n / 10);
        s.append(nibble_str((n % 10) as u8));
        s
    }
}

/// How one character appears inside a JSON string literal: quotes and
/// backslashes take a backslash, control characters take a `\u00..` escape,
/// every other character stands for itself.
pub open spec fn esc_char(c: char) -> Seq<char> {
    if c == '"' {
        seq!['\\', '"']
    } else if c == '\\' {
        seq!['\\', '\\']
    } else if (c as u32) < 32 {
        seq!['\\', 'u', '0', '0'] + seq![
            nibble_char(((c as u32) / 16) as nat),
            nibble_char(((c as u32) % 16) as nat),
        ]
    } else {
        seq![c]
    }
}

/// The body of the JSON string literal that denotes `s`.
pub open spec fn json_escaped(s: Seq<char>) -> Seq<char>
    decreases s.len(),
{
    if s.len() == 0 {
        Seq::empty()
    } else {
        json_escaped(s.drop_last()) + esc_char(s.last())
    }
}

/// Escapes a string for inclusion in a JSON string literal.
pub fn json_escape(s: &str) -> (r: String)
    ensures
        r@ == json_escaped(s@),
{
    let mut r = String::new();
    let mut it = s.chars();
    let ghost mut done: Seq<char> = Seq::empty();
    loop
        invariant
            it.obeys_prophetic_iter_laws(),
            it.decrease() is Some,
            done + it.remaining() == s@,
            r@ == json_escaped(done),
        decreases it.decrease()->0,
    {
        let ghost prev = it.remaining();
        match it.next() {
            Some(c) => {
                if c == '"' {
                    r.append("\\\"");
                    proof {
                        reveal_strlit("\\\"");
                    }
                } else if c == '\\' {
                    r.append("\\\\");
                    proof {
                        reveal_strlit("\\\\");
                    }
                } else if (c as u32) < 32 {
                    let code = c as u32;
                    r.append("\\u00");
                    r.append(nibble_str((code / 16) as u8));
                    r.append(nibble_str((code % 16) as u8));
                    proof {
                        reveal_strlit("\\u00");
                    }
                } else {
                    r.push(c);
                }
                proof {
                    assert(r@ =~= json_escaped(done) + esc_char(c));
                    let stepped = done.push(c);
                    assert(stepped.drop_last() =~= done);
                    assert(r@ == json_escaped(stepped));
                    assert(stepped + it.remaining() =~= done + prev);
                    done = stepped;
                }
            },
            None => {
                proof {
                    assert(done + prev =~= done);
                    assert(done =~= s@);
                }
                return r;
            },
        }
    }
}

} // verus!
