//! The textual form of wire documents: quoted strings with escapes, and
//! one-field documents of the shape `<opening><content>"}`.

use vstd::prelude::*;
use vstd::string::StrSliceExecFns;
use vstd::string::StringExecFns;

verus! {

/// Relies on String::push: appends exactly the given character.
#[verifier::external_body]
fn push_char(s: &mut String, c: char)
    ensures
        final(s)@ == old(s)@.push(c),
{
    s.push(c);
}

/// The sixteen hexadecimal digit characters, by value.
pub open spec fn hex_digit(v: int) -> char {
    if v == 0 {
        '0'
    } else if v == 1 {
        '1'
    } else if v == 2 {
        '2'
    } else if v == 3 {
        '3'
    } else if v == 4 {
        '4'
    } else if v == 5 {
        '5'
    } else if v == 6 {
        '6'
    } else if v == 7 {
        '7'
    } else if v == 8 {
        '8'
    } else if v == 9 {
        '9'
    } else if v == 10 {
        'a'
    } else if v == 11 {
        'b'
    } else if v == 12 {
        'c'
    } else if v == 13 {
        'd'
    } else if v == 14 {
        'e'
    } else {
        'f'
    }
}

/// The value of a hexadecimal digit character; sixteen for any other
/// character.
pub open spec fn hex_value(c: char) -> int {
    if c == '0' {
        0
    } else if c == '1' {
        1
    } else if c == '2' {
        2
    } else if c == '3' {
        3
    } else if c == '4' {
        4
    } else if c == '5' {
        5
    } else if c == '6' {
        6
    } else if c == '7' {
        7
    } else if c == '8' {
        8
    } else if c == '9' {
        9
    } else if c == 'a' {
        10
    } else if c == 'b' {
        11
    } else if c == 'c' {
        12
    } else if c == 'd' {
        13
    } else if c == 'e' {
        14
    } else if c == 'f' {
        15
    } else {
        16
    }
}

/// The character with the given code point, for points under 32.
pub open spec fn control_char(v: int) -> char {
    (v as u8) as char
}

/// A character with a code point under 32 is recovered from that point.
proof fn lemma_control_char_cast(c: char)
    requires
        (c as u32) < 32,
    ensures
        control_char((c as u32) as int) == c,
{
    let b = (c as u32) as u8;
    assert(b as u32 == c as u32);
    assert((b as char) as u32 == b as u32);
    assert(b as char == c);
}

/// The hexadecimal digit character for a value under sixteen.
fn hex_digit_of(v: u32) -> (c: char)
    requires
        v < 16,
    ensures
        c == hex_digit(v as int),
{
    match v {
        0 => '0',
        1 => '1',
        2 => '2',
        3 => '3',
        4 => '4',
        5 => '5',
        6 => '6',
        7 => '7',
        8 => '8',
        9 => '9',
        10 => 'a',
        11 => 'b',
        12 => 'c',
        13 => 'd',
        14 => 'e',
        _ => 'f',
    }
}

/// The value of a hexadecimal digit character; sixteen for any other.
fn hex_value_of(c: char) -> (v: u32)
    ensures
        v as int == hex_value(c),
{
    match c {
        '0' => 0,
        '1' => 1,
        '2' => 2,
        '3' => 3,
        '4' => 4,
        '5' => 5,
        '6' => 6,
        '7' => 7,
        '8' => 8,
        '9' => 9,
        'a' => 10,
        'b' => 11,
        'c' => 12,
        'd' => 13,
        'e' => 14,
        'f' => 15,
        _ => 16,
    }
}

/// The escaped form of one character inside a quoted wire string: the
/// quote and the backslash are preceded by a backslash, a control
/// character becomes its four-digit code escape, and every other
/// character stands for itself.
pub open spec fn escape_char(c: char) -> Seq<char> {
    if c == '"' || c == '\\' {
        seq!['\\', c]
    } else if (c as u32) < 32 {
        seq![
            '\\',
            'u',
            '0',
            '0',
            hex_digit((c as u32) as int / 16),
            hex_digit((c as u32) as int % 16),
        ]
    } else {
        seq![c]
    }
}

/// The escaped form of a whole text.
pub open spec fn escape_text(s: Seq<char>) -> Seq<char>
    decreases s.len(),
{
    if s.len() == 0 {
        Seq::empty()
    } else {
        escape_char(s[0]) + escape_text(s.skip(1))
    }
}

/// Escape a text for inclusion inside a quoted wire string.
pub fn escape_str(s: &str) -> (out: String)
    ensures
        out@ == escape_text(s@),
{
    let n: usize = s.unicode_len();
    let mut out = String::new();
    let mut i: usize = 0;
    proof {
        assert(s@.skip(0) =~= s@);
        assert(Seq::<char>::empty() + escape_text(s@) =~= escape_text(s@));
    }
    while i < n
        invariant
            n == s@.len(),
            i <= n,
            out@ + escape_text(s@.skip(i as int)) == escape_text(s@),
        decreases n - i,
    {
        let ghost out0 = out@;
        let c = s.get_char(i);
        proof {
            assert(s@.skip(i as int).len() != 0);
            assert(s@.skip(i as int)[0] == s@[i as int]);
            assert(s@.skip(i as int).skip(1) =~= s@.skip(i as int + 1));
            assert(escape_text(s@.skip(i as int)) == escape_char(c) + escape_text(
                s@.skip(i as int + 1),
            ));
        }
        if c == '"' {
            out.append("\\\"");
            proof {
                reveal_strlit("\\\"");
                assert("\\\""@ =~= escape_char('"'));
            }
        } else if c == '\\' {
            out.append("\\\\");
            proof {
                reveal_strlit("\\\\");
                assert("\\\\"@ =~= escape_char('\\'));
            }
        } else if (c as u32) < 32 {
            proof {
                assert((c as u32) / 16 < 16 && (c as u32) % 16 < 16) by (nonlinear_arith)
                    requires
                        (c as u32) < 32,
                ;
            }
            out.append("\\u00");
            let hi = hex_digit_of((c as u32) / 16);
            let lo = hex_digit_of((c as u32) % 16);
            push_char(&mut out, hi);
            push_char(&mut out, lo);
            proof {
                reveal_strlit("\\u00");
                assert(out@ =~= out0 + escape_char(c));
            }
        } else {
            let piece = s.substring_char(i, i + 1);
            out.append(piece);
            proof {
                assert(piece@ =~= escape_char(c));
            }
        }
        proof {
            assert(out@ =~= out0 + escape_char(c));
            assert(out@ + escape_text(s@.skip(i as int + 1)) =~= out0 + (escape_char(c)
                + escape_text(s@.skip(i as int + 1))));
            assert(out@ + escape_text(s@.skip(i as int + 1)) == escape_text(s@));
        }
        i = i + 1;
    }
    proof {
        assert(s@.skip(n as int) =~= Seq::<char>::empty());
        assert(out@ =~= out@ + escape_text(s@.skip(n as int)));
    }
    out
}

/// Scan the interior of a quoted wire string: the characters up to the
/// first unescaped closing quote, with escapes resolved, paired with what
/// follows that quote. Nothing, when the text ends before an unescaped
/// quote or an unknown escape appears.
pub open spec fn scan_quoted(s: Seq<char>) -> Option<(Seq<char>, Seq<char>)>
    decreases s.len(),
{
    if s.len() == 0 {
        None
    } else if s[0] == '"' {
        Some((Seq::empty(), s.skip(1)))
    } else if s[0] == '\\' {
        if s.len() >= 2 && (s[1] == '"' || s[1] == '\\') {
            match scan_quoted(s.skip(2)) {
                Some(p) => Some((seq![s[1]] + p.0, p.1)),
                None => None,
            }
        } else if s.len() >= 6 && s[1] == 'u' && s[2] == '0' && s[3] == '0' && hex_value(s[5]) < 16
            && hex_value(s[4]) * 16 + hex_value(s[5]) < 32 {
            match scan_quoted(s.skip(6)) {
                Some(p) => Some(
                    (seq![control_char(hex_value(s[4]) * 16 + hex_value(s[5]))] + p.0, p.1),
                ),
                None => None,
            }
        } else {
            None
        }
    } else {
        match scan_quoted(s.skip(1)) {
            Some(p) => Some((seq![s[0]] + p.0, p.1)),
            None => None,
        }
    }
}

/// Law: scanning an escaped text closed by a quote yields the text back,
/// with the remainder untouched.
pub proof fn lemma_scan_escaped(s: Seq<char>, rest: Seq<char>)
    ensures
        scan_quoted(escape_text(s) + seq!['"'] + rest) == Some((s, rest)),
    decreases s.len(),
{
    let full = escape_text(s) + seq!['"'] + rest;
    if s.len() == 0 {
        assert(full =~= seq!['"'] + rest);
        assert(full[0] == '"');
        assert(full.skip(1) =~= rest);
    } else {
        let c = s[0];
        lemma_scan_escaped(s.skip(1), rest);
        let tail = escape_text(s.skip(1)) + seq!['"'] + rest;
        assert(escape_text(s) == escape_char(c) + escape_text(s.skip(1)));
        if c == '"' || c == '\\' {
            assert(full =~= seq!['\\', c] + tail);
            assert(full[0] == '\\' && full[1] == c);
            assert(full.skip(2) =~= tail);
            assert(scan_quoted(full) == Some((seq![c] + s.skip(1), rest)));
            assert(seq![c] + s.skip(1) =~= s);
        } else if (c as u32) < 32 {
            let v = (c as u32) as int;
            assert(0 <= v / 16 < 2 && 0 <= v % 16 < 16 && v / 16 * 16 + v % 16 == v)
                by (nonlinear_arith)
                requires
                    0 <= v < 32,
            ;
            let hi = hex_digit(v / 16);
            let lo = hex_digit(v % 16);
            assert(full =~= seq!['\\', 'u', '0', '0', hi, lo] + tail);
            assert(full[0] == '\\' && full[1] == 'u' && full[2] == '0' && full[3] == '0' && full[4]
                == hi && full[5] == lo);
            assert(hex_value(hi) == v / 16);
            assert(hex_value(lo) == v % 16);
            assert(hex_value(full[4]) * 16 + hex_value(full[5]) == v);
            lemma_control_char_cast(c);
            assert(control_char(v) == c);
            assert(full.skip(6) =~= tail);
            assert(scan_quoted(full) == Some((seq![c] + s.skip(1), rest)));
            assert(seq![c] + s.skip(1) =~= s);
        } else {
            assert(full =~= seq![c] + tail);
            assert(full[0] == c);
            assert(full.skip(1) =~= tail);
            assert(scan_quoted(full) == Some((seq![c] + s.skip(1), rest)));
            assert(seq![c] + s.skip(1) =~= s);
        }
    }
}

/// What a partial scan leaves to do: the content resolved so far stands in
/// front of whatever the scan of the remaining text yields.
spec fn scan_with_prefix(prefix: Seq<char>, r: Option<(Seq<char>, Seq<char>)>) -> Option<
    (Seq<char>, Seq<char>),
> {
    match r {
        Some(p) => Some((prefix + p.0, p.1)),
        None => None,
    }
}

/// Scan the interior of a quoted wire string inside `s`, beginning at
/// character `start`: the unescaped content and the position one past the
/// closing quote.
pub fn scan_quoted_str(s: &str, start: usize) -> (r: Option<(String, usize)>)
    requires
        start <= s@.len(),
    ensures
        match r {
            Some(p) => scan_quoted(s@.skip(start as int)) == Some((p.0@, s@.skip(p.1 as int)))
                && start < p.1 <= s@.len(),
            None => scan_quoted(s@.skip(start as int)) is None,
        },
{
    let n: usize = s.unicode_len();
    let mut content = String::new();
    let mut i: usize = start;
    proof {
        match scan_quoted(s@.skip(start as int)) {
            Some(p) => {
                assert(Seq::<char>::empty() + p.0 =~= p.0);
            },
            None => {
            },
        }
    }
    loop
        invariant
            n == s@.len(),
            start <= i <= n,
            scan_quoted(s@.skip(start as int)) == scan_with_prefix(
                content@,
                scan_quoted(s@.skip(i as int)),
            ),
        decreases n - i,
    {
        if i >= n {
            proof {
                assert(s@.skip(i as int) =~= Seq::<char>::empty());
            }
            return None;
        }
        let ghost content0 = content@;
        let c = s.get_char(i);
        proof {
            assert(s@.skip(i as int).len() != 0);
            assert(s@.skip(i as int)[0] == s@[i as int]);
            assert(s@.skip(i as int).skip(1) =~= s@.skip(i as int + 1));
        }
        if c == '"' {
            proof {
                assert(scan_quoted(s@.skip(i as int)) == Some(
                    (Seq::<char>::empty(), s@.skip(i as int + 1)),
                ));
                assert(content@ + Seq::<char>::empty() =~= content@);
            }
            return Some((content, i + 1));
        } else if c == '\\' {
            if i + 1 >= n {
                proof {
                    assert(s@.skip(i as int).len() == 1);
                }
                return None;
            }
            let d = s.get_char(i + 1);
            proof {
                assert(s@.skip(i as int).len() >= 2);
                assert(s@.skip(i as int)[1] == s@[i as int + 1]);
                assert(s@.skip(i as int).skip(2) =~= s@.skip(i as int + 2));
            }
            if d == '"' || d == '\\' {
                if d == '"' {
                    content.append("\"");
                    proof {
                        reveal_strlit("\"");
                    }
                } else {
                    content.append("\\");
                    proof {
                        reveal_strlit("\\");
                    }
                }
                proof {
                    assert(content@ =~= content0 + seq![d]);
                    match scan_quoted(s@.skip(i as int + 2)) {
                        Some(p) => {
                            assert(scan_quoted(s@.skip(i as int)) == Some((seq![d] + p.0, p.1)));
                            assert(content0 + (seq![d] + p.0) =~= content@ + p.0);
                        },
                        None => {
                            assert(scan_quoted(s@.skip(i as int)) is None);
                        },
                    }
                }
                i = i + 2;
            } else if d == 'u' {
                if n - i < 6 {
                    proof {
                        assert(s@.skip(i as int).len() < 6);
                    }
                    return None;
                }
                let c2 = s.get_char(i + 2);
                let c3 = s.get_char(i + 3);
                let h1 = s.get_char(i + 4);
                let h0 = s.get_char(i + 5);
                proof {
                    assert(s@.skip(i as int).len() >= 6);
                    assert(s@.skip(i as int)[2] == s@[i as int + 2]);
                    assert(s@.skip(i as int)[3] == s@[i as int + 3]);
                    assert(s@.skip(i as int)[4] == s@[i as int + 4]);
                    assert(s@.skip(i as int)[5] == s@[i as int + 5]);
                    assert(s@.skip(i as int).skip(6) =~= s@.skip(i as int + 6));
                }
                let v1 = hex_value_of(h1);
                let v0 = hex_value_of(h0);
                if c2 == '0' && c3 == '0' && v0 < 16 && v1 * 16 + v0 < 32 {
                    let ch = ((v1 * 16 + v0) as u8) as char;
                    push_char(&mut content, ch);
                    proof {
                        assert(ch == control_char(hex_value(h1) * 16 + hex_value(h0)));
                        assert(content@ =~= content0 + seq![ch]);
                        match scan_quoted(s@.skip(i as int + 6)) {
                            Some(p) => {
                                assert(scan_quoted(s@.skip(i as int)) == Some(
                                    (seq![ch] + p.0, p.1),
                                ));
                                assert(content0 + (seq![ch] + p.0) =~= content@ + p.0);
                            },
                            None => {
                                assert(scan_quoted(s@.skip(i as int)) is None);
                            },
                        }
                    }
                    i = i + 6;
                } else {
                    return None;
                }
            } else {
                return None;
            }
        } else {
            let piece = s.substring_char(i, i + 1);
            content.append(piece);
            proof {
                assert(piece@ =~= seq![c]);
                assert(content@ =~= content0 + seq![c]);
                match scan_quoted(s@.skip(i as int + 1)) {
                    Some(p) => {
                        assert(scan_quoted(s@.skip(i as int)) == Some((seq![c] + p.0, p.1)));
                        assert(content0 + (seq![c] + p.0) =~= content@ + p.0);
                    },
                    None => {
                        assert(scan_quoted(s@.skip(i as int)) is None);
                    },
                }
            }
            i = i + 1;
        }
    }
}

/// Does `s` begin with `prefix`?
pub fn str_has_prefix(s: &str, prefix: &str) -> (b: bool)
    ensures
        b == (s@.len() >= prefix@.len() && s@.subrange(0, prefix@.len() as int) == prefix@),
{
    let n: usize = s.unicode_len();
    let m: usize = prefix.unicode_len();
    if n < m {
        return false;
    }
    let mut i: usize = 0;
    while i < m
        invariant
            n == s@.len(),
            m == prefix@.len(),
            n >= m,
            i <= m,
            forall|j: int| 0 <= j < i ==> s@[j] == prefix@[j],
        decreases m - i,
    {
        if s.get_char(i) != prefix.get_char(i) {
            proof {
                assert(s@.subrange(0, m as int)[i as int] != prefix@[i as int]);
            }
            return false;
        }
        i = i + 1;
    }
    proof {
        assert(s@.subrange(0, m as int) =~= prefix@);
    }
    true
}

/// A one-field document: a fixed opening, which ends with the field's
/// opening quote, then a quoted content, then the closing brace. Yields
/// the content when the text has exactly that shape.
pub open spec fn one_string_doc(opening: Seq<char>, text: Seq<char>) -> Option<Seq<char>> {
    if text.len() >= opening.len() && text.subrange(0, opening.len() as int) == opening {
        match scan_quoted(text.skip(opening.len() as int)) {
            Some(q) => if q.1 == "}"@ {
                Some(q.0)
            } else {
                None
            },
            None => None,
        }
    } else {
        None
    }
}

/// Parse a one-field document that begins with `opening`: its quoted
/// content, or nothing when the text does not have that shape.
pub fn parse_one_string_doc(s: &str, opening: &str) -> (r: Option<String>)
    ensures
        match r {
            Some(v) => one_string_doc(opening@, s@) == Some(v@),
            None => one_string_doc(opening@, s@) is None,
        },
{
    if !str_has_prefix(s, opening) {
        return None;
    }
    let m: usize = opening.unicode_len();
    match scan_quoted_str(s, m) {
        None => None,
        Some((content, next)) => {
            let n: usize = s.unicode_len();
            proof {
                reveal_strlit("}");
            }
            if next < n && next + 1 == n && s.get_char(next) == '}' {
                proof {
                    assert(s@.skip(next as int) =~= "}"@);
                }
                Some(content)
            } else {
                proof {
                    assert("}"@.len() == 1);
                    if next as int + 1 == n as int {
                        assert(s@.skip(next as int)[0] == s@[next as int]);
                    }
                    assert(s@.skip(next as int) != "}"@);
                }
                None
            }
        },
    }
}

/// Law: a one-field document parses back to exactly the content it was
/// built from.
pub proof fn lemma_one_string_doc_roundtrip(opening: Seq<char>, content: Seq<char>)
    ensures
        one_string_doc(opening, opening + escape_text(content) + seq!['"'] + "}"@) == Some(content),
{
    reveal_strlit("}");
    let text = opening + escape_text(content) + seq!['"'] + "}"@;
    assert(text.subrange(0, opening.len() as int) =~= opening);
    assert(text.skip(opening.len() as int) =~= escape_text(content) + seq!['"'] + "}"@);
    lemma_scan_escaped(content, "}"@);
}

} // verus!
