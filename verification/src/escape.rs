use vstd::prelude::*;
use vstd::string::StrSliceExecFns;
use crate::strutil::push_char;

verus! {

/// JSON string escaping: quote and backslash get a backslash, control
/// characters become `\u00xx`, everything else passes through.

pub open spec fn is_hex(c: char) -> bool {
    ('0' <= c && c <= '9') || ('a' <= c && c <= 'f')
}

pub open spec fn hex_val(c: char) -> int {
    if '0' <= c && c <= '9' {
        c as int - '0' as int
    } else {
        c as int - 'a' as int + 10
    }
}

pub open spec fn hex_char(d: int) -> char {
    if d == 0 { '0' }
    else if d == 1 { '1' }
    else if d == 2 { '2' }
    else if d == 3 { '3' }
    else if d == 4 { '4' }
    else if d == 5 { '5' }
    else if d == 6 { '6' }
    else if d == 7 { '7' }
    else if d == 8 { '8' }
    else if d == 9 { '9' }
    else if d == 10 { 'a' }
    else if d == 11 { 'b' }
    else if d == 12 { 'c' }
    else if d == 13 { 'd' }
    else if d == 14 { 'e' }
    else { 'f' }
}

pub proof fn lemma_hex_char_val(d: int)
    requires
        0 <= d < 16,
    ensures
        is_hex(hex_char(d)),
        hex_val(hex_char(d)) == d,
{
}

fn hex_char_of(d: u32) -> (c: char)
    requires
        d < 16,
    ensures
        c == hex_char(d as int),
{
    if d == 0 { '0' }
    else if d == 1 { '1' }
    else if d == 2 { '2' }
    else if d == 3 { '3' }
    else if d == 4 { '4' }
    else if d == 5 { '5' }
    else if d == 6 { '6' }
    else if d == 7 { '7' }
    else if d == 8 { '8' }
    else if d == 9 { '9' }
    else if d == 10 { 'a' }
    else if d == 11 { 'b' }
    else if d == 12 { 'c' }
    else if d == 13 { 'd' }
    else if d == 14 { 'e' }
    else { 'f' }
}

fn is_hex_exec(c: char) -> (b: bool)
    ensures
        b == is_hex(c),
{
    let code = c as u32;
    (48 <= code && code <= 57) || (97 <= code && code <= 102)
}

fn hex_val_of(c: char) -> (v: u32)
    requires
        is_hex(c),
    ensures
        v == hex_val(c),
        v < 16,
{
    let code = c as u32;
    if 48 <= code && code <= 57 {
        code - 48
    } else {
        code - 97 + 10
    }
}

/// The character with the given code, for codes below 32.
pub open spec fn char_from_code(code: int) -> char {
    (code as u8) as char
}

/// How one character is written inside a JSON string.
pub open spec fn esc_char(c: char) -> Seq<char> {
    if c == '"' {
        seq!['\\', '"']
    } else if c == '\\' {
        seq!['\\', '\\']
    } else if 0 <= (c as int) && (c as int) < 32 {
        seq!['\\', 'u', '0', '0', hex_char(c as int / 16), hex_char(c as int % 16)]
    } else {
        seq![c]
    }
}

/// How a whole string is written inside a JSON string, quotes not included.
pub open spec fn escape_seq(s: Seq<char>) -> Seq<char>
    decreases s.len(),
{
    if s.len() == 0 {
        Seq::empty()
    } else {
        esc_char(s[0]) + escape_seq(s.subrange(1, s.len() as int))
    }
}

pub proof fn lemma_escape_push(s: Seq<char>, c: char)
    ensures
        escape_seq(s.push(c)) == escape_seq(s) + esc_char(c),
    decreases s.len(),
{
    if s.len() == 0 {
        assert(s.push(c)[0] == c);
        assert(s.push(c).subrange(1, 1) =~= Seq::<char>::empty());
        assert(escape_seq(s.push(c)) == esc_char(c) + escape_seq(s.push(c).subrange(1, 1)));
        assert(escape_seq(Seq::<char>::empty()) == Seq::<char>::empty());
        assert(esc_char(c) + Seq::<char>::empty() =~= esc_char(c));
        assert(escape_seq(s) + esc_char(c) =~= esc_char(c));
    } else {
        assert(s.push(c).subrange(1, s.len() as int + 1) =~= s.subrange(1, s.len() as int).push(c));
        lemma_escape_push(s.subrange(1, s.len() as int), c);
        assert(s.push(c)[0] == s[0]);
        assert(escape_seq(s.push(c)) =~= escape_seq(s) + esc_char(c));
    }
}

/// Prepends a character to a successful parse.
pub open spec fn cons_parse(c: char, r: Option<(Seq<char>, int)>) -> Option<(Seq<char>, int)> {
    match r {
        Some(p) => Some((seq![c] + p.0, p.1)),
        None => None,
    }
}

/// Reads a JSON string body that starts at `i` (just past the opening quote)
/// up to and including its closing quote: the unescaped content and the
/// position just past the closing quote, or nothing when the text is not a
/// well-formed string body.
pub open spec fn parse_str_at(s: Seq<char>, i: int) -> Option<(Seq<char>, int)>
    decreases s.len() - i when 0 <= i <= s.len()
{
    if i >= s.len() {
        None
    } else if s[i] == '"' {
        Some((Seq::empty(), i + 1))
    } else if s[i] == '\\' {
        if i + 2 <= s.len() && s[i + 1] == '"' {
            cons_parse('"', parse_str_at(s, i + 2))
        } else if i + 2 <= s.len() && s[i + 1] == '\\' {
            cons_parse('\\', parse_str_at(s, i + 2))
        } else if i + 6 <= s.len() && s[i + 1] == 'u' && s[i + 2] == '0' && s[i + 3] == '0'
            && is_hex(s[i + 4]) && is_hex(s[i + 5])
            && hex_val(s[i + 4]) * 16 + hex_val(s[i + 5]) < 32 {
            cons_parse(
                char_from_code(hex_val(s[i + 4]) * 16 + hex_val(s[i + 5])),
                parse_str_at(s, i + 6),
            )
        } else {
            None
        }
    } else {
        cons_parse(s[i], parse_str_at(s, i + 1))
    }
}

/// Reading back what `escape_seq` wrote, with the closing quote behind it,
/// yields the original string and stops just past that quote.
pub proof fn lemma_parse_escaped(s: Seq<char>, i: int, x: Seq<char>)
    requires
        0 <= i,
        i + escape_seq(x).len() + 1 <= s.len(),
        s.subrange(i, i + escape_seq(x).len() as int) == escape_seq(x),
        s[i + escape_seq(x).len()] == '"',
    ensures
        parse_str_at(s, i) == Some((x, i + escape_seq(x).len() + 1)),
    decreases x.len(),
{
    let e = escape_seq(x);
    assert(forall|k: int| 0 <= k < e.len() ==> s[i + k] == #[trigger] e[k]) by {
        assert(forall|k: int| 0 <= k < e.len()
            ==> #[trigger] s.subrange(i, i + e.len() as int)[k] == s[i + k]);
    }
    if x.len() == 0 {
        assert(s[i] == '"');
    } else {
        let c = x[0];
        let e0 = esc_char(c);
        let rest = x.subrange(1, x.len() as int);
        let er = escape_seq(rest);
        assert(e == e0 + er);
        assert(forall|k: int| 0 <= k < e0.len() ==> e[k] == #[trigger] e0[k]);
        assert(forall|k: int| 0 <= k < er.len() ==> e[e0.len() + k] == #[trigger] er[k]);
        assert(s.subrange(i + e0.len(), i + e0.len() + er.len() as int) =~= er);
        assert(s[i + e0.len() + er.len()] == '"');
        lemma_parse_escaped(s, i + e0.len(), rest);
        assert(seq![c] + rest =~= x);
        if c == '"' {
            assert(s[i] == '\\' && s[i + 1] == '"');
            assert(parse_str_at(s, i) == cons_parse('"', parse_str_at(s, i + 2)));
        } else if c == '\\' {
            assert(s[i] == '\\' && s[i + 1] == '\\');
            assert(parse_str_at(s, i) == cons_parse('\\', parse_str_at(s, i + 2)));
        } else if 0 <= (c as int) && (c as int) < 32 {
            assert(s[i] == '\\' && s[i + 1] == 'u' && s[i + 2] == '0' && s[i + 3] == '0');
            assert(s[i + 4] == hex_char(c as int / 16) && s[i + 5] == hex_char(c as int % 16));
            lemma_hex_char_val(c as int / 16);
            lemma_hex_char_val(c as int % 16);
            assert(hex_val(s[i + 4]) * 16 + hex_val(s[i + 5]) == c as int);
            assert(char_from_code(c as int) == c);
            assert(parse_str_at(s, i) == cons_parse(c, parse_str_at(s, i + 6)));
        } else {
            assert(s[i] == c);
            assert(parse_str_at(s, i) == cons_parse(c, parse_str_at(s, i + 1)));
        }
    }
}

/// Writes `s` in its escaped form.
pub fn escape_string(s: &str) -> (r: String)
    ensures
        r@ == escape_seq(s@),
{
    let len = s.unicode_len();
    let mut out = String::new();
    let mut i: usize = 0;
    assert(s@.subrange(0, 0) =~= Seq::<char>::empty());
    while i < len
        invariant
            i <= len,
            len == s@.len(),
            out@ == escape_seq(s@.subrange(0, i as int)),
        decreases len - i,
    {
        let c = s.get_char(i);
        proof {
            lemma_escape_push(s@.subrange(0, i as int), c);
            assert(s@.subrange(0, i + 1) =~= s@.subrange(0, i as int).push(c));
        }
        let ghost before = out@;
        if c == '"' {
            push_char(&mut out, '\\');
            push_char(&mut out, '"');
            assert(out@ =~= before + esc_char(c));
        } else if c == '\\' {
            push_char(&mut out, '\\');
            push_char(&mut out, '\\');
            assert(out@ =~= before + esc_char(c));
        } else if (c as u32) < 32 {
            let code = c as u32;
            push_char(&mut out, '\\');
            push_char(&mut out, 'u');
            push_char(&mut out, '0');
            push_char(&mut out, '0');
            push_char(&mut out, hex_char_of(code / 16));
            push_char(&mut out, hex_char_of(code % 16));
            assert(out@ =~= before + esc_char(c));
        } else {
            push_char(&mut out, c);
            assert(out@ =~= before + esc_char(c));
        }
        i = i + 1;
    }
    proof {
        assert(s@.subrange(0, len as int) =~= s@);
    }
    out
}

/// Glues an already-read prefix onto a parse of the remainder.
pub open spec fn cons_all(pre: Seq<char>, r: Option<(Seq<char>, int)>) -> Option<(Seq<char>, int)> {
    match r {
        Some(p) => Some((pre + p.0, p.1)),
        None => None,
    }
}

proof fn lemma_cons_all_push(pre: Seq<char>, c: char, r: Option<(Seq<char>, int)>)
    ensures
        cons_all(pre.push(c), r) == cons_all(pre, cons_parse(c, r)),
{
    match r {
        Some(p) => {
            assert(pre.push(c) + p.0 =~= pre + (seq![c] + p.0));
        },
        None => {},
    }
}

/// Reads a JSON string body at `i`, exactly as `parse_str_at` describes.
pub fn parse_string_at(s: &str, i: usize) -> (r: Option<(String, usize)>)
    requires
        i <= s@.len(),
    ensures
        r matches Some(p) ==> parse_str_at(s@, i as int) == Some((p.0@, p.1 as int))
            && i < p.1 <= s@.len(),
        r is None ==> parse_str_at(s@, i as int) is None,
{
    let len = s.unicode_len();
    let mut acc = String::new();
    let mut k = i;
    proof {
        assert(cons_all(acc@, parse_str_at(s@, i as int)) == parse_str_at(s@, i as int)) by {
            match parse_str_at(s@, i as int) {
                Some(p) => {
                    assert(Seq::<char>::empty() + p.0 =~= p.0);
                },
                None => {},
            }
        }
    }
    loop
        invariant
            i <= k <= len,
            len == s@.len(),
            parse_str_at(s@, i as int) == cons_all(acc@, parse_str_at(s@, k as int)),
        decreases len - k,
    {
        if k >= len {
            return None;
        }
        let c = s.get_char(k);
        if c == '"' {
            proof {
                assert(acc@ + Seq::<char>::empty() =~= acc@);
            }
            return Some((acc, k + 1));
        }
        if c == '\\' {
            if k + 1 >= len {
                return None;
            }
            let c2 = s.get_char(k + 1);
            if c2 == '"' {
                proof {
                    lemma_cons_all_push(acc@, '"', parse_str_at(s@, k + 2));
                }
                push_char(&mut acc, '"');
                k = k + 2;
            } else if c2 == '\\' {
                proof {
                    lemma_cons_all_push(acc@, '\\', parse_str_at(s@, k + 2));
                }
                push_char(&mut acc, '\\');
                k = k + 2;
            } else if c2 == 'u' {
                if len - k < 6 {
                    return None;
                }
                if !(s.get_char(k + 2) == '0' && s.get_char(k + 3) == '0') {
                    return None;
                }
                let c5 = s.get_char(k + 4);
                let c6 = s.get_char(k + 5);
                if !(is_hex_exec(c5) && is_hex_exec(c6)) {
                    return None;
                }
                let code = hex_val_of(c5) * 16 + hex_val_of(c6);
                if code >= 32 {
                    return None;
                }
                let ch = (code as u8) as char;
                proof {
                    assert(ch == char_from_code(code as int));
                    lemma_cons_all_push(acc@, ch, parse_str_at(s@, k + 6));
                }
                push_char(&mut acc, ch);
                k = k + 6;
            } else {
                return None;
            }
        } else {
            proof {
                lemma_cons_all_push(acc@, c, parse_str_at(s@, k + 1));
            }
            push_char(&mut acc, c);
            k = k + 1;
        }
    }
}

} // verus!
