use vstd::prelude::*;

verus! {

// ---------------------------------------------------------------------------
// Characters of rendered numbers
// ---------------------------------------------------------------------------

/// The character for the value `n` in base 16 (lower case).
pub open spec fn hex_char(n: int) -> char {
    if n == 0 {
        '0'
    } else if n == 1 {
        '1'
    } else if n == 2 {
        '2'
    } else if n == 3 {
        '3'
    } else if n == 4 {
        '4'
    } else if n == 5 {
        '5'
    } else if n == 6 {
        '6'
    } else if n == 7 {
        '7'
    } else if n == 8 {
        '8'
    } else if n == 9 {
        '9'
    } else if n == 10 {
        'a'
    } else if n == 11 {
        'b'
    } else if n == 12 {
        'c'
    } else if n == 13 {
        'd'
    } else if n == 14 {
        'e'
    } else {
        'f'
    }
}

/// The decimal rendering of `n` (no sign, no leading zeroes except for 0).
pub open spec fn dec_str(n: int) -> Seq<char>
    decreases n,
{
    if n < 10 {
        seq![hex_char(n)]
    } else {
        dec_str(n / 10) + seq![hex_char(n % 10)]
    }
}

fn push_hex(out: &mut String, n: u32)
    requires
        n < 16,
    ensures
        final(out)@ == old(out)@ + seq![hex_char(n as int)],
{
    let digits = "0123456789abcdef";
    proof {
        reveal_strlit("0123456789abcdef");
    }
    let piece = digits.substring_char(n as usize, n as usize + 1);
    proof {
        assert(piece@ =~= seq![hex_char(n as int)]);
    }
    out.append(piece);
}

/// Appends the decimal rendering of `n` to `out`.
pub fn write_dec(out: &mut String, n: usize)
    ensures
        final(out)@ == old(out)@ + dec_str(n as int),
    decreases n,
{
    if n < 10 {
        push_hex(out, (n % 16) as u32);
    } else {
        write_dec(out, n / 10);
        push_hex(out, (n % 10) as u32);
    }
}

// ---------------------------------------------------------------------------
// JSON string escaping
// ---------------------------------------------------------------------------

/// The JSON rendering of the single character `c` inside a quoted string.
pub open spec fn esc_char(c: char) -> Seq<char> {
    if c == '"' {
        seq!['\\', '"']
    } else if c == '\\' {
        seq!['\\', '\\']
    } else if c == '\n' {
        seq!['\\', 'n']
    } else if c == '\r' {
        seq!['\\', 'r']
    } else if c == '\t' {
        seq!['\\', 't']
    } else if (c as u32) < 32 {
        seq!['\\', 'u', '0', '0', hex_char(c as u32 as int / 16), hex_char(c as u32 as int % 16)]
    } else {
        seq![c]
    }
}

/// The body of the JSON rendering of the string `s` (without the quotes).
pub open spec fn json_escaped(s: Seq<char>) -> Seq<char>
    decreases s.len(),
{
    if s.len() == 0 {
        Seq::empty()
    } else {
        esc_char(s[0]) + json_escaped(s.skip(1))
    }
}

proof fn lemma_json_escaped_snoc(s: Seq<char>, c: char)
    ensures
        json_escaped(s.push(c)) == json_escaped(s) + esc_char(c),
    decreases s.len(),
{
    if s.len() == 0 {
        assert(s.push(c).skip(1) =~= Seq::<char>::empty());
        assert(json_escaped(s.push(c).skip(1)) =~= Seq::<char>::empty());
        assert(s.push(c)[0] == c);
        assert(json_escaped(s.push(c)) == esc_char(c) + json_escaped(s.push(c).skip(1)));
        assert(json_escaped(s) =~= Seq::<char>::empty());
        assert(json_escaped(s.push(c)) =~= json_escaped(s) + esc_char(c));
    } else {
        assert(s.push(c).skip(1) =~= s.skip(1).push(c));
        lemma_json_escaped_snoc(s.skip(1), c);
        assert(s.push(c)[0] == s[0]);
        assert(json_escaped(s.push(c)) == esc_char(s[0]) + json_escaped(s.skip(1).push(c)));
        assert(json_escaped(s.skip(1).push(c)) == json_escaped(s.skip(1)) + esc_char(c));
        assert(json_escaped(s) == esc_char(s[0]) + json_escaped(s.skip(1)));
        assert(json_escaped(s.push(c)) =~= json_escaped(s) + esc_char(c));
    }
}

/// The JSON rendering of the string `s`, quotes included.
pub open spec fn json_string(s: Seq<char>) -> Seq<char> {
    seq!['"'] + json_escaped(s) + seq!['"']
}

/// Appends the JSON rendering of `s`, quotes included, to `out`.
pub fn write_json_string(out: &mut String, s: &str)
    ensures
        final(out)@ == old(out)@ + json_string(s@),
{
    out.append("\"");
    proof {
        reveal_strlit("\"");
        assert(out@ =~= old(out)@ + seq!['"'] + json_escaped(s@.take(0)));
    }
    let n: usize = s.unicode_len();
    let mut i: usize = 0;
    while i < n
        invariant
            0 <= i <= n,
            n == s@.len(),
            out@ == old(out)@ + seq!['"'] + json_escaped(s@.take(i as int)),
        decreases n - i,
    {
        let c = s.get_char(i);
        let u = c as u32;
        if c == '"' {
            out.append("\\\"");
            proof {
                reveal_strlit("\\\"");
            }
        } else if c == '\\' {
            out.append("\\\\");
            proof {
                reveal_strlit("\\\\");
            }
        } else if c == '\n' {
            out.append("\\n");
            proof {
                reveal_strlit("\\n");
            }
        } else if c == '\r' {
            out.append("\\r");
            proof {
                reveal_strlit("\\r");
            }
        } else if c == '\t' {
            out.append("\\t");
            proof {
                reveal_strlit("\\t");
            }
        } else if u < 32 {
            out.append("\\u00");
            proof {
                reveal_strlit("\\u00");
            }
            push_hex(out, u / 16);
            push_hex(out, u % 16);
        } else {
            let piece = s.substring_char(i, i + 1);
            proof {
                assert(piece@ =~= seq![s@[i as int]]);
            }
            out.append(piece);
        }
        proof {
            assert(s@.take(i + 1) =~= s@.take(i as int).push(s@[i as int]));
            lemma_json_escaped_snoc(s@.take(i as int), s@[i as int]);
            assert(out@ =~= old(out)@ + seq!['"'] + json_escaped(s@.take(i + 1)));
        }
        i = i + 1;
    }
    proof {
        assert(s@.take(n as int) =~= s@);
    }
    out.append("\"");
    proof {
        assert(out@ =~= old(out)@ + json_string(s@));
    }
}

// ---------------------------------------------------------------------------
// Optional strings and arrays of strings
// ---------------------------------------------------------------------------

/// The JSON rendering of an optional string: the string, or `null`.
pub open spec fn json_opt_string(o: Option<Seq<char>>) -> Seq<char> {
    match o {
        Some(s) => json_string(s),
        None => seq!['n', 'u', 'l', 'l'],
    }
}

/// Appends `null` to `out`.
pub fn write_null(out: &mut String)
    ensures
        final(out)@ == old(out)@ + seq!['n', 'u', 'l', 'l'],
{
    out.append("null");
    proof {
        reveal_strlit("null");
        assert(out@ =~= old(out)@ + seq!['n', 'u', 'l', 'l']);
    }
}

/// Appends the JSON rendering of the optional string `o` to `out`.
pub fn write_json_opt_string(out: &mut String, o: &Option<String>)
    ensures
        final(out)@ == old(out)@ + json_opt_string(o.deep_view()),
{
    match o {
        Some(s) => write_json_string(out, s.as_str()),
        None => write_null(out),
    }
}

/// The items of `l` from index `i` on, each rendered as a JSON string and
/// preceded by a comma.
pub open spec fn json_items_from(l: Seq<Seq<char>>, i: int) -> Seq<char>
    decreases l.len() - i,
{
    if 0 <= i && i < l.len() {
        seq![','] + json_string(l[i]) + json_items_from(l, i + 1)
    } else {
        Seq::empty()
    }
}

/// The JSON rendering of `l` as an array of strings.
pub open spec fn json_string_array(l: Seq<Seq<char>>) -> Seq<char> {
    if l.len() == 0 {
        seq!['[', ']']
    } else {
        seq!['['] + json_string(l[0]) + json_items_from(l, 1) + seq![']']
    }
}

/// Appends the JSON rendering of `l` as an array of strings to `out`.
pub fn write_json_string_array(out: &mut String, l: &Vec<String>)
    ensures
        final(out)@ == old(out)@ + json_string_array(l.deep_view()),
{
    let ghost dv = l.deep_view();
    out.append("[");
    proof {
        reveal_strlit("[");
    }
    if l.len() == 0 {
        out.append("]");
        proof {
            reveal_strlit("]");
            assert(out@ =~= old(out)@ + json_string_array(dv));
        }
        return ;
    }
    write_json_string(out, l[0].as_str());
    let ghost base = out@;
    proof {
        assert(dv[0] == l[0]@);
        assert(base =~= old(out)@ + seq!['['] + json_string(dv[0]));
    }
    let n: usize = l.len();
    let mut i: usize = 1;
    while i < n
        invariant
            1 <= i <= n,
            n == dv.len(),
            dv == l.deep_view(),
            n == l.len(),
            base + json_items_from(dv, 1) == out@ + json_items_from(dv, i as int),
        decreases n - i,
    {
        let ghost before = out@;
        out.append(",");
        proof {
            reveal_strlit(",");
        }
        write_json_string(out, l[i].as_str());
        proof {
            assert(dv[i as int] == l[i as int]@);
            assert(out@ =~= before + seq![','] + json_string(dv[i as int]));
            assert(json_items_from(dv, i as int) == seq![','] + json_string(dv[i as int])
                + json_items_from(dv, i + 1));
            assert(base + json_items_from(dv, 1) =~= out@ + json_items_from(dv, i + 1));
        }
        i = i + 1;
    }
    proof {
        assert(json_items_from(dv, n as int) =~= Seq::<char>::empty());
        assert(out@ =~= base + json_items_from(dv, 1));
    }
    out.append("]");
    proof {
        reveal_strlit("]");
        assert(out@ =~= old(out)@ + json_string_array(dv));
    }
}

/// The JSON rendering of an optional array of strings: the array, or `null`.
pub open spec fn json_opt_string_array(o: Option<Seq<Seq<char>>>) -> Seq<char> {
    match o {
        Some(l) => json_string_array(l),
        None => seq!['n', 'u', 'l', 'l'],
    }
}

/// Appends the JSON rendering of the optional array `o` to `out`.
pub fn write_json_opt_string_array(out: &mut String, o: &Option<Vec<String>>)
    ensures
        final(out)@ == old(out)@ + json_opt_string_array(o.deep_view()),
{
    match o {
        Some(l) => write_json_string_array(out, l),
        None => write_null(out),
    }
}

} // verus!
