use vstd::prelude::*;

verus! {

/// The text kept of `s` in a cell whose declared width is `len`: the first
/// `len` characters unless `wide` asks for the whole text.
pub open spec fn trimmed(s: Seq<char>, len: nat, wide: bool) -> Seq<char> {
    if wide || s.len() <= len {
        s
    } else {
        s.take(len as int)
    }
}

/// Cuts `s` to at most `len` characters, never inside a character; with `wide`
/// the text is returned whole.
pub fn trim_string(s: &str, len: usize, wide: bool) -> (r: String)
    ensures
        r@ == trimmed(s@, len as nat, wide),
{
    if wide {
        return String::from_str(s);
    }
    let n = s.unicode_len();
    if n <= len {
        String::from_str(s)
    } else {
        let prefix = s.substring_char(0, len);
        String::from_str(prefix)
    }
}

/// A trimmed cell is a prefix of the untrimmed text, of exactly
/// `min(len, |s|)` characters, and holds whole characters only.
pub proof fn lemma_trim_is_prefix(s: Seq<char>, len: nat)
    ensures
        trimmed(s, len, false).len() == if s.len() <= len { s.len() } else { len },
        s.take(trimmed(s, len, false).len() as int) == trimmed(s, len, false),
        trimmed(s, len, true) == s,
{
    assert(s.take(s.len() as int) =~= s);
}


/// The character of a decimal digit.
pub open spec fn digit_char(d: nat) -> char {
    seq!['0', '1', '2', '3', '4', '5', '6', '7', '8', '9'][d as int]
}

/// The decimal digits of `n`, most significant first, without leading zeros.
pub open spec fn decimal(n: nat) -> Seq<char>
    decreases n,
{
    if n < 10 {
        seq![digit_char(n)]
    } else {
        decimal(n / 10).push(digit_char(n % 10))
    }
}

pub(crate) fn digit_str(d: u64) -> (r: &'static str)
    requires
        d < 10,
    ensures
        r@ == seq![digit_char(d as nat)],
{
    proof {
        reveal_strlit("0");
        reveal_strlit("1");
        reveal_strlit("2");
        reveal_strlit("3");
        reveal_strlit("4");
        reveal_strlit("5");
        reveal_strlit("6");
        reveal_strlit("7");
        reveal_strlit("8");
        reveal_strlit("9");
    }
    if d == 0 {
        "0"
    } else if d == 1 {
        "1"
    } else if d == 2 {
        "2"
    } else if d == 3 {
        "3"
    } else if d == 4 {
        "4"
    } else if d == 5 {
        "5"
    } else if d == 6 {
        "6"
    } else if d == 7 {
        "7"
    } else if d == 8 {
        "8"
    } else {
        "9"
    }
}

/// Appends the decimal digits of `n` to `out`.
pub fn push_decimal(out: &mut String, n: u64)
    ensures
        final(out)@ == old(out)@ + decimal(n as nat),
    decreases n,
{
    if n >= 10 {
        push_decimal(out, n / 10);
    }
    out.append(digit_str(n % 10));
    proof {
        if n >= 10 {
            assert(old(out)@ + decimal(n as nat) =~= old(out)@ + decimal((n / 10) as nat) + seq![
                digit_char((n % 10) as nat),
            ]);
        } else {
            assert(decimal(n as nat) == seq![digit_char((n % 10) as nat)]);
        }
    }
}

/// `c` with an ASCII capital letter taken to its small letter, as a code point.
pub open spec fn ascii_lower(c: char) -> u32 {
    if 65 <= (c as u32) <= 90 {
        (c as u32 + 32) as u32
    } else {
        c as u32
    }
}

/// `a` and `b` are equal once ASCII letters are taken to one case.
pub open spec fn eq_ignore_ascii_case(a: Seq<char>, b: Seq<char>) -> bool {
    &&& a.len() == b.len()
    &&& forall|i: int| 0 <= i < a.len() ==> #[trigger] ascii_lower(a[i]) == ascii_lower(b[i])
}

fn lower_code(c: char) -> (r: u32)
    ensures
        r == ascii_lower(c),
{
    let v = c as u32;
    if 65 <= v && v <= 90 {
        v + 32
    } else {
        v
    }
}

/// Texts of different lengths, or that differ at some place beyond case, are
/// not equal with case ignored.
pub proof fn lemma_differ_at(a: Seq<char>, b: Seq<char>, k: int)
    requires
        a.len() != b.len() || (0 <= k < a.len() && ascii_lower(a[k]) != ascii_lower(b[k])),
    ensures
        !eq_ignore_ascii_case(a, b),
        !eq_ignore_ascii_case(b, a),
{
}

/// Compares two texts, ASCII letters in either case being equal.
pub fn str_eq_ignore_ascii_case(a: &str, b: &str) -> (r: bool)
    ensures
        r == eq_ignore_ascii_case(a@, b@),
{
    let n = a.unicode_len();
    if n != b.unicode_len() {
        return false;
    }
    let mut i: usize = 0;
    while i < n
        invariant
            n == a@.len(),
            n == b@.len(),
            i <= n,
            forall|k: int| 0 <= k < i ==> #[trigger] ascii_lower(a@[k]) == ascii_lower(b@[k]),
        decreases n - i,
    {
        if lower_code(a.get_char(i)) != lower_code(b.get_char(i)) {
            return false;
        }
        i = i + 1;
    }
    true
}

/// The parts written one after another with `sep` between each two.
pub open spec fn join(parts: Seq<Seq<char>>, sep: Seq<char>) -> Seq<char>
    decreases parts.len(),
{
    if parts.len() == 0 {
        Seq::empty()
    } else if parts.len() == 1 {
        parts[0]
    } else {
        join(parts.drop_last(), sep) + sep + parts.last()
    }
}

/// Joins the parts with `sep` between each two.
pub fn join_strings(parts: &Vec<String>, sep: &str) -> (r: String)
    ensures
        r@ == join(parts.deep_view(), sep@),
{
    let mut out = String::new();
    let mut i: usize = 0;
    let ghost all = parts.deep_view();
    while i < parts.len()
        invariant
            i <= parts.len(),
            all == parts.deep_view(),
            all.len() == parts.len(),
            out@ == join(all.take(i as int), sep@),
        decreases parts.len() - i,
    {
        proof {
            assert(all.take(i + 1).drop_last() =~= all.take(i as int));
            assert(all[i as int] == parts[i as int]@);
        }
        if i > 0 {
            out.append(sep);
        }
        out.append(parts[i].as_str());
        proof {
            if i == 0 {
                assert(out@ =~= join(all.take(1), sep@));
            } else {
                assert(out@ =~= join(all.take(i + 1), sep@));
            }
        }
        i = i + 1;
    }
    assert(all.take(parts.len() as int) =~= all);
    out
}

} // verus!
