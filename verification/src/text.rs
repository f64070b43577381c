//! Verified string utilities: equality, concatenation, ASCII case
//! folding, and decimal rendering. Everything here is proved against
//! sequence-level specifications; nothing is trusted.

use vstd::prelude::*;

verus! {

/// ASCII uppercase letter.
pub open spec fn is_upper(c: char) -> bool {
    'A' <= c && c <= 'Z'
}

/// ASCII lowercase letter.
pub open spec fn is_lower(c: char) -> bool {
    'a' <= c && c <= 'z'
}

/// ASCII case folding of one character: lowercase letters map to their
/// uppercase counterpart, everything else is unchanged.
pub open spec fn upper_char(c: char) -> char {
    if is_lower(c) {
        ((c as u8) - 32) as char
    } else {
        c
    }
}

/// ASCII case folding of a whole sequence.
pub open spec fn upper_seq(s: Seq<char>) -> Seq<char> {
    s.map_values(|c: char| upper_char(c))
}

/// Character-exact string equality.
pub fn str_eq(a: &str, b: &str) -> (r: bool)
    ensures
        r == (a@ == b@),
{
    let na = a.unicode_len();
    let nb = b.unicode_len();
    if na != nb {
        proof {
            if a@ == b@ {
                assert(a@.len() == b@.len());
            }
        }
        return false;
    }
    let mut i: usize = 0;
    while i < na
        invariant
            i <= na,
            na == a@.len(),
            na == b@.len(),
            forall|k: int| 0 <= k < i ==> a@[k] == b@[k],
        decreases na - i,
    {
        let ca = a.get_char(i);
        let cb = b.get_char(i);
        if ca != cb {
            proof {
                if a@ == b@ {
                    assert(a@[i as int] == b@[i as int]);
                }
            }
            return false;
        }
        i += 1;
    }
    proof {
        assert(a@ =~= b@);
    }
    true
}

/// Appends `b` to `a`, returning a fresh string.
pub fn str_concat(a: &str, b: &str) -> (r: String)
    ensures
        r@ == a@ + b@,
{
    let mut s = a.to_owned();
    s.append(b);
    s
}

/// Whether folding `s` to ASCII uppercase yields exactly `t`.
pub fn eq_upper(s: &str, t: &str) -> (r: bool)
    ensures
        r == (upper_seq(s@) == t@),
{
    let ns = s.unicode_len();
    let nt = t.unicode_len();
    if ns != nt {
        proof {
            if upper_seq(s@) == t@ {
                assert(upper_seq(s@).len() == t@.len());
            }
        }
        return false;
    }
    let mut i: usize = 0;
    while i < ns
        invariant
            i <= ns,
            ns == s@.len(),
            ns == t@.len(),
            forall|k: int| 0 <= k < i ==> upper_char(s@[k]) == t@[k],
        decreases ns - i,
    {
        let c = s.get_char(i);
        let folded: char = if 'a' <= c && c <= 'z' {
            ((c as u8) - 32) as char
        } else {
            c
        };
        proof {
            assert(folded == upper_char(s@[i as int]));
        }
        if folded != t.get_char(i) {
            proof {
                if upper_seq(s@) == t@ {
                    assert(upper_seq(s@)[i as int] == t@[i as int]);
                }
            }
            return false;
        }
        i += 1;
    }
    proof {
        assert(upper_seq(s@) =~= t@);
    }
    true
}

/// ASCII whitespace, as it appears in tool output.
pub open spec fn is_ws(c: char) -> bool {
    c == ' ' || c == '\t' || c == '\n' || c == '\r'
}

/// `s` without its leading whitespace.
pub open spec fn trim_start_spec(s: Seq<char>) -> Seq<char>
    decreases s.len(),
{
    if s.len() > 0 && is_ws(s[0]) {
        trim_start_spec(s.drop_first())
    } else {
        s
    }
}

/// `s` without its trailing whitespace.
pub open spec fn trim_end_spec(s: Seq<char>) -> Seq<char>
    decreases s.len(),
{
    if s.len() > 0 && is_ws(s.last()) {
        trim_end_spec(s.drop_last())
    } else {
        s
    }
}

/// `s` without leading and trailing whitespace.
pub open spec fn trim_spec(s: Seq<char>) -> Seq<char> {
    trim_end_spec(trim_start_spec(s))
}

/// If everything before `a` is whitespace and `a` is past the end or
/// points at a non-whitespace character, trimming the start keeps
/// exactly the suffix from `a`.
proof fn lemma_trim_start_at(s: Seq<char>, a: int)
    requires
        0 <= a <= s.len(),
        forall|k: int| 0 <= k < a ==> is_ws(s[k]),
        a < s.len() ==> !is_ws(s[a]),
    ensures
        trim_start_spec(s) == s.subrange(a, s.len() as int),
    decreases a,
{
    if a == 0 {
        assert(trim_start_spec(s) =~= s.subrange(0, s.len() as int));
    } else {
        assert(is_ws(s[0]));
        let t = s.drop_first();
        assert(forall|k: int| 0 <= k < a - 1 ==> is_ws(t[k]));
        lemma_trim_start_at(t, a - 1);
        assert(t.subrange(a - 1, t.len() as int) =~= s.subrange(a, s.len() as int));
    }
}

/// If everything from `b` on is whitespace and `b` is zero or points
/// just past a non-whitespace character, trimming the end keeps exactly
/// the prefix up to `b`.
proof fn lemma_trim_end_at(s: Seq<char>, b: int)
    requires
        0 <= b <= s.len(),
        forall|k: int| b <= k < s.len() ==> is_ws(s[k]),
        b > 0 ==> !is_ws(s[b - 1]),
    ensures
        trim_end_spec(s) == s.subrange(0, b),
    decreases s.len() - b,
{
    if b == s.len() {
        assert(trim_end_spec(s) =~= s.subrange(0, b));
    } else {
        assert(is_ws(s.last()));
        let t = s.drop_last();
        lemma_trim_end_at(t, b);
        assert(t.subrange(0, b) =~= s.subrange(0, b));
    }
}

/// Removes leading and trailing ASCII whitespace.
pub fn trim(s: &str) -> (r: String)
    ensures
        r@ == trim_spec(s@),
{
    let n = s.unicode_len();
    let mut a: usize = 0;
    while a < n && ws_at(s, a)
        invariant
            a <= n,
            n == s@.len(),
            forall|k: int| 0 <= k < a ==> is_ws(s@[k]),
        decreases n - a,
    {
        a += 1;
    }
    proof {
        lemma_trim_start_at(s@, a as int);
    }
    if a == n {
        proof {
            assert(trim_start_spec(s@) =~= Seq::<char>::empty());
            assert(trim_spec(s@) =~= Seq::<char>::empty());
        }
        return String::new();
    }
    let mut b: usize = n;
    while b > a && ws_at(s, b - 1)
        invariant
            a <= b <= n,
            n == s@.len(),
            a < n,
            !is_ws(s@[a as int]),
            forall|k: int| b <= k < n ==> is_ws(s@[k]),
        decreases b,
    {
        b -= 1;
    }
    proof {
        assert(b > a);
        let t = s@.subrange(a as int, n as int);
        assert(forall|k: int| b - a <= k < t.len() ==> is_ws(t[k]));
        assert(t[b - a - 1] == s@[b as int - 1]);
        lemma_trim_end_at(t, b - a);
        assert(t.subrange(0, b - a) =~= s@.subrange(a as int, b as int));
    }
    s.substring_char(a, b).to_owned()
}

/// Whether the character at position `i` is ASCII whitespace.
fn ws_at(s: &str, i: usize) -> (r: bool)
    requires
        i < s@.len(),
    ensures
        r == is_ws(s@[i as int]),
{
    let c = s.get_char(i);
    c == ' ' || c == '\t' || c == '\n' || c == '\r'
}

/// The pieces joined with the separator between consecutive pieces.
pub open spec fn join_seqs(xs: Seq<Seq<char>>, sep: Seq<char>) -> Seq<char>
    decreases xs.len(),
{
    if xs.len() == 0 {
        Seq::empty()
    } else if xs.len() == 1 {
        xs[0]
    } else {
        join_seqs(xs.drop_last(), sep) + sep + xs.last()
    }
}

/// Joins the strings with the separator between consecutive entries.
pub fn join_strings(parts: &Vec<String>, sep: &str) -> (r: String)
    ensures
        r@ == join_seqs(parts.deep_view(), sep@),
{
    let mut out = String::new();
    let n = parts.len();
    let mut i: usize = 0;
    while i < n
        invariant
            i <= n,
            n == parts@.len(),
            parts.deep_view().len() == n,
            out@ == join_seqs(parts.deep_view().take(i as int), sep@),
        decreases n - i,
    {
        proof {
            assert(parts.deep_view().take(i as int + 1).drop_last() =~= parts.deep_view().take(
                i as int,
            ));
            assert(parts.deep_view().take(i as int + 1).last() == parts.deep_view()[i as int]);
            assert(parts.deep_view()[i as int] == parts@[i as int]@);
        }
        if i > 0 {
            out.append(sep);
        } else {
            proof {
                assert(join_seqs(parts.deep_view().take(0), sep@) =~= Seq::<char>::empty());
                assert(out@ =~= Seq::<char>::empty());
            }
        }
        out.append(parts[i].as_str());
        proof {
            if i == 0 {
                assert(out@ =~= join_seqs(parts.deep_view().take(1), sep@));
            }
        }
        i += 1;
    }
    proof {
        assert(parts.deep_view().take(n as int) =~= parts.deep_view());
    }
    out
}

/// The decimal digit character for a value below ten.
pub open spec fn digit_char(d: nat) -> char {
    (('0' as u8) + d) as char
}

/// The decimal rendering of a natural number, without sign or leading
/// zeros.
pub open spec fn dec_str(n: nat) -> Seq<char>
    decreases n,
{
    if n < 10 {
        seq![digit_char(n)]
    } else {
        dec_str(n / 10).push(digit_char(n % 10))
    }
}

/// The one-character string for a decimal digit.
fn digit_str(d: usize) -> (r: &'static str)
    requires
        d < 10,
    ensures
        r@ =~= seq![digit_char(d as nat)],
{
    proof {
        reveal_strlit("0");
        reveal_strlit("1");
        reveal_strlit("2");
        reveal_strlit("3");
        reveal_strlit("4");
        reveal_strlit("5");
        reveal_strlit("6");
        reveal_strlit("7");
        reveal_strlit("8");
        reveal_strlit("9");
    }
    if d == 0 {
        "0"
    } else if d == 1 {
        "1"
    } else if d == 2 {
        "2"
    } else if d == 3 {
        "3"
    } else if d == 4 {
        "4"
    } else if d == 5 {
        "5"
    } else if d == 6 {
        "6"
    } else if d == 7 {
        "7"
    } else if d == 8 {
        "8"
    } else {
        "9"
    }
}

/// Renders a count in decimal.
pub fn usize_to_string(n: usize) -> (r: String)
    ensures
        r@ == dec_str(n as nat),
    decreases n,
{
    if n < 10 {
        digit_str(n).to_owned()
    } else {
        let mut s = usize_to_string(n / 10);
        s.append(digit_str(n % 10));
        proof {
            assert(dec_str((n / 10) as nat) + seq![digit_char((n % 10) as nat)] =~= dec_str(
                (n / 10) as nat,
            ).push(digit_char((n % 10) as nat)));
        }
        s
    }
}

/// ASCII decimal digit.
pub open spec fn is_digit(c: char) -> bool {
    '0' <= c && c <= '9'
}

/// The value of a digit character.
pub open spec fn digit_val(c: char) -> nat {
    ((c as u8) - ('0' as u8)) as nat
}

/// Every character is a digit.
pub open spec fn all_digits(s: Seq<char>) -> bool {
    forall|i: int| 0 <= i < s.len() ==> is_digit(s[i])
}

/// The value of a digit string, most significant digit first.
pub open spec fn digits_val(s: Seq<char>) -> nat
    decreases s.len(),
{
    if s.len() == 0 {
        0
    } else {
        digits_val(s.drop_last()) * 10 + digit_val(s.last())
    }
}

/// A digit string is worth at least any of its prefixes.
proof fn lemma_digits_val_mono(s: Seq<char>, k: int)
    requires
        0 <= k <= s.len(),
    ensures
        digits_val(s.take(k)) <= digits_val(s),
    decreases s.len() - k,
{
    if k == s.len() {
        assert(s.take(k) =~= s);
    } else {
        assert(s.take(k + 1).drop_last() =~= s.take(k));
        assert(digits_val(s.take(k + 1)) == digits_val(s.take(k)) * 10 + digit_val(
            s.take(k + 1).last(),
        ));
        lemma_digits_val_mono(s, k + 1);
    }
}

/// What `str::parse::<u32>` accepts: an optional leading plus sign,
/// then one or more decimal digits whose value fits in the type.
pub open spec fn parse_u32_spec(s: Seq<char>) -> Option<u32> {
    let t = if s.len() > 0 && s[0] == '+' {
        s.drop_first()
    } else {
        s
    };
    if t.len() == 0 || !all_digits(t) {
        None
    } else if digits_val(t) > u32::MAX {
        None
    } else {
        Some(digits_val(t) as u32)
    }
}

/// Parses an unsigned decimal number as `str::parse::<u32>` does.
pub fn parse_u32(s: &str) -> (r: Option<u32>)
    ensures
        r == parse_u32_spec(s@),
{
    let n = s.unicode_len();
    let mut start: usize = 0;
    if n > 0 && s.get_char(0) == '+' {
        start = 1;
    }
    let ghost t = if s@.len() > 0 && s@[0] == '+' {
        s@.drop_first()
    } else {
        s@
    };
    proof {
        assert(t =~= s@.subrange(start as int, n as int));
    }
    if start == n {
        return None;
    }
    let mut acc: u32 = 0;
    let mut i: usize = start;
    while i < n
        invariant
            start <= i <= n,
            n == s@.len(),
            start < n,
            t == s@.subrange(start as int, n as int),
            t == (if s@.len() > 0 && s@[0] == '+' {
                s@.drop_first()
            } else {
                s@
            }),
            forall|k: int| start <= k < i ==> is_digit(s@[k]),
            acc as nat == digits_val(t.take(i - start)),
        decreases n - i,
    {
        let c = s.get_char(i);
        if c < '0' || c > '9' {
            proof {
                assert(t[i - start] == s@[i as int]);
                assert(!is_digit(t[i - start]));
                assert(!all_digits(t));
                assert(parse_u32_spec(s@) is None);
            }
            return None;
        }
        let d: u32 = (c as u32) - 48;
        let next: u64 = (acc as u64) * 10 + (d as u64);
        proof {
            assert(t.take(i - start + 1).drop_last() =~= t.take(i - start));
            assert(t.take(i - start + 1).last() == s@[i as int]);
            assert(digit_val(s@[i as int]) == d as nat);
            assert(digits_val(t.take(i - start + 1)) == (acc as nat) * 10 + d as nat);
        }
        if next > 0xFFFF_FFFF {
            proof {
                lemma_digits_val_mono(t, i - start + 1);
                assert(digits_val(t) > u32::MAX);
                assert(parse_u32_spec(s@) is None);
            }
            return None;
        }
        acc = next as u32;
        i += 1;
    }
    proof {
        assert(t.take(n - start) =~= t);
        assert(all_digits(t)) by {
            assert(forall|k: int| 0 <= k < t.len() ==> t[k] == s@[k + start]);
        }
    }
    Some(acc)
}

/// The needle occurs in the haystack starting at position `k`.
pub open spec fn occurs_at(h: Seq<char>, n: Seq<char>, k: int) -> bool {
    0 <= k && k + n.len() <= h.len() && h.subrange(k, k + n.len()) == n
}

/// The needle occurs somewhere in the haystack, as `str::contains`
/// reports for string needles.
pub open spec fn contains_seq(h: Seq<char>, n: Seq<char>) -> bool {
    exists|k: int| occurs_at(h, n, k)
}

/// Whether the needle occurs at the given position.
fn occurs_at_exec(h: &str, n: &str, k: usize) -> (r: bool)
    requires
        k + n@.len() <= h@.len(),
    ensures
        r == occurs_at(h@, n@, k as int),
{
    let hn = h.unicode_len();
    let nn = n.unicode_len();
    let mut j: usize = 0;
    while j < nn
        invariant
            j <= nn,
            hn == h@.len(),
            nn == n@.len(),
            k + nn <= hn,
            forall|t: int| 0 <= t < j ==> h@[k + t] == n@[t],
        decreases nn - j,
    {
        if h.get_char(k + j) != n.get_char(j) {
            proof {
                if occurs_at(h@, n@, k as int) {
                    assert(h@.subrange(k as int, k + nn)[j as int] == n@[j as int]);
                }
            }
            return false;
        }
        j += 1;
    }
    proof {
        assert(h@.subrange(k as int, k + nn) =~= n@);
    }
    true
}

/// Substring search: whether the needle occurs anywhere in the
/// haystack.
pub fn contains_sub(h: &str, n: &str) -> (r: bool)
    ensures
        r == contains_seq(h@, n@),
{
    let hn = h.unicode_len();
    let nn = n.unicode_len();
    if nn == 0 {
        proof {
            assert(h@.subrange(0, 0) =~= n@);
            assert(occurs_at(h@, n@, 0));
        }
        return true;
    }
    if nn > hn {
        proof {
            if contains_seq(h@, n@) {
                let k = choose|k: int| occurs_at(h@, n@, k);
            }
        }
        return false;
    }
    let mut k: usize = 0;
    while k <= hn - nn
        invariant
            k <= hn - nn + 1,
            1 <= nn <= hn,
            hn == h@.len(),
            nn == n@.len(),
            forall|t: int| 0 <= t < k ==> !occurs_at(h@, n@, t),
        decreases hn - nn + 1 - k,
    {
        if occurs_at_exec(h, n, k) {
            return true;
        }
        k += 1;
    }
    proof {
        if contains_seq(h@, n@) {
            let t = choose|t: int| occurs_at(h@, n@, t);
            assert(t <= hn - nn);
        }
    }
    false
}

/// The position of the first occurrence of `c` in `s`, or the length
/// of `s` if it does not occur.
pub open spec fn break_at(s: Seq<char>, c: char) -> int
    decreases s.len(),
{
    if s.len() == 0 {
        0
    } else if s[0] == c {
        0
    } else {
        1 + break_at(s.drop_first(), c)
    }
}

/// `break_at` finds the first occurrence: nothing before it matches,
/// and it points at a match unless there is none.
pub proof fn lemma_break_at(s: Seq<char>, c: char)
    ensures
        0 <= break_at(s, c) <= s.len(),
        break_at(s, c) < s.len() ==> s[break_at(s, c)] == c,
        forall|j: int| 0 <= j < break_at(s, c) ==> s[j] != c,
    decreases s.len(),
{
    if s.len() == 0 {
    } else if s[0] == c {
    } else {
        lemma_break_at(s.drop_first(), c);
        assert forall|j: int| 0 <= j < break_at(s, c) implies s[j] != c by {
            if j > 0 {
                assert(s.drop_first()[j - 1] != c);
            }
        }
    }
}

/// A piece that ended at a newline, with a carriage return before the
/// newline removed.
pub open spec fn strip_cr(s: Seq<char>) -> Seq<char> {
    if s.len() > 0 && s.last() == '\r' {
        s.drop_last()
    } else {
        s
    }
}

#[via_fn]
proof fn lines_spec_decreases(s: Seq<char>) {
    lemma_break_at(s, '\n');
}

/// The lines of tool output, as `str::lines` yields them: pieces split
/// at newlines, a carriage return directly before a newline removed,
/// and the final line ending optional.
pub open spec fn lines_spec(s: Seq<char>) -> Seq<Seq<char>>
    decreases s.len(),
    via lines_spec_decreases
{
    if s.len() == 0 {
        Seq::empty()
    } else {
        let i = break_at(s, '\n');
        if i == s.len() {
            seq![s]
        } else {
            seq![strip_cr(s.subrange(0, i))] + lines_spec(s.subrange(i + 1, s.len() as int))
        }
    }
}

/// Whether the character at position `i` is a newline.
fn nl_at(s: &str, i: usize) -> (r: bool)
    requires
        i < s@.len(),
    ensures
        r == (s@[i as int] == '\n'),
{
    s.get_char(i) == '\n'
}

/// Splits tool output into its lines.
pub fn split_lines(s: &str) -> (r: Vec<String>)
    ensures
        r.deep_view() == lines_spec(s@),
{
    let n = s.unicode_len();
    let mut out: Vec<String> = Vec::new();
    let mut start: usize = 0;
    proof {
        assert(s@.subrange(0, n as int) =~= s@);
        assert(out.deep_view() + lines_spec(s@) =~= lines_spec(s@));
    }
    while start < n
        invariant
            start <= n,
            n == s@.len(),
            lines_spec(s@) =~= out.deep_view() + lines_spec(s@.subrange(start as int, n as int)),
        decreases n - start,
    {
        let mut i: usize = start;
        while i < n && !nl_at(s, i)
            invariant
                start <= i <= n,
                n == s@.len(),
                forall|k: int| start <= k < i ==> s@[k] != '\n',
            decreases n - i,
        {
            i += 1;
        }
        let ghost suf = s@.subrange(start as int, n as int);
        let ghost prevout = out.deep_view();
        proof {
            lemma_break_at(suf, '\n');
            if i < n {
                assert(suf[i - start] == '\n');
                if break_at(suf, '\n') < i - start {
                    assert(s@[break_at(suf, '\n') + start] == '\n');
                    assert(false);
                }
                if break_at(suf, '\n') > i - start {
                    assert(suf[i - start] != '\n');
                    assert(false);
                }
                assert(break_at(suf, '\n') == i - start);
            } else {
                if break_at(suf, '\n') < suf.len() {
                    assert(suf[break_at(suf, '\n')] == '\n');
                    assert(s@[break_at(suf, '\n') + start] == '\n');
                    assert(false);
                }
                assert(break_at(suf, '\n') == suf.len());
            }
        }
        if i == n {
            let piece = s.substring_char(start, n).to_owned();
            proof {
                assert(piece@ =~= suf);
                assert(lines_spec(suf) =~= seq![suf]);
            }
            out.push(piece);
            proof {
                assert(out.deep_view() =~= prevout.push(suf));
                assert(prevout.push(suf) =~= prevout + seq![suf]);
                assert(s@.subrange(n as int, n as int) =~= Seq::<char>::empty());
                assert(out.deep_view() + lines_spec(s@.subrange(n as int, n as int))
                    =~= prevout + lines_spec(suf));
            }
            start = n;
        } else {
            let endp: usize = if i > start && s.get_char(i - 1) == '\r' {
                i - 1
            } else {
                i
            };
            let piece = s.substring_char(start, endp).to_owned();
            proof {
                let cut = suf.subrange(0, i - start);
                if i > start && s@[i as int - 1] == '\r' {
                    assert(cut.last() == s@[i as int - 1]);
                    assert(strip_cr(cut) =~= s@.subrange(start as int, i as int - 1));
                } else {
                    if cut.len() > 0 {
                        assert(cut.last() == s@[i as int - 1]);
                    }
                    assert(strip_cr(cut) =~= s@.subrange(start as int, i as int));
                }
                assert(piece@ =~= strip_cr(cut));
                assert(lines_spec(suf) =~= seq![strip_cr(cut)] + lines_spec(
                    suf.subrange(i - start + 1, suf.len() as int),
                ));
                assert(suf.subrange(i - start + 1, suf.len() as int) =~= s@.subrange(
                    i as int + 1,
                    n as int,
                ));
            }
            out.push(piece);
            proof {
                assert(out.deep_view() =~= prevout.push(piece@));
                assert(prevout.push(piece@) + lines_spec(s@.subrange(i as int + 1, n as int))
                    =~= prevout + lines_spec(suf));
            }
            start = i + 1;
        }
    }
    proof {
        assert(s@.subrange(start as int, n as int) =~= Seq::<char>::empty());
        assert(out.deep_view() + Seq::<Seq<char>>::empty() =~= out.deep_view());
    }
    out
}

/// The position of the first whitespace character, or the length if
/// there is none.
pub open spec fn break_ws(s: Seq<char>) -> int
    decreases s.len(),
{
    if s.len() == 0 {
        0
    } else if is_ws(s[0]) {
        0
    } else {
        1 + break_ws(s.drop_first())
    }
}

/// `break_ws` finds the first whitespace character.
pub proof fn lemma_break_ws(s: Seq<char>)
    ensures
        0 <= break_ws(s) <= s.len(),
        break_ws(s) < s.len() ==> is_ws(s[break_ws(s)]),
        forall|j: int| 0 <= j < break_ws(s) ==> !is_ws(s[j]),
    decreases s.len(),
{
    if s.len() == 0 {
    } else if is_ws(s[0]) {
    } else {
        lemma_break_ws(s.drop_first());
        assert forall|j: int| 0 <= j < break_ws(s) implies !is_ws(s[j]) by {
            if j > 0 {
                assert(!is_ws(s.drop_first()[j - 1]));
            }
        }
    }
}

#[via_fn]
proof fn split_ws_spec_decreases(s: Seq<char>) {
    lemma_break_ws(s);
}

/// The whitespace-separated words of `s`, as `str::split_whitespace`
/// yields them: maximal runs of non-whitespace characters, in order.
pub open spec fn split_ws_spec(s: Seq<char>) -> Seq<Seq<char>>
    decreases s.len(),
    via split_ws_spec_decreases
{
    if s.len() == 0 {
        Seq::empty()
    } else if is_ws(s[0]) {
        split_ws_spec(s.drop_first())
    } else {
        let i = break_ws(s);
        seq![s.subrange(0, i)] + split_ws_spec(s.subrange(i, s.len() as int))
    }
}

/// Splits a line into its whitespace-separated words.
pub fn split_whitespace(s: &str) -> (r: Vec<String>)
    ensures
        r.deep_view() == split_ws_spec(s@),
{
    let n = s.unicode_len();
    let mut out: Vec<String> = Vec::new();
    let mut pos: usize = 0;
    proof {
        assert(s@.subrange(0, n as int) =~= s@);
        assert(out.deep_view() + split_ws_spec(s@) =~= split_ws_spec(s@));
    }
    while pos < n
        invariant
            pos <= n,
            n == s@.len(),
            split_ws_spec(s@) =~= out.deep_view() + split_ws_spec(
                s@.subrange(pos as int, n as int),
            ),
        decreases n - pos,
    {
        if ws_at(s, pos) {
            proof {
                let suf = s@.subrange(pos as int, n as int);
                assert(suf.drop_first() =~= s@.subrange(pos as int + 1, n as int));
            }
            pos += 1;
        } else {
            let mut j: usize = pos + 1;
            while j < n && !ws_at(s, j)
                invariant
                    pos < j <= n,
                    n == s@.len(),
                    forall|k: int| pos <= k < j ==> !is_ws(s@[k]),
                decreases n - j,
            {
                j += 1;
            }
            let ghost suf = s@.subrange(pos as int, n as int);
            let ghost prevout = out.deep_view();
            proof {
                lemma_break_ws(suf);
                if j < n {
                    assert(is_ws(suf[j - pos]));
                    if break_ws(suf) < j - pos {
                        assert(is_ws(s@[break_ws(suf) + pos]));
                        assert(false);
                    }
                    if break_ws(suf) > j - pos {
                        assert(!is_ws(suf[j - pos]));
                        assert(false);
                    }
                } else {
                    if break_ws(suf) < suf.len() {
                        assert(is_ws(s@[break_ws(suf) + pos]));
                        assert(false);
                    }
                }
                assert(break_ws(suf) == j - pos);
            }
            let word = s.substring_char(pos, j).to_owned();
            proof {
                assert(word@ =~= suf.subrange(0, j - pos));
                assert(split_ws_spec(suf) =~= seq![suf.subrange(0, j - pos)] + split_ws_spec(
                    suf.subrange(j - pos, suf.len() as int),
                ));
                assert(suf.subrange(j - pos, suf.len() as int) =~= s@.subrange(
                    j as int,
                    n as int,
                ));
            }
            out.push(word);
            proof {
                assert(out.deep_view() =~= prevout.push(word@));
                assert(prevout.push(word@) + split_ws_spec(s@.subrange(j as int, n as int))
                    =~= prevout + split_ws_spec(suf));
            }
            pos = j;
        }
    }
    proof {
        assert(s@.subrange(pos as int, n as int) =~= Seq::<char>::empty());
        assert(out.deep_view() + Seq::<Seq<char>>::empty() =~= out.deep_view());
    }
    out
}

/// Appends one borrowed string to a list of owned strings.
pub(crate) fn push_string(items: &mut Vec<String>, item: &str)
    ensures
        final(items).deep_view() == old(items).deep_view().push(item@),
{
    items.push(item.to_owned());
    proof {
        assert(items.deep_view() =~= old(items).deep_view().push(item@));
    }
}

} // verus!
