use vstd::prelude::*;

verus! {

/// ASCII whitespace, the only whitespace these streams carry.
pub open spec fn is_blank(c: char) -> bool {
    c == ' ' || c == '\t' || c == '\n' || c == '\r'
}

/// A single or double quote.
pub open spec fn is_quote(c: char) -> bool {
    c == '\'' || c == '"'
}

/// A decimal digit.
pub open spec fn is_digit(c: char) -> bool {
    '0' as int <= c as int && c as int <= '9' as int
}

/// The numeric value of a decimal digit.
pub open spec fn digit_val(c: char) -> int {
    c as int - '0' as int
}

/// The characters left after dropping every leading one that `p` accepts.
pub open spec fn ltrim(s: Seq<char>, p: spec_fn(char) -> bool) -> Seq<char>
    decreases s.len(),
{
    if s.len() > 0 && p(s[0]) {
        ltrim(s.drop_first(), p)
    } else {
        s
    }
}

/// The characters left after dropping every trailing one that `p` accepts.
pub open spec fn rtrim(s: Seq<char>, p: spec_fn(char) -> bool) -> Seq<char>
    decreases s.len(),
{
    if s.len() > 0 && p(s[s.len() - 1]) {
        rtrim(s.drop_last(), p)
    } else {
        s
    }
}

/// The characters left after dropping what `p` accepts at either end.
pub open spec fn trim(s: Seq<char>, p: spec_fn(char) -> bool) -> Seq<char> {
    rtrim(ltrim(s, p), p)
}

/// A left bound below which everything is trimmed away: the leading run
/// that `p` accepts ends exactly at `lo`.
proof fn lemma_ltrim_at(s: Seq<char>, p: spec_fn(char) -> bool, lo: int)
    requires
        0 <= lo <= s.len(),
        forall|k: int| 0 <= k < lo ==> p(s[k]),
        lo < s.len() ==> !p(s[lo]),
    ensures
        ltrim(s, p) == s.subrange(lo, s.len() as int),
    decreases lo,
{
    if lo == 0 {
        assert(s.subrange(0, s.len() as int) =~= s);
    } else {
        assert(p(s[0]));
        let t = s.drop_first();
        lemma_ltrim_at(t, p, lo - 1);
        assert(t.subrange(lo - 1, t.len() as int) =~= s.subrange(lo, s.len() as int));
    }
}

/// A right bound above which everything is trimmed away: the trailing run
/// that `p` accepts begins exactly at `hi`.
proof fn lemma_rtrim_at(s: Seq<char>, p: spec_fn(char) -> bool, hi: int)
    requires
        0 <= hi <= s.len(),
        forall|k: int| hi <= k < s.len() ==> p(s[k]),
        hi > 0 ==> !p(s[hi - 1]),
    ensures
        rtrim(s, p) == s.subrange(0, hi),
    decreases s.len() - hi,
{
    if hi == s.len() {
        if s.len() > 0 && p(s[s.len() - 1]) {
            let t = s.drop_last();
            lemma_rtrim_at(t, p, hi - 1);
            assert(t.subrange(0, hi - 1) =~= s.subrange(0, hi - 1));
        } else {
            assert(s.subrange(0, s.len() as int) =~= s);
        }
    } else {
        assert(p(s[s.len() - 1]));
        let t = s.drop_last();
        lemma_rtrim_at(t, p, hi);
        assert(t.subrange(0, hi) =~= s.subrange(0, hi));
    }
}

/// What `trim` keeps, named by its bounds: everything from the end of the
/// leading accepted run to the start of the trailing one.
pub proof fn lemma_trim_bounds(s: Seq<char>, p: spec_fn(char) -> bool, lo: int, hi: int)
    requires
        0 <= lo <= hi <= s.len(),
        forall|k: int| 0 <= k < lo ==> p(s[k]),
        lo < s.len() ==> !p(s[lo]),
        forall|k: int| hi <= k < s.len() ==> p(s[k]),
        hi > lo ==> !p(s[hi - 1]),
    ensures
        trim(s, p) == s.subrange(lo, hi),
    decreases s.len(),
{
    lemma_ltrim_at(s, p, lo);
    let t = s.subrange(lo, s.len() as int);
    lemma_rtrim_at(t, p, hi - lo);
    assert(t.subrange(0, hi - lo) =~= s.subrange(lo, hi));
}

/// Drops ASCII whitespace from both ends of a string.
pub fn trim_blank(s: &str) -> (r: String)
    ensures
        r@ == trim(s@, |c: char| is_blank(c)),
{
    trim_ends(s, true)
}

/// Drops single and double quotes from both ends of a string.
pub fn trim_quotes(s: &str) -> (r: String)
    ensures
        r@ == trim(s@, |c: char| is_quote(c)),
{
    trim_ends(s, false)
}

/// Whether the character is in the trimmed class: whitespace when `blank`
/// is set, quotes otherwise.
fn in_class(c: char, blank: bool) -> (r: bool)
    ensures
        blank ==> r == is_blank(c),
        !blank ==> r == is_quote(c),
{
    if blank {
        c == ' ' || c == '\t' || c == '\n' || c == '\r'
    } else {
        c == '\'' || c == '"'
    }
}

/// The shared scan: finds the kept middle and copies it out.
fn trim_ends(s: &str, blank: bool) -> (r: String)
    ensures
        blank ==> r@ == trim(s@, |c: char| is_blank(c)),
        !blank ==> r@ == trim(s@, |c: char| is_quote(c)),
{
    let len = s.unicode_len();
    let mut lo: usize = 0;
    while lo < len && in_class(s.get_char(lo), blank)
        invariant
            len == s@.len(),
            lo <= len,
            forall|k: int|
                0 <= k < lo ==> (if blank {
                    is_blank(s@[k])
                } else {
                    is_quote(s@[k])
                }),
        decreases len - lo,
    {
        lo += 1;
    }
    let mut hi: usize = len;
    while hi > lo && in_class(s.get_char(hi - 1), blank)
        invariant
            len == s@.len(),
            lo <= hi <= len,
            forall|k: int|
                hi <= k < len ==> (if blank {
                    is_blank(s@[k])
                } else {
                    is_quote(s@[k])
                }),
            lo < len ==> (if blank {
                !is_blank(s@[lo as int])
            } else {
                !is_quote(s@[lo as int])
            }),
        decreases hi,
    {
        hi -= 1;
    }
    let kept = s.substring_char(lo, hi);
    proof {
        if blank {
            lemma_trim_bounds(s@, |c: char| is_blank(c), lo as int, hi as int);
        } else {
            lemma_trim_bounds(s@, |c: char| is_quote(c), lo as int, hi as int);
        }
    }
    kept.to_owned()
}

/// Every character is a decimal digit.
pub open spec fn all_digits(s: Seq<char>) -> bool {
    forall|i: int| 0 <= i < s.len() ==> is_digit(s[i])
}

/// The number a digit string denotes, most significant digit first.
pub open spec fn digits_val(s: Seq<char>) -> int
    decreases s.len(),
{
    if s.len() == 0 {
        0
    } else {
        digits_val(s.drop_last()) * 10 + digit_val(s[s.len() - 1])
    }
}

/// A digit string denotes nothing negative.
pub proof fn lemma_digits_nonneg(s: Seq<char>)
    requires
        all_digits(s),
    ensures
        digits_val(s) >= 0,
    decreases s.len(),
{
    if s.len() > 0 {
        let t = s.drop_last();
        assert(all_digits(t));
        lemma_digits_nonneg(t);
        assert(is_digit(s[s.len() - 1]));
    }
}

/// Reading more digits never shrinks the value: every prefix denotes at
/// most what the whole string denotes.
pub proof fn lemma_digits_prefix(s: Seq<char>, n: int)
    requires
        all_digits(s),
        0 <= n <= s.len(),
    ensures
        digits_val(s.subrange(0, n)) <= digits_val(s),
    decreases s.len() - n,
{
    if n == s.len() {
        assert(s.subrange(0, n) =~= s);
    } else {
        lemma_digits_prefix(s, n + 1);
        let u = s.subrange(0, n + 1);
        assert(u.drop_last() =~= s.subrange(0, n));
        assert(is_digit(s[n]));
        lemma_digits_nonneg(s.subrange(0, n));
    }
}

/// What parsing an unsigned 16-bit number accepts: an optional leading
/// `+`, then one or more decimal digits whose value fits.
pub open spec fn parses_as_u16(s: Seq<char>) -> Option<u16> {
    let body = if s.len() > 0 && s[0] == '+' {
        s.drop_first()
    } else {
        s
    };
    if body.len() > 0 && all_digits(body) && digits_val(body) <= u16::MAX {
        Some(digits_val(body) as u16)
    } else {
        None
    }
}

/// Parses an unsigned 16-bit number, exactly as `parses_as_u16` says.
pub fn parse_u16(s: &str) -> (r: Option<u16>)
    ensures
        r == parses_as_u16(s@),
{
    let len = s.unicode_len();
    let start: usize = if len > 0 && s.get_char(0) == '+' {
        1
    } else {
        0
    };
    let ghost body = if s@.len() > 0 && s@[0] == '+' {
        s@.drop_first()
    } else {
        s@
    };
    proof {
        assert(body =~= s@.subrange(start as int, len as int));
    }
    if start >= len {
        return None;
    }
    let mut i: usize = start;
    let mut acc: u32 = 0;
    while i < len
        invariant
            len == s@.len(),
            start <= i <= len,
            start < len,
            body == s@.subrange(start as int, len as int),
            body == (if s@.len() > 0 && s@[0] == '+' {
                s@.drop_first()
            } else {
                s@
            }),
            all_digits(s@.subrange(start as int, i as int)),
            acc == digits_val(s@.subrange(start as int, i as int)),
            acc <= u16::MAX,
        decreases len - i,
    {
        let c = s.get_char(i);
        let u = c as u32;
        if u < '0' as u32 || u > '9' as u32 {
            proof {
                assert(c as int == u as int);
                assert(!is_digit(c));
                assert(body[i - start] == c);
                assert(!all_digits(body));
            }
            return None;
        }
        let d = u - '0' as u32;
        proof {
            assert(c as int == u as int);
            assert(is_digit(c));
            assert(digit_val(c) == d as int);
            let pre = s@.subrange(start as int, i as int);
            let ext = s@.subrange(start as int, i as int + 1);
            assert(ext.drop_last() =~= pre);
            assert(ext[ext.len() - 1] == c);
            assert(digits_val(ext) == digits_val(pre) * 10 + d);
            assert forall|k: int| 0 <= k < ext.len() implies is_digit(ext[k]) by {
                if k < pre.len() {
                    assert(is_digit(pre[k]));
                } else {
                    assert(ext[k] == c);
                }
            }
        }
        acc = acc * 10 + d;
        i += 1;
        if acc > u16::MAX as u32 {
            proof {
                assert(acc == digits_val(s@.subrange(start as int, i as int)));
                if all_digits(body) {
                    lemma_digits_prefix(body, i - start);
                    assert(body.subrange(0, i - start) =~= s@.subrange(
                        start as int,
                        i as int,
                    ));
                    assert(digits_val(body) > u16::MAX);
                }
                assert(parses_as_u16(s@) is None);
            }
            return None;
        }
    }
    proof {
        assert(s@.subrange(start as int, i as int) =~= body);
    }
    Some(acc as u16)
}

/// The decimal digit character of a value below ten.
pub open spec fn digit_char(d: int) -> char {
    if d == 0 {
        '0'
    } else if d == 1 {
        '1'
    } else if d == 2 {
        '2'
    } else if d == 3 {
        '3'
    } else if d == 4 {
        '4'
    } else if d == 5 {
        '5'
    } else if d == 6 {
        '6'
    } else if d == 7 {
        '7'
    } else if d == 8 {
        '8'
    } else {
        '9'
    }
}

/// The decimal digit string of a non-negative number, no leading zeros.
pub open spec fn dec_digits(n: int) -> Seq<char>
    decreases n,
{
    if n < 10 {
        seq![digit_char(n)]
    } else {
        dec_digits(n / 10).push(digit_char(n % 10))
    }
}

/// The one-character string of a decimal digit.
fn digit_str(d: u16) -> (r: &'static str)
    requires
        d < 10,
    ensures
        r@ =~= seq![digit_char(d as int)],
{
    proof {
        reveal_strlit("0");
        reveal_strlit("1");
        reveal_strlit("2");
        reveal_strlit("3");
        reveal_strlit("4");
        reveal_strlit("5");
        reveal_strlit("6");
        reveal_strlit("7");
        reveal_strlit("8");
        reveal_strlit("9");
    }
    match d {
        0 => "0",
        1 => "1",
        2 => "2",
        3 => "3",
        4 => "4",
        5 => "5",
        6 => "6",
        7 => "7",
        8 => "8",
        _ => "9",
    }
}

/// Writes a number in decimal, most significant digit first.
pub fn format_u16(n: u16) -> (r: String)
    ensures
        r@ == dec_digits(n as int),
    decreases n,
{
    if n < 10 {
        digit_str(n).to_owned()
    } else {
        let mut head = format_u16(n / 10);
        head.append(digit_str(n % 10));
        proof {
            assert(head@ =~= dec_digits(n as int));
        }
        head
    }
}

} // verus!
