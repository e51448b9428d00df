use vstd::prelude::*;

use vstd::string::StrSliceExecFns;

verus! {

// ----------------------------------------------------------------------
// Trusted names for the two std text transformations the drill relies on.
// ----------------------------------------------------------------------

pub uninterp spec fn trim_of(s: Seq<char>) -> Seq<char>;

pub uninterp spec fn lower_of(s: Seq<char>) -> Seq<char>;

/// The normal form used when a typed answer is compared against an expected
/// translation: surrounding whitespace removed, then lowercased.
pub open spec fn normalized(s: Seq<char>) -> Seq<char> {
    lower_of(trim_of(s))
}

/// Relies on str::trim: returns the string without leading and trailing
/// whitespace; the result depends on the characters alone.
#[verifier::external_body]
pub fn trim_str(s: &str) -> (r: &str)
    ensures
        r@ == trim_of(s@),
{
    s.trim()
}

/// Relies on str::to_lowercase: returns the lowercase form of the string;
/// the result depends on the characters alone.
#[verifier::external_body]
pub fn lower_str(s: &str) -> (r: String)
    ensures
        r@ == lower_of(s@),
{
    s.to_lowercase()
}

/// The normal form of a piece of input text, as executable code: trim, then
/// lowercase.
pub fn normalize_text(s: &str) -> (r: String)
    ensures
        r@ == normalized(s@),
{
    let t = trim_str(s);
    lower_str(t)
}

// ----------------------------------------------------------------------
// Small trusted wrappers for std String editing.
// ----------------------------------------------------------------------

/// Relies on String::push: appends one character to the end of the string.
#[verifier::external_body]
pub fn push_char(s: &mut String, c: char)
    ensures
        final(s)@ == old(s)@.push(c),
{
    s.push(c)
}

/// Relies on String::pop: removes and returns the last character, or returns
/// None and leaves the string alone when it is empty.
#[verifier::external_body]
pub fn pop_char(s: &mut String) -> (r: Option<char>)
    ensures
        old(s)@.len() == 0 ==> final(s)@ == old(s)@ && r is None,
        old(s)@.len() > 0 ==> final(s)@ == old(s)@.drop_last() && r == Some(old(s)@.last()),
{
    s.pop()
}

// ----------------------------------------------------------------------
// The pending-input buffer: None means nothing typed yet, and erasing the
// last character returns the buffer to None rather than leaving an empty
// string, so "no input" and "input fully erased" read the same way.
// ----------------------------------------------------------------------

/// A buffer never holds an empty string.
pub open spec fn buffer_ok(b: Option<String>) -> bool {
    b matches Some(s) ==> s@.len() > 0
}

/// What typing one character does to the buffer.
pub open spec fn buffer_push(pre: Option<String>, c: char, post: Option<String>) -> bool {
    match pre {
        Some(s) => post matches Some(s2) && s2@ == s@.push(c),
        None => post matches Some(s2) && s2@ == seq![c],
    }
}

/// What erasing one character does to the buffer: the last character goes,
/// and a buffer popped to nothing becomes unset.
pub open spec fn buffer_pop(pre: Option<String>, post: Option<String>) -> bool {
    match pre {
        Some(s) => if s@.len() <= 1 {
            post is None
        } else {
            post matches Some(s2) && s2@ == s@.drop_last()
        },
        None => post is None,
    }
}

/// Types one character into the buffer.
pub fn buffer_push_char(buffer: &mut Option<String>, c: char)
    ensures
        buffer_push(*old(buffer), c, *final(buffer)),
        buffer_ok(*final(buffer)),
{
    match buffer {
        Some(input) => {
            push_char(input, c);
        },
        None => {
            let mut s = String::new();
            push_char(&mut s, c);
            *buffer = Some(s);
        },
    }
}

/// Erases one character from the buffer, if it holds any.
pub fn buffer_pop_char(buffer: &mut Option<String>)
    ensures
        buffer_pop(*old(buffer), *final(buffer)),
        buffer_ok(*final(buffer)),
{
    match buffer {
        Some(input) => {
            pop_char(input);
            if input.as_str().is_empty() {
                *buffer = None;
            }
        },
        None => {},
    }
}

// ----------------------------------------------------------------------
// Verified text utilities.
// ----------------------------------------------------------------------

/// Character-wise string equality: true exactly when the two views agree.
pub fn str_eq(a: &str, b: &str) -> (r: bool)
    ensures
        r == (a@ == b@),
{
    let alen = a.unicode_len();
    let blen = b.unicode_len();
    if alen != blen {
        return false;
    }
    let mut i: usize = 0;
    while i < alen
        invariant
            alen == a@.len(),
            blen == b@.len(),
            alen == blen,
            i <= alen,
            forall|j: int| 0 <= j < i ==> a@[j] == b@[j],
        decreases alen - i,
    {
        if a.get_char(i) != b.get_char(i) {
            return false;
        }
        i = i + 1;
    }
    proof {
        assert(a@ =~= b@);
    }
    true
}

/// A string of `n` copies of the character `c`.
pub fn repeat_char(c: char, n: usize) -> (r: String)
    ensures
        r@ == Seq::new(n as nat, |i: int| c),
{
    let mut s = String::new();
    let mut i: usize = 0;
    while i < n
        invariant
            i <= n,
            s@ == Seq::new(i as nat, |j: int| c),
        decreases n - i,
    {
        push_char(&mut s, c);
        proof {
            assert(s@ =~= Seq::new((i + 1) as nat, |j: int| c));
        }
        i = i + 1;
    }
    s
}

// ----------------------------------------------------------------------
// Decimal numerals: reading a round size typed into the settings screen,
// and printing one on the settings screen.
// ----------------------------------------------------------------------

pub open spec fn is_digit_char(c: char) -> bool {
    48 <= c as int <= 57
}

pub open spec fn digit_value(c: char) -> int {
    c as int - 48
}

pub open spec fn all_digits(s: Seq<char>) -> bool {
    forall|i: int| 0 <= i < s.len() ==> is_digit_char(#[trigger] s[i])
}

/// The numeric value of a string of decimal digits (most significant first).
pub open spec fn digits_value(s: Seq<char>) -> int
    decreases s.len(),
{
    if s.len() == 0 {
        0
    } else {
        digits_value(s.drop_last()) * 10 + digit_value(s.last())
    }
}

/// The digits of `s` once an optional leading plus sign is removed.
pub open spec fn numeric_body(s: Seq<char>) -> Seq<char> {
    if s.len() > 0 && s[0] == '+' {
        s.skip(1)
    } else {
        s
    }
}

/// Exactly the strings that std's usize parsing accepts: an optional leading
/// plus sign, then at least one decimal digit, with a value that fits.
pub open spec fn is_usize_string(s: Seq<char>) -> bool {
    &&& numeric_body(s).len() > 0
    &&& all_digits(numeric_body(s))
    &&& digits_value(numeric_body(s)) <= usize::MAX as int
}

proof fn lemma_all_digits_prefix(s: Seq<char>, i: int)
    requires
        all_digits(s),
        0 <= i <= s.len(),
    ensures
        all_digits(s.take(i)),
{
    assert forall|j: int| 0 <= j < s.take(i).len() implies is_digit_char(#[trigger] s.take(i)[j]) by {
        assert(s.take(i)[j] == s[j]);
    }
}

proof fn lemma_digits_value_nonneg(s: Seq<char>)
    requires
        all_digits(s),
    ensures
        digits_value(s) >= 0,
    decreases s.len(),
{
    if s.len() > 0 {
        assert(all_digits(s.drop_last())) by {
            assert forall|j: int| 0 <= j < s.drop_last().len() implies is_digit_char(
                #[trigger] s.drop_last()[j],
            ) by {
                assert(s.drop_last()[j] == s[j]);
            }
        }
        lemma_digits_value_nonneg(s.drop_last());
        assert(is_digit_char(s.last()));
    }
}

/// Appending digits never shrinks the value: the whole string is worth at
/// least as much as any of its prefixes.
proof fn lemma_digits_value_prefix_le(s: Seq<char>, i: int)
    requires
        all_digits(s),
        0 <= i <= s.len(),
    ensures
        digits_value(s.take(i)) <= digits_value(s),
    decreases s.len() - i,
{
    if i < s.len() {
        lemma_digits_value_prefix_le(s, i + 1);
        assert(s.take(i + 1).drop_last() =~= s.take(i));
        assert(s.take(i + 1).last() == s[i]);
        lemma_all_digits_prefix(s, i);
        lemma_digits_value_nonneg(s.take(i));
        assert(is_digit_char(s[i]));
        assert(digits_value(s.take(i + 1)) == digits_value(s.take(i)) * 10 + digit_value(s[i]));
        assert(digits_value(s.take(i)) * 10 >= digits_value(s.take(i)));
    } else {
        assert(s.take(i) =~= s);
    }
}

/// Reads a usize from text exactly as std does: Some of the value when the
/// text is an optional plus sign followed by decimal digits whose value
/// fits, None otherwise.
pub fn parse_usize(s: &str) -> (r: Option<usize>)
    ensures
        r is Some <==> is_usize_string(s@),
        r matches Some(n) ==> n as int == digits_value(numeric_body(s@)),
{
    let len = s.unicode_len();
    if len == 0 {
        return None;
    }
    let first = s.get_char(0);
    let start: usize = if first == '+' {
        1
    } else {
        0
    };
    if start == len {
        // the text is just a plus sign
        return None;
    }
    let ghost body = numeric_body(s@);
    proof {
        assert(body =~= s@.skip(start as int));
    }
    let mut i: usize = start;
    let mut n: usize = 0;
    let mut overflowed: bool = false;
    let ghost mut oj: int = 0;
    while i < len
        invariant
            len == s@.len(),
            start <= i <= len,
            start < len,
            body == numeric_body(s@),
            body == s@.skip(start as int),
            body.len() == len - start,
            all_digits(body.take(i - start)),
            !overflowed ==> n as int == digits_value(body.take(i - start)),
            overflowed ==> 0 <= oj <= i - start && digits_value(body.take(oj)) > usize::MAX as int
                && all_digits(body.take(oj)),
        decreases len - i,
    {
        let c = s.get_char(i);
        let cv = c as u32;
        if cv < 48 || cv > 57 {
            // a non-digit makes the whole text invalid
            proof {
                assert(body[i - start] == s@[i as int]);
                assert(!is_digit_char(body[i - start]));
            }
            return None;
        }
        proof {
            assert(body[i - start] == s@[i as int]);
            assert(body.take(i - start + 1).drop_last() =~= body.take(i - start));
            assert(body.take(i - start + 1).last() == body[i - start]);
            assert(all_digits(body.take(i - start + 1))) by {
                assert forall|j: int| 0 <= j < i - start + 1 implies is_digit_char(
                    #[trigger] body.take(i - start + 1)[j],
                ) by {
                    if j < i - start {
                        assert(body.take(i - start + 1)[j] == body.take(i - start)[j]);
                    } else {
                        assert(body.take(i - start + 1)[j] == body[i - start]);
                    }
                }
            }
        }
        if !overflowed {
            let d = (cv - 48) as usize;
            let q = (usize::MAX - d) / 10;
            if n <= q {
                proof {
                    assert(n * 10 <= q * 10) by (nonlinear_arith)
                        requires n <= q;
                    assert(q * 10 <= usize::MAX - d) by (nonlinear_arith)
                        requires q == (usize::MAX - d) / 10;
                }
                n = n * 10 + d;
            } else {
                proof {
                    assert(n * 10 + d > usize::MAX) by (nonlinear_arith)
                        requires
                            n > q,
                            q == (usize::MAX - d) / 10,
                            d < 10;
                    oj = i - start + 1;
                    assert(digits_value(body.take(oj)) == n * 10 + d);
                }
                overflowed = true;
            }
        } else {
            proof {
                assert(body.take(oj) =~= body.take(i - start + 1).take(oj));
            }
        }
        i = i + 1;
    }
    if overflowed {
        proof {
            assert(body.take(len - start) =~= body);
            lemma_digits_value_prefix_le(body, oj);
        }
        return None;
    }
    proof {
        assert(body.take(len - start) =~= body);
    }
    Some(n)
}

/// The decimal numeral of a non-negative number, most significant digit
/// first, with no leading zeros (a single zero for 0).
pub open spec fn dec_digits(n: int) -> Seq<char>
    decreases n,
{
    if n < 10 {
        seq![spec_digit_char(n)]
    } else {
        dec_digits(n / 10).push(spec_digit_char(n % 10))
    }
}

pub open spec fn spec_digit_char(d: int) -> char {
    if d == 0 {
        '0'
    } else if d == 1 {
        '1'
    } else if d == 2 {
        '2'
    } else if d == 3 {
        '3'
    } else if d == 4 {
        '4'
    } else if d == 5 {
        '5'
    } else if d == 6 {
        '6'
    } else if d == 7 {
        '7'
    } else if d == 8 {
        '8'
    } else {
        '9'
    }
}

fn digit_char(d: usize) -> (c: char)
    requires
        d < 10,
    ensures
        c == spec_digit_char(d as int),
{
    if d == 0 {
        '0'
    } else if d == 1 {
        '1'
    } else if d == 2 {
        '2'
    } else if d == 3 {
        '3'
    } else if d == 4 {
        '4'
    } else if d == 5 {
        '5'
    } else if d == 6 {
        '6'
    } else if d == 7 {
        '7'
    } else if d == 8 {
        '8'
    } else {
        '9'
    }
}

/// The decimal numeral of `n` as a string.
pub fn to_dec_string(n: usize) -> (r: String)
    ensures
        r@ == dec_digits(n as int),
    decreases n,
{
    if n < 10 {
        let mut s = String::new();
        push_char(&mut s, digit_char(n));
        proof {
            assert(s@ =~= dec_digits(n as int));
        }
        s
    } else {
        let mut s = to_dec_string(n / 10);
        push_char(&mut s, digit_char(n % 10));
        s
    }
}

} // verus!
