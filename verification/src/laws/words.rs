//! Laws of the text that everything else is made of.

use crate::numbers::{
    all_digits, decimal_int_reads_back, decimal_reads_back, digits_value, i64_text, is_digit,
    parse_i32, parse_u32, parse_u64, parse_unsigned, u64_text,
};
use crate::text::{
    chars_of, concat, concat3, contains_text, debug_list, debug_opt_text, debug_quoted, first_index,
    has_whitespace, is_space, is_whitespace, join_strings, lemma_first_index,
    lemma_first_index_bounds, matches_at, replace_all, replace_text, same_text, split_at_first,
    split_lines, split_once, string_of, strip_suffix, texts, to_ascii_lower, trim,
    trim_leading_slashes, trimmed_end, trimmed_start, without_leading_slashes,
};
use vstd::prelude::*;

verus! {

pub(crate) proof fn lemma_split(s: Seq<char>, c: char)
    ensures
        match split_at_first(s, c) {
            Some(p) => s == p.0.push(c) + p.1 && !p.0.contains(c),
            None => !s.contains(c),
        },
{
    lemma_first_index_bounds(s, c);
    let i = first_index(s, c);
    if i < s.len() {
        assert(s == s.take(i).push(c) + s.skip(i + 1));
    }
}

pub(crate) proof fn lemma_split_of(a: Seq<char>, c: char, b: Seq<char>)
    requires
        !a.contains(c),
    ensures
        split_at_first(a.push(c) + b, c) == Some((a, b)),
{
    let s = a.push(c) + b;
    assert forall|j: int| 0 <= j < a.len() implies s[j] != c by {
        assert(a[j] != c) by {
            if a[j] == c {
                assert(a.contains(c));
            }
        }
    }
    lemma_first_index(s, c, a.len() as int);
    assert(s.take(a.len() as int) == a);
    assert(s.skip(a.len() as int + 1) == b);
}

/// A text is cut at a character if and only if it holds one; the halves make up
/// the text again, and the first holds no such character.
pub proof fn cut_is_at_the_first(s: &str, c: char, r: Option<(String, String)>)
    requires
        call_ensures(split_once, (s, c), r),
    ensures
        r is Some <==> s@.contains(c),
        r matches Some(p) ==> s@ == p.0@.push(c) + p.1@ && !p.0@.contains(c),
{
    lemma_split(s@, c);
    match r {
        Some(p) => {
            assert((p.0@.push(c) + p.1@)[p.0@.len() as int] == c);
        },
        None => {},
    }
}

/// Texts are put one after the other, and are the same where they read the same.
pub proof fn texts_are_put_in_order(
    a: &str,
    b: &str,
    c: &str,
    two: String,
    three: String,
    same: bool,
)
    requires
        call_ensures(concat, (a, b), two),
        call_ensures(concat3, (a, b, c), three),
        call_ensures(same_text, (a, b), same),
    ensures
        two@ == a@ + b@,
        three@ == a@ + b@ + c@,
        same <==> a@ == b@,
{
}

/// A text stands in another if and only if the other is something before it, it,
/// and something after it.
pub proof fn contained_is_surrounded(s: &str, pat: &str, r: bool)
    requires
        call_ensures(contains_text, (s, pat), r),
    ensures
        r <==> exists|before: Seq<char>, after: Seq<char>| s@ == #[trigger] (before + pat@ + after),
{
    if r {
        let i = choose|i: int| matches_at(s@, pat@, i);
        assert(s@ == s@.take(i) + pat@ + s@.skip(i + pat@.len())) by {
            assert(s@.subrange(i, i + pat@.len()) == pat@);
            assert forall|k: int| 0 <= k < pat@.len() implies s@[i + k] == pat@[k] by {
                assert(s@.subrange(i, i + pat@.len())[k] == s@[i + k]);
            }
            assert(s@ =~= s@.take(i) + pat@ + s@.skip(i + pat@.len()));
        }
    }
    if exists|before: Seq<char>, after: Seq<char>| s@ == #[trigger] (before + pat@ + after) {
        let (before, after) = choose|before: Seq<char>, after: Seq<char>|
            s@ == #[trigger] (before + pat@ + after);
        let i = before.len() as int;
        assert(s@.subrange(i, i + pat@.len()) =~= pat@);
        assert(matches_at(s@, pat@, i));
    }
}

proof fn lemma_replace_from(s: Seq<char>, pat: Seq<char>, with: Seq<char>, i: int)
    requires
        pat.len() > 0,
        matches_at(s, pat, i),
        forall|j: int| 0 <= j < i ==> !matches_at(s, pat, j),
    ensures
        replace_all(s, pat, with) == s.take(i) + with + replace_all(
            s.skip(i + pat.len()),
            pat,
            with,
        ),
    decreases i,
{
    if i == 0 {
        assert(s.take(0) + with =~= with);
        assert(s.skip(0 + pat.len() as int) == s.skip(pat.len() as int));
    } else {
        let t = s.skip(1);
        assert(t.subrange(i - 1, i - 1 + pat.len()) =~= s.subrange(i, i + pat.len()));
        assert forall|j: int| 0 <= j < i - 1 implies !matches_at(t, pat, j) by {
            if matches_at(t, pat, j) {
                assert(t.subrange(j, j + pat.len()) =~= s.subrange(j + 1, j + 1 + pat.len()));
                assert(matches_at(s, pat, j + 1));
            }
        }
        lemma_replace_from(t, pat, with, i - 1);
        assert(!matches_at(s, pat, 0));
        assert(t.skip(i - 1 + pat.len()) =~= s.skip(i + pat.len()));
        assert(seq![s[0]] + (t.take(i - 1) + with + replace_all(
            s.skip(i + pat.len()),
            pat,
            with,
        )) =~= s.take(i) + with + replace_all(s.skip(i + pat.len()), pat, with));
    }
}

/// Replacing goes from the left: what stands before the first occurrence stays,
/// the occurrence gives way, and the rest is done likewise. Text without an
/// occurrence stays as it is.
pub proof fn replacing_goes_from_the_left(
    s: &str,
    pat: &str,
    with: &str,
    i: int,
    rest: &str,
    of_rest: String,
    r: String,
)
    requires
        call_ensures(replace_text, (s, pat, with), r),
        call_ensures(replace_text, (rest, pat, with), of_rest),
        pat@.len() > 0,
        forall|j: int| 0 <= j < i ==> !matches_at(s@, pat@, j),
    ensures
        matches_at(s@, pat@, i) && rest@ == s@.skip(i + pat@.len()) ==> r@ == s@.take(i) + with@
            + of_rest@,
        i > s@.len() ==> r@ == s@,
{
    if matches_at(s@, pat@, i) {
        lemma_replace_from(s@, pat@, with@, i);
    }
    if i > s@.len() {
        assert forall|j: int| !matches_at(s@, pat@, j) by {}
        crate::cli::vm_boot::lemma_nothing_to_replace(s@, pat@, with@);
    }
}

/// Joined texts are the others joined, the separator and the last one; one is
/// itself and none is nothing.
pub proof fn joining_goes_one_by_one(
    fewer: &[String],
    parts: &[String],
    sep: &str,
    before: String,
    r: String,
)
    requires
        call_ensures(join_strings, (fewer, sep), before),
        call_ensures(join_strings, (parts, sep), r),
        parts@.len() == fewer@.len() + 1,
        forall|i: int| 0 <= i < fewer@.len() ==> (#[trigger] parts@[i])@ == fewer@[i]@,
    ensures
        fewer@.len() == 0 ==> before@.len() == 0 && r@ == parts@[0]@,
        fewer@.len() > 0 ==> r@ == before@ + sep@ + parts@.last()@,
{
    let a = texts(fewer@);
    let b = texts(parts@);
    assert(a.len() == fewer@.len() && b.len() == parts@.len());
    assert forall|i: int| 0 <= i < a.len() implies a[i] == b[i] by {
        assert(parts@[i]@ == fewer@[i]@);
    }
    assert(b.drop_last() =~= a);
    assert(b.last() == parts@.last()@);
    assert(b[0] == parts@[0]@);
}

/// The lines of a text are what stands before the first line feed, without the
/// carriage return before it, and then the lines of the rest; a text without a
/// line feed is one line, and nothing is none.
pub proof fn lines_end_at_line_feeds(
    s: &str,
    i: int,
    rest: &str,
    of_rest: Vec<String>,
    r: Vec<String>,
)
    requires
        call_ensures(split_lines, (s,), r),
        call_ensures(split_lines, (rest,), of_rest),
        0 <= i <= s@.len(),
        forall|j: int| 0 <= j < i ==> s@[j] != '\n',
    ensures
        s@.len() == 0 ==> r@.len() == 0,
        i == s@.len() && i > 0 ==> r@.len() == 1 && r@[0]@ == s@,
        i < s@.len() && s@[i] == '\n' && rest@ == s@.skip(i + 1) ==> {
            &&& r@.len() == of_rest@.len() + 1
            &&& i > 0 && s@[i - 1] == '\r' ==> r@[0]@ == s@.take(i - 1)
            &&& i == 0 || s@[i - 1] != '\r' ==> r@[0]@ == s@.take(i)
            &&& forall|j: int| 0 <= j < of_rest@.len() ==> r@[j + 1]@ == (#[trigger] of_rest@[j])@
        },
{
    let t = texts(r@);
    let u = texts(of_rest@);
    assert(t.len() == r@.len() && u.len() == of_rest@.len());
    if i == s@.len() || s@[i] == '\n' {
        lemma_first_index(s@, '\n', i);
        if s@.len() > 0 {
            assert(t[0] == r@[0]@);
        }
        if i < s@.len() && rest@ == s@.skip(i + 1) {
            assert forall|j: int| 0 <= j < of_rest@.len() implies r@[j + 1]@ == (
            #[trigger] of_rest@[j])@ by {
                assert(t[j + 1] == u[j]);
                assert(t[j + 1] == r@[j + 1]@);
            }
        }
    }
}

/// A character is whitespace if Unicode says so: among those of ASCII the space,
/// the tab and the line breaks, and no letter, digit or sign; among the others
/// the wide, narrow and unbreakable spaces and the line and paragraph separators.
pub proof fn whitespace_is_what_unicode_says(c: char, r: bool)
    requires
        call_ensures(is_whitespace, (c,), r),
    ensures
        (c as u32) < 128 ==> (r <==> c == ' ' || c == '\t' || c == '\n' || c == '\r' || c as u32
            == 11 || c as u32 == 12),
        (c as u32) >= 128 ==> (r <==> c == '\u{85}' || c == '\u{a0}' || c == '\u{1680}' || (
        '\u{2000}' <= c <= '\u{200a}') || c == '\u{2028}' || c == '\u{2029}' || c == '\u{202f}'
            || c == '\u{205f}' || c == '\u{3000}'),
{
}

/// A text holds whitespace if and only if one of its characters is.
pub proof fn whitespace_is_found(call: (&str,), r: bool)
    requires
        call_ensures(has_whitespace, call, r),
    ensures
        r <==> exists|i: int| 0 <= i < call.0@.len() && is_space(#[trigger] call.0@[i]),
{
}

proof fn lemma_trimmed_start(s: Seq<char>) -> (i: int)
    ensures
        0 <= i <= s.len(),
        trimmed_start(s) == s.skip(i),
        forall|j: int| 0 <= j < i ==> is_space(#[trigger] s[j]),
        i < s.len() ==> !is_space(s[i]),
    decreases s.len(),
{
    if s.len() > 0 && is_space(s[0]) {
        let t = s.skip(1);
        let i = lemma_trimmed_start(t);
        assert(t.skip(i) =~= s.skip(i + 1));
        assert forall|j: int| 0 <= j < i + 1 implies is_space(#[trigger] s[j]) by {
            if j > 0 {
                assert(t[j - 1] == s[j]);
            }
        }
        if i < t.len() {
            assert(t[i] == s[i + 1]);
        }
        i + 1
    } else {
        assert(s.skip(0) =~= s);
        0
    }
}

proof fn lemma_trimmed_end(s: Seq<char>) -> (i: int)
    ensures
        0 <= i <= s.len(),
        trimmed_end(s) == s.take(i),
        forall|j: int| i <= j < s.len() ==> is_space(#[trigger] s[j]),
        i > 0 ==> !is_space(s[i - 1]),
    decreases s.len(),
{
    if s.len() > 0 && is_space(s.last()) {
        let t = s.drop_last();
        let i = lemma_trimmed_end(t);
        assert(t.take(i) =~= s.take(i));
        assert forall|j: int| i <= j < s.len() implies is_space(#[trigger] s[j]) by {
            if j < t.len() {
                assert(t[j] == s[j]);
            }
        }
        if i > 0 {
            assert(t[i - 1] == s[i - 1]);
        }
        i
    } else {
        assert(s.take(s.len() as int) =~= s);
        s.len() as int
    }
}

/// Trimming takes the whitespace off both ends and nothing else: what is left
/// neither begins nor ends with any, and what is gone was nothing else.
pub proof fn trimming_takes_whitespace_off_both_ends(s: &str, r: String)
    requires
        call_ensures(trim, (s,), r),
    ensures
        r@.len() > 0 ==> !is_space(r@[0]) && !is_space(r@.last()),
        exists|before: Seq<char>, after: Seq<char>|
            {
                &&& s@ == #[trigger] (before + r@ + after)
                &&& forall|i: int| 0 <= i < before.len() ==> is_space(#[trigger] before[i])
                &&& forall|i: int| 0 <= i < after.len() ==> is_space(#[trigger] after[i])
            },
{
    let i = lemma_trimmed_start(s@);
    let t = s@.skip(i);
    let j = lemma_trimmed_end(t);
    let before = s@.take(i);
    let after = t.skip(j);
    assert(r@ == t.take(j));
    assert(s@ =~= before + r@ + after);
    assert forall|k: int| 0 <= k < after.len() implies is_space(#[trigger] after[k]) by {
        assert(t[j + k] == after[k]);
    }
    if r@.len() > 0 {
        assert(r@[0] == s@[i]);
        assert(r@.last() == t[j - 1]);
    }
}

/// Lower case changes the capital letters of ASCII and no other character.
pub proof fn lower_case_is_of_ascii_letters(s: &str, r: String, i: int)
    requires
        call_ensures(to_ascii_lower, (s,), r),
        0 <= i < s@.len(),
    ensures
        r@.len() == s@.len(),
        'A' <= s@[i] <= 'Z' ==> r@[i] as u32 == s@[i] as u32 + 32,
        !('A' <= s@[i] <= 'Z') ==> r@[i] == s@[i],
{
}

/// A suffix is taken off if and only if the text ends in it.
pub proof fn suffix_is_taken_off(s: &str, suffix: &str, r: Option<String>)
    requires
        call_ensures(strip_suffix, (s, suffix), r),
    ensures
        r matches Some(t) ==> s@ == t@ + suffix@,
        r is None ==> forall|t: Seq<char>| s@ != #[trigger] (t + suffix@),
{
    let n = s@.len() - suffix@.len();
    match r {
        Some(t) => {
            assert(s@.subrange(n, n + suffix@.len()) == suffix@);
            assert forall|k: int| 0 <= k < suffix@.len() implies s@[n + k] == suffix@[k] by {
                assert(s@.subrange(n, n + suffix@.len())[k] == s@[n + k]);
            }
            assert(s@ =~= t@ + suffix@);
        },
        None => {
            assert forall|t: Seq<char>| s@ != #[trigger] (t + suffix@) by {
                if s@ == t + suffix@ {
                    assert(s@.subrange(n, n + suffix@.len()) =~= suffix@);
                }
            }
        },
    }
}

/// A number's text is that of its tens and then its last digit; of one digit it
/// is that digit.
pub proof fn numbers_are_written_in_tens(n: u64, tens: String, r: String)
    requires
        call_ensures(u64_text, (n,), r),
        call_ensures(u64_text, ((n / 10) as u64,), tens),
    ensures
        n < 10 ==> r@.len() == 1 && r@[0] as u32 == 48 + n,
        n >= 10 ==> r@.len() == tens@.len() + 1 && r@.drop_last() == tens@ && r@.last() as u32
            == 48 + n % 10,
{
    if n >= 10 {
        assert(r@.drop_last() =~= tens@);
    }
}

/// Reading a number's text gives the number back.
pub proof fn written_numbers_are_read_back(
    n: u64,
    text: String,
    s: &str,
    r: Option<u64>,
    m: i32,
    signed: String,
    t: &str,
    q: Option<i32>,
)
    requires
        call_ensures(u64_text, (n,), text),
        s@ == text@,
        call_ensures(parse_u64, (s,), r),
        call_ensures(i64_text, (m as i64,), signed),
        t@ == signed@,
        call_ensures(parse_i32, (t,), q),
    ensures
        r == Some(n),
        q == Some(m),
{
    decimal_reads_back(n as nat, u64::MAX as nat);
    decimal_int_reads_back(m);
}

/// A digit after a number makes it ten times as much and the digit, as far as
/// there is room; anything else makes it no number. One digit is its value, and
/// nothing is no number.
pub proof fn numbers_are_read_in_tens(
    head: &str,
    c: char,
    s: &str,
    before: Option<u64>,
    r: Option<u64>,
    small: Option<u32>,
)
    requires
        call_ensures(parse_u64, (head,), before),
        call_ensures(parse_u64, (s,), r),
        call_ensures(parse_u32, (s,), small),
        s@ == head@.push(c),
    ensures
        !('0' <= c <= '9') && head@.len() > 0 ==> r is None,
        '0' <= c <= '9' && head@.len() == 0 ==> r == Some((c as u32 - 48) as u64),
        '0' <= c <= '9' ==> (before matches Some(m) ==> m * 10 + (c as u32 - 48) <= u64::MAX ==> r
            == Some((m * 10 + (c as u32 - 48)) as u64)),
        '0' <= c <= '9' ==> (before matches Some(m) ==> m * 10 + (c as u32 - 48) > u64::MAX
            ==> r is None),
        head@.len() == 0 ==> before is None,
        small matches Some(n) ==> r == Some(n as u64),
        r matches Some(n) ==> n <= u32::MAX ==> small == Some(n as u32),
{
    let plus = head@.len() > 0 && head@[0] == '+';
    let body = if plus {
        head@.skip(1)
    } else {
        head@
    };
    let full = if s@[0] == '+' {
        s@.skip(1)
    } else {
        s@
    };
    if head@.len() > 0 {
        assert(s@[0] == head@[0]);
        assert(full =~= body.push(c));
        assert(full.drop_last() =~= body);
        assert(full[full.len() - 1] == c);
        if all_digits(body) && is_digit(c) {
            assert forall|i: int| 0 <= i < full.len() implies is_digit(full[i]) by {
                if i < body.len() {
                    assert(full[i] == body[i]);
                }
            }
        }
    } else if is_digit(c) {
        assert(s@ =~= seq![c]);
        assert(full =~= seq![c]);
        assert(full.drop_last() =~= Seq::<char>::empty());
        assert(digits_value(full.drop_last()) == 0);
    }
}

/// A sign before a number is read as such: a plus changes nothing, and a minus
/// makes it as much less.
pub proof fn signs_are_read(
    digits: &str,
    plus: &str,
    minus: &str,
    n: Option<i32>,
    p: Option<i32>,
    m: Option<i32>,
)
    requires
        call_ensures(parse_i32, (digits,), n),
        call_ensures(parse_i32, (plus,), p),
        call_ensures(parse_i32, (minus,), m),
        digits@.len() > 0,
        digits@[0] != '+',
        digits@[0] != '-',
        plus@ == seq!['+'] + digits@,
        minus@ == seq!['-'] + digits@,
    ensures
        p == n,
        n matches Some(v) ==> m == Some((-v) as i32),
{
    assert(plus@.skip(1) =~= digits@);
    assert(minus@.skip(1) =~= digits@);
}

proof fn lemma_leading_slashes(s: Seq<char>) -> (i: int)
    ensures
        0 <= i <= s.len(),
        without_leading_slashes(s) == s.skip(i),
        forall|j: int| 0 <= j < i ==> #[trigger] s[j] == '/',
        i < s.len() ==> s[i] != '/',
    decreases s.len(),
{
    if s.len() > 0 && s[0] == '/' {
        let t = s.skip(1);
        let i = lemma_leading_slashes(t);
        assert(t.skip(i) =~= s.skip(i + 1));
        assert forall|j: int| 0 <= j < i + 1 implies #[trigger] s[j] == '/' by {
            if j > 0 {
                assert(t[j - 1] == s[j]);
            }
        }
        if i < t.len() {
            assert(t[i] == s[i + 1]);
        }
        i + 1
    } else {
        assert(s.skip(0) =~= s);
        0
    }
}

/// The slashes at a text's start go, all of them, and nothing else does.
pub proof fn leading_slashes_go(s: &str, r: String)
    requires
        call_ensures(trim_leading_slashes, (s,), r),
    ensures
        r@.len() <= s@.len(),
        s@.skip(s@.len() - r@.len()) == r@,
        forall|j: int| 0 <= j < s@.len() - r@.len() ==> #[trigger] s@[j] == '/',
        r@.len() > 0 ==> r@[0] != '/',
{
    let i = lemma_leading_slashes(s@);
    assert(r@ == s@.skip(i));
    if r@.len() > 0 {
        assert(r@[0] == s@[i]);
    }
}

/// A list prints in brackets, its items each printed for debugging, with a comma
/// between; none print as nothing.
pub proof fn lists_print_in_brackets(
    items: &[String],
    shown: &[String],
    sep: &str,
    joined: String,
    r: String,
)
    requires
        call_ensures(debug_list, (items,), r),
        shown@.len() == items@.len(),
        forall|i: int| 0 <= i < items@.len() ==> (#[trigger] shown@[i])@
            == debug_quoted(items@[i]@),
        sep@ == seq![',', ' '],
        call_ensures(join_strings, (shown, sep), joined),
    ensures
        r@ == seq!['['] + joined@ + seq![']'],
{
    reveal_strlit("[");
    reveal_strlit("]");
    reveal_strlit(", ");
    assert("["@ =~= seq!['[']);
    assert("]"@ =~= seq![']']);
    assert(", "@ =~= sep@);
    assert(texts(shown@) =~= texts(items@).map_values(|s: Seq<char>| debug_quoted(s)));
}

/// An optional text prints with its kind.
pub proof fn options_print_with_their_kind(o: Option<&str>, r: String)
    requires
        call_ensures(debug_opt_text, (o,), r),
    ensures
        o is None ==> r@ == "None"@,
        o matches Some(s) ==> r@ == "Some("@ + debug_quoted(s@) + ")"@,
{
}

/// A number's text is its digits, after a minus if it is less than nothing.
pub proof fn only_negative_numbers_have_a_sign(n: i64, m: u64, digits: String, r: String)
    requires
        call_ensures(i64_text, (n,), r),
        call_ensures(u64_text, (m,), digits),
        n >= 0 ==> m == n,
        n < 0 ==> m == -n,
    ensures
        n >= 0 ==> r@ == digits@,
        n < 0 ==> r@ == seq!['-'] + digits@,
{
    reveal_strlit("-");
    assert("-"@ =~= seq!['-']);
}

/// A number is read up to a bound if and only if it is one and no more.
pub proof fn numbers_are_read_up_to_a_bound(
    s: &str,
    max: u64,
    r: Option<u64>,
    any: Option<u64>,
)
    requires
        call_ensures(parse_unsigned, (s, max), r),
        call_ensures(parse_u64, (s,), any),
    ensures
        r is Some <==> any is Some && any->0 <= max,
        r is Some ==> r == any,
{
}

/// A signed number is a sign or none, and then digits alone.
pub proof fn signed_numbers_are_digits(s: &str, r: Option<i32>, i: int)
    requires
        call_ensures(parse_i32, (s,), r),
        r is Some,
        0 <= i < s@.len(),
    ensures
        s@.len() > 0,
        '0' <= s@[i] <= '9' || (i == 0 && s@.len() > 1 && (s@[0] == '+' || s@[0] == '-')),
{
    let body = if s@[0] == '-' || s@[0] == '+' {
        s@.skip(1)
    } else {
        s@
    };
    assert(all_digits(body));
    if s@[0] == '-' || s@[0] == '+' {
        if i > 0 {
            assert(is_digit(body[i - 1]));
        }
    } else {
        assert(is_digit(body[i]));
    }
}

/// A text's characters make up the text again.
pub proof fn characters_make_up_the_text(s: &str, v: Vec<char>, r: String)
    requires
        call_ensures(chars_of, (s,), v),
        call_ensures(string_of, (&v, 0, v.len()), r),
    ensures
        v@ == s@,
        r@ == s@,
{
    assert(v@.subrange(0, v@.len() as int) =~= v@);
}

} // verus!
