//! What holds of texts.

use vstd::prelude::*;

use crate::text::{
    after_plus, all_digits, ascii_lower, ascii_upper, chars_of, contains, contains_text, decimal,
    decimal_text, digit_char, digits_value, eq_ignore_ascii_case, int_text, is_digit, is_space,
    is_white_space, joined, lower_char, occurs_at, parse_u16, replace, replace_all,
    same_ignoring_case, same_text, signed_text, to_ascii_lower, to_ascii_upper, trim, trim_end,
    trim_start, unsigned_value, upper_agrees_with_lower, upper_char,
};

verus! {

// ---------------------------------------------------------------------------
// Letter case
// ---------------------------------------------------------------------------

/// The letters between `A` and `Z` and those between `a` and `z` are thirty-two
/// apart, and no other character has a case.
pub proof fn letters_have_two_cases(c: char)
    ensures
        65 <= c as int <= 90 ==> lower_char(c) as int == c as int + 32 && upper_char(c) == c,
        97 <= c as int <= 122 ==> upper_char(c) as int == c as int - 32 && lower_char(c) == c,
        !(65 <= c as int <= 90) && !(97 <= c as int <= 122) ==> lower_char(c) == c && upper_char(c)
            == c,
{
}

/// A text in upper case and one in lower case have the length of the text, and
/// differ from it in letters alone.
pub proof fn case_is_changed_letter_by_letter(s: &str, upper: String, lower: String)
    requires
        call_ensures(to_ascii_upper, (s,), upper),
        call_ensures(to_ascii_lower, (s,), lower),
    ensures
        upper@.len() == s@.len(),
        lower@.len() == s@.len(),
        forall|i: int|
            0 <= i < s@.len() ==> {
                let c = (#[trigger] s@[i]) as int;
                &&& upper@[i] as int == if 97 <= c <= 122 {
                    c - 32
                } else {
                    c
                }
                &&& lower@[i] as int == if 65 <= c <= 90 {
                    c + 32
                } else {
                    c
                }
            },
{
}

/// Two texts are the same but for letter case if and only if they are equally long
/// and their characters are equal, or the two cases of one letter.
pub proof fn equal_but_for_case(a: &str, b: &str, r: bool)
    requires
        call_ensures(eq_ignore_ascii_case, (a, b), r),
    ensures
        r <==> a@.len() == b@.len() && forall|i: int|
            0 <= i < a@.len() ==> {
                let c = (#[trigger] a@[i]) as int;
                let d = b@[i] as int;
                c == d || (65 <= c <= 90 && d == c + 32) || (97 <= c <= 122 && d == c - 32)
            },
{
    if r {
        assert(ascii_lower(a@).len() == ascii_lower(b@).len());
        assert forall|i: int| 0 <= i < a@.len() implies {
            let c = (#[trigger] a@[i]) as int;
            let d = b@[i] as int;
            c == d || (65 <= c <= 90 && d == c + 32) || (97 <= c <= 122 && d == c - 32)
        } by {
            assert(ascii_lower(a@)[i] == ascii_lower(b@)[i]);
        }
    } else {
        if a@.len() == b@.len() && forall|i: int|
            0 <= i < a@.len() ==> {
                let c = (#[trigger] a@[i]) as int;
                let d = b@[i] as int;
                c == d || (65 <= c <= 90 && d == c + 32) || (97 <= c <= 122 && d == c - 32)
            } {
            assert forall|i: int| 0 <= i < a@.len() implies ascii_lower(a@)[i] == ascii_lower(
                b@,
            )[i] by {
                let c = a@[i] as int;
            }
            assert(ascii_lower(a@) =~= ascii_lower(b@));
        }
    }
}

/// A text is the same as itself in either case.
pub proof fn case_does_not_matter(s: Seq<char>)
    ensures
        same_ignoring_case(s, s),
        same_ignoring_case(ascii_upper(s), s),
        same_ignoring_case(ascii_lower(s), s),
{
    assert(ascii_lower(ascii_upper(s)) =~= ascii_lower(s));
    assert(ascii_lower(ascii_lower(s)) =~= ascii_lower(s));
}

/// Texts are the same if and only if they are equal, letter case and all.
pub proof fn same_texts_are_equal(a: &str, b: &str, r: bool)
    requires
        call_ensures(same_text, (a, b), r),
    ensures
        r <==> a@ =~= b@,
{
}

/// Texts of different lengths are different but for letter case too.
pub proof fn lengths_tell_apart(a: Seq<char>, b: Seq<char>)
    requires
        same_ignoring_case(a, b),
    ensures
        a.len() == b.len(),
        ascii_upper(a) == ascii_upper(b),
        forall|i: int| 0 <= i < a.len() ==> lower_char(#[trigger] a[i]) == lower_char(b[i]),
{
    assert(ascii_lower(a).len() == ascii_lower(b).len());
    upper_agrees_with_lower(a, b);
    assert forall|i: int| 0 <= i < a.len() implies lower_char(#[trigger] a[i]) == lower_char(
        b[i],
    ) by {
        assert(ascii_lower(a)[i] == ascii_lower(b)[i]);
    }
}

// ---------------------------------------------------------------------------
// White space
// ---------------------------------------------------------------------------

/// The beginning of a text that is cut off is white space.
proof fn trim_start_cuts_space(s: Seq<char>) -> (k: int)
    ensures
        0 <= k <= s.len(),
        trim_start(s) == s.skip(k),
        forall|i: int| 0 <= i < k ==> is_space(#[trigger] s[i]),
        k < s.len() ==> !is_space(s[k]),
    decreases s.len(),
{
    if s.len() > 0 && is_space(s[0]) {
        let j = trim_start_cuts_space(s.skip(1));
        assert(s.skip(1).skip(j) =~= s.skip(j + 1));
        assert forall|i: int| 0 <= i < j + 1 implies is_space(#[trigger] s[i]) by {
            if i > 0 {
                assert(s.skip(1)[i - 1] == s[i]);
            }
        }
        if j + 1 < s.len() {
            assert(s.skip(1)[j] == s[j + 1]);
        }
        j + 1
    } else {
        assert(s.skip(0) =~= s);
        0
    }
}

/// The end of a text that is cut off is white space.
proof fn trim_end_cuts_space(s: Seq<char>) -> (k: int)
    ensures
        0 <= k <= s.len(),
        trim_end(s) == s.take(k),
        forall|i: int| k <= i < s.len() ==> is_space(#[trigger] s[i]),
        k > 0 ==> !is_space(s[k - 1]),
    decreases s.len(),
{
    if s.len() > 0 && is_space(s.last()) {
        let k = trim_end_cuts_space(s.drop_last());
        assert(s.drop_last().take(k) =~= s.take(k));
        assert forall|i: int| k <= i < s.len() implies is_space(#[trigger] s[i]) by {
            if i < s.len() - 1 {
                assert(s.drop_last()[i] == s[i]);
            }
        }
        if k > 0 {
            assert(s.drop_last()[k - 1] == s[k - 1]);
        }
        k
    } else {
        assert(s.take(s.len() as int) =~= s);
        s.len() as int
    }
}

/// Trimming cuts white space off both ends, all of it, and nothing else.
pub proof fn trimming_cuts_space_off_the_ends(s: &str, r: String)
    requires
        call_ensures(trim, (s,), r),
    ensures
        r@.len() > 0 ==> !is_space(r@[0]) && !is_space(r@.last()),
        exists|i: int, j: int|
            {
                &&& 0 <= i <= j <= s@.len()
                &&& r@ == #[trigger] s@.subrange(i, j)
                &&& forall|k: int| 0 <= k < i ==> is_space(#[trigger] s@[k])
                &&& forall|k: int| j <= k < s@.len() ==> is_space(#[trigger] s@[k])
            },
{
    let i = trim_start_cuts_space(s@);
    let rest = s@.skip(i);
    let n = trim_end_cuts_space(rest);
    let j = i + n;
    assert(r@ =~= s@.subrange(i, j));
    assert forall|k: int| j <= k < s@.len() implies is_space(#[trigger] s@[k]) by {
        assert(rest[k - i] == s@[k]);
    }
    if n > 0 {
        assert(rest[n - 1] == r@.last());
        assert(rest[0] == r@[0]);
        assert(s@[i] == rest[0]);
    }
}

/// The blank, the tabulator, the line feed and the carriage return are white
/// space; letters, digits and other visible ASCII characters are not.
pub proof fn ascii_white_space(c: char)
    requires
        (c as int) < 128,
    ensures
        is_space(c) <==> c as int == 32 || 9 <= c as int <= 13,
{
}

/// White space is the characters with these codes, and no others.
pub proof fn white_space_has_these_codes(c: char, r: bool)
    requires
        call_ensures(is_white_space, (c,), r),
    ensures
        r <==> {
            let code = c as int;
            ||| 9 <= code <= 13 || code == 32 || code == 133 || code == 160
            ||| code == 5760 || 8192 <= code <= 8202
            ||| code == 8232 || code == 8233 || code == 8239 || code == 8287 || code == 12288
        },
{
}

/// The characters of a text come one by one and in order.
pub proof fn characters_come_in_order(s: &str, r: Vec<char>)
    requires
        call_ensures(chars_of, (s,), r),
    ensures
        r@.len() == s@.len(),
        forall|i: int| 0 <= i < s@.len() ==> r@[i] == #[trigger] s@[i],
{
}

// ---------------------------------------------------------------------------
// Searching and replacing
// ---------------------------------------------------------------------------

/// A text contains another if and only if it can be cut into what precedes it, it,
/// and what follows it.
pub proof fn containing_is_cutting(s: &str, part: &str, r: bool)
    requires
        call_ensures(contains, (s, part), r),
    ensures
        r <==> exists|before: Seq<char>, after: Seq<char>|
            s@ == #[trigger] (before + part@ + after),
{
    if r {
        let i = choose|i: int| occurs_at(s@, part@, i);
        let before = s@.take(i);
        let after = s@.skip(i + part@.len());
        assert(s@ =~= before + part@ + after);
    }
    if exists|before: Seq<char>, after: Seq<char>| s@ == #[trigger] (before + part@ + after) {
        let (before, after) = choose|before: Seq<char>, after: Seq<char>|
            s@ == #[trigger] (before + part@ + after);
        assert(s@.subrange(before.len() as int, (before.len() + part@.len()) as int) =~= part@);
        assert(occurs_at(s@, part@, before.len() as int));
    }
}

/// A text that does not contain what is replaced stays as it is.
pub proof fn nothing_to_replace(s: Seq<char>, from: Seq<char>, to: Seq<char>)
    requires
        !contains_text(s, from),
    ensures
        replace_all(s, from, to) == s,
    decreases s.len(),
{
    if from.len() > 0 && s.len() >= from.len() {
        assert(s.take(from.len() as int) =~= s.subrange(0, from.len() as int));
        assert(!occurs_at(s, from, 0));
        assert forall|i: int| !occurs_at(s.skip(1), from, i) by {
            if occurs_at(s.skip(1), from, i) {
                assert(s.subrange(i + 1, i + 1 + from.len()) =~= s.skip(1).subrange(
                    i,
                    i + from.len(),
                ));
                assert(occurs_at(s, from, i + 1));
            }
        }
        nothing_to_replace(s.skip(1), from, to);
        assert(seq![s[0]] + s.skip(1) =~= s);
    }
}

/// What stands before the first place where an occurrence could begin stays as it
/// is.
pub proof fn replacing_keeps_what_precedes(
    before: Seq<char>,
    s: Seq<char>,
    from: Seq<char>,
    to: Seq<char>,
)
    requires
        from.len() > 0,
        forall|i: int| 0 <= i < before.len() ==> #[trigger] before[i] != from[0],
    ensures
        replace_all(before + s, from, to) == before + replace_all(s, from, to),
    decreases before.len(),
{
    let all = before + s;
    if before.len() == 0 {
        assert(all =~= s);
        assert(before + replace_all(s, from, to) =~= replace_all(s, from, to));
    } else {
        let rest = before.skip(1);
        assert forall|i: int| 0 <= i < rest.len() implies #[trigger] rest[i] != from[0] by {
            assert(rest[i] == before[i + 1]);
        }
        replacing_keeps_what_precedes(rest, s, from, to);
        assert(all.skip(1) =~= rest + s);
        assert(all[0] == before[0]);
        if all.len() < from.len() {
            assert(!contains_text(s, from));
            nothing_to_replace(s, from, to);
        } else {
            assert(all.take(from.len() as int)[0] == before[0]);
        }
        assert(seq![all[0]] + (rest + replace_all(s, from, to)) =~= before + replace_all(
            s,
            from,
            to,
        ));
    }
}

/// What precedes the first occurrence stays as it is.
proof fn first_occurrence_is_replaced(
    before: Seq<char>,
    after: Seq<char>,
    from: Seq<char>,
    to: Seq<char>,
)
    requires
        from.len() > 0,
        forall|i: int| 0 <= i < before.len() ==> !occurs_at(before + from + after, from, i),
    ensures
        replace_all(before + from + after, from, to) == before + to + replace_all(after, from, to),
    decreases before.len(),
{
    let all = before + from + after;
    if before.len() == 0 {
        assert(all =~= from + after);
        replacing_at_the_beginning(after, from, to);
        assert(before + to + replace_all(after, from, to) =~= to + replace_all(after, from, to));
    } else {
        let rest = before.skip(1);
        assert(all.skip(1) =~= rest + from + after);
        assert forall|i: int| 0 <= i < rest.len() implies !occurs_at(rest + from + after, from, i) by {
            if occurs_at(rest + from + after, from, i) {
                assert(all.subrange(i + 1, i + 1 + from.len()) =~= (rest + from + after).subrange(
                    i,
                    i + from.len(),
                ));
                assert(occurs_at(all, from, i + 1));
            }
        }
        first_occurrence_is_replaced(rest, after, from, to);
        assert(!occurs_at(all, from, 0));
        assert(all.take(from.len() as int) =~= all.subrange(0, from.len() as int));
        assert(seq![all[0]] + (rest + to + replace_all(after, from, to)) =~= before + to
            + replace_all(after, from, to));
    }
}

/// A text that does not contain what is replaced stays as it is; in any other, what
/// precedes the first occurrence stays, the occurrence is replaced, and what follows it
/// is treated likewise.
pub proof fn occurrences_are_replaced_one_by_one(
    s: &str,
    from: &str,
    to: &str,
    r: String,
    before: Seq<char>,
    after: &str,
    treated: String,
)
    requires
        from@.len() > 0,
        call_ensures(replace, (s, from, to), r),
        call_ensures(replace, (after, from, to), treated),
    ensures
        !contains_text(s@, from@) ==> r@ == s@,
        s@ == before + from@ + after@ && (forall|i: int|
            0 <= i < before.len() ==> !occurs_at(s@, from@, i)) ==> r@ == before + to@ + treated@,
{
    if !contains_text(s@, from@) {
        nothing_to_replace(s@, from@, to@);
    }
    if s@ == before + from@ + after@ && (forall|i: int|
        0 <= i < before.len() ==> !occurs_at(s@, from@, i)) {
        first_occurrence_is_replaced(before, after@, from@, to@);
    }
}

/// An occurrence at the beginning is replaced, and what follows it is treated
/// likewise.
pub proof fn replacing_at_the_beginning(s: Seq<char>, from: Seq<char>, to: Seq<char>)
    requires
        from.len() > 0,
    ensures
        replace_all(from + s, from, to) == to + replace_all(s, from, to),
{
    let all = from + s;
    assert(all.take(from.len() as int) =~= from);
    assert(all.skip(from.len() as int) =~= s);
}

// ---------------------------------------------------------------------------
// Joining
// ---------------------------------------------------------------------------

/// No parts make an empty text, one part makes itself, and each further part is
/// added after a separator.
pub proof fn parts_are_joined_in_order(parts: Seq<Seq<char>>, part: Seq<char>, sep: Seq<char>)
    ensures
        joined(Seq::empty(), sep) == Seq::<char>::empty(),
        joined(seq![part], sep) == part,
        parts.len() > 0 ==> joined(parts.push(part), sep) == joined(parts, sep) + sep + part,
{
    assert(parts.push(part).drop_last() =~= parts);
}

// ---------------------------------------------------------------------------
// Numbers
// ---------------------------------------------------------------------------

/// A number written in decimal digits reads back as itself, and does not begin with
/// a needless zero.
pub proof fn decimal_reads_back(n: nat)
    ensures
        decimal(n).len() > 0,
        all_digits(decimal(n)),
        digits_value(decimal(n)) == n,
        n > 0 ==> decimal(n)[0] != '0',
    decreases n,
{
    if n < 10 {
        let s = decimal(n);
        assert(s.drop_last() =~= Seq::empty());
        assert(digits_value(s.drop_last()) == 0);
    } else {
        decimal_reads_back(n / 10);
        let s = decimal(n);
        assert(s.drop_last() =~= decimal(n / 10));
        assert(s.last() == digit_char(n % 10));
        assert forall|i: int| 0 <= i < s.len() implies is_digit(#[trigger] s[i]) by {
            if i < s.len() - 1 {
                assert(s.drop_last()[i] == s[i]);
            }
        }
    }
}

/// The text of a number is its decimal digits.
pub proof fn number_text_reads_back(n: u64, r: String)
    requires
        call_ensures(decimal_text, (n,), r),
    ensures
        all_digits(r@),
        digits_value(r@) == n,
        n > 0 ==> r@[0] != '0',
{
    decimal_reads_back(n as nat);
}

/// The text of a signed number is its decimal digits, after a minus sign if it is
/// negative.
pub proof fn signed_text_reads_back(n: i64, r: String)
    requires
        call_ensures(signed_text, (n,), r),
    ensures
        n >= 0 ==> all_digits(r@) && digits_value(r@) == n,
        n < 0 ==> r@.len() > 0 && r@[0] == '-' && all_digits(r@.skip(1)) && digits_value(r@.skip(1))
            == -n,
{
    if n < 0 {
        decimal_reads_back((-n) as nat);
        assert(r@.skip(1) =~= decimal((-n) as nat));
    } else {
        decimal_reads_back(n as nat);
    }
}

/// Different integers have different texts.
pub proof fn different_integers_differ(a: int, b: int)
    requires
        int_text(a) == int_text(b),
    ensures
        a == b,
{
    let m = if a < 0 {
        (-a) as nat
    } else {
        a as nat
    };
    let n = if b < 0 {
        (-b) as nat
    } else {
        b as nat
    };
    decimal_reads_back(m);
    decimal_reads_back(n);
    if a < 0 && b < 0 {
        assert(int_text(a).skip(1) =~= decimal(m));
        assert(int_text(b).skip(1) =~= decimal(n));
    } else if a < 0 {
        assert(int_text(a)[0] == '-');
        assert(is_digit(decimal(n)[0]));
    } else if b < 0 {
        assert(int_text(b)[0] == '-');
        assert(is_digit(decimal(m)[0]));
    }
}

/// What is read as a number was written as one: every number below 65536 is read
/// from its decimal text, with or without a plus sign.
pub proof fn written_numbers_are_read(n: nat)
    ensures
        unsigned_value(decimal(n)) == Some(n),
        unsigned_value(seq!['+'] + decimal(n)) == Some(n),
{
    decimal_reads_back(n);
    assert(is_digit(decimal(n)[0]));
    assert(after_plus(decimal(n)) == decimal(n));
    assert((seq!['+'] + decimal(n)).skip(1) =~= decimal(n));
}

/// A number is read only from decimal digits, which may follow a plus sign, and
/// only if it fits.
pub proof fn numbers_are_read_from_digits(s: &str, r: Option<u16>)
    requires
        call_ensures(parse_u16, (s,), r),
    ensures
        r matches Some(n) ==> {
            &&& s@.len() > 0
            &&& if s@[0] == '+' {
                s@.len() > 1 && all_digits(s@.skip(1)) && digits_value(s@.skip(1)) == n
            } else {
                all_digits(s@) && digits_value(s@) == n
            }
        },
        r is None && s@.len() > 0 && all_digits(s@) ==> digits_value(s@) > 65535,
        r is None && s@.len() > 1 && s@[0] == '+' && all_digits(s@.skip(1)) ==> digits_value(
            s@.skip(1),
        ) > 65535,
{
    if s@.len() > 0 && all_digits(s@) {
        assert(is_digit(s@[0]));
    }
}

} // verus!
