use vstd::prelude::*;

verus! {

/// `String::push`: appends one character.
#[verifier::external_body]
pub(crate) fn push_char(s: &mut String, c: char)
    ensures
        final(s)@ == old(s)@.push(c),
{
    s.push(c);
}

/// `String::pop`: removes and returns the last character, or `None` for an
/// empty string (which it leaves as it is).
#[verifier::external_body]
pub(crate) fn pop_char(s: &mut String) -> (res: Option<char>)
    ensures
        old(s)@.len() == 0 ==> res is None && final(s)@ == old(s)@,
        old(s)@.len() > 0 ==> res == Some(old(s)@.last()) && final(s)@ == old(s)@.drop_last(),
{
    s.pop()
}

/// The pieces of a text between its spaces, as `str::split(' ')` yields them:
/// an empty text gives one empty piece, and every space ends a piece.
pub open spec fn split_spaces(s: Seq<char>) -> Seq<Seq<char>>
    decreases s.len(),
{
    if s.len() == 0 {
        seq![Seq::empty()]
    } else {
        let pieces = split_spaces(s.drop_last());
        if s.last() == ' ' {
            pieces.push(Seq::empty())
        } else {
            pieces.update(pieces.len() - 1, pieces.last().push(s.last()))
        }
    }
}

/// Splitting never gives an empty list of pieces.
pub proof fn lemma_split_spaces_nonempty(s: Seq<char>)
    ensures
        split_spaces(s).len() >= 1,
    decreases s.len(),
{
    if s.len() > 0 {
        lemma_split_spaces_nonempty(s.drop_last());
    }
}

pub open spec fn string_views(v: Seq<String>) -> Seq<Seq<char>> {
    v.map_values(|p: String| p@)
}

/// Splits a text at its spaces, as `str::split(' ')` does.
pub fn split_on_spaces(text: &str) -> (pieces: Vec<String>)
    ensures
        string_views(pieces@) == split_spaces(text@),
{
    let n = text.unicode_len();
    let mut pieces: Vec<String> = Vec::new();
    let mut current = String::new();
    let mut i: usize = 0;
    assert(text@.take(0) =~= Seq::<char>::empty());
    while i < n
        invariant
            n == text@.len(),
            i <= n,
            string_views(pieces@).push(current@) == split_spaces(text@.take(i as int)),
        decreases n - i,
    {
        let c = text.get_char(i);
        let ghost before = text@.take(i as int);
        assert(text@.take(i + 1).drop_last() =~= before);
        proof {
            lemma_split_spaces_nonempty(before);
        }
        if c == ' ' {
            pieces.push(current);
            current = String::new();
            assert(string_views(pieces@).push(current@) =~= split_spaces(text@.take(i + 1)));
        } else {
            push_char(&mut current, c);
            assert(string_views(pieces@).push(current@) =~= split_spaces(text@.take(i + 1)));
        }
        i = i + 1;
    }
    assert(text@.take(n as int) =~= text@);
    pieces.push(current);
    assert(string_views(pieces@) =~= split_spaces(text@));
    pieces
}


/// The part of a log time that the transaction list shows: the second
/// space-separated piece (the time of day) when the text has more than two
/// pieces, the whole text otherwise.
pub open spec fn landed_at_display(landed_at: Seq<char>) -> Seq<char> {
    let pieces = split_spaces(landed_at);
    if pieces.len() > 2 {
        pieces[1]
    } else {
        landed_at
    }
}

/// The time of day shown for a transaction that landed at `landed_at` (a date
/// and time such as `2024-05-16 19:31:25 UTC`).
pub fn landed_at_time_text(landed_at: String) -> (res: String)
    ensures
        res@ == landed_at_display(landed_at@),
{
    let mut pieces = split_on_spaces(landed_at.as_str());
    if pieces.len() > 2 {
        assert(string_views(pieces@)[1] == pieces@[1]@);
        pieces.swap_remove(1)
    } else {
        landed_at
    }
}

/// The spacing written after each word of a recovery phrase line.
pub open spec fn word_gap() -> Seq<char> {
    seq![' ', ' ', ' ', ' ', ' ']
}

/// The words `from..to` of a recovery phrase, each followed by the gap.
pub open spec fn words_line(words: Seq<Seq<char>>, from: int, to: int) -> Seq<char>
    decreases to - from,
{
    if to <= from {
        Seq::empty()
    } else {
        words_line(words, from, to - 1) + words[to - 1] + word_gap()
    }
}

/// The three display lines of a twelve-word recovery phrase: words 1-4, 5-8
/// and 9-12, each word followed by five spaces.
pub open spec fn phrase_lines(phrase: Seq<char>) -> (Seq<char>, Seq<char>, Seq<char>) {
    let words = split_spaces(phrase);
    (words_line(words, 0, 4), words_line(words, 4, 8), words_line(words, 8, 12))
}

fn words_line_text(words: &Vec<String>, from: usize) -> (line: String)
    requires
        from + 4 <= words.len(),
    ensures
        line@ == words_line(string_views(words@), from as int, from + 4),
{
    let mut line = String::new();
    let mut j = from;
    while j < from + 4
        invariant
            from <= j <= from + 4,
            from + 4 <= words.len(),
            line@ == words_line(string_views(words@), from as int, j as int),
        decreases from + 4 - j,
    {
        proof {
            reveal_strlit("     ");
        }
        line.append(words[j].as_str());
        line.append("     ");
        assert(string_views(words@)[j as int] == words@[j as int]@);
        j = j + 1;
    }
    line
}

/// Lays out a recovery phrase on three lines of four words, as the wallet
/// setup screen shows it. The phrase must have at least twelve words.
pub fn mnemonic_lines(phrase: &str) -> (lines: (String, String, String))
    requires
        split_spaces(phrase@).len() >= 12,
    ensures
        (lines.0@, lines.1@, lines.2@) == phrase_lines(phrase@),
{
    let words = split_on_spaces(phrase);
    let first = words_line_text(&words, 0);
    let second = words_line_text(&words, 4);
    let third = words_line_text(&words, 8);
    (first, second, third)
}

/// What a text input shows: one `*` per byte of its text when hidden, the
/// text itself otherwise.
pub open spec fn shown_text(text: Seq<char>, hidden: bool) -> Seq<char> {
    if hidden {
        Seq::new(crate::utils::utf8_len(text), |i: int| '*')
    } else {
        text
    }
}

/// The text a text input shows (its characters, or stars for a hidden
/// password).
pub fn displayed_text(text: &String, hidden: bool) -> (res: String)
    requires
        crate::utils::utf8_len(text@) <= usize::MAX,
    ensures
        res@ == shown_text(text@, hidden),
{
    if hidden {
        let n = text.as_str().len();
        let mut shown = String::new();
        let mut i: usize = 0;
        while i < n
            invariant
                i <= n,
                n == crate::utils::utf8_len(text@),
                shown@ == Seq::new(i as nat, |k: int| '*'),
            decreases n - i,
        {
            push_char(&mut shown, '*');
            i = i + 1;
            assert(shown@ =~= Seq::new(i as nat, |k: int| '*'));
        }
        shown
    } else {
        text.clone()
    }
}


/// A decimal digit character.
pub open spec fn is_decimal_digit(c: char) -> bool {
    '0' <= c && c <= '9'
}

/// Every character is a decimal digit.
pub open spec fn all_decimal_digits(s: Seq<char>) -> bool {
    forall|i: int| 0 <= i < s.len() ==> is_decimal_digit(#[trigger] s[i])
}

/// The number that a run of decimal digits writes, most significant first.
pub open spec fn digits_value(s: Seq<char>) -> nat
    decreases s.len(),
{
    if s.len() == 0 {
        0
    } else {
        (digits_value(s.drop_last()) * 10 + (s.last() as int - 48)) as nat
    }
}

/// What `str::parse::<u64>` gives for a text: an optional `+` followed by one
/// or more decimal digits whose value fits in a `u64`, or no number.
pub open spec fn u64_text_value(s: Seq<char>) -> Option<u64> {
    let digits = if s.len() > 0 && s[0] == '+' {
        s.drop_first()
    } else {
        s
    };
    if digits.len() > 0 && all_decimal_digits(digits) && digits_value(digits) <= u64::MAX {
        Some(digits_value(digits) as u64)
    } else {
        None
    }
}

/// The decimal digits of a number, without leading zeros, as `to_string`
/// writes an unsigned integer.
pub open spec fn decimal_text(n: nat) -> Seq<char>
    decreases n,
{
    if n < 10 {
        seq![(n + 48) as char]
    } else {
        decimal_text(n / 10).push(((n % 10) + 48) as char)
    }
}

/// A longer run of digits never has a smaller value than its prefixes.
pub proof fn lemma_digits_value_prefix(s: Seq<char>, k: int)
    requires
        all_decimal_digits(s),
        0 <= k <= s.len(),
    ensures
        digits_value(s.take(k)) <= digits_value(s),
    decreases s.len(),
{
    if k < s.len() {
        let init = s.drop_last();
        assert(init.take(k) =~= s.take(k));
        lemma_digits_value_prefix(init, k);
        assert(is_decimal_digit(s[s.len() - 1]));
    } else {
        assert(s.take(k) =~= s);
    }
}

/// The decimal text of a number is a nonempty run of digits with that value.
pub proof fn lemma_decimal_text_digits(n: nat)
    ensures
        decimal_text(n).len() > 0,
        all_decimal_digits(decimal_text(n)),
        digits_value(decimal_text(n)) == n,
    decreases n,
{
    if n < 10 {
        let t = decimal_text(n);
        assert(((n + 48) as char) as int == n + 48);
        assert(t.drop_last() =~= Seq::<char>::empty());
        assert(t.last() as int - 48 == n);
        assert(digits_value(t) == (digits_value(t.drop_last()) * 10 + (t.last() as int - 48)) as nat);
    } else {
        lemma_decimal_text_digits(n / 10);
        let t = decimal_text(n);
        assert(((n % 10 + 48) as char) as int == n % 10 + 48);
        assert(t.drop_last() =~= decimal_text(n / 10));
        assert((n / 10) * 10 + n % 10 == n) by (nonlinear_arith);
        assert(t.last() as int - 48 == n % 10);
        assert(digits_value(t) == (digits_value(t.drop_last()) * 10 + (t.last() as int - 48)) as nat);
        assert forall|i: int| 0 <= i < t.len() implies is_decimal_digit(#[trigger] t[i]) by {
            if i < t.len() - 1 {
                assert(t[i] == decimal_text(n / 10)[i]);
            }
        }
    }
}

/// Reading back the decimal text of a `u64` gives the same number.
pub proof fn lemma_u64_text_round_trip(n: u64)
    ensures
        u64_text_value(decimal_text(n as nat)) == Some(n),
{
    lemma_decimal_text_digits(n as nat);
    let t = decimal_text(n as nat);
    assert(is_decimal_digit(t[0]));
}

fn digit_char(d: u64) -> (c: char)
    requires
        d < 10,
    ensures
        c == ((d + 48) as char),
{
    ((d as u8) + 48) as char
}

/// Writes a number in decimal, as `to_string` does for an unsigned integer.
pub fn decimal_string(n: u64) -> (s: String)
    ensures
        s@ == decimal_text(n as nat),
    decreases n,
{
    if n < 10 {
        let mut s = String::new();
        push_char(&mut s, digit_char(n));
        s
    } else {
        let mut s = decimal_string(n / 10);
        push_char(&mut s, digit_char(n % 10));
        s
    }
}

/// Reads a `u64` from a text, as `str::parse::<u64>` does: an optional `+`
/// and then decimal digits only, with no overflow.
pub fn parse_u64(text: &str) -> (res: Option<u64>)
    ensures
        res == u64_text_value(text@),
{
    let n = text.unicode_len();
    let mut start: usize = 0;
    if n > 0 && text.get_char(0) == '+' {
        start = 1;
    }
    let ghost digits = text@.subrange(start as int, n as int);
    assert(digits =~= (if text@.len() > 0 && text@[0] == '+' { text@.drop_first() } else { text@ }));
    if start == n {
        return None;
    }
    let mut acc: u64 = 0;
    let mut i: usize = start;
    assert(digits.take(0) =~= Seq::<char>::empty());
    while i < n
        invariant
            start <= i <= n,
            n == text@.len(),
            digits == text@.subrange(start as int, n as int),
            digits == (if text@.len() > 0 && text@[0] == '+' { text@.drop_first() } else { text@ }),
            all_decimal_digits(digits.take(i - start)),
            acc == digits_value(digits.take(i - start)),
        decreases n - i,
    {
        let c = text.get_char(i);
        let ghost k: int = i - start;
        assert(digits[k] == c);
        assert(digits.take(k + 1).drop_last() =~= digits.take(k));
        if !('0' <= c && c <= '9') {
            assert(!all_decimal_digits(digits)) by {
                assert(!is_decimal_digit(digits[k]));
            }
            return None;
        }
        let dv = ((c as u32) - 48) as u64;
        let next = match acc.checked_mul(10) {
            Some(m) => m.checked_add(dv),
            None => None,
        };
        match next {
            Some(v) => {
                acc = v;
            },
            None => {
                proof {
                    if all_decimal_digits(digits) {
                        lemma_digits_value_prefix(digits, k + 1);
                    }
                }
                return None;
            },
        }
        i = i + 1;
        assert(all_decimal_digits(digits.take(i - start))) by {
            assert forall|j: int| 0 <= j < i - start implies is_decimal_digit(
                #[trigger] digits.take(i - start)[j],
            ) by {
                if j < k {
                    assert(digits.take(i - start)[j] == digits.take(k)[j]);
                }
            }
        }
    }
    assert(digits.take(n - start) =~= digits);
    Some(acc)
}


/// Compares two texts character by character.
pub fn texts_equal(a: &str, b: &str) -> (eq: bool)
    ensures
        eq == (a@ == b@),
{
    let n = a.unicode_len();
    let m = b.unicode_len();
    if n != m {
        return false;
    }
    let mut i: usize = 0;
    while i < n
        invariant
            i <= n,
            n == a@.len(),
            m == b@.len(),
            n == m,
            forall|j: int| 0 <= j < i ==> a@[j] == b@[j],
        decreases n - i,
    {
        if a.get_char(i) != b.get_char(i) {
            return false;
        }
        i = i + 1;
    }
    assert(a@ =~= b@);
    true
}

} // verus!
