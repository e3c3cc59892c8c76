//! Operations on text: comparing, splitting, trimming, and numbers in decimal.

use vstd::prelude::*;
use vstd::string::*;
use vstd::utf8::encode_utf8_decode_utf8;

verus! {

/// Whether two byte strings are the same.
pub(crate) fn same_bytes(a: &[u8], b: &[u8]) -> (same: bool)
    ensures
        same == (a@ == b@),
{
    if a.len() != b.len() {
        return false;
    }
    let mut i: usize = 0;
    while i < a.len()
        invariant
            0 <= i <= a@.len(),
            a@.len() == b@.len(),
            forall|j: int| 0 <= j < i ==> a@[j] == b@[j],
        decreases a@.len() - i,
    {
        if a[i] != b[i] {
            assert(a@[i as int] != b@[i as int]);
            return false;
        }
        i += 1;
    }
    assert(a@ =~= b@);
    true
}

/// Whether two texts are the same.
pub(crate) fn same_text(a: &str, b: &str) -> (same: bool)
    ensures
        same == (a@ == b@),
{
    let same = same_bytes(a.as_bytes(), b.as_bytes());
    proof {
        encode_utf8_decode_utf8(a@);
        encode_utf8_decode_utf8(b@);
    }
    same
}

/// The pieces of `text` between the occurrences of `separator`; there is one more of them than
/// there are separators.
pub open spec fn pieces(text: Seq<char>, separator: char) -> Seq<Seq<char>>
    decreases text.len(),
{
    if text.len() == 0 {
        seq![Seq::<char>::empty()]
    } else {
        let before = pieces(text.drop_last(), separator);
        if text.last() == separator {
            before.push(Seq::<char>::empty())
        } else {
            before.drop_last().push(before.last().push(text.last()))
        }
    }
}

/// The pieces of `text` between the occurrences of `separator` that are not empty.
pub open spec fn filled_pieces(text: Seq<char>, separator: char) -> Seq<Seq<char>> {
    pieces(text, separator).filter(|piece: Seq<char>| piece.len() > 0)
}

/// The texts that strings hold.
pub open spec fn texts(strings: Seq<String>) -> Seq<Seq<char>> {
    strings.map_values(|s: String| s@)
}

/// Splits `text` at every `separator`, and leaves the empty pieces out.
pub fn split_filled(text: &str, separator: char) -> (parts: Vec<String>)
    ensures
        texts(parts@) == filled_pieces(text@, separator),
{
    let ghost filled = |piece: Seq<char>| piece.len() > 0;
    let len = text.unicode_len();
    let mut parts: Vec<String> = Vec::new();
    let mut start: usize = 0;
    let mut i: usize = 0;
    assert(text@.subrange(0, 0) =~= Seq::<char>::empty());
    assert(pieces(text@.subrange(0, 0), separator) =~= seq![Seq::<char>::empty()]);
    assert(pieces(text@.subrange(0, 0), separator).drop_last() =~= Seq::<Seq<char>>::empty());
    reveal_with_fuel(Seq::filter, 1);
    assert(texts(parts@) =~= Seq::<Seq<char>>::empty());
    assert(text@.subrange(0, 0) =~= pieces(text@.subrange(0, 0), separator).last());
    while i < len
        invariant
            len == text@.len(),
            0 <= start <= i <= len,
            filled == (|piece: Seq<char>| piece.len() > 0),
            pieces(text@.subrange(0, i as int), separator).len() > 0,
            pieces(text@.subrange(0, i as int), separator).last() == text@.subrange(
                start as int,
                i as int,
            ),
            texts(parts@) == pieces(text@.subrange(0, i as int), separator).drop_last().filter(
                filled,
            ),
        decreases len - i,
    {
        let ghost read = text@.subrange(0, i as int);
        let ghost next = text@.subrange(0, i + 1);
        assert(next.drop_last() =~= read);
        assert(next.last() == text@[i as int]);
        if text.get_char(i) == separator {
            let ghost done = pieces(read, separator);
            assert(pieces(next, separator).drop_last() =~= done);
            assert(done =~= done.drop_last().push(done.last()));
            proof {
                lemma_filter_push(done.drop_last(), done.last(), filled);
            }
            if start < i {
                let piece = text.substring_char(start, i).to_owned();
                let ghost earlier = parts@;
                parts.push(piece);
                assert(texts(parts@) =~= texts(earlier).push(piece@));
            }
            start = i + 1;
            assert(text@.subrange(start as int, i + 1) =~= Seq::<char>::empty());
        } else {
            assert(pieces(next, separator).drop_last() =~= pieces(read, separator).drop_last());
            assert(text@.subrange(start as int, i + 1) =~= text@.subrange(
                start as int,
                i as int,
            ).push(text@[i as int]));
        }
        i += 1;
    }
    assert(text@.subrange(0, len as int) =~= text@);
    let ghost done = pieces(text@, separator);
    assert(done =~= done.drop_last().push(done.last()));
    proof {
        lemma_filter_push(done.drop_last(), done.last(), filled);
    }
    if start < len {
        let piece = text.substring_char(start, len).to_owned();
        let ghost earlier = parts@;
        parts.push(piece);
        assert(texts(parts@) =~= texts(earlier).push(piece@));
    }
    parts
}

/// Filtering a sequence with one more element at its end.
pub(crate) proof fn lemma_filter_push<T>(s: Seq<T>, x: T, wanted: spec_fn(T) -> bool)
    ensures
        s.push(x).filter(wanted) == if wanted(x) {
            s.filter(wanted).push(x)
        } else {
            s.filter(wanted)
        },
{
    reveal_with_fuel(Seq::filter, 2);
    assert(s.push(x).drop_last() =~= s);
}

/// The decimal digit of value `d`.
pub open spec fn digit_char(d: int) -> char {
    (d + 48) as char
}

/// Whether `c` is a decimal digit.
pub open spec fn is_digit(c: char) -> bool {
    '0' <= c <= '9'
}

/// A number in decimal, without sign and without leading zeros.
pub open spec fn decimal_of_nat(n: nat) -> Seq<char>
    decreases n,
{
    if n < 10 {
        seq![digit_char(n as int)]
    } else {
        decimal_of_nat(n / 10).push(digit_char((n % 10) as int))
    }
}

/// A number in decimal.
pub open spec fn decimal_of(n: int) -> Seq<char> {
    if n < 0 {
        seq!['-'] + decimal_of_nat((-n) as nat)
    } else {
        decimal_of_nat(n as nat)
    }
}

/// The digit of value `d` as a text.
fn digit_text(d: u64) -> (text: &'static str)
    requires
        d < 10,
    ensures
        text@ == seq![digit_char(d as int)],
{
    proof {
        reveal_strlit("0");
        reveal_strlit("1");
        reveal_strlit("2");
        reveal_strlit("3");
        reveal_strlit("4");
        reveal_strlit("5");
        reveal_strlit("6");
        reveal_strlit("7");
        reveal_strlit("8");
        reveal_strlit("9");
    }
    let text = if d == 0 {
        "0"
    } else if d == 1 {
        "1"
    } else if d == 2 {
        "2"
    } else if d == 3 {
        "3"
    } else if d == 4 {
        "4"
    } else if d == 5 {
        "5"
    } else if d == 6 {
        "6"
    } else if d == 7 {
        "7"
    } else if d == 8 {
        "8"
    } else {
        "9"
    };
    assert(text@ =~= seq![digit_char(d as int)]);
    text
}

/// Writes a number in decimal.
pub fn decimal_u64(n: u64) -> (text: String)
    ensures
        text@ == decimal_of_nat(n as nat),
    decreases n,
{
    if n < 10 {
        digit_text(n).to_owned()
    } else {
        let mut text = decimal_u64(n / 10);
        let ghost front = text@;
        text.append(digit_text(n % 10));
        assert(text@ =~= front.push(digit_char((n % 10) as int)));
        text
    }
}

/// Writes a number in decimal.
pub fn decimal_i32(n: i32) -> (text: String)
    ensures
        text@ == decimal_of(n as int),
{
    if n < 0 {
        let magnitude: u64 = (-(n as i64)) as u64;
        proof {
            reveal_strlit("-");
        }
        let mut text = "-".to_owned();
        let ghost sign = text@;
        assert(sign =~= seq!['-']);
        text.append(decimal_u64(magnitude).as_str());
        text
    } else {
        decimal_u64(n as u64)
    }
}

/// The value of a sequence of decimal digits.
pub open spec fn digits_value(digits: Seq<char>) -> nat
    decreases digits.len(),
{
    if digits.len() == 0 {
        0
    } else {
        digits_value(digits.drop_last()) * 10 + (digits.last() as nat - 48) as nat
    }
}

/// At least one character, each of them a decimal digit.
pub open spec fn all_digits(text: Seq<char>) -> bool {
    text.len() > 0 && forall|i: int| 0 <= i < text.len() ==> is_digit(#[trigger] text[i])
}

/// What is left of `text` behind a leading `+`.
pub open spec fn without_plus(text: Seq<char>) -> Seq<char> {
    if text.len() > 0 && text[0] == '+' {
        text.subrange(1, text.len() as int)
    } else {
        text
    }
}

/// The unsigned number that `text` writes in decimal: digits, behind a `+` or without it.
pub open spec fn number_u64(text: Seq<char>) -> Option<u64> {
    let digits = without_plus(text);
    if all_digits(digits) && digits_value(digits) <= u64::MAX {
        Some(digits_value(digits) as u64)
    } else {
        None
    }
}

/// Whether `text` writes a number of type `i32` in decimal: digits, behind a sign or without it.
pub open spec fn writes_i32(text: Seq<char>) -> bool {
    if text.len() > 0 && text[0] == '-' {
        let digits = text.subrange(1, text.len() as int);
        all_digits(digits) && digits_value(digits) <= i32::MAX + 1
    } else {
        let digits = without_plus(text);
        all_digits(digits) && digits_value(digits) <= i32::MAX
    }
}

/// More digits give no smaller value.
proof fn lemma_digits_value_prefix(digits: Seq<char>, n: int)
    requires
        0 <= n <= digits.len(),
    ensures
        digits_value(digits.subrange(0, n)) <= digits_value(digits),
    decreases digits.len() - n,
{
    if n < digits.len() {
        lemma_digits_value_prefix(digits, n + 1);
        assert(digits.subrange(0, n + 1).drop_last() =~= digits.subrange(0, n));
    } else {
        assert(digits.subrange(0, n) =~= digits);
    }
}

/// The value of the decimal digits of `text` from character `from` on, if there is a digit,
/// there is nothing else, and the value is at most `limit`.
fn read_digits(text: &str, from: usize, limit: u64) -> (value: Option<u64>)
    requires
        from <= text@.len(),
    ensures
        ({
            let digits = text@.subrange(from as int, text@.len() as int);
            if all_digits(digits) && digits_value(digits) <= limit {
                value == Some(digits_value(digits) as u64)
            } else {
                value is None
            }
        }),
{
    let len = text.unicode_len();
    let ghost digits = text@.subrange(from as int, len as int);
    if from == len {
        return None;
    }
    let mut value: u64 = 0;
    let mut i: usize = from;
    assert(digits.subrange(0, 0) =~= Seq::<char>::empty());
    while i < len
        invariant
            len == text@.len(),
            from <= i <= len,
            digits == text@.subrange(from as int, len as int),
            forall|j: int| 0 <= j < i - from ==> is_digit(#[trigger] digits[j]),
            value == digits_value(digits.subrange(0, i - from)),
            value <= limit,
        decreases len - i,
    {
        let c = text.get_char(i);
        assert(c == digits[i - from]);
        if !('0' <= c && c <= '9') {
            assert(!is_digit(digits[i - from]));
            return None;
        }
        let d: u64 = (c as u64) - 48;
        assert(digits.subrange(0, i + 1 - from).drop_last() =~= digits.subrange(0, i - from));
        assert(digits_value(digits.subrange(0, i + 1 - from)) == value * 10 + d);
        proof {
            lemma_digits_value_prefix(digits, i + 1 - from);
        }
        let wide: u128 = (value as u128) * 10 + (d as u128);
        if wide > limit as u128 {
            return None;
        }
        value = wide as u64;
        i += 1;
    }
    assert(digits.subrange(0, len - from) =~= digits);
    Some(value)
}

/// Reads an unsigned number in decimal.
pub fn parse_u64(text: &str) -> (value: Option<u64>)
    ensures
        value == number_u64(text@),
{
    if text.unicode_len() > 0 && text.get_char(0) == '+' {
        read_digits(text, 1, u64::MAX)
    } else {
        assert(text@.subrange(0, text@.len() as int) =~= text@);
        read_digits(text, 0, u64::MAX)
    }
}

/// Whether `text` is a number of type `i32` in decimal.
pub fn is_i32(text: &str) -> (yes: bool)
    ensures
        yes == writes_i32(text@),
{
    if text.unicode_len() > 0 && text.get_char(0) == '-' {
        read_digits(text, 1, 2_147_483_648).is_some()
    } else if text.unicode_len() > 0 && text.get_char(0) == '+' {
        read_digits(text, 1, 2_147_483_647).is_some()
    } else {
        assert(text@.subrange(0, text@.len() as int) =~= text@);
        read_digits(text, 0, 2_147_483_647).is_some()
    }
}

/// Whether `c` is white space by its Unicode property.
pub open spec fn is_space(c: char) -> bool {
    ||| '\u{9}' <= c <= '\u{d}'
    ||| c == ' '
    ||| c == '\u{85}'
    ||| c == '\u{a0}'
    ||| c == '\u{1680}'
    ||| '\u{2000}' <= c <= '\u{200a}'
    ||| c == '\u{2028}'
    ||| c == '\u{2029}'
    ||| c == '\u{202f}'
    ||| c == '\u{205f}'
    ||| c == '\u{3000}'
}

/// Whether `c` is white space by its Unicode property.
fn space(c: char) -> (yes: bool)
    ensures
        yes == is_space(c),
{
    ('\u{9}' <= c && c <= '\u{d}') || c == ' ' || c == '\u{85}' || c == '\u{a0}' || c
        == '\u{1680}' || ('\u{2000}' <= c && c <= '\u{200a}') || c == '\u{2028}' || c
        == '\u{2029}' || c == '\u{202f}' || c == '\u{205f}' || c == '\u{3000}'
}

/// `text` without the white space at its start.
pub open spec fn trimmed_start(text: Seq<char>) -> Seq<char>
    decreases text.len(),
{
    if text.len() > 0 && is_space(text[0]) {
        trimmed_start(text.drop_first())
    } else {
        text
    }
}

/// `text` without the white space at its end.
pub open spec fn trimmed_end(text: Seq<char>) -> Seq<char>
    decreases text.len(),
{
    if text.len() > 0 && is_space(text.last()) {
        trimmed_end(text.drop_last())
    } else {
        text
    }
}

/// `text` without the white space at its start and its end.
pub open spec fn trimmed(text: Seq<char>) -> Seq<char> {
    trimmed_end(trimmed_start(text))
}

/// Takes the white space at the start and the end off.
pub fn trim(text: &str) -> (inner: &str)
    ensures
        inner@ == trimmed(text@),
{
    let len = text.unicode_len();
    let mut start: usize = 0;
    assert(text@.subrange(0, len as int) =~= text@);
    while start < len && space(text.get_char(start))
        invariant
            len == text@.len(),
            start <= len,
            trimmed_start(text@) == trimmed_start(text@.subrange(start as int, len as int)),
        decreases len - start,
    {
        assert(text@.subrange(start as int, len as int).drop_first() =~= text@.subrange(
            start + 1,
            len as int,
        ));
        start += 1;
    }
    let ghost kept = text@.subrange(start as int, len as int);
    assert(trimmed_start(text@) == kept);
    let mut end: usize = len;
    while start < end && space(text.get_char(end - 1))
        invariant
            len == text@.len(),
            start <= end <= len,
            trimmed_end(kept) == trimmed_end(text@.subrange(start as int, end as int)),
        decreases end,
    {
        assert(text@.subrange(start as int, end as int).drop_last() =~= text@.subrange(
            start as int,
            end - 1,
        ));
        end -= 1;
    }
    text.substring_char(start, end)
}

/// Pieces with a separator between each two of them.
pub open spec fn put_together(parts: Seq<Seq<char>>, separator: char) -> Seq<char>
    decreases parts.len(),
{
    if parts.len() == 0 {
        Seq::empty()
    } else if parts.len() == 1 {
        parts[0]
    } else {
        put_together(parts.drop_last(), separator).push(separator) + parts.last()
    }
}

/// The pieces of a text make up the text again, and none of them holds the separator.
pub proof fn pieces_make_up_text(text: Seq<char>, separator: char)
    ensures
        pieces(text, separator).len() > 0,
        put_together(pieces(text, separator), separator) == text,
        forall|i: int|
            0 <= i < pieces(text, separator).len() ==> !(#[trigger] pieces(
                text,
                separator,
            )[i]).contains(separator),
    decreases text.len(),
{
    let all = pieces(text, separator);
    reveal_with_fuel(put_together, 2);
    if text.len() > 0 {
        let front = text.drop_last();
        pieces_make_up_text(front, separator);
        let before = pieces(front, separator);
        if text.last() == separator {
            assert(all.drop_last() =~= before);
            assert(put_together(all, separator) =~= text);
            assert forall|i: int| 0 <= i < all.len() implies !(#[trigger] all[i]).contains(
                separator,
            ) by {
                if i < before.len() {
                    assert(all[i] == before[i]);
                }
            }
        } else {
            assert(all.drop_last() =~= before.drop_last());
            assert(text =~= front.push(text.last()));
            assert(all.last() == before.last().push(text.last()));
            if before.len() == 1 {
                assert(put_together(before, separator) == before.last());
                assert(put_together(all, separator) == all.last());
            } else {
                let joined = put_together(before.drop_last(), separator).push(separator);
                assert(put_together(before, separator) == joined + before.last());
                assert(put_together(all, separator) == joined + all.last());
            }
            assert(put_together(all, separator) =~= text);
            assert forall|i: int| 0 <= i < all.len() implies !(#[trigger] all[i]).contains(
                separator,
            ) by {
                if i < before.len() - 1 {
                    assert(all[i] == before[i]);
                } else {
                    let piece = before.last();
                    assert(!piece.contains(separator));
                    if all[i].contains(separator) {
                        let k = choose|k: int| 0 <= k < all[i].len() && all[i][k] == separator;
                        assert(piece[k] == separator);
                    }
                }
            }
        }
    } else {
        assert(put_together(all, separator) =~= text);
    }
}

/// The filled pieces are those pieces that are not empty, and no others.
pub proof fn filled_pieces_are_filled(text: Seq<char>, separator: char, piece: Seq<char>)
    ensures
        filled_pieces(text, separator).contains(piece) <==> piece.len() > 0 && pieces(
            text,
            separator,
        ).contains(piece),
{
    let filled = |piece: Seq<char>| piece.len() > 0;
    let all = pieces(text, separator);
    let kept = all.filter(filled);
    if kept.contains(piece) {
        let i = choose|i: int| 0 <= i < kept.len() && kept[i] == piece;
        all.lemma_filter_pred(filled, i);
        all.lemma_filter_contains_rev(filled, piece);
    }
    if all.contains(piece) && piece.len() > 0 {
        let i = choose|i: int| 0 <= i < all.len() && all[i] == piece;
        all.lemma_filter_contains(filled, i);
    }
}

/// A number in decimal is made of the ten digits.
proof fn lemma_decimal_digits(n: nat)
    ensures
        all_digits(decimal_of_nat(n)),
        digits_value(decimal_of_nat(n)) == n,
        decimal_of_nat(n)[0] != '+',
        decimal_of_nat(n)[0] != '-',
    decreases n,
{
    let text = decimal_of_nat(n);
    reveal_with_fuel(digits_value, 2);
    if n < 10 {
        assert(text.drop_last() =~= Seq::<char>::empty());
        assert(digit_char(n as int) as int == n + 48);
    } else {
        lemma_decimal_digits(n / 10);
        let front = decimal_of_nat(n / 10);
        assert(text.drop_last() =~= front);
        assert(digit_char((n % 10) as int) as int == n % 10 + 48);
        assert forall|i: int| 0 <= i < text.len() implies is_digit(#[trigger] text[i]) by {
            if i < front.len() {
                assert(text[i] == front[i]);
            }
        }
        assert(text[0] == front[0]);
    }
}

/// A number that is written in decimal is read again as the same number.
pub proof fn written_number_is_read(n: u64)
    ensures
        number_u64(decimal_of_nat(n as nat)) == Some(n),
{
    lemma_decimal_digits(n as nat);
}

/// Every number of type `i32` that is written in decimal is known as one.
pub proof fn written_number_is_known(n: i32)
    ensures
        writes_i32(decimal_of(n as int)),
{
    if n < 0 {
        let digits = decimal_of_nat((-n) as nat);
        lemma_decimal_digits((-n) as nat);
        let text = decimal_of(n as int);
        assert(text[0] == '-');
        assert(text.subrange(1, text.len() as int) =~= digits);
    } else {
        lemma_decimal_digits(n as nat);
    }
}

/// A text that begins and ends with characters that are no white space stays as it is.
pub proof fn tight_text_stays(text: Seq<char>)
    requires
        text.len() > 0 ==> !is_space(text[0]) && !is_space(text.last()),
    ensures
        trimmed(text) == text,
{
}

/// White space in front makes no difference.
pub proof fn space_in_front_goes(text: Seq<char>, c: char)
    requires
        c == ' ' || c == '\n' || c == '\t' || c == '\r',
    ensures
        trimmed(seq![c] + text) == trimmed(text),
{
    assert((seq![c] + text).drop_first() =~= text);
}

/// White space behind a text that does not begin with any makes no difference.
pub proof fn space_behind_goes(text: Seq<char>, c: char)
    requires
        c == ' ' || c == '\n' || c == '\t' || c == '\r',
        text.len() > 0,
        !is_space(text[0]),
    ensures
        trimmed(text.push(c)) == trimmed(text),
{
    assert(text.push(c).drop_last() =~= text);
}

} // verus!
