//! Character-level text operations: searching, splitting, trimming and
//! decimal numbers, all stated over `Seq<char>`, the view of a string.

use vstd::prelude::*;
use vstd::string::StringExecFns;

verus! {

/// The characters of `s`, in order.
pub fn to_chars(s: &str) -> (v: Vec<char>)
    ensures
        v@ == s@,
{
    let mut v: Vec<char> = Vec::new();
    for c in it: s.chars()
        invariant
            it.seq() == s@,
            v@ == it.seq().take(it.index()),
    {
        v.push(c);
    }
    assert(v@ =~= s@);
    v
}

/// `pat` occurs in `s` at position `i`.
pub open spec fn is_match_at(s: Seq<char>, pat: Seq<char>, i: int) -> bool {
    0 <= i && i + pat.len() <= s.len() && s.subrange(i, i + pat.len()) == pat
}

/// `pat` occurs somewhere in `s`.
pub open spec fn contains(s: Seq<char>, pat: Seq<char>) -> bool {
    exists|i: int| is_match_at(s, pat, i)
}

/// The position of the leftmost occurrence of `pat` in `s` at or after `from`.
pub open spec fn first_match_from(s: Seq<char>, pat: Seq<char>, from: int) -> Option<int>
    decreases s.len() + 1 - from,
{
    if from < 0 || from + pat.len() > s.len() {
        None
    } else if is_match_at(s, pat, from) {
        Some(from)
    } else {
        first_match_from(s, pat, from + 1)
    }
}

/// The position of the leftmost occurrence of `pat` in `s`.
pub open spec fn first_match(s: Seq<char>, pat: Seq<char>) -> Option<int> {
    first_match_from(s, pat, 0)
}

/// `first_match_from` is the least matching position at or after `from`,
/// and is `None` exactly when there is no such position.
pub proof fn lemma_first_match_from(s: Seq<char>, pat: Seq<char>, from: int)
    requires
        0 <= from,
    ensures
        match first_match_from(s, pat, from) {
            Some(i) => from <= i && is_match_at(s, pat, i) && forall|j: int|
                from <= j < i ==> !is_match_at(s, pat, j),
            None => forall|j: int| from <= j ==> !is_match_at(s, pat, j),
        },
    decreases s.len() + 1 - from,
{
    if from + pat.len() > s.len() {
    } else if is_match_at(s, pat, from) {
    } else {
        lemma_first_match_from(s, pat, from + 1);
    }
}

/// `first_match` finds an occurrence exactly when `contains` holds.
pub proof fn lemma_first_match_contains(s: Seq<char>, pat: Seq<char>)
    ensures
        first_match(s, pat) is Some <==> contains(s, pat),
{
    lemma_first_match_from(s, pat, 0);
    if first_match(s, pat) is Some {
        assert(is_match_at(s, pat, first_match(s, pat)->0));
    }
}

/// Whether `pat` occurs in `hay` at position `i`.
pub fn matches_at(hay: &Vec<char>, pat: &Vec<char>, i: usize) -> (r: bool)
    ensures
        r == is_match_at(hay@, pat@, i as int),
{
    if pat.len() > hay.len() || i > hay.len() - pat.len() {
        return false;
    }
    let mut k: usize = 0;
    while k < pat.len()
        invariant
            k <= pat.len(),
            i + pat.len() <= hay.len(),
            hay@.subrange(i as int, i + k) == pat@.take(k as int),
        decreases pat.len() - k,
    {
        if hay[i + k] != pat[k] {
            assert(hay@.subrange(i as int, i + pat.len())[k as int] != pat@[k as int]);
            return false;
        }
        assert(hay@.subrange(i as int, i + k + 1) =~= hay@.subrange(i as int, i + k).push(
            hay@[i + k],
        ));
        assert(pat@.take(k + 1) =~= pat@.take(k as int).push(pat@[k as int]));
        k = k + 1;
    }
    assert(pat@.take(pat.len() as int) =~= pat@);
    true
}

/// The leftmost position at or after `from` where `pat` occurs in `hay`.
pub fn find_from(hay: &Vec<char>, pat: &Vec<char>, from: usize) -> (r: Option<usize>)
    ensures
        match r {
            Some(i) => first_match_from(hay@, pat@, from as int) == Some(i as int),
            None => first_match_from(hay@, pat@, from as int) is None,
        },
{
    if pat.len() > hay.len() || from > hay.len() - pat.len() {
        return None;
    }
    let last: usize = hay.len() - pat.len();
    let mut i: usize = from;
    loop
        invariant
            from <= i <= last,
            last == hay.len() - pat.len(),
            first_match_from(hay@, pat@, from as int) == first_match_from(hay@, pat@, i as int),
        decreases last - i,
    {
        if matches_at(hay, pat, i) {
            return Some(i);
        }
        if i == last {
            assert(first_match_from(hay@, pat@, i + 1) is None);
            return None;
        }
        i = i + 1;
    }
}

/// The leftmost position where `pat` occurs in `hay`.
pub fn find(hay: &Vec<char>, pat: &Vec<char>) -> (r: Option<usize>)
    ensures
        match r {
            Some(i) => first_match(hay@, pat@) == Some(i as int),
            None => first_match(hay@, pat@) is None,
        },
{
    find_from(hay, pat, 0)
}

/// The part of `s` before the leftmost occurrence of `pat`, or all of `s`
/// where `pat` does not occur.
pub open spec fn before_first(s: Seq<char>, pat: Seq<char>) -> Seq<char> {
    match first_match(s, pat) {
        Some(i) => s.take(i),
        None => s,
    }
}

/// The part of `s` after the leftmost occurrence of `pat`.
pub open spec fn after_first(s: Seq<char>, pat: Seq<char>) -> Option<Seq<char>> {
    match first_match(s, pat) {
        Some(i) => Some(s.skip(i + pat.len())),
        None => None,
    }
}

/// The second of the pieces into which the occurrences of `pat` cut `s`:
/// what stands between the first occurrence and the next one, or the end.
pub open spec fn second_piece(s: Seq<char>, pat: Seq<char>) -> Option<Seq<char>> {
    match after_first(s, pat) {
        Some(rest) => Some(before_first(rest, pat)),
        None => None,
    }
}

/// The text that follows the first `opener` in `s`, up to the next `opener`
/// and, within that, up to the first `stop`.
pub open spec fn field_after(s: Seq<char>, opener: Seq<char>, stop: char) -> Option<Seq<char>> {
    match second_piece(s, opener) {
        Some(piece) => Some(before_first(piece, seq![stop])),
        None => None,
    }
}

/// A copy of the characters of `v` from `from` up to `to`.
fn copy_range(v: &Vec<char>, from: usize, to: usize) -> (r: Vec<char>)
    requires
        from <= to <= v.len(),
    ensures
        r@ == v@.subrange(from as int, to as int),
{
    let mut r: Vec<char> = Vec::new();
    let mut i: usize = from;
    while i < to
        invariant
            from <= i <= to <= v.len(),
            r@ == v@.subrange(from as int, i as int),
        decreases to - i,
    {
        r.push(v[i]);
        assert(v@.subrange(from as int, i + 1) =~= v@.subrange(from as int, i as int).push(
            v@[i as int],
        ));
        i = i + 1;
    }
    r
}

/// Cuts `s` before the leftmost occurrence of `pat`.
pub fn cut_before(s: &Vec<char>, pat: &Vec<char>) -> (r: Vec<char>)
    ensures
        r@ == before_first(s@, pat@),
{
    match find(s, pat) {
        Some(i) => {
            proof {
                lemma_first_match_from(s@, pat@, 0);
            }
            copy_range(s, 0, i)
        },
        None => {
            let r = copy_range(s, 0, s.len());
            assert(s@.subrange(0, s.len() as int) =~= s@);
            r
        },
    }
}

/// What follows the leftmost occurrence of `pat` in `s`.
pub fn cut_after(s: &Vec<char>, pat: &Vec<char>) -> (r: Option<Vec<char>>)
    ensures
        match r {
            Some(rest) => after_first(s@, pat@) == Some(rest@),
            None => after_first(s@, pat@) is None,
        },
{
    match find(s, pat) {
        Some(i) => {
            let end: usize = s.len();
            proof {
                lemma_first_match_from(s@, pat@, 0);
            }
            Some(copy_range(s, i + pat.len(), end))
        },
        None => None,
    }
}

/// The text after the first `opener` in `s`, cut at the next `opener` and
/// then at the first `stop`.
pub fn extract_field(s: &Vec<char>, opener: &Vec<char>, stop: char) -> (r: Option<Vec<char>>)
    ensures
        match r {
            Some(field) => field_after(s@, opener@, stop) == Some(field@),
            None => field_after(s@, opener@, stop) is None,
        },
{
    match cut_after(s, opener) {
        Some(rest) => {
            let piece = cut_before(&rest, opener);
            let mut stopper: Vec<char> = Vec::new();
            stopper.push(stop);
            assert(stopper@ =~= seq![stop]);
            Some(cut_before(&piece, &stopper))
        },
        None => None,
    }
}

/// `String::push` appends the one character `c` to the string.
pub assume_specification[ String::push ](s: &mut String, c: char)
    ensures
        final(s)@ == old(s)@.push(c),
;

/// The string made of the characters of `chars`, in order.
pub fn string_of(chars: &Vec<char>) -> (r: String)
    ensures
        r@ == chars@,
{
    let mut r = String::new();
    let mut i: usize = 0;
    while i < chars.len()
        invariant
            i <= chars.len(),
            r@ == chars@.take(i as int),
        decreases chars.len() - i,
    {
        r.push(chars[i]);
        assert(chars@.take(i + 1) =~= chars@.take(i as int).push(chars@[i as int]));
        i = i + 1;
    }
    assert(chars@.take(chars.len() as int) =~= chars@);
    r
}

/// `c` is one of the ten decimal digits.
pub open spec fn is_digit(c: char) -> bool {
    '0' <= c && c <= '9'
}

/// The number that the decimal digit `c` stands for.
pub open spec fn digit_value(c: char) -> nat {
    (c as int - '0' as int) as nat
}

/// The character that writes the digit `d`.
pub open spec fn digit_char(d: nat) -> char {
    (d + 48) as u8 as char
}

/// The number that a run of decimal digits writes, most significant first.
pub open spec fn digits_value(s: Seq<char>) -> nat
    decreases s.len(),
{
    if s.len() == 0 {
        0
    } else {
        digits_value(s.drop_last()) * 10 + digit_value(s.last())
    }
}

/// Every character of `s` is a decimal digit.
pub open spec fn all_digits(s: Seq<char>) -> bool {
    forall|i: int| 0 <= i < s.len() ==> is_digit(#[trigger] s[i])
}

/// `s` without one leading plus sign.
pub open spec fn without_plus(s: Seq<char>) -> Seq<char> {
    if s.len() > 0 && s[0] == '+' {
        s.skip(1)
    } else {
        s
    }
}

/// The unsigned number that `s` writes in decimal, if it is at most `max`:
/// an optional plus sign, then at least one digit and nothing but digits.
pub open spec fn parse_unsigned(s: Seq<char>, max: nat) -> Option<nat> {
    let d = without_plus(s);
    if d.len() > 0 && all_digits(d) && digits_value(d) <= max {
        Some(digits_value(d))
    } else {
        None
    }
}

/// The decimal writing of `n`, without sign or leading zeros.
pub open spec fn decimal_text(n: nat) -> Seq<char>
    decreases n,
{
    if n < 10 {
        seq![digit_char(n)]
    } else {
        decimal_text(n / 10).push(digit_char(n % 10))
    }
}

/// The decimal writing of a number is read back as that number: it is a
/// run of at least one digit, without sign, whose value is the number.
pub proof fn lemma_decimal_text_is_read_back(n: nat, max: nat)
    requires
        n <= max,
    ensures
        decimal_text(n).len() > 0,
        all_digits(decimal_text(n)),
        digits_value(decimal_text(n)) == n,
        parse_unsigned(decimal_text(n), max) == Some(n),
    decreases n,
{
    let text = decimal_text(n);
    if n < 10 {
        assert(text.drop_last() =~= Seq::<char>::empty());
        assert(digits_value(text.drop_last()) == 0);
        assert(is_digit(digit_char(n)));
        assert(digit_value(digit_char(n)) == n);
    } else {
        lemma_decimal_text_is_read_back(n / 10, max);
        assert(text.drop_last() =~= decimal_text(n / 10));
        assert(is_digit(digit_char(n % 10)));
        assert(digit_value(digit_char(n % 10)) == n % 10);
        assert forall|i: int| 0 <= i < text.len() implies is_digit(#[trigger] text[i]) by {
            if i < text.len() - 1 {
                assert(text[i] == decimal_text(n / 10)[i]);
            }
        }
    }
    assert(is_digit(text[0]));
    assert(without_plus(text) == text);
}

/// A prefix of a run of digits writes no larger a number than the whole run.
pub proof fn lemma_digits_value_prefix(s: Seq<char>, k: int)
    requires
        0 <= k <= s.len(),
    ensures
        digits_value(s.take(k)) <= digits_value(s),
    decreases s.len() - k,
{
    if k == s.len() {
        assert(s.take(k) =~= s);
    } else {
        lemma_digits_value_prefix(s.drop_last(), k);
        assert(s.drop_last().take(k) =~= s.take(k));
    }
}

/// Reads `s` as an unsigned decimal number no larger than `max`.
pub fn parse_decimal(s: &Vec<char>, max: u64) -> (r: Option<u64>)
    ensures
        match r {
            Some(v) => parse_unsigned(s@, max as nat) == Some(v as nat),
            None => parse_unsigned(s@, max as nat) is None,
        },
{
    let start: usize = if s.len() > 0 && s[0] == '+' {
        1
    } else {
        0
    };
    let ghost d = without_plus(s@);
    assert(d =~= s@.skip(start as int));
    if start == s.len() {
        return None;
    }
    let mut acc: u64 = 0;
    let mut i: usize = start;
    while i < s.len()
        invariant
            start <= i <= s.len(),
            d == s@.skip(start as int),
            d == without_plus(s@),
            acc <= max,
            acc == digits_value(d.take(i - start)),
            all_digits(d.take(i - start)),
        decreases s.len() - i,
    {
        let c: char = s[i];
        assert(c == d[i - start]);
        if !(c >= '0' && c <= '9') {
            return None;
        }
        let dv: u64 = (c as u32 - '0' as u32) as u64;
        let next: u128 = acc as u128 * 10 + dv as u128;
        proof {
            assert(d.take(i - start + 1).drop_last() =~= d.take(i - start));
            assert(d.take(i - start + 1).last() == c);
            assert(digits_value(d.take(i - start + 1)) == next);
            assert forall|j: int| 0 <= j < i - start + 1 implies is_digit(
                #[trigger] d.take(i - start + 1)[j],
            ) by {
                if j < i - start {
                    assert(d.take(i - start + 1)[j] == d.take(i - start)[j]);
                }
            }
        }
        if next > max as u128 {
            proof {
                lemma_digits_value_prefix(d, i - start + 1);
            }
            return None;
        }
        acc = next as u64;
        i = i + 1;
    }
    assert(d.take(i - start) =~= d);
    Some(acc)
}

/// The character that writes the digit `d`.
fn digit_to_char(d: u8) -> (c: char)
    requires
        d < 10,
    ensures
        c == digit_char(d as nat),
{
    (d + 48) as char
}

/// Appends the decimal writing of `n` to `out`.
pub fn push_decimal(out: &mut Vec<char>, n: u64)
    ensures
        final(out)@ == old(out)@ + decimal_text(n as nat),
    decreases n,
{
    if n >= 10 {
        push_decimal(out, n / 10);
    }
    out.push(digit_to_char((n % 10) as u8));
    proof {
        if n >= 10 {
            assert(old(out)@ + decimal_text(n as nat) =~= (old(out)@ + decimal_text(
                (n / 10) as nat,
            )).push(digit_char((n % 10) as nat)));
        } else {
            assert(old(out)@ + decimal_text(n as nat) =~= old(out)@.push(digit_char(n as nat)));
        }
    }
}

/// `c` is white space: a character with the Unicode property White_Space.
pub open spec fn is_whitespace(c: char) -> bool {
    let code = c as int;
    ||| 0x09 <= code <= 0x0d
    ||| code == 0x20
    ||| code == 0x85
    ||| code == 0xa0
    ||| code == 0x1680
    ||| 0x2000 <= code <= 0x200a
    ||| code == 0x2028
    ||| code == 0x2029
    ||| code == 0x202f
    ||| code == 0x205f
    ||| code == 0x3000
}

/// `s` without the white space it begins with.
pub open spec fn trim_start(s: Seq<char>) -> Seq<char>
    decreases s.len(),
{
    if s.len() > 0 && is_whitespace(s[0]) {
        trim_start(s.skip(1))
    } else {
        s
    }
}

/// `s` without the white space it ends with.
pub open spec fn trim_end(s: Seq<char>) -> Seq<char>
    decreases s.len(),
{
    if s.len() > 0 && is_whitespace(s.last()) {
        trim_end(s.drop_last())
    } else {
        s
    }
}

/// `s` without the white space at either end.
pub open spec fn trim(s: Seq<char>) -> Seq<char> {
    trim_end(trim_start(s))
}

/// The pieces into which the separators `sep` cut `s`, in order: one more
/// piece than there are separators, none of them holding a separator.
pub open spec fn split_on(s: Seq<char>, sep: char) -> Seq<Seq<char>>
    decreases s.len(),
{
    if s.len() == 0 {
        seq![Seq::empty()]
    } else {
        let before = split_on(s.drop_last(), sep);
        if s.last() == sep {
            before.push(Seq::empty())
        } else {
            before.drop_last().push(before.last().push(s.last()))
        }
    }
}

/// `sep` does not occur in `s`.
pub open spec fn free_of(s: Seq<char>, sep: char) -> bool {
    forall|i: int| 0 <= i < s.len() ==> #[trigger] s[i] != sep
}

/// A text without separator is its own single piece.
pub proof fn lemma_split_single(s: Seq<char>, sep: char)
    requires
        free_of(s, sep),
    ensures
        split_on(s, sep) == seq![s],
    decreases s.len(),
{
    if s.len() == 0 {
        assert(s =~= Seq::<char>::empty());
    } else {
        assert(s.last() != sep);
        lemma_split_single(s.drop_last(), sep);
        assert(s.drop_last().push(s.last()) =~= s);
        assert(seq![s.drop_last()].drop_last().push(s.drop_last().push(s.last())) =~= seq![s]);
    }
}

/// A separator and a text without separator, put after `s`, add that text
/// as one more piece to the pieces of `s`.
pub proof fn lemma_split_append(s: Seq<char>, sep: char, t: Seq<char>)
    requires
        free_of(t, sep),
    ensures
        split_on(s + seq![sep] + t, sep) == split_on(s, sep).push(t),
    decreases t.len(),
{
    let whole = s + seq![sep] + t;
    if t.len() == 0 {
        assert(whole.drop_last() =~= s);
        assert(whole.last() == sep);
        assert(t =~= Seq::<char>::empty());
    } else {
        let shorter = t.drop_last();
        assert(t.last() != sep);
        lemma_split_append(s, sep, shorter);
        assert(whole.drop_last() =~= s + seq![sep] + shorter);
        assert(whole.last() == t.last());
        assert(shorter.push(t.last()) =~= t);
        assert(split_on(s, sep).push(shorter).drop_last() =~= split_on(s, sep));
    }
}

/// A text that neither begins nor ends with white space is its own trim.
pub proof fn lemma_trim_keeps(s: Seq<char>)
    requires
        s.len() > 0 ==> !is_whitespace(s[0]) && !is_whitespace(s.last()),
    ensures
        trim(s) == s,
{
}

/// The views of the pieces of `pieces`.
pub open spec fn pieces_view(pieces: Seq<Vec<char>>) -> Seq<Seq<char>> {
    pieces.map_values(|p: Vec<char>| p@)
}

/// Whether `c` is white space.
pub fn char_is_whitespace(c: char) -> (r: bool)
    ensures
        r == is_whitespace(c),
{
    let code: u32 = c as u32;
    (0x09 <= code && code <= 0x0d) || code == 0x20 || code == 0x85 || code == 0xa0 || code
        == 0x1680 || (0x2000 <= code && code <= 0x200a) || code == 0x2028 || code == 0x2029
        || code == 0x202f || code == 0x205f || code == 0x3000
}

/// `s` without the white space at either end.
pub fn trimmed(s: &Vec<char>) -> (r: Vec<char>)
    ensures
        r@ == trim(s@),
{
    let mut a: usize = 0;
    assert(s@.skip(0) =~= s@);
    while a < s.len() && char_is_whitespace(s[a])
        invariant
            a <= s.len(),
            trim_start(s@) == trim_start(s@.skip(a as int)),
        decreases s.len() - a,
    {
        assert(s@.skip(a as int).skip(1) =~= s@.skip(a + 1));
        a = a + 1;
    }
    assert(trim_start(s@) == s@.skip(a as int));
    let mut b: usize = s.len();
    assert(s@.subrange(a as int, b as int) =~= s@.skip(a as int));
    while b > a && char_is_whitespace(s[b - 1])
        invariant
            a <= b <= s.len(),
            trim(s@) == trim_end(s@.subrange(a as int, b as int)),
        decreases b,
    {
        assert(s@.subrange(a as int, b as int).drop_last() =~= s@.subrange(a as int, b - 1));
        b = b - 1;
    }
    copy_range(s, a, b)
}

/// Cuts `s` at each separator `sep`.
pub fn split(s: &Vec<char>, sep: char) -> (r: Vec<Vec<char>>)
    ensures
        pieces_view(r@) == split_on(s@, sep),
{
    let mut done: Vec<Vec<char>> = Vec::new();
    let mut current: Vec<char> = Vec::new();
    let mut i: usize = 0;
    assert(s@.take(0) =~= Seq::<char>::empty());
    assert(pieces_view(done@).push(current@) =~= seq![Seq::<char>::empty()]);
    while i < s.len()
        invariant
            i <= s.len(),
            pieces_view(done@).push(current@) == split_on(s@.take(i as int), sep),
        decreases s.len() - i,
    {
        let ghost before = split_on(s@.take(i as int), sep);
        let ghost was = pieces_view(done@);
        let ghost cur = current@;
        let c: char = s[i];
        proof {
            assert(s@.take(i + 1).drop_last() =~= s@.take(i as int));
            assert(s@.take(i + 1).last() == c);
            assert(before.drop_last() =~= was);
            assert(before.last() == cur);
        }
        if c == sep {
            done.push(current);
            current = Vec::new();
            assert(pieces_view(done@) =~= was.push(cur));
        } else {
            current.push(c);
        }
        i = i + 1;
    }
    assert(s@.take(s.len() as int) =~= s@);
    let ghost was = pieces_view(done@);
    done.push(current);
    assert(pieces_view(done@) =~= was.push(current@));
    done
}

/// The decimal writing of `n`.
pub fn decimal_string(n: u64) -> (r: String)
    ensures
        r@ == decimal_text(n as nat),
{
    let mut digits: Vec<char> = Vec::new();
    push_decimal(&mut digits, n);
    assert(Seq::<char>::empty() + decimal_text(n as nat) =~= decimal_text(n as nat));
    string_of(&digits)
}

/// Whether `a` and `b` hold the same text.
pub fn same_text(a: &str, b: &str) -> (r: bool)
    ensures
        r == (a@ == b@),
{
    let x = to_chars(a);
    let y = to_chars(b);
    if x.len() != y.len() {
        return false;
    }
    let mut i: usize = 0;
    while i < x.len()
        invariant
            i <= x.len(),
            x.len() == y.len(),
            x@ == a@,
            y@ == b@,
            x@.take(i as int) == y@.take(i as int),
        decreases x.len() - i,
    {
        if x[i] != y[i] {
            return false;
        }
        assert(x@.take(i + 1) =~= x@.take(i as int).push(x@[i as int]));
        assert(y@.take(i + 1) =~= y@.take(i as int).push(y@[i as int]));
        i = i + 1;
    }
    assert(x@.take(x.len() as int) =~= x@);
    assert(y@.take(y.len() as int) =~= y@);
    true
}

/// The text of `a` followed by that of `b`.
pub fn joined(a: &str, b: &str) -> (r: String)
    ensures
        r@ == a@ + b@,
{
    String::from_str(a).concat(b)
}

} // verus!
