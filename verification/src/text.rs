//! Text handling shared by the other modules: decimal numbers and the
//! trimming of white space.
use vstd::prelude::*;
use vstd::string::*;

verus! {

/// Whether `c` is one of the ten decimal digits.
pub open spec fn is_digit(c: char) -> bool {
    '0' <= c <= '9'
}

/// The value of a decimal digit.
pub open spec fn digit_value(c: char) -> nat {
    (c as nat - '0' as nat) as nat
}

/// The character of a decimal digit.
pub open spec fn digit_char(d: nat) -> char {
    if d == 0 {
        '0'
    } else if d == 1 {
        '1'
    } else if d == 2 {
        '2'
    } else if d == 3 {
        '3'
    } else if d == 4 {
        '4'
    } else if d == 5 {
        '5'
    } else if d == 6 {
        '6'
    } else if d == 7 {
        '7'
    } else if d == 8 {
        '8'
    } else {
        '9'
    }
}

/// Every character of `s` is a decimal digit.
pub open spec fn all_digits(s: Seq<char>) -> bool {
    forall|i: int| 0 <= i < s.len() ==> is_digit(#[trigger] s[i])
}

/// The number that a sequence of decimal digits denotes, most significant
/// digit first.
pub open spec fn digits_value(s: Seq<char>) -> nat
    decreases s.len(),
{
    if s.len() == 0 {
        0
    } else {
        digits_value(s.drop_last()) * 10 + digit_value(s.last())
    }
}

/// The decimal notation of `n`, without sign and without leading zeros.
pub open spec fn decimal(n: nat) -> Seq<char>
    decreases n,
{
    if n < 10 {
        seq![digit_char(n)]
    } else {
        decimal(n / 10).push(digit_char(n % 10))
    }
}

/// The digits of a number written with an optional leading plus sign.
pub open spec fn unsigned_body(s: Seq<char>) -> Seq<char> {
    if s.len() > 0 && s[0] == '+' {
        s.subrange(1, s.len() as int)
    } else {
        s
    }
}

/// The number that `s` denotes as a 32-bit unsigned decimal: an optional plus
/// sign followed by at least one digit and nothing else, with a value that
/// fits. Any other text denotes no number.
pub open spec fn parse_u32_spec(s: Seq<char>) -> Option<u32> {
    let body = unsigned_body(s);
    if body.len() > 0 && all_digits(body) && digits_value(body) <= u32::MAX {
        Some(digits_value(body) as u32)
    } else {
        None
    }
}

/// Whether `c` is white space as Unicode defines it.
pub open spec fn is_white_space(c: char) -> bool {
    let u = c as u32;
    ||| 0x09 <= u <= 0x0D
    ||| u == 0x20
    ||| u == 0x85
    ||| u == 0xA0
    ||| u == 0x1680
    ||| 0x2000 <= u <= 0x200A
    ||| u == 0x2028
    ||| u == 0x2029
    ||| u == 0x202F
    ||| u == 0x205F
    ||| u == 0x3000
}

/// Whether `c` is white space as Unicode defines it.
pub fn white_space(c: char) -> (r: bool)
    ensures
        r == is_white_space(c),
{
    let u: u32 = c as u32;
    (0x09 <= u && u <= 0x0D) || u == 0x20 || u == 0x85 || u == 0xA0 || u == 0x1680 || (0x2000 <= u
        && u <= 0x200A) || u == 0x2028 || u == 0x2029 || u == 0x202F || u == 0x205F || u == 0x3000
}

/// The number of white-space characters at the start of `s`.
pub open spec fn leading_spaces(s: Seq<char>) -> nat
    decreases s.len(),
{
    if s.len() > 0 && is_white_space(s[0]) {
        1 + leading_spaces(s.subrange(1, s.len() as int))
    } else {
        0
    }
}

/// The number of white-space characters at the end of `s`.
pub open spec fn trailing_spaces(s: Seq<char>) -> nat
    decreases s.len(),
{
    if s.len() > 0 && is_white_space(s.last()) {
        1 + trailing_spaces(s.drop_last())
    } else {
        0
    }
}

/// `s` without the white space at its start and at its end.
pub open spec fn trimmed(s: Seq<char>) -> Seq<char> {
    let start = leading_spaces(s);
    let rest = s.subrange(start as int, s.len() as int);
    rest.subrange(0, rest.len() - trailing_spaces(rest))
}

/// A prefix of white space followed by a character that is none, or by the
/// end of the text, is the leading white space.
pub proof fn lemma_leading_spaces_is(s: Seq<char>, n: int)
    requires
        0 <= n <= s.len(),
        forall|i: int| 0 <= i < n ==> is_white_space(#[trigger] s[i]),
        n < s.len() ==> !is_white_space(s[n]),
    ensures
        leading_spaces(s) == n,
    decreases s.len(),
{
    if n > 0 {
        let rest = s.subrange(1, s.len() as int);
        assert(is_white_space(s[0]));
        assert forall|i: int| 0 <= i < n - 1 implies is_white_space(#[trigger] rest[i]) by {
            assert(rest[i] == s[i + 1]);
        }
        if n < s.len() {
            assert(rest[n - 1] == s[n]);
        }
        lemma_leading_spaces_is(rest, n - 1);
    }
}

/// A suffix of white space preceded by a character that is none, or by the
/// start of the text, is the trailing white space.
pub proof fn lemma_trailing_spaces_is(s: Seq<char>, n: int)
    requires
        0 <= n <= s.len(),
        forall|i: int| s.len() - n <= i < s.len() ==> is_white_space(#[trigger] s[i]),
        n < s.len() ==> !is_white_space(s[s.len() - n - 1]),
    ensures
        trailing_spaces(s) == n,
    decreases s.len(),
{
    if n > 0 {
        let rest = s.drop_last();
        assert(is_white_space(s[s.len() - 1]));
        assert forall|i: int| rest.len() - (n - 1) <= i < rest.len() implies is_white_space(
            #[trigger] rest[i],
        ) by {
            assert(rest[i] == s[i]);
        }
        if n < s.len() {
            assert(rest[rest.len() - (n - 1) - 1] == s[s.len() - n - 1]);
        }
        lemma_trailing_spaces_is(rest, n - 1);
    }
}

/// Removes the white space at the start and at the end of `s`.
pub fn trim(s: &str) -> (r: String)
    ensures
        r@ == trimmed(s@),
{
    let len: usize = s.unicode_len();
    let mut start: usize = 0;
    while start < len && white_space(s.get_char(start))
        invariant
            start <= len,
            len == s@.len(),
            forall|i: int| 0 <= i < start ==> is_white_space(#[trigger] s@[i]),
        decreases len - start,
    {
        start += 1;
    }
    let mut end: usize = len;
    while end > start && white_space(s.get_char(end - 1))
        invariant
            start <= end <= len,
            len == s@.len(),
            forall|i: int| end <= i < len ==> is_white_space(#[trigger] s@[i]),
        decreases end,
    {
        end -= 1;
    }
    proof {
        lemma_leading_spaces_is(s@, start as int);
        let rest = s@.subrange(start as int, len as int);
        let n = len - end;
        assert forall|i: int| rest.len() - n <= i < rest.len() implies is_white_space(
            #[trigger] rest[i],
        ) by {
            assert(rest[i] == s@[i + start]);
        }
        if n < rest.len() {
            assert(rest[rest.len() - n - 1] == s@[end - 1]);
        }
        lemma_trailing_spaces_is(rest, n);
        assert(rest.subrange(0, rest.len() - n) =~= s@.subrange(start as int, end as int));
    }
    String::from_str(s.substring_char(start, end))
}

/// Reads `s` as a 32-bit unsigned decimal number.
pub fn parse_u32(s: &str) -> (r: Option<u32>)
    ensures
        r == parse_u32_spec(s@),
{
    let len: usize = s.unicode_len();
    let first: usize = if len > 0 && s.get_char(0) == '+' {
        1
    } else {
        0
    };
    let ghost body = unsigned_body(s@);
    assert(body =~= s@.subrange(first as int, len as int));
    if first == len {
        return None;
    }
    let mut value: u32 = 0;
    let mut i: usize = first;
    while i < len
        invariant
            first <= i <= len,
            len == s@.len(),
            body == unsigned_body(s@),
            body == s@.subrange(first as int, len as int),
            all_digits(body.subrange(0, i - first)),
            value == digits_value(body.subrange(0, i - first)),
        decreases len - i,
    {
        let c: char = s.get_char(i);
        let ghost before = body.subrange(0, i - first);
        let ghost after = body.subrange(0, i - first + 1);
        proof {
            assert(body[i - first] == c);
            assert(after.drop_last() =~= before);
            assert(after.last() == c);
        }
        if !(c >= '0' && c <= '9') {
            proof {
                assert(!is_digit(body[i - first]));
            }
            return None;
        }
        let d: u32 = (c as u32) - ('0' as u32);
        proof {
            assert(d == digit_value(c));
            assert(digits_value(after) == value * 10 + d);
            assert forall|k: int| 0 <= k < after.len() implies is_digit(#[trigger] after[k]) by {
                if k < before.len() {
                    assert(after[k] == before[k]);
                }
            }
            if value * 10 + d > u32::MAX {
                lemma_digits_value_grows(body, i - first + 1);
            }
        }
        if value > (u32::MAX - d) / 10 {
            return None;
        }
        value = value * 10 + d;
        i += 1;
    }
    assert(body.subrange(0, len - first) =~= body);
    Some(value)
}

/// The value of a sequence of digits is at least the value of each of its
/// prefixes.
pub proof fn lemma_digits_value_grows(s: Seq<char>, n: int)
    requires
        0 <= n <= s.len(),
    ensures
        digits_value(s.subrange(0, n)) <= digits_value(s),
    decreases s.len() - n,
{
    if n < s.len() {
        lemma_digits_value_grows(s, n + 1);
        let longer = s.subrange(0, n + 1);
        assert(longer.drop_last() =~= s.subrange(0, n));
    } else {
        assert(s.subrange(0, n) =~= s);
    }
}

/// The text of one decimal digit.
pub fn digit_text(d: u32) -> (r: &'static str)
    requires
        d < 10,
    ensures
        r@ == seq![digit_char(d as nat)],
{
    proof {
        reveal_strlit("0");
        reveal_strlit("1");
        reveal_strlit("2");
        reveal_strlit("3");
        reveal_strlit("4");
        reveal_strlit("5");
        reveal_strlit("6");
        reveal_strlit("7");
        reveal_strlit("8");
        reveal_strlit("9");
    }
    let r = if d == 0 {
        "0"
    } else if d == 1 {
        "1"
    } else if d == 2 {
        "2"
    } else if d == 3 {
        "3"
    } else if d == 4 {
        "4"
    } else if d == 5 {
        "5"
    } else if d == 6 {
        "6"
    } else if d == 7 {
        "7"
    } else if d == 8 {
        "8"
    } else {
        "9"
    };
    assert(r@ =~= seq![digit_char(d as nat)]);
    r
}

/// Writes `n` in decimal notation.
pub fn u64_to_string(n: u64) -> (r: String)
    ensures
        r@ == decimal(n as nat),
    decreases n,
{
    if n < 10 {
        String::from_str(digit_text(n as u32))
    } else {
        let mut text = u64_to_string(n / 10);
        text.append(digit_text((n % 10) as u32));
        text
    }
}

/// Writes `n` in decimal notation.
pub fn u32_to_string(n: u32) -> (r: String)
    ensures
        r@ == decimal(n as nat),
{
    u64_to_string(n as u64)
}

/// The decimal notation of `n`, with a minus sign if it is negative.
pub open spec fn signed_decimal(n: int) -> Seq<char> {
    if n < 0 {
        "-"@ + decimal((-n) as nat)
    } else {
        decimal(n as nat)
    }
}

/// Writes `n` in decimal notation, with a minus sign if it is negative.
pub fn i64_to_string(n: i64) -> (r: String)
    ensures
        r@ == signed_decimal(n as int),
{
    if n < 0 {
        let magnitude: u64 = if n == i64::MIN {
            9223372036854775808u64
        } else {
            (-n) as u64
        };
        let mut text = String::from_str("-");
        text.append(u64_to_string(magnitude).as_str());
        text
    } else {
        u64_to_string(n as u64)
    }
}

/// `text` followed by as many spaces as it lacks to `width` characters.
pub open spec fn padded(text: Seq<char>, width: nat) -> Seq<char> {
    if text.len() >= width {
        text
    } else {
        text + Seq::new((width - text.len()) as nat, |_i: int| ' ')
    }
}

/// Fills `text` up with spaces to `width` characters.
pub fn pad(text: &str, width: usize) -> (r: String)
    ensures
        r@ == padded(text@, width as nat),
{
    proof {
        reveal_strlit(" ");
    }
    let len: usize = text.unicode_len();
    let mut r = String::from_str(text);
    if len >= width {
        return r;
    }
    let mut n: usize = len;
    while n < width
        invariant
            len <= n <= width,
            len == text@.len(),
            " "@ == seq![' '],
            r@ == text@ + Seq::new((n - len) as nat, |_i: int| ' '),
        decreases width - n,
    {
        r.append(" ");
        n += 1;
        assert(r@ =~= text@ + Seq::new((n - len) as nat, |_i: int| ' '));
    }
    r
}

/// The pieces of `s` from `start` on that `sep` separates, where no `sep`
/// stands between `start` and `i`.
pub open spec fn split_from(s: Seq<char>, sep: char, start: int, i: int) -> Seq<Seq<char>>
    decreases s.len() - i,
{
    if i >= s.len() {
        seq![s.subrange(start, s.len() as int)]
    } else if s[i] == sep {
        seq![s.subrange(start, i)] + split_from(s, sep, i + 1, i + 1)
    } else {
        split_from(s, sep, start, i + 1)
    }
}

/// The pieces of `s` that `sep` separates, in order: one more than there
/// are separators, empty where two separators meet or one stands at an end.
pub open spec fn split_on(s: Seq<char>, sep: char) -> Seq<Seq<char>> {
    split_from(s, sep, 0, 0)
}

/// The views of a sequence of texts.
pub open spec fn text_views(texts: Seq<String>) -> Seq<Seq<char>> {
    texts.map(|_i: int, t: String| t@)
}

/// Splits `s` at every `sep`.
pub fn split(s: &str, sep: char) -> (pieces: Vec<String>)
    ensures
        text_views(pieces@) == split_on(s@, sep),
{
    let len: usize = s.unicode_len();
    let mut pieces: Vec<String> = Vec::new();
    let mut start: usize = 0;
    let mut i: usize = 0;
    while i < len
        invariant
            start <= i <= len,
            len == s@.len(),
            text_views(pieces@) + split_from(s@, sep, start as int, i as int) == split_on(s@, sep),
        decreases len - i,
    {
        if s.get_char(i) == sep {
            let ghost before = text_views(pieces@);
            pieces.push(String::from_str(s.substring_char(start, i)));
            assert(text_views(pieces@) =~= before.push(s@.subrange(start as int, i as int)));
            assert(text_views(pieces@) + split_from(s@, sep, i + 1, i + 1) =~= before + split_from(
                s@,
                sep,
                start as int,
                i as int,
            ));
            start = i + 1;
        }
        i += 1;
    }
    let ghost before = text_views(pieces@);
    pieces.push(String::from_str(s.substring_char(start, len)));
    assert(text_views(pieces@) =~= before + split_from(s@, sep, start as int, len as int));
    pieces
}

/// `s` without the carriage return at its end, if there is one.
pub open spec fn without_cr(s: Seq<char>) -> Seq<char> {
    if s.len() > 0 && s.last() == '\r' {
        s.drop_last()
    } else {
        s
    }
}

/// The lines of a text. A line ends at a line feed, or at the end of the
/// text if characters are left there; the line feed is no part of the
/// line, nor is a carriage return just before it.
pub open spec fn lines_of(s: Seq<char>) -> Seq<Seq<char>> {
    let pieces = split_on(s, '\n');
    let ended = pieces.drop_last().map(|_i: int, piece: Seq<char>| without_cr(piece));
    if pieces.last().len() == 0 {
        ended
    } else {
        ended.push(pieces.last())
    }
}

/// Splitting gives at least one piece.
pub proof fn lemma_split_from_nonempty(s: Seq<char>, sep: char, start: int, i: int)
    ensures
        split_from(s, sep, start, i).len() >= 1,
    decreases s.len() - i,
{
    if i >= s.len() {
    } else if s[i] == sep {
        lemma_split_from_nonempty(s, sep, i + 1, i + 1);
    } else {
        lemma_split_from_nonempty(s, sep, start, i + 1);
    }
}

/// Splits a text into its lines.
pub fn lines(s: &str) -> (r: Vec<String>)
    ensures
        text_views(r@) == lines_of(s@),
{
    let pieces = split(s, '\n');
    proof {
        lemma_split_from_nonempty(s@, '\n', 0, 0);
    }
    let ghost all = text_views(pieces@);
    let mut r: Vec<String> = Vec::new();
    let mut i: usize = 0;
    while i + 1 < pieces.len()
        invariant
            pieces.len() >= 1,
            i + 1 <= pieces.len(),
            all == text_views(pieces@),
            text_views(r@) == all.drop_last().map(
                |_i: int, piece: Seq<char>| without_cr(piece),
            ).subrange(0, i as int),
        decreases pieces.len() - i,
    {
        let piece = pieces[i].as_str();
        let len: usize = piece.unicode_len();
        let ghost before = text_views(r@);
        if len > 0 && piece.get_char(len - 1) == '\r' {
            r.push(String::from_str(piece.substring_char(0, len - 1)));
        } else {
            r.push(String::from_str(piece));
        }
        assert(all[i as int] == piece@);
        assert(text_views(r@) =~= before.push(without_cr(piece@)));
        assert(text_views(r@) =~= all.drop_last().map(
            |_i: int, piece: Seq<char>| without_cr(piece),
        ).subrange(0, i + 1));
        i += 1;
    }
    assert(text_views(r@) =~= all.drop_last().map(|_i: int, piece: Seq<char>| without_cr(piece)));
    let last = pieces[pieces.len() - 1].as_str();
    assert(all.last() == last@);
    if last.unicode_len() > 0 {
        let ghost before = text_views(r@);
        r.push(String::from_str(last));
        assert(text_views(r@) =~= before.push(last@));
    }
    r
}

} // verus!
