//! Texts as sequences of characters: comparing and searching them, decimal
//! numbers, and splitting a text into fields.

use vstd::prelude::*;
use vstd::std_specs::iter::IteratorSpec;

verus! {

/// Whether `c` is one of the ten ASCII digits.
pub open spec fn is_digit(c: char) -> bool {
    '0' <= c && c <= '9'
}

/// The number that the digit `c` stands for.
pub open spec fn digit_value(c: char) -> nat
    recommends
        is_digit(c),
{
    (c as int - '0' as int) as nat
}

/// The digit that stands for `d`.
pub open spec fn digit_char(d: nat) -> char
    recommends
        d < 10,
{
    (d + '0' as nat) as char
}

/// Whether `s` holds digits only.
pub open spec fn all_digits(s: Seq<char>) -> bool {
    forall|i: int| 0 <= i < s.len() ==> is_digit(#[trigger] s[i])
}

/// The number that the digits of `s` denote in base ten, most significant
/// digit first. The empty sequence denotes zero.
pub open spec fn decimal_value(s: Seq<char>) -> nat
    decreases s.len(),
{
    if s.len() == 0 {
        0
    } else {
        decimal_value(s.drop_last()) * 10 + digit_value(s.last())
    }
}

/// The shortest base-ten notation of `n`.
pub open spec fn decimal_digits(n: nat) -> Seq<char>
    decreases n,
{
    if n < 10 {
        seq![digit_char(n)]
    } else {
        decimal_digits(n / 10).push(digit_char(n % 10))
    }
}

/// The identifier that a field denotes: an optional `+`, then one or more
/// digits whose value fits the machine word. Anything else denotes none.
pub open spec fn parse_id(s: Seq<char>) -> Option<usize> {
    if s.len() > 0 && s[0] == '+' {
        parse_digits(s.drop_first())
    } else {
        parse_digits(s)
    }
}

/// The notation of a number consists of digits, and denotes that number.
pub proof fn lemma_decimal_digits(n: nat)
    ensures
        decimal_digits(n).len() > 0,
        all_digits(decimal_digits(n)),
        decimal_value(decimal_digits(n)) == n,
    decreases n,
{
    if n < 10 {
        let s = decimal_digits(n);
        assert(s.drop_last() =~= Seq::<char>::empty());
        assert(decimal_value(s.drop_last()) == 0);
    } else {
        lemma_decimal_digits(n / 10);
        let s = decimal_digits(n);
        assert(s.drop_last() =~= decimal_digits(n / 10));
    }
}

/// The value of a digit string is at least the value of each of its prefixes.
pub proof fn lemma_decimal_value_prefix(s: Seq<char>, k: int)
    requires
        0 <= k <= s.len(),
    ensures
        decimal_value(s.take(k)) <= decimal_value(s),
    decreases s.len(),
{
    if k == s.len() {
        assert(s.take(k) =~= s);
    } else {
        lemma_decimal_value_prefix(s.drop_last(), k);
        assert(s.drop_last().take(k) =~= s.take(k));
    }
}

/// The characters of `s`, in order.
pub fn chars_of(s: &str) -> (v: Vec<char>)
    ensures
        v@ == s@,
{
    broadcast use vstd::string::group_string_axioms;

    let mut it = s.chars();
    let mut v: Vec<char> = Vec::new();
    loop
        invariant
            v@ + it.remaining() == s@,
            it.decrease() is Some,
        ensures
            v@ == s@,
        decreases it.decrease()->0,
    {
        match it.next() {
            Some(c) => {
                v.push(c);
            },
            None => {
                break ;
            },
        }
    }
    v
}

/// Whether two texts hold the same characters.
pub fn same_text(a: &str, b: &str) -> (same: bool)
    ensures
        same == (a@ == b@),
{
    broadcast use vstd::string::group_string_axioms;

    let mut left = a.chars();
    let mut right = b.chars();
    let ghost mut seen: Seq<char> = Seq::empty();
    loop
        invariant
            seen + left.remaining() == a@,
            seen + right.remaining() == b@,
            left.decrease() is Some,
        decreases left.decrease()->0,
    {
        let l = left.next();
        let r = right.next();
        match (l, r) {
            (Some(x), Some(y)) => {
                if x != y {
                    assert(a@[seen.len() as int] == x);
                    assert(b@[seen.len() as int] == y);
                    return false;
                }
                proof {
                    seen = seen.push(x);
                }
            },
            (None, None) => {
                assert(a@ =~= seen);
                assert(b@ =~= seen);
                return true;
            },
            _ => {
                assert(a@.len() != b@.len());
                return false;
            },
        }
    }
}

/// The digit `c` as a number, or nothing when `c` is no digit.
pub fn digit_of(c: char) -> (d: Option<usize>)
    ensures
        d is Some <==> is_digit(c),
        d matches Some(v) ==> v == digit_value(c),
{
    if '0' <= c && c <= '9' {
        Some((c as u32 - '0' as u32) as usize)
    } else {
        None
    }
}

/// The number that a run of digits denotes, where it fits the machine word.
pub open spec fn parse_digits(s: Seq<char>) -> Option<usize> {
    if s.len() > 0 && all_digits(s) && decimal_value(s) <= usize::MAX {
        Some(decimal_value(s) as usize)
    } else {
        None
    }
}

/// Reads the number that the digits `chars[from..to]` denote.
pub(crate) fn read_digits(chars: &Vec<char>, from: usize, to: usize) -> (value: Option<usize>)
    requires
        from <= to <= chars.len(),
    ensures
        value == parse_digits(chars@.subrange(from as int, to as int)),
{
    let ghost digits = chars@.subrange(from as int, to as int);
    if from == to {
        return None;
    }
    let mut value: usize = 0;
    let mut i: usize = from;
    while i < to
        invariant
            from <= i <= to <= chars.len(),
            from < to,
            digits == chars@.subrange(from as int, to as int),
            all_digits(digits.take(i - from)),
            value == decimal_value(digits.take(i - from)),
        decreases to - i,
    {
        let ghost seen = digits.take(i - from);
        let ghost next = digits.take(i - from + 1);
        assert(next.drop_last() =~= seen);
        assert(next.last() == chars@[i as int]);
        proof {
            lemma_decimal_value_prefix(digits, i - from + 1);
        }
        let d = match digit_of(chars[i]) {
            Some(d) => d,
            None => {
                assert(!is_digit(digits[i - from]));
                return None;
            },
        };
        let tens = match value.checked_mul(10) {
            Some(t) => t,
            None => {
                return None;
            },
        };
        value = match tens.checked_add(d) {
            Some(v) => v,
            None => {
                return None;
            },
        };
        i = i + 1;
        assert(all_digits(next)) by {
            assert forall|j: int| 0 <= j < next.len() implies is_digit(#[trigger] next[j]) by {
                if j < seen.len() {
                    assert(next[j] == seen[j]);
                }
            }
        }
    }
    assert(digits.take(i - from) =~= digits);
    Some(value)
}

/// Reads the identifier that `chars[from..to]` denotes.
pub(crate) fn read_id(chars: &Vec<char>, from: usize, to: usize) -> (id: Option<usize>)
    requires
        from <= to <= chars.len(),
    ensures
        id == parse_id(chars@.subrange(from as int, to as int)),
{
    let ghost field = chars@.subrange(from as int, to as int);
    let start: usize = if from < to && chars[from] == '+' {
        from + 1
    } else {
        from
    };
    assert(chars@.subrange(start as int, to as int) =~= if field.len() > 0 && field[0] == '+' {
        field.drop_first()
    } else {
        field
    });
    read_digits(chars, start, to)
}

/// The one-character text of the digit that stands for `d`.
pub(crate) fn digit_text(d: usize) -> (t: &'static str)
    requires
        d < 10,
    ensures
        t@ == seq![digit_char(d as nat)],
{
    proof {
        reveal_strlit("0");
        reveal_strlit("1");
        reveal_strlit("2");
        reveal_strlit("3");
        reveal_strlit("4");
        reveal_strlit("5");
        reveal_strlit("6");
        reveal_strlit("7");
        reveal_strlit("8");
        reveal_strlit("9");
    }
    let t = if d == 0 {
        "0"
    } else if d == 1 {
        "1"
    } else if d == 2 {
        "2"
    } else if d == 3 {
        "3"
    } else if d == 4 {
        "4"
    } else if d == 5 {
        "5"
    } else if d == 6 {
        "6"
    } else if d == 7 {
        "7"
    } else if d == 8 {
        "8"
    } else {
        "9"
    };
    assert(t@ =~= seq![digit_char(d as nat)]);
    t
}

/// Writes `n` in base ten.
pub fn format_decimal(n: u64) -> (text: String)
    ensures
        text@ == decimal_digits(n as nat),
    decreases n,
{
    if n < 10 {
        digit_text(n as usize).to_owned()
    } else {
        let mut text = format_decimal(n / 10);
        text.append(digit_text((n % 10) as usize));
        assert(text@ =~= decimal_digits(n as nat));
        text
    }
}

/// The notation of the whole number `n` in base ten: that of its amount,
/// behind a minus sign where `n` is negative.
pub open spec fn signed_digits(n: int) -> Seq<char> {
    if n < 0 {
        seq!['-'] + decimal_digits((-n) as nat)
    } else {
        decimal_digits(n as nat)
    }
}

/// Writes the whole number `n` in base ten.
pub fn format_signed(n: i64) -> (text: String)
    ensures
        text@ == signed_digits(n as int),
{
    if n < 0 {
        proof {
            reveal_strlit("-");
        }
        let amount: u64 = ((-(n + 1)) as u64) + 1;
        let mut text = "-".to_owned();
        text.append(format_decimal(amount).as_str());
        assert(text@ =~= signed_digits(n as int));
        text
    } else {
        format_decimal(n as u64)
    }
}

/// Whether `s` holds no delimiter.
pub open spec fn delimiter_free(delimiter: char, s: Seq<char>) -> bool {
    forall|i: int| 0 <= i < s.len() ==> #[trigger] s[i] != delimiter
}

/// The index of the first delimiter of `s` at or after `from`, or the length
/// of `s` where there is none.
pub open spec fn next_delimiter(delimiter: char, s: Seq<char>, from: int) -> int
    decreases s.len() - from,
{
    if from >= s.len() {
        s.len() as int
    } else if s[from] == delimiter {
        from
    } else {
        next_delimiter(delimiter, s, from + 1)
    }
}

/// The fields of `s` from the index `from` on: the text between one
/// delimiter and the next. A text without a delimiter is one field, also
/// where it is empty.
pub open spec fn fields_from(delimiter: char, s: Seq<char>, from: int) -> Seq<Seq<char>>
    decreases s.len() - from,
{
    let end = next_delimiter(delimiter, s, from);
    if 0 <= from <= end < s.len() {
        seq![s.subrange(from, end)] + fields_from(delimiter, s, end + 1)
    } else {
        seq![s.subrange(from, s.len() as int)]
    }
}

/// The fields of the line `s`.
pub open spec fn split_fields(delimiter: char, s: Seq<char>) -> Seq<Seq<char>> {
    fields_from(delimiter, s, 0)
}

/// The line that holds `fields`, one delimiter between each two.
pub open spec fn join_fields(delimiter: char, fields: Seq<Seq<char>>) -> Seq<char>
    decreases fields.len(),
{
    if fields.len() == 0 {
        Seq::empty()
    } else if fields.len() == 1 {
        fields[0]
    } else {
        fields[0] + seq![delimiter] + join_fields(delimiter, fields.drop_first())
    }
}

/// Where the next delimiter lies: no delimiter stands before it, and it is
/// the end of the text or a delimiter.
pub proof fn lemma_next_delimiter(delimiter: char, s: Seq<char>, from: int)
    requires
        0 <= from <= s.len(),
    ensures
        from <= next_delimiter(delimiter, s, from) <= s.len(),
        delimiter_free(delimiter, s.subrange(from, next_delimiter(delimiter, s, from))),
        next_delimiter(delimiter, s, from) < s.len() ==> s[next_delimiter(delimiter, s, from)]
            == delimiter,
    decreases s.len() - from,
{
    if from < s.len() && s[from] != delimiter {
        lemma_next_delimiter(delimiter, s, from + 1);
        let end = next_delimiter(delimiter, s, from);
        assert forall|i: int| 0 <= i < end - from implies #[trigger] s.subrange(from, end)[i]
            != delimiter by {
            if i > 0 {
                assert(s.subrange(from + 1, end)[i - 1] != delimiter);
            }
        }
    }
}

/// The next delimiter is the only index before which no delimiter stands
/// and which is the end of the text or a delimiter.
pub proof fn lemma_next_delimiter_is(delimiter: char, s: Seq<char>, from: int, end: int)
    requires
        0 <= from <= end <= s.len(),
        delimiter_free(delimiter, s.subrange(from, end)),
        end < s.len() ==> s[end] == delimiter,
    ensures
        next_delimiter(delimiter, s, from) == end,
    decreases end - from,
{
    if from < end {
        assert(s.subrange(from, end)[0] != delimiter);
        assert forall|i: int| 0 <= i < end - (from + 1) implies #[trigger] s.subrange(
            from + 1,
            end,
        )[i] != delimiter by {
            assert(s.subrange(from, end)[i + 1] != delimiter);
        }
        lemma_next_delimiter_is(delimiter, s, from + 1, end);
    }
}

/// The first field from `from` on ends at the next delimiter; the fields
/// after it are those behind that delimiter.
pub proof fn lemma_fields_from(delimiter: char, s: Seq<char>, from: int)
    requires
        0 <= from <= s.len(),
    ensures
        fields_from(delimiter, s, from).len() >= 1,
        fields_from(delimiter, s, from)[0] == s.subrange(
            from,
            next_delimiter(delimiter, s, from),
        ),
        next_delimiter(delimiter, s, from) < s.len() ==> fields_from(
            delimiter,
            s,
            from,
        ).drop_first() == fields_from(delimiter, s, next_delimiter(delimiter, s, from) + 1),
        next_delimiter(delimiter, s, from) == s.len() ==> fields_from(delimiter, s, from).len()
            == 1,
{
    lemma_next_delimiter(delimiter, s, from);
    let end = next_delimiter(delimiter, s, from);
    if end < s.len() {
        assert(fields_from(delimiter, s, from).drop_first() =~= fields_from(
            delimiter,
            s,
            end + 1,
        ));
    }
}

/// Text put in front of a line moves its delimiters by the length of that
/// text.
pub proof fn lemma_next_delimiter_shift(
    delimiter: char,
    front: Seq<char>,
    s: Seq<char>,
    from: int,
)
    requires
        0 <= from <= s.len(),
    ensures
        next_delimiter(delimiter, front + s, front.len() + from) == front.len() + next_delimiter(
            delimiter,
            s,
            from,
        ),
{
    let whole = front + s;
    lemma_next_delimiter(delimiter, s, from);
    let end = next_delimiter(delimiter, s, from);
    assert(whole.subrange(front.len() + from, front.len() + end) =~= s.subrange(from, end));
    lemma_next_delimiter_is(delimiter, whole, front.len() + from, front.len() + end);
}

/// Joining the fields of a line gives the line back.
pub proof fn lemma_join_split(delimiter: char, s: Seq<char>, from: int)
    requires
        0 <= from <= s.len(),
    ensures
        join_fields(delimiter, fields_from(delimiter, s, from)) == s.subrange(
            from,
            s.len() as int,
        ),
    decreases s.len() - from,
{
    lemma_next_delimiter(delimiter, s, from);
    lemma_fields_from(delimiter, s, from);
    let end = next_delimiter(delimiter, s, from);
    let fields = fields_from(delimiter, s, from);
    if end < s.len() {
        lemma_join_split(delimiter, s, end + 1);
        lemma_fields_from(delimiter, s, end + 1);
        assert(join_fields(delimiter, fields) =~= s.subrange(from, s.len() as int));
    }
}

/// The first fields of `s` from the index `from` on, `limit` at most: the
/// text is cut at its first delimiters only, and the last of `limit` fields
/// is all that is left, with the delimiters it holds.
pub open spec fn fields_up_to(delimiter: char, s: Seq<char>, from: int, limit: nat) -> Seq<
    Seq<char>,
>
    decreases limit,
{
    let end = next_delimiter(delimiter, s, from);
    if limit > 1 && 0 <= from <= end < s.len() {
        seq![s.subrange(from, end)] + fields_up_to(delimiter, s, end + 1, (limit - 1) as nat)
    } else {
        seq![s.subrange(from, s.len() as int)]
    }
}

/// The first fields of the line `s`, `limit` at most.
pub open spec fn split_up_to(delimiter: char, s: Seq<char>, limit: nat) -> Seq<Seq<char>> {
    fields_up_to(delimiter, s, 0, limit)
}

/// How a text is cut into `limit` fields at most: where a delimiter follows
/// and more than one field is allowed, the first field ends at that
/// delimiter and the others are cut from what stands behind it; else the
/// text is one field.
pub proof fn lemma_fields_up_to(delimiter: char, s: Seq<char>, from: int, limit: nat)
    requires
        0 <= from <= s.len(),
        limit >= 1,
    ensures
        1 <= fields_up_to(delimiter, s, from, limit).len() <= limit,
        limit > 1 ==> fields_up_to(delimiter, s, from, limit)[0] == s.subrange(
            from,
            next_delimiter(delimiter, s, from),
        ),
        limit > 1 && next_delimiter(delimiter, s, from) < s.len() ==> fields_up_to(
            delimiter,
            s,
            from,
            limit,
        ).drop_first() == fields_up_to(
            delimiter,
            s,
            next_delimiter(delimiter, s, from) + 1,
            (limit - 1) as nat,
        ),
        limit == 1 || next_delimiter(delimiter, s, from) == s.len() ==> fields_up_to(
            delimiter,
            s,
            from,
            limit,
        ) == seq![s.subrange(from, s.len() as int)],
    decreases limit,
{
    lemma_next_delimiter(delimiter, s, from);
    let end = next_delimiter(delimiter, s, from);
    if limit > 1 && end < s.len() {
        lemma_fields_up_to(delimiter, s, end + 1, (limit - 1) as nat);
        assert(fields_up_to(delimiter, s, from, limit).drop_first() =~= fields_up_to(
            delimiter,
            s,
            end + 1,
            (limit - 1) as nat,
        ));
    }
}

/// Of the fields that a text is cut into, only the last of `limit` can
/// hold a delimiter.
pub proof fn lemma_fields_up_to_delimiter_free(
    delimiter: char,
    s: Seq<char>,
    from: int,
    limit: nat,
)
    requires
        0 <= from <= s.len(),
        limit >= 1,
    ensures
        forall|i: int|
            0 <= i < fields_up_to(delimiter, s, from, limit).len() && i < limit - 1
                ==> delimiter_free(
                delimiter,
                #[trigger] fields_up_to(delimiter, s, from, limit)[i],
            ),
    decreases limit,
{
    lemma_next_delimiter(delimiter, s, from);
    lemma_fields_up_to(delimiter, s, from, limit);
    let end = next_delimiter(delimiter, s, from);
    let fields = fields_up_to(delimiter, s, from, limit);
    if limit > 1 && end < s.len() {
        lemma_fields_up_to_delimiter_free(delimiter, s, end + 1, (limit - 1) as nat);
        assert forall|i: int| 0 <= i < fields.len() && i < limit - 1 implies delimiter_free(
            delimiter,
            #[trigger] fields[i],
        ) by {
            if i > 0 {
                assert(fields[i] == fields.drop_first()[i - 1]);
            }
        }
    }
}

/// Text put in front of a line leaves the fields that the line is cut into
/// as they are.
pub proof fn lemma_fields_up_to_shift(
    delimiter: char,
    front: Seq<char>,
    s: Seq<char>,
    from: int,
    limit: nat,
)
    requires
        0 <= from <= s.len(),
    ensures
        fields_up_to(delimiter, front + s, front.len() + from, limit) == fields_up_to(
            delimiter,
            s,
            from,
            limit,
        ),
    decreases limit,
{
    let whole = front + s;
    lemma_next_delimiter(delimiter, s, from);
    lemma_next_delimiter_shift(delimiter, front, s, from);
    let end = next_delimiter(delimiter, s, from);
    assert(whole.subrange(front.len() + from, front.len() + end) =~= s.subrange(from, end));
    assert(whole.subrange(front.len() + from, whole.len() as int) =~= s.subrange(
        from,
        s.len() as int,
    ));
    if limit > 1 && end < s.len() {
        lemma_fields_up_to_shift(delimiter, front, s, end + 1, (limit - 1) as nat);
    }
}

/// Cutting a line that was joined from fields gives those fields back,
/// where they are `limit` at most and none but the last of `limit` holds a
/// delimiter.
pub proof fn lemma_split_up_to_join(delimiter: char, fields: Seq<Seq<char>>, limit: nat)
    requires
        1 <= fields.len() <= limit,
        forall|i: int|
            0 <= i < fields.len() && i < limit - 1 ==> delimiter_free(
                delimiter,
                #[trigger] fields[i],
            ),
    ensures
        split_up_to(delimiter, join_fields(delimiter, fields), limit) == fields,
    decreases fields.len(),
{
    let first = fields[0];
    let line = join_fields(delimiter, fields);
    if fields.len() == 1 {
        assert(line.subrange(0, line.len() as int) =~= first);
        if limit > 1 {
            assert(delimiter_free(delimiter, fields[0]));
            lemma_next_delimiter_is(delimiter, line, 0, line.len() as int);
        }
        assert(split_up_to(delimiter, line, limit) =~= fields);
    } else {
        let rest = fields.drop_first();
        let tail = join_fields(delimiter, rest);
        let front = first + seq![delimiter];
        assert(line =~= front + tail);
        assert(delimiter_free(delimiter, fields[0]));
        assert forall|i: int| 0 <= i < rest.len() && i < limit - 2 implies delimiter_free(
            delimiter,
            #[trigger] rest[i],
        ) by {
            assert(rest[i] == fields[i + 1]);
        }
        lemma_split_up_to_join(delimiter, rest, (limit - 1) as nat);
        assert(line.subrange(0, first.len() as int) =~= first);
        lemma_next_delimiter_is(delimiter, line, 0, first.len() as int);
        lemma_fields_up_to_shift(delimiter, front, tail, 0, (limit - 1) as nat);
        assert(split_up_to(delimiter, line, limit) =~= seq![first] + rest);
        assert(seq![first] + rest =~= fields);
    }
}

/// Joining the fields that a line is cut into gives the line back: no
/// character is lost, however many fields are allowed.
pub proof fn lemma_join_split_up_to(delimiter: char, s: Seq<char>, from: int, limit: nat)
    requires
        0 <= from <= s.len(),
        limit >= 1,
    ensures
        join_fields(delimiter, fields_up_to(delimiter, s, from, limit)) == s.subrange(
            from,
            s.len() as int,
        ),
    decreases limit,
{
    lemma_next_delimiter(delimiter, s, from);
    lemma_fields_up_to(delimiter, s, from, limit);
    let end = next_delimiter(delimiter, s, from);
    let fields = fields_up_to(delimiter, s, from, limit);
    if limit > 1 && end < s.len() {
        lemma_join_split_up_to(delimiter, s, end + 1, (limit - 1) as nat);
        lemma_fields_up_to(delimiter, s, end + 1, (limit - 1) as nat);
        assert(join_fields(delimiter, fields) =~= s.subrange(from, s.len() as int));
    }
}

/// Finds the first delimiter of `chars` at or after `from`.
pub(crate) fn find_delimiter(delimiter: char, chars: &Vec<char>, from: usize) -> (end: usize)
    requires
        from <= chars.len(),
    ensures
        end == next_delimiter(delimiter, chars@, from as int),
        from <= end <= chars.len(),
{
    let mut end: usize = from;
    while end < chars.len() && chars[end] != delimiter
        invariant
            from <= end <= chars.len(),
            next_delimiter(delimiter, chars@, from as int) == next_delimiter(
                delimiter,
                chars@,
                end as int,
            ),
        decreases chars.len() - end,
    {
        end = end + 1;
    }
    end
}

/// Whether `needle` stands in `hay` at the index `at`.
pub open spec fn occurs_at(needle: Seq<char>, hay: Seq<char>, at: int) -> bool {
    0 <= at && at + needle.len() <= hay.len() && hay.subrange(at, at + needle.len()) == needle
}

/// Whether `needle` stands somewhere in `hay`. The empty text stands in
/// every text.
pub open spec fn occurs_in(needle: Seq<char>, hay: Seq<char>) -> bool {
    exists|at: int| occurs_at(needle, hay, at)
}

/// Whether `needle[..]` stands in `hay` at the index `at`.
fn matches_at(hay: &Vec<char>, needle: &Vec<char>, at: usize) -> (found: bool)
    requires
        at + needle.len() <= hay.len(),
    ensures
        found == occurs_at(needle@, hay@, at as int),
{
    let mut k: usize = 0;
    while k < needle.len()
        invariant
            k <= needle.len(),
            at + needle.len() <= hay.len(),
            hay@.subrange(at as int, at + k) == needle@.take(k as int),
        decreases needle.len() - k,
    {
        if hay[at + k] != needle[k] {
            assert(hay@.subrange(at as int, at + needle.len())[k as int] != needle@[k as int]);
            return false;
        }
        k = k + 1;
        assert(hay@.subrange(at as int, at + k) =~= needle@.take(k as int)) by {
            assert(hay@.subrange(at as int, at + k - 1) == needle@.take(k - 1));
            assert forall|j: int| 0 <= j < k implies hay@.subrange(at as int, at + k)[j]
                == needle@.take(k as int)[j] by {
                if j < k - 1 {
                    assert(hay@.subrange(at as int, at + k - 1)[j] == needle@.take(k - 1)[j]);
                }
            }
        }
    }
    assert(needle@.take(k as int) =~= needle@);
    true
}

/// Whether the text `needle` stands somewhere in the text `hay`.
pub fn contains_text(hay: &str, needle: &str) -> (found: bool)
    ensures
        found == occurs_in(needle@, hay@),
{
    let hay_chars = chars_of(hay);
    let needle_chars = chars_of(needle);
    if needle_chars.len() > hay_chars.len() {
        return false;
    }
    let last: usize = hay_chars.len() - needle_chars.len();
    let mut at: usize = 0;
    loop
        invariant
            at <= last,
            last == hay_chars.len() - needle_chars.len(),
            needle_chars.len() <= hay_chars.len(),
            hay_chars@ == hay@,
            needle_chars@ == needle@,
            forall|i: int| 0 <= i < at ==> !occurs_at(needle@, hay@, i),
        decreases last - at,
    {
        if matches_at(&hay_chars, &needle_chars, at) {
            return true;
        }
        if at == last {
            return false;
        }
        at = at + 1;
    }
}

/// Whether `c` is white space: a character with the Unicode property
/// `White_Space`.
pub open spec fn is_white_space(c: char) -> bool {
    ||| '\u{9}' <= c <= '\u{d}'
    ||| c == ' '
    ||| c == '\u{85}'
    ||| c == '\u{a0}'
    ||| c == '\u{1680}'
    ||| '\u{2000}' <= c <= '\u{200a}'
    ||| c == '\u{2028}'
    ||| c == '\u{2029}'
    ||| c == '\u{202f}'
    ||| c == '\u{205f}'
    ||| c == '\u{3000}'
}

/// Whether `s` holds white space only. The empty text does.
pub open spec fn blank(s: Seq<char>) -> bool {
    forall|i: int| 0 <= i < s.len() ==> is_white_space(#[trigger] s[i])
}

/// Whether the text `s` holds white space only.
pub fn is_blank(s: &str) -> (all: bool)
    ensures
        all == blank(s@),
{
    let chars = chars_of(s);
    let mut i: usize = 0;
    while i < chars.len()
        invariant
            i <= chars.len(),
            chars@ == s@,
            forall|j: int| 0 <= j < i ==> is_white_space(#[trigger] chars@[j]),
        decreases chars.len() - i,
    {
        let c = chars[i];
        let white = ('\u{9}' <= c && c <= '\u{d}') || c == ' ' || c == '\u{85}' || c == '\u{a0}'
            || c == '\u{1680}' || ('\u{2000}' <= c && c <= '\u{200a}') || c == '\u{2028}' || c
            == '\u{2029}' || c == '\u{202f}' || c == '\u{205f}' || c == '\u{3000}';
        if !white {
            assert(!is_white_space(s@[i as int]));
            return false;
        }
        i = i + 1;
    }
    true
}

/// The texts of a list of strings.
pub open spec fn texts(list: Seq<String>) -> Seq<Seq<char>> {
    list.map_values(|s: String| s@)
}

/// The text `s[from..to]` as a string of its own.
pub(crate) fn slice_text(s: &str, from: usize, to: usize) -> (part: String)
    requires
        from <= to <= s@.len(),
    ensures
        part@ == s@.subrange(from as int, to as int),
{
    s.substring_char(from, to).to_owned()
}

/// Splits `s` into its fields: the texts between one `delimiter` and the
/// next.
pub fn split_text(s: &str, delimiter: char) -> (fields: Vec<String>)
    ensures
        texts(fields@) == split_fields(delimiter, s@),
{
    let chars = chars_of(s);
    let mut fields: Vec<String> = Vec::new();
    let mut from: usize = 0;
    loop
        invariant
            from <= chars.len(),
            chars@ == s@,
            texts(fields@) + fields_from(delimiter, s@, from as int) == split_fields(
                delimiter,
                s@,
            ),
        decreases chars.len() - from,
    {
        proof {
            lemma_next_delimiter(delimiter, s@, from as int);
            lemma_fields_from(delimiter, s@, from as int);
        }
        let ghost before = fields@;
        let ghost rest = fields_from(delimiter, s@, from as int);
        let end = find_delimiter(delimiter, &chars, from);
        let field = slice_text(s, from, end);
        fields.push(field);
        assert(texts(fields@) =~= texts(before).push(rest[0]));
        if end == chars.len() {
            assert(rest =~= seq![rest[0]]);
            assert(texts(fields@) =~= texts(before) + rest);
            return fields;
        }
        assert(texts(fields@) + rest.drop_first() =~= texts(before) + rest);
        from = end + 1;
    }
}

/// Whether `s` ends with `suffix`.
pub open spec fn has_suffix(s: Seq<char>, suffix: Seq<char>) -> bool {
    suffix.len() <= s.len() && s.subrange(s.len() - suffix.len(), s.len() as int) == suffix
}

/// Whether the text `s` ends with the text `suffix`.
pub fn ends_with_text(s: &str, suffix: &str) -> (ends: bool)
    ensures
        ends == has_suffix(s@, suffix@),
{
    let chars = chars_of(s);
    let tail = chars_of(suffix);
    if tail.len() > chars.len() {
        return false;
    }
    let at: usize = chars.len() - tail.len();
    let ends = matches_at(&chars, &tail, at);
    assert(ends == has_suffix(s@, suffix@));
    ends
}

/// `s` without the occurrences of `pattern`, which are looked for from
/// left to right, each behind the one before. The empty pattern takes
/// nothing away.
pub open spec fn without(s: Seq<char>, pattern: Seq<char>) -> Seq<char>
    decreases s.len(),
{
    if pattern.len() == 0 || s.len() < pattern.len() {
        s
    } else if s.take(pattern.len() as int) == pattern {
        without(s.skip(pattern.len() as int), pattern)
    } else {
        seq![s[0]] + without(s.skip(1), pattern)
    }
}

/// Takes all occurrences of `pattern` out of `s`.
pub fn remove_all(s: &str, pattern: &str) -> (rest: String)
    ensures
        rest@ == without(s@, pattern@),
{
    let chars = chars_of(s);
    let pat = chars_of(pattern);
    if pat.len() == 0 || chars.len() < pat.len() {
        return s.to_owned();
    }
    let last: usize = chars.len() - pat.len();
    let mut rest = String::new();
    let mut kept_from: usize = 0;
    let mut at: usize = 0;
    assert(s@.skip(0) =~= s@);
    assert(rest@ + s@.subrange(0, 0) + without(s@, pattern@) =~= without(s@, pattern@));
    while at <= last
        invariant
            kept_from <= at <= chars.len(),
            last == chars.len() - pat.len(),
            0 < pat.len() <= chars.len(),
            chars@ == s@,
            pat@ == pattern@,
            rest@ + s@.subrange(kept_from as int, at as int) + without(s@.skip(at as int), pattern@)
                == without(s@, pattern@),
        decreases chars.len() - at,
    {
        let ghost tail = s@.skip(at as int);
        assert(tail.take(pat.len() as int) =~= s@.subrange(at as int, at + pat.len()));
        if matches_at(&chars, &pat, at) {
            rest.append(slice_text(s, kept_from, at).as_str());
            assert(tail.skip(pat.len() as int) =~= s@.skip(at + pat.len()));
            at = at + pat.len();
            kept_from = at;
            assert(s@.subrange(kept_from as int, at as int) =~= Seq::<char>::empty());
        } else {
            assert(tail.skip(1) =~= s@.skip(at + 1));
            assert(s@.subrange(kept_from as int, at as int) + seq![tail[0]] =~= s@.subrange(
                kept_from as int,
                at + 1,
            ));
            at = at + 1;
        }
    }
    rest.append(slice_text(s, kept_from, chars.len()).as_str());
    assert(s@.subrange(kept_from as int, at as int) + s@.skip(at as int) =~= s@.subrange(
        kept_from as int,
        s@.len() as int,
    ));
    rest
}

/// The lower-case form of a text, as the Unicode standard defines it.
pub uninterp spec fn lowercase(s: Seq<char>) -> Seq<char>;

/// `str::to_lowercase`: the lower-case form of `s` by the Unicode property
/// `Lowercase`. The contract gives the result its name and claims nothing
/// else of it.
#[verifier::external_body]
pub(crate) fn to_lowercase(s: &str) -> (lower: String)
    ensures
        lower@ == lowercase(s@),
{
    s.to_lowercase()
}

} // verus!
