//! Text: whitespace-separated tokens, decimal numbers, and the characters of a
//! string.
//!
//! The model of a string is its sequence of characters.

use vstd::prelude::*;
use vstd::string::{StrSliceExecFns, StringExecFns};

verus! {

/// `String::push` puts one character behind what the string holds.
pub assume_specification[ String::push ](text: &mut String, ch: char)
    ensures
        final(text)@ == old(text)@.push(ch),
;

/// The characters with the Unicode `White_Space` property.
pub open spec fn is_space(c: char) -> bool {
    let u = c as u32;
    ||| 0x09 <= u <= 0x0d
    ||| u == 0x20
    ||| u == 0x85
    ||| u == 0xa0
    ||| u == 0x1680
    ||| 0x2000 <= u <= 0x200a
    ||| u == 0x2028
    ||| u == 0x2029
    ||| u == 0x202f
    ||| u == 0x205f
    ||| u == 0x3000
}

/// Whether a character has the Unicode `White_Space` property.
pub fn is_whitespace(c: char) -> (r: bool)
    ensures
        r == is_space(c),
{
    let u: u32 = c as u32;
    (0x09 <= u && u <= 0x0d) || u == 0x20 || u == 0x85 || u == 0xa0 || u == 0x1680 || (0x2000 <= u
        && u <= 0x200a) || u == 0x2028 || u == 0x2029 || u == 0x202f || u == 0x205f || u == 0x3000
}

/// The number of characters before the first whitespace character, or before the
/// end.
pub open spec fn word_length(s: Seq<char>) -> nat
    decreases s.len(),
{
    if s.len() == 0 || is_space(s[0]) {
        0
    } else {
        1 + word_length(s.drop_first())
    }
}

/// What is left of a text once its leading whitespace is dropped.
pub open spec fn trim_start(s: Seq<char>) -> Seq<char>
    decreases s.len(),
{
    if s.len() > 0 && is_space(s[0]) {
        trim_start(s.drop_first())
    } else {
        s
    }
}

/// The maximal runs of characters that are not whitespace, in order.
pub open spec fn tokens(s: Seq<char>) -> Seq<Seq<char>>
    decreases s.len(),
{
    if s.len() == 0 {
        Seq::empty()
    } else if is_space(s[0]) {
        tokens(s.drop_first())
    } else {
        let n = word_length(s);
        if 0 < n <= s.len() {
            seq![s.take(n as int)] + tokens(s.skip(n as int))
        } else {
            Seq::empty()
        }
    }
}

/// The token at a place, or the empty text past the last one.
pub open spec fn token(s: Seq<char>, i: int) -> Seq<char> {
    if 0 <= i < tokens(s).len() {
        tokens(s)[i]
    } else {
        Seq::empty()
    }
}

/// The texts of a sequence of strings.
pub open spec fn texts(v: Seq<String>) -> Seq<Seq<char>> {
    Seq::new(v.len(), |i: int| v[i]@)
}

/// Texts joined by single spaces.
pub open spec fn joined(parts: Seq<Seq<char>>) -> Seq<char>
    decreases parts.len(),
{
    if parts.len() == 0 {
        Seq::empty()
    } else if parts.len() == 1 {
        parts[0]
    } else {
        joined(parts.drop_last()).push(' ') + parts.last()
    }
}

proof fn word_length_bound(s: Seq<char>)
    ensures
        word_length(s) <= s.len(),
        forall|i: int| 0 <= i < word_length(s) ==> !is_space(#[trigger] s[i]),
        word_length(s) < s.len() ==> is_space(s[word_length(s) as int]),
    decreases s.len(),
{
    if s.len() > 0 && !is_space(s[0]) {
        let rest = s.drop_first();
        word_length_bound(rest);
        assert forall|i: int| 0 <= i < word_length(s) implies !is_space(#[trigger] s[i]) by {
            if i > 0 {
                assert(rest[i - 1] == s[i]);
            }
        }
        if word_length(s) < s.len() {
            assert(rest[word_length(rest) as int] == s[word_length(s) as int]);
        }
    }
}

proof fn word_length_is(s: Seq<char>, n: int)
    requires
        0 <= n <= s.len(),
        forall|i: int| 0 <= i < n ==> !is_space(#[trigger] s[i]),
        n < s.len() ==> is_space(s[n]),
    ensures
        word_length(s) == n,
{
    word_length_bound(s);
    let w = word_length(s) as int;
    if w < n {
        assert(!is_space(s[w]));
    }
    if n < w {
        assert(!is_space(s[n]));
    }
}

/// Every token is non-empty and holds no whitespace.
pub proof fn tokens_are_words(s: Seq<char>)
    ensures
        forall|i: int, j: int|
            #![trigger tokens(s)[i][j]]
            0 <= i < tokens(s).len() && 0 <= j < tokens(s)[i].len() ==> !is_space(tokens(s)[i][j]),
        forall|i: int| 0 <= i < tokens(s).len() ==> (#[trigger] tokens(s)[i]).len() > 0,
    decreases s.len(),
{
    if s.len() > 0 {
        if is_space(s[0]) {
            tokens_are_words(s.drop_first());
            assert(tokens(s) == tokens(s.drop_first()));
        } else {
            word_length_bound(s);
            let n = word_length(s) as int;
            tokens_are_words(s.skip(n));
            let rest = tokens(s.skip(n));
            assert(tokens(s) == seq![s.take(n)] + rest);
            assert forall|i: int| 0 <= i < tokens(s).len() implies (#[trigger] tokens(s)[i]).len()
                > 0 by {
                if i > 0 {
                    assert(tokens(s)[i] == rest[i - 1]);
                }
            }
            assert forall|i: int, j: int|
                #![trigger tokens(s)[i][j]]
                0 <= i < tokens(s).len() && 0 <= j < tokens(s)[i].len() implies !is_space(
                tokens(s)[i][j],
            ) by {
                if i > 0 {
                    assert(tokens(s)[i] == rest[i - 1]);
                    assert(!is_space(rest[i - 1][j]));
                } else {
                    assert(tokens(s)[0] == s.take(n));
                    assert(s.take(n)[j] == s[j]);
                }
            }
        }
    }
}

/// Texts joined by single spaces split back into the same texts, when each is
/// non-empty and holds no whitespace.
pub proof fn splitting_undoes_joining(parts: Seq<Seq<char>>)
    requires
        forall|i: int| 0 <= i < parts.len() ==> (#[trigger] parts[i]).len() > 0,
        forall|i: int, j: int|
            #![trigger parts[i][j]]
            0 <= i < parts.len() && 0 <= j < parts[i].len() ==> !is_space(parts[i][j]),
    ensures
        tokens(joined(parts)) == parts,
    decreases parts.len(),
{
    if parts.len() == 0 {
        assert(tokens(joined(parts)) =~= parts);
    } else if parts.len() == 1 {
        let w = parts[0];
        word_length_is(w, w.len() as int);
        assert(w.take(w.len() as int) =~= w);
        assert(w.skip(w.len() as int) =~= Seq::<char>::empty());
        assert(tokens(Seq::<char>::empty()) =~= Seq::<Seq<char>>::empty());
        assert(tokens(w) =~= parts);
    } else {
        let front = parts.drop_last();
        let last = parts.last();
        assert forall|i: int, j: int|
            #![trigger front[i][j]]
            0 <= i < front.len() && 0 <= j < front[i].len() implies !is_space(front[i][j]) by {
            assert(front[i] == parts[i]);
            assert(!is_space(parts[i][j]));
        }
        splitting_undoes_joining(front);
        let single = seq![last];
        assert forall|i: int, j: int|
            #![trigger single[i][j]]
            0 <= i < single.len() && 0 <= j < single[i].len() implies !is_space(single[i][j]) by {
            assert(!is_space(parts[parts.len() - 1][j]));
        }
        splitting_undoes_joining(single);
        tokens_split(joined(front), ' ', last);
        assert(joined(front).push(' ') + last =~= joined(front) + (seq![' '] + last));
        assert(joined(front) + seq![' '] + last =~= joined(front) + (seq![' '] + last));
        assert(front + single =~= parts);
    }
}

/// Whitespace between two texts separates their tokens.
pub proof fn tokens_split(a: Seq<char>, gap: char, b: Seq<char>)
    requires
        is_space(gap),
    ensures
        tokens(a + seq![gap] + b) == tokens(a) + tokens(b),
    decreases a.len(),
{
    let s = a + seq![gap] + b;
    if a.len() == 0 {
        assert(s.drop_first() =~= b);
        assert(s[0] == gap);
        assert(tokens(a) + tokens(b) =~= tokens(b));
    } else if is_space(a[0]) {
        assert(s[0] == a[0]);
        assert(s.drop_first() =~= a.drop_first() + seq![gap] + b);
        tokens_split(a.drop_first(), gap, b);
    } else {
        assert(s[0] == a[0]);
        word_length_bound(a);
        let n = word_length(a) as int;
        assert forall|i: int| 0 <= i < n implies !is_space(#[trigger] s[i]) by {
            assert(s[i] == a[i]);
        }
        if n < a.len() {
            assert(s[n] == a[n]);
        } else {
            assert(s[n] == gap);
        }
        word_length_is(s, n);
        assert(s.take(n) =~= a.take(n));
        assert(s.skip(n) =~= a.skip(n) + seq![gap] + b);
        tokens_split(a.skip(n), gap, b);
        assert(tokens(s) =~= tokens(a) + tokens(b));
    }
}

/// The characters of a string.
pub fn characters(text: &str) -> (r: Vec<char>)
    ensures
        r@ == text@,
{
    let mut out: Vec<char> = Vec::new();
    for c in iter: text.chars()
        invariant
            iter.seq() == text@,
            out@ == text@.take(iter.index()),
    {
        out.push(c);
        assert(text@.take(iter.index() + 1) =~= text@.take(iter.index()).push(c));
    }
    assert(text@.take(text@.len() as int) =~= text@);
    out
}

/// Whether two texts are the same.
pub fn same_text(a: &str, b: &str) -> (r: bool)
    ensures
        r == (a@ == b@),
{
    a.to_owned() == b.to_owned()
}

/// Splits a text into its whitespace-separated tokens.
pub fn split_whitespace(text: &str) -> (r: Vec<String>)
    ensures
        texts(r@) == tokens(text@),
{
    let chars = characters(text);
    let mut out: Vec<String> = Vec::new();
    let mut i: usize = 0;
    proof {
        assert(text@.skip(0) =~= text@);
        assert(texts(out@) + tokens(text@) =~= tokens(text@));
    }
    while i < chars.len()
        invariant
            i <= chars.len(),
            chars@ == text@,
            texts(out@) + tokens(text@.skip(i as int)) == tokens(text@),
        decreases chars.len() - i,
    {
        let ghost rest = text@.skip(i as int);
        assert(rest[0] == chars[i as int]);
        if is_whitespace(chars[i]) {
            assert(rest.drop_first() =~= text@.skip(i + 1));
            i = i + 1;
        } else {
            let mut j: usize = i;
            while j < chars.len() && !is_whitespace(chars[j])
                invariant
                    i <= j <= chars.len(),
                    chars@ == text@,
                    forall|k: int| i <= k < j ==> !is_space(#[trigger] text@[k]),
                decreases chars.len() - j,
            {
                j = j + 1;
            }
            let word = text.substring_char(i, j).to_owned();
            proof {
                let n = j - i;
                assert forall|k: int| 0 <= k < n implies !is_space(#[trigger] rest[k]) by {
                    assert(rest[k] == text@[i + k]);
                }
                if j < chars.len() {
                    assert(rest[n] == text@[j as int]);
                }
                word_length_is(rest, n);
                assert(rest.take(n) =~= word@);
                assert(rest.skip(n) =~= text@.skip(j as int));
                assert(tokens(rest) == seq![word@] + tokens(text@.skip(j as int)));
            }
            let ghost before = texts(out@);
            out.push(word);
            proof {
                assert(texts(out@) =~= before.push(word@));
                assert(texts(out@) + tokens(text@.skip(j as int)) =~= before + tokens(rest));
            }
            i = j;
        }
    }
    proof {
        assert(text@.skip(i as int) =~= Seq::<char>::empty());
        assert(texts(out@) + Seq::<Seq<char>>::empty() =~= texts(out@));
    }
    out
}

/// Joins the tokens from a place on with single spaces.
pub fn join_rest(parts: &Vec<String>, from: usize) -> (r: String)
    requires
        from <= parts.len(),
    ensures
        r@ == joined(texts(parts@).skip(from as int)),
{
    let mut out: String = String::new();
    let ghost all = texts(parts@);
    let mut i: usize = from;
    assert(joined(all.subrange(from as int, from as int)) =~= Seq::<char>::empty());
    while i < parts.len()
        invariant
            from <= i <= parts.len(),
            all == texts(parts@),
            out@ == joined(all.subrange(from as int, i as int)),
        decreases parts.len() - i,
    {
        if i > from {
            out.push(' ');
        }
        out.append(parts[i].as_str());
        proof {
            let done = all.subrange(from as int, i + 1);
            assert(done.drop_last() =~= all.subrange(from as int, i as int));
            assert(done.last() == parts[i as int]@);
            if i == from {
                assert(out@ =~= parts[i as int]@);
            }
        }
        i = i + 1;
    }
    assert(all.subrange(from as int, i as int) =~= all.skip(from as int));
    out
}

/// Returns `value` only if no token stands at `next` or behind it.
pub fn only<T>(value: T, parts: &Vec<String>, next: usize) -> (r: Option<T>)
    ensures
        r == if next >= parts.len() {
            Some(value)
        } else {
            None
        },
{
    if next >= parts.len() {
        Some(value)
    } else {
        None
    }
}

/// What follows the first token of a command, without leading whitespace; the empty
/// text where nothing does, or where there is no token.
pub open spec fn argument_tail(command: Seq<char>) -> Seq<char> {
    let literal_first = trim_start(command);
    trim_start(literal_first.skip(word_length(literal_first) as int))
}

proof fn trimming_keeps_tokens(s: Seq<char>)
    ensures
        tokens(trim_start(s)) == tokens(s),
        trim_start(s).len() > 0 ==> !is_space(trim_start(s)[0]),
    decreases s.len(),
{
    if s.len() > 0 && is_space(s[0]) {
        trimming_keeps_tokens(s.drop_first());
    }
}

/// A command is its literal and its argument tail: the tokens of the tail are the
/// tokens of the command behind the first.
pub proof fn arguments_follow_the_literal(command: Seq<char>)
    ensures
        tokens(command).len() <= 1 ==> argument_tail(command).len() == 0,
        tokens(command).len() > 0 ==> tokens(command) == seq![token(command, 0)] + tokens(
            argument_tail(command),
        ),
{
    let literal_first = trim_start(command);
    let n = word_length(literal_first) as int;
    trimming_keeps_tokens(command);
    word_length_bound(literal_first);
    trimming_keeps_tokens(literal_first.skip(n));
    word_length_bound(argument_tail(command));
    if literal_first.len() > 0 {
        let rest = tokens(literal_first.skip(n));
        assert(tokens(command) == seq![literal_first.take(n)] + rest);
        assert(token(command, 0) == literal_first.take(n));
    } else {
        assert(literal_first.skip(n) =~= Seq::<char>::empty());
    }
}

/// The place of the first character from `from` on that is not whitespace, or the end.
fn skip_whitespace(chars: &Vec<char>, from: usize) -> (r: usize)
    requires
        from <= chars.len(),
    ensures
        from <= r <= chars.len(),
        trim_start(chars@.skip(from as int)) == chars@.skip(r as int),
{
    let mut i: usize = from;
    while i < chars.len() && is_whitespace(chars[i])
        invariant
            from <= i <= chars.len(),
            trim_start(chars@.skip(from as int)) == trim_start(chars@.skip(i as int)),
        decreases chars.len() - i,
    {
        assert(chars@.skip(i as int)[0] == chars@[i as int]);
        assert(chars@.skip(i as int).drop_first() =~= chars@.skip(i + 1));
        i = i + 1;
    }
    proof {
        if i < chars.len() {
            assert(chars@.skip(i as int)[0] == chars@[i as int]);
        }
    }
    i
}

/// Returns everything after the leading command literal (the argument tail),
/// trimmed of leading whitespace, or `""` when the command has no arguments.
pub fn command_args(command: &str) -> (r: &str)
    ensures
        r@ == argument_tail(command@),
{
    let chars = characters(command);
    assert(command@.skip(0) =~= command@);
    let start: usize = skip_whitespace(&chars, 0);
    let ghost literal_first = command@.skip(start as int);
    let mut end: usize = start;
    while end < chars.len() && !is_whitespace(chars[end])
        invariant
            start <= end <= chars.len(),
            chars@ == command@,
            literal_first == command@.skip(start as int),
            forall|k: int| 0 <= k < end - start ==> !is_space(#[trigger] literal_first[k]),
        decreases chars.len() - end,
    {
        assert(literal_first[end - start] == command@[end as int]);
        end = end + 1;
    }
    proof {
        if end < chars.len() {
            assert(literal_first[end - start] == command@[end as int]);
        }
        word_length_is(literal_first, end - start);
        assert(literal_first.skip(end - start) =~= command@.skip(end as int));
    }
    let tail: usize = skip_whitespace(&chars, end);
    let rest = command.substring_char(tail, chars.len());
    assert(rest@ =~= command@.skip(tail as int));
    rest
}

/// Returns the first whitespace-delimited token of `args`, or `""` if empty.
pub fn first_token(args: &str) -> (r: &str)
    ensures
        r@ == token(args@, 0),
{
    let chars = characters(args);
    let mut i: usize = 0;
    assert(args@.skip(0) =~= args@);
    while i < chars.len() && is_whitespace(chars[i])
        invariant
            i <= chars.len(),
            chars@ == args@,
            tokens(args@) == tokens(args@.skip(i as int)),
        decreases chars.len() - i,
    {
        assert(args@.skip(i as int)[0] == args@[i as int]);
        assert(args@.skip(i as int).drop_first() =~= args@.skip(i + 1));
        i = i + 1;
    }
    let ghost rest = args@.skip(i as int);
    let mut j: usize = i;
    while j < chars.len() && !is_whitespace(chars[j])
        invariant
            i <= j <= chars.len(),
            chars@ == args@,
            forall|k: int| i <= k < j ==> !is_space(#[trigger] args@[k]),
        decreases chars.len() - j,
    {
        j = j + 1;
    }
    let word = args.substring_char(i, j);
    proof {
        if i == chars.len() {
            assert(rest =~= Seq::<char>::empty());
            assert(word@ =~= Seq::<char>::empty());
        } else {
            let n = j - i;
            assert forall|k: int| 0 <= k < n implies !is_space(#[trigger] rest[k]) by {
                assert(rest[k] == args@[i + k]);
            }
            if j < chars.len() {
                assert(rest[n] == args@[j as int]);
            }
            word_length_is(rest, n);
            assert(rest[0] == args@[i as int]);
            assert(rest.take(n) =~= word@);
            assert(tokens(rest)[0] == rest.take(n));
        }
    }
    word
}

/// The decimal digit of a number below ten.
pub open spec fn digit(n: int) -> char {
    if n == 0 {
        '0'
    } else if n == 1 {
        '1'
    } else if n == 2 {
        '2'
    } else if n == 3 {
        '3'
    } else if n == 4 {
        '4'
    } else if n == 5 {
        '5'
    } else if n == 6 {
        '6'
    } else if n == 7 {
        '7'
    } else if n == 8 {
        '8'
    } else {
        '9'
    }
}

/// The decimal digits of a natural number.
pub open spec fn decimal(n: nat) -> Seq<char>
    decreases n,
{
    if n < 10 {
        seq![digit(n as int)]
    } else {
        decimal(n / 10).push(digit((n % 10) as int))
    }
}

/// The decimal text of an integer, with a minus sign where it is negative.
pub open spec fn signed_decimal(n: int) -> Seq<char> {
    if n < 0 {
        seq!['-'] + decimal((-n) as nat)
    } else {
        decimal(n as nat)
    }
}

fn digit_char(n: u128) -> (r: char)
    requires
        n < 10,
    ensures
        r == digit(n as int),
{
    match n {
        0 => '0',
        1 => '1',
        2 => '2',
        3 => '3',
        4 => '4',
        5 => '5',
        6 => '6',
        7 => '7',
        8 => '8',
        _ => '9',
    }
}

/// Appends the decimal digits of a number.
pub fn append_decimal(text: &mut String, n: u128)
    ensures
        final(text)@ == old(text)@ + decimal(n as nat),
    decreases n,
{
    if n >= 10 {
        append_decimal(text, n / 10);
    }
    text.push(digit_char(n % 10));
    proof {
        if n >= 10 {
            assert(text@ =~= old(text)@ + decimal(n as nat));
        } else {
            assert(text@ =~= old(text)@ + seq![digit(n as int)]);
        }
    }
}

/// Appends the decimal text of a signed number.
pub fn append_signed(text: &mut String, n: i64)
    ensures
        final(text)@ == old(text)@ + signed_decimal(n as int),
{
    if n < 0 {
        text.push('-');
        let magnitude: u128 = (-(n as i128)) as u128;
        append_decimal(text, magnitude);
        assert(text@ =~= old(text)@ + (seq!['-'] + decimal((-n) as nat)));
    } else {
        append_decimal(text, n as u128);
    }
}

/// Whether a character is an ASCII decimal digit.
pub open spec fn is_digit(c: char) -> bool {
    0x30 <= c as u32 <= 0x39
}

/// The number that decimal digits denote.
pub open spec fn digits_value(s: Seq<char>) -> nat
    decreases s.len(),
{
    if s.len() == 0 {
        0
    } else {
        digits_value(s.drop_last()) * 10 + (s.last() as u32 - 0x30) as nat
    }
}

/// Whether a text is one or more decimal digits.
pub open spec fn all_digits(s: Seq<char>) -> bool {
    s.len() > 0 && forall|i: int| 0 <= i < s.len() ==> is_digit(#[trigger] s[i])
}

/// The integer in `low..=high` that a text denotes: an optional sign and decimal
/// digits.
pub open spec fn integer_in(s: Seq<char>, low: int, high: int) -> Option<int> {
    let signed = s.len() > 0 && (s[0] == '-' || s[0] == '+');
    let digits = if signed {
        s.drop_first()
    } else {
        s
    };
    let value = if s.len() > 0 && s[0] == '-' {
        -(digits_value(digits) as int)
    } else {
        digits_value(digits) as int
    };
    if all_digits(digits) && low <= value <= high {
        Some(value)
    } else {
        None
    }
}

/// Reads the integer in `low..=high` that a text denotes.
pub fn parse_integer(text: &str, low: i64, high: i64) -> (r: Option<i64>)
    ensures
        r is Some == integer_in(text@, low as int, high as int) is Some,
        r matches Some(n) ==> integer_in(text@, low as int, high as int) == Some(n as int),
{
    let chars = characters(text);
    let negative = chars.len() > 0 && chars[0] == '-';
    let start: usize = if chars.len() > 0 && (chars[0] == '-' || chars[0] == '+') {
        1
    } else {
        0
    };
    let ghost digits = text@.skip(start as int);
    proof {
        if start == 1 {
            assert(digits =~= text@.drop_first());
        } else {
            assert(digits =~= text@);
        }
    }
    if start == chars.len() {
        return None;
    }
    let mut value: u64 = 0;
    let mut huge = false;
    let mut i: usize = start;
    assert(digits.take(0) =~= Seq::<char>::empty());
    while i < chars.len()
        invariant
            start <= i <= chars.len(),
            chars@ == text@,
            start == if chars.len() > 0 && (chars[0] == '-' || chars[0] == '+') {
                1int
            } else {
                0int
            },
            start == 1 ==> digits == text@.drop_first(),
            start == 0 ==> digits == text@,
            digits == text@.skip(start as int),
            forall|k: int| 0 <= k < i - start ==> is_digit(#[trigger] digits[k]),
            huge ==> digits_value(digits.take(i - start)) > 0x8000_0000_0000_0000,
            !huge ==> value == digits_value(digits.take(i - start)),
            !huge ==> value <= 0x8000_0000_0000_0000,
        decreases chars.len() - i,
    {
        let c: u32 = chars[i] as u32;
        assert(digits[i - start] == chars[i as int]);
        if c < 0x30 || c > 0x39 {
            assert(!is_digit(digits[i - start]));
            return None;
        }
        proof {
            let done = digits.take(i + 1 - start);
            assert(done.drop_last() =~= digits.take(i - start));
            assert(done.last() == chars[i as int]);
        }
        if !huge {
            let next: u128 = (value as u128) * 10 + ((c - 0x30) as u128);
            if next > 0x8000_0000_0000_0000 {
                huge = true;
            } else {
                value = next as u64;
            }
        }
        i = i + 1;
    }
    assert(digits.take(i - start) =~= digits);
    if huge {
        return None;
    }
    let signed: i128 = if negative {
        -(value as i128)
    } else {
        value as i128
    };
    if (low as i128) <= signed && signed <= (high as i128) {
        Some(signed as i64)
    } else {
        None
    }
}

proof fn decimal_digits(n: nat)
    ensures
        all_digits(decimal(n)),
        digits_value(decimal(n)) == n,
    decreases n,
{
    if n < 10 {
        let s = seq![digit(n as int)];
        assert(s.drop_last() =~= Seq::<char>::empty());
        assert(digits_value(s.drop_last()) == 0);
    } else {
        decimal_digits(n / 10);
        let s = decimal(n);
        assert(s.drop_last() =~= decimal(n / 10));
    }
}

/// The decimal text of an integer reads back as that integer.
pub proof fn decimal_reads_back(n: int, low: int, high: int)
    requires
        low <= n <= high,
    ensures
        integer_in(signed_decimal(n), low, high) == Some(n),
{
    let m = if n < 0 {
        (-n) as nat
    } else {
        n as nat
    };
    decimal_digits(m);
    let s = signed_decimal(n);
    if n < 0 {
        assert(s.drop_first() =~= decimal(m));
    } else {
        assert(is_digit(s[0]));
    }
}

} // verus!
