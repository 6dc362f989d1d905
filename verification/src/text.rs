//! Characters, lines and separated fields of pseudo-file text.
//!
//! Everything here works on sequences of characters. Text comes in as `&str`,
//! is turned into a `Vec<char>` once, and leaves as `String`.

use vstd::prelude::*;

verus! {

/// Whether `c` has the Unicode property `White_Space`.
pub open spec fn is_space(c: char) -> bool {
    let n = c as u32;
    ||| 0x09 <= n <= 0x0D
    ||| n == 0x20
    ||| n == 0x85
    ||| n == 0xA0
    ||| n == 0x1680
    ||| 0x2000 <= n <= 0x200A
    ||| n == 0x2028
    ||| n == 0x2029
    ||| n == 0x202F
    ||| n == 0x205F
    ||| n == 0x3000
}

/// Tells whether `c` is a whitespace character.
pub fn is_whitespace(c: char) -> (b: bool)
    ensures
        b == is_space(c),
{
    let n: u32 = c as u32;
    (0x09 <= n && n <= 0x0D) || n == 0x20 || n == 0x85 || n == 0xA0 || n == 0x1680 || (0x2000 <= n
        && n <= 0x200A) || n == 0x2028 || n == 0x2029 || n == 0x202F || n == 0x205F || n == 0x3000
}

/// What separates the fields of a text.
#[derive(Clone, Copy, Debug, PartialEq, Eq, Structural)]
pub enum Separator {
    /// Any run of whitespace characters.
    Whitespace,
    /// The NUL character.
    Nul,
}

/// Whether `c` separates fields under `sep`.
pub open spec fn separates(sep: Separator, c: char) -> bool {
    match sep {
        Separator::Whitespace => is_space(c),
        Separator::Nul => c == '\0',
    }
}

/// Tells whether `c` separates fields under `sep`.
pub fn is_separator(sep: Separator, c: char) -> (b: bool)
    ensures
        b == separates(sep, c),
{
    match sep {
        Separator::Whitespace => is_whitespace(c),
        Separator::Nul => c == '\0',
    }
}

/// How many separators stand in `s` from index `i` on, before the first
/// character that is none.
pub open spec fn gap_len(s: Seq<char>, sep: Separator, i: int) -> nat
    decreases s.len() - i,
{
    if 0 <= i < s.len() && separates(sep, s[i]) {
        1 + gap_len(s, sep, i + 1)
    } else {
        0
    }
}

/// How many characters that are no separator stand in `s` from index `i` on,
/// before the first separator.
pub open spec fn run_len(s: Seq<char>, sep: Separator, i: int) -> nat
    decreases s.len() - i,
{
    if 0 <= i < s.len() && !separates(sep, s[i]) {
        1 + run_len(s, sep, i + 1)
    } else {
        0
    }
}

/// The non-empty fields of `s` that begin at index `i` or later: each is a
/// maximal run of characters that are no separator.
pub open spec fn fields_from(s: Seq<char>, sep: Separator, i: int) -> Seq<Seq<char>>
    decreases s.len() - i,
{
    let a = i + gap_len(s, sep, i);
    let b = a + run_len(s, sep, a);
    if 0 <= i && a < b <= s.len() {
        seq![s.subrange(a, b)] + fields_from(s, sep, b)
    } else {
        Seq::empty()
    }
}

/// The non-empty fields of `s` under `sep`, in order.
pub open spec fn fields(s: Seq<char>, sep: Separator) -> Seq<Seq<char>> {
    fields_from(s, sep, 0)
}

/// The whitespace-separated tokens of `s`, in order.
pub open spec fn tokens(s: Seq<char>) -> Seq<Seq<char>> {
    fields(s, Separator::Whitespace)
}

/// A gap ends inside the text, on a character that is no separator or at the
/// end.
pub proof fn lemma_gap_len(s: Seq<char>, sep: Separator, i: int)
    requires
        0 <= i <= s.len(),
    ensures
        i + gap_len(s, sep, i) <= s.len(),
        forall|k: int| i <= k < i + gap_len(s, sep, i) ==> separates(sep, #[trigger] s[k]),
        i + gap_len(s, sep, i) < s.len() ==> !separates(sep, s[i + gap_len(s, sep, i)]),
    decreases s.len() - i,
{
    if i < s.len() && separates(sep, s[i]) {
        lemma_gap_len(s, sep, i + 1);
    }
}

/// A run ends inside the text, on a separator or at the end.
pub proof fn lemma_run_len(s: Seq<char>, sep: Separator, i: int)
    requires
        0 <= i <= s.len(),
    ensures
        i + run_len(s, sep, i) <= s.len(),
        forall|k: int| i <= k < i + run_len(s, sep, i) ==> !separates(sep, #[trigger] s[k]),
        i + run_len(s, sep, i) < s.len() ==> separates(sep, s[i + run_len(s, sep, i)]),
    decreases s.len() - i,
{
    if i < s.len() && !separates(sep, s[i]) {
        lemma_run_len(s, sep, i + 1);
    }
}

/// Each field that begins at index `i` or later holds a character, and
/// holds no separator.
pub proof fn lemma_fields_from(s: Seq<char>, sep: Separator, i: int, k: int)
    requires
        0 <= i <= s.len(),
        0 <= k < fields_from(s, sep, i).len(),
    ensures
        fields_from(s, sep, i)[k].len() > 0,
        forall|j: int|
            0 <= j < fields_from(s, sep, i)[k].len() ==> !separates(
                sep,
                #[trigger] fields_from(s, sep, i)[k][j],
            ),
    decreases s.len() - i,
{
    let a = i + gap_len(s, sep, i);
    let b = a + run_len(s, sep, a);
    lemma_gap_len(s, sep, i);
    lemma_run_len(s, sep, a);
    if a < b <= s.len() {
        let first = s.subrange(a, b);
        let rest = fields_from(s, sep, b);
        assert(fields_from(s, sep, i) == seq![first] + rest);
        if k == 0 {
            assert(fields_from(s, sep, i)[0] == first);
            assert forall|j: int| 0 <= j < first.len() implies !separates(
                sep,
                #[trigger] first[j],
            ) by {
                assert(first[j] == s[a + j]);
            }
        } else {
            assert(fields_from(s, sep, i)[k] == rest[k - 1]);
            lemma_fields_from(s, sep, b, k - 1);
        }
    }
}

/// Each field holds a character, and holds no separator.
pub proof fn lemma_fields(s: Seq<char>, sep: Separator, k: int)
    requires
        0 <= k < fields(s, sep).len(),
    ensures
        fields(s, sep)[k].len() > 0,
        forall|j: int|
            0 <= j < fields(s, sep)[k].len() ==> !separates(sep, #[trigger] fields(s, sep)[k][j]),
{
    lemma_fields_from(s, sep, 0, k);
}

/// A text that holds a character and no separator is its own only field.
pub proof fn lemma_fields_of_one_run(s: Seq<char>, sep: Separator)
    requires
        s.len() > 0,
        forall|j: int| 0 <= j < s.len() ==> !separates(sep, #[trigger] s[j]),
    ensures
        fields(s, sep) == seq![s],
{
    lemma_gap_len(s, sep, 0);
    lemma_run_len(s, sep, 0);
    let b = run_len(s, sep, 0) as int;
    if b < s.len() {
        assert(separates(sep, s[b]));
    }
    assert(s.subrange(0, b) =~= s);
    assert(fields_from(s, sep, s.len() as int) =~= Seq::<Seq<char>>::empty());
    assert(fields(s, sep) =~= seq![s]);
}

/// `String::push` of the standard library, taken on trust: after the call
/// the string holds what it held before, and then `ch`.
pub assume_specification[ String::push ](s: &mut String, ch: char)
    ensures
        final(s)@ == old(s)@.push(ch),
;

/// The characters of `s`, in order.
pub fn chars_of(s: &str) -> (out: Vec<char>)
    ensures
        out@ == s@,
{
    let mut out: Vec<char> = Vec::new();
    for c in it: s.chars()
        invariant
            out@ == it.seq().take(it.index()),
    {
        out.push(c);
    }
    out
}

/// The string made of the characters of `chars`.
pub fn string_of(chars: &Vec<char>) -> (out: String)
    ensures
        out@ == chars@,
{
    let mut out = String::new();
    let mut i: usize = 0;
    while i < chars.len()
        invariant
            i <= chars.len(),
            out@ == chars@.take(i as int),
        decreases chars.len() - i,
    {
        out.push(chars[i]);
        i += 1;
    }
    out
}

/// The characters `s[from..to]`.
fn slice_of(s: &Vec<char>, from: usize, to: usize) -> (out: Vec<char>)
    requires
        from <= to <= s.len(),
    ensures
        out@ == s@.subrange(from as int, to as int),
{
    let mut out: Vec<char> = Vec::new();
    let mut i: usize = from;
    while i < to
        invariant
            from <= i <= to <= s.len(),
            out@ == s@.subrange(from as int, i as int),
        decreases to - i,
    {
        out.push(s[i]);
        i += 1;
    }
    out
}

/// The index of the first character at or after `i` that is no separator, or
/// the length of `s`.
fn skip_gap(s: &Vec<char>, sep: Separator, i: usize) -> (a: usize)
    requires
        i <= s.len(),
    ensures
        a == i + gap_len(s@, sep, i as int),
        a <= s.len(),
{
    let mut a: usize = i;
    while a < s.len() && is_separator(sep, s[a])
        invariant
            i <= a <= s.len(),
            gap_len(s@, sep, i as int) == (a - i) + gap_len(s@, sep, a as int),
        decreases s.len() - a,
    {
        a += 1;
    }
    a
}

/// The index of the first separator at or after `i`, or the length of `s`.
fn skip_run(s: &Vec<char>, sep: Separator, i: usize) -> (b: usize)
    requires
        i <= s.len(),
    ensures
        b == i + run_len(s@, sep, i as int),
        b <= s.len(),
{
    let mut b: usize = i;
    while b < s.len() && !is_separator(sep, s[b])
        invariant
            i <= b <= s.len(),
            run_len(s@, sep, i as int) == (b - i) + run_len(s@, sep, b as int),
        decreases s.len() - b,
    {
        b += 1;
    }
    b
}

/// Splits `s` into its non-empty fields under `sep`.
pub fn split(s: &Vec<char>, sep: Separator) -> (out: Vec<Vec<char>>)
    ensures
        out.deep_view() == fields(s@, sep),
{
    let mut out: Vec<Vec<char>> = Vec::new();
    let mut i: usize = 0;
    assert(out.deep_view() =~= Seq::<Seq<char>>::empty());
    while i < s.len()
        invariant
            i <= s.len(),
            out.deep_view() + fields_from(s@, sep, i as int) == fields(s@, sep),
        decreases s.len() - i,
    {
        let a = skip_gap(s, sep, i);
        let b = skip_run(s, sep, a);
        if a < b {
            let field = slice_of(s, a, b);
            let ghost before = out.deep_view();
            out.push(field);
            assert(out.deep_view() =~~= before.push(s@.subrange(a as int, b as int)));
            assert(before.push(s@.subrange(a as int, b as int)) + fields_from(s@, sep, b as int)
                =~= before + fields_from(s@, sep, i as int));
            i = b;
        } else {
            assert(fields_from(s@, sep, i as int) =~= Seq::<Seq<char>>::empty());
            assert(fields_from(s@, sep, s.len() as int) =~= Seq::<Seq<char>>::empty());
            i = s.len();
        }
    }
    assert(fields_from(s@, sep, s.len() as int) =~= Seq::<Seq<char>>::empty());
    out
}

/// The first whitespace-separated token of `s`, if it has one.
pub open spec fn first_of_tokens(s: Seq<char>) -> Option<Seq<char>> {
    if tokens(s).len() > 0 {
        Some(tokens(s)[0])
    } else {
        None
    }
}

/// Finds the first whitespace-separated token of `s`.
pub fn first_token(s: &str) -> (out: Option<String>)
    ensures
        out matches Some(token) ==> first_of_tokens(s@) == Some(token@),
        out is None ==> first_of_tokens(s@) is None,
{
    let chars = chars_of(s);
    let a = skip_gap(&chars, Separator::Whitespace, 0);
    let b = skip_run(&chars, Separator::Whitespace, a);
    if a < b {
        Some(string_of(&slice_of(&chars, a, b)))
    } else {
        None
    }
}

/// How many characters stand in `s` from index `i` on, before the next line
/// feed.
pub open spec fn line_len(s: Seq<char>, i: int) -> nat
    decreases s.len() - i,
{
    if 0 <= i < s.len() && s[i] != '\n' {
        1 + line_len(s, i + 1)
    } else {
        0
    }
}

/// `line` without one carriage return at its end.
pub open spec fn chomp(line: Seq<char>) -> Seq<char> {
    if line.len() > 0 && line.last() == '\r' {
        line.drop_last()
    } else {
        line
    }
}

/// The lines of `s` that begin at index `i` or later.
pub open spec fn lines_from(s: Seq<char>, i: int) -> Seq<Seq<char>>
    decreases s.len() - i,
{
    let e = i + line_len(s, i);
    if 0 <= i < s.len() && e < s.len() {
        seq![chomp(s.subrange(i, e))] + lines_from(s, e + 1)
    } else if 0 <= i < s.len() && e == s.len() {
        seq![s.subrange(i, e)]
    } else {
        Seq::empty()
    }
}

/// The lines of `s`. A line ends with a line feed, or with a carriage return
/// and a line feed; neither belongs to the line. The last line needs no line
/// ending, and an empty text has no line.
pub open spec fn lines(s: Seq<char>) -> Seq<Seq<char>> {
    lines_from(s, 0)
}

/// A line ends inside the text, on a line feed or at the end.
pub proof fn lemma_line_len(s: Seq<char>, i: int)
    requires
        0 <= i <= s.len(),
    ensures
        i + line_len(s, i) <= s.len(),
        forall|k: int| i <= k < i + line_len(s, i) ==> #[trigger] s[k] != '\n',
        i + line_len(s, i) < s.len() ==> s[i + line_len(s, i)] == '\n',
    decreases s.len() - i,
{
    if i < s.len() && s[i] != '\n' {
        lemma_line_len(s, i + 1);
    }
}

/// No line that begins at index `i` or later holds a line feed.
pub proof fn lemma_lines_from(s: Seq<char>, i: int, k: int)
    requires
        0 <= i <= s.len(),
        0 <= k < lines_from(s, i).len(),
    ensures
        forall|j: int|
            0 <= j < lines_from(s, i)[k].len() ==> #[trigger] lines_from(s, i)[k][j] != '\n',
    decreases s.len() - i,
{
    let e = i + line_len(s, i);
    lemma_line_len(s, i);
    if i < s.len() && e < s.len() {
        let whole = s.subrange(i, e);
        let first = chomp(whole);
        let rest = lines_from(s, e + 1);
        assert(lines_from(s, i) == seq![first] + rest);
        if k == 0 {
            assert(lines_from(s, i)[0] == first);
            assert forall|j: int| 0 <= j < first.len() implies #[trigger] first[j] != '\n' by {
                assert(first[j] == whole[j]);
                assert(whole[j] == s[i + j]);
            }
        } else {
            assert(lines_from(s, i)[k] == rest[k - 1]);
            lemma_lines_from(s, e + 1, k - 1);
        }
    } else if i < s.len() && e == s.len() {
        let first = s.subrange(i, e);
        assert(lines_from(s, i)[0] == first);
        assert forall|j: int| 0 <= j < first.len() implies #[trigger] first[j] != '\n' by {
            assert(first[j] == s[i + j]);
        }
    }
}

/// No line holds a line feed.
pub proof fn lemma_lines(s: Seq<char>, k: int)
    requires
        0 <= k < lines(s).len(),
    ensures
        forall|j: int| 0 <= j < lines(s)[k].len() ==> #[trigger] lines(s)[k][j] != '\n',
{
    lemma_lines_from(s, 0, k);
}

/// The index of the next line feed at or after `i`, or the length of `s`.
fn skip_line(s: &Vec<char>, i: usize) -> (e: usize)
    requires
        i <= s.len(),
    ensures
        e == i + line_len(s@, i as int),
        e <= s.len(),
{
    let mut e: usize = i;
    while e < s.len() && s[e] != '\n'
        invariant
            i <= e <= s.len(),
            line_len(s@, i as int) == (e - i) + line_len(s@, e as int),
        decreases s.len() - e,
    {
        e += 1;
    }
    e
}

/// Splits `s` into its lines.
pub fn split_lines(s: &Vec<char>) -> (out: Vec<Vec<char>>)
    ensures
        out.deep_view() == lines(s@),
{
    let mut out: Vec<Vec<char>> = Vec::new();
    let mut i: usize = 0;
    assert(out.deep_view() =~= Seq::<Seq<char>>::empty());
    while i < s.len()
        invariant
            i <= s.len(),
            out.deep_view() + lines_from(s@, i as int) == lines(s@),
        decreases s.len() - i,
    {
        let e = skip_line(s, i);
        let ghost before = out.deep_view();
        if e < s.len() {
            let end = if e > i && s[e - 1] == '\r' {
                e - 1
            } else {
                e
            };
            let line = slice_of(s, i, end);
            assert(line@ =~= chomp(s@.subrange(i as int, e as int)));
            out.push(line);
            assert(out.deep_view() =~~= before.push(chomp(s@.subrange(i as int, e as int))));
            assert(before.push(chomp(s@.subrange(i as int, e as int))) + lines_from(
                s@,
                e + 1,
            ) =~= before + lines_from(s@, i as int));
            i = e + 1;
        } else {
            let line = slice_of(s, i, e);
            out.push(line);
            assert(out.deep_view() =~~= before.push(s@.subrange(i as int, e as int)));
            assert(lines_from(s@, s.len() as int) =~= Seq::<Seq<char>>::empty());
            assert(before.push(s@.subrange(i as int, e as int)) =~= before + lines_from(
                s@,
                i as int,
            ));
            i = e;
        }
    }
    assert(lines_from(s@, s.len() as int) =~= Seq::<Seq<char>>::empty());
    out
}

/// How many whitespace characters stand in `s` right before index `j`.
pub open spec fn trailing_len(s: Seq<char>, j: int) -> nat
    decreases j,
{
    if 0 < j <= s.len() && is_space(s[j - 1]) {
        1 + trailing_len(s, j - 1)
    } else {
        0
    }
}

/// `s` without the whitespace at its two ends.
pub open spec fn trim(s: Seq<char>) -> Seq<char> {
    let a = gap_len(s, Separator::Whitespace, 0) as int;
    let b = s.len() - trailing_len(s, s.len() as int);
    if a <= b {
        s.subrange(a, b)
    } else {
        Seq::empty()
    }
}

/// The whitespace before an index ends inside the text, after a character
/// that is no whitespace or at the start.
pub proof fn lemma_trailing_len(s: Seq<char>, j: int)
    requires
        0 <= j <= s.len(),
    ensures
        trailing_len(s, j) <= j,
        forall|k: int| j - trailing_len(s, j) <= k < j ==> is_space(#[trigger] s[k]),
        j - trailing_len(s, j) > 0 ==> !is_space(s[j - trailing_len(s, j) - 1]),
    decreases j,
{
    if 0 < j && is_space(s[j - 1]) {
        lemma_trailing_len(s, j - 1);
    }
}

/// What is left of a text after trimming neither begins nor ends with
/// whitespace, and nothing but whitespace was taken away: the text is what is
/// left of it, with whitespace before and after.
pub proof fn lemma_trim(s: Seq<char>)
    ensures
        trim(s).len() > 0 ==> !is_space(trim(s).first()) && !is_space(trim(s).last()),
        exists|before: Seq<char>, after: Seq<char>|
            #![trigger before + trim(s) + after]
            s == before + trim(s) + after && (forall|k: int|
                0 <= k < before.len() ==> is_space(#[trigger] before[k])) && (forall|k: int|
                0 <= k < after.len() ==> is_space(#[trigger] after[k])),
{
    let a = gap_len(s, Separator::Whitespace, 0) as int;
    let b = s.len() - trailing_len(s, s.len() as int);
    lemma_gap_len(s, Separator::Whitespace, 0);
    lemma_trailing_len(s, s.len() as int);
    if a <= b {
        if a < b {
            assert(trim(s).first() == s[a]);
            assert(trim(s).last() == s[b - 1]);
        }
        let before = s.subrange(0, a);
        let after = s.subrange(b, s.len() as int);
        assert(s =~= before + trim(s) + after);
        assert forall|k: int| 0 <= k < before.len() implies is_space(#[trigger] before[k]) by {
            assert(before[k] == s[k]);
            assert(separates(Separator::Whitespace, s[k]));
        }
        assert forall|k: int| 0 <= k < after.len() implies is_space(#[trigger] after[k]) by {
            assert(after[k] == s[b + k]);
        }
    } else {
        let before = s;
        let after = Seq::<char>::empty();
        assert(s =~= before + trim(s) + after);
        assert forall|k: int| 0 <= k < before.len() implies is_space(#[trigger] before[k]) by {
            if k < a {
                assert(separates(Separator::Whitespace, s[k]));
            }
        }
    }
}

/// Removes the whitespace at the two ends of `s`.
pub fn trimmed(s: &Vec<char>) -> (out: Vec<char>)
    ensures
        out@ == trim(s@),
{
    let a = skip_gap(s, Separator::Whitespace, 0);
    let mut b: usize = s.len();
    while b > 0 && is_whitespace(s[b - 1])
        invariant
            b <= s.len(),
            trailing_len(s@, s.len() as int) == (s.len() - b) + trailing_len(s@, b as int),
        decreases b,
    {
        b -= 1;
    }
    if a <= b {
        slice_of(s, a, b)
    } else {
        Vec::new()
    }
}

/// Whether `c` is one of the ten decimal digits.
pub open spec fn is_digit(c: char) -> bool {
    0x30 <= c as u32 <= 0x39
}

/// The number that the decimal digit `c` stands for.
pub open spec fn digit_value(c: char) -> nat {
    (c as u32 - 0x30) as nat
}

/// Whether `s` holds decimal digits only.
pub open spec fn all_digits(s: Seq<char>) -> bool {
    forall|i: int| 0 <= i < s.len() ==> is_digit(#[trigger] s[i])
}

/// The number that the decimal digits `s` write.
pub open spec fn decimal_value(s: Seq<char>) -> nat
    decreases s.len(),
{
    if s.len() == 0 {
        0
    } else {
        decimal_value(s.drop_last()) * 10 + digit_value(s.last())
    }
}

/// The number that `s` writes, if `s` is one or more decimal digits, with
/// leading zeros or without, that write a number up to `max`.
pub open spec fn parse_digits(s: Seq<char>, max: int) -> Option<int> {
    if s.len() > 0 && all_digits(s) && decimal_value(s) <= max {
        Some(decimal_value(s) as int)
    } else {
        None
    }
}

/// The number that `s` writes as an unsigned decimal number up to `max`: an
/// optional plus sign, then one or more digits.
pub open spec fn parse_unsigned(s: Seq<char>, max: int) -> Option<int> {
    if s.len() > 0 && s[0] == '+' {
        parse_digits(s.skip(1), max)
    } else {
        parse_digits(s, max)
    }
}

/// The number that `s` writes as a signed decimal number from `min` to `max`:
/// an optional sign, then one or more digits.
pub open spec fn parse_signed(s: Seq<char>, min: int, max: int) -> Option<int> {
    if s.len() > 0 && s[0] == '-' {
        match parse_digits(s.skip(1), -min) {
            Some(n) => Some(-n),
            None => None,
        }
    } else {
        parse_unsigned(s, max)
    }
}

/// Writing one more digit multiplies by ten and adds the digit.
pub proof fn lemma_decimal_value_push(s: Seq<char>, c: char)
    ensures
        decimal_value(s.push(c)) == decimal_value(s) * 10 + digit_value(c),
{
    assert(s.push(c).drop_last() =~= s);
}

/// A number written in digits is at least the number that any of its
/// prefixes writes.
pub proof fn lemma_decimal_value_prefix(s: Seq<char>, k: int)
    requires
        0 <= k <= s.len(),
    ensures
        decimal_value(s.take(k)) <= decimal_value(s),
    decreases s.len() - k,
{
    if k < s.len() {
        lemma_decimal_value_prefix(s.drop_last(), k);
        assert(s.drop_last().take(k) =~= s.take(k));
    } else {
        assert(s.take(k) =~= s);
    }
}

/// Reads the digits `s[from..]` as a number up to `max`.
fn read_digits(s: &Vec<char>, from: usize, max: u64) -> (out: Option<u64>)
    requires
        from <= s.len(),
    ensures
        out matches Some(n) ==> parse_digits(s@.skip(from as int), max as int) == Some(n as int),
        out is None ==> parse_digits(s@.skip(from as int), max as int) is None,
{
    let ghost digits = s@.skip(from as int);
    if from == s.len() {
        return None;
    }
    let mut acc: u64 = 0;
    let mut i: usize = from;
    assert(digits.take(0) =~= Seq::<char>::empty());
    while i < s.len()
        invariant
            from <= i <= s.len(),
            digits == s@.skip(from as int),
            all_digits(digits.take(i - from)),
            acc == decimal_value(digits.take(i - from)),
            acc <= max,
        decreases s.len() - i,
    {
        let c = s[i];
        let n: u32 = c as u32;
        if n < 0x30 || n > 0x39 {
            assert(!is_digit(digits[i - from]));
            return None;
        }
        let d: u64 = (n - 0x30) as u64;
        proof {
            assert(digits.take(i - from + 1) =~= digits.take(i - from).push(c));
            lemma_decimal_value_push(digits.take(i - from), c);
        }
        let next: u128 = acc as u128 * 10 + d as u128;
        if next > max as u128 {
            proof {
                if all_digits(digits) {
                    lemma_decimal_value_prefix(digits, i - from + 1);
                }
            }
            return None;
        }
        acc = next as u64;
        i += 1;
    }
    assert(digits.take(i - from) =~= digits);
    Some(acc)
}

/// Reads `s` as an unsigned decimal number up to `max`.
pub fn read_unsigned(s: &Vec<char>, max: u64) -> (out: Option<u64>)
    ensures
        out matches Some(n) ==> parse_unsigned(s@, max as int) == Some(n as int),
        out is None ==> parse_unsigned(s@, max as int) is None,
{
    if s.len() > 0 && s[0] == '+' {
        read_digits(s, 1, max)
    } else {
        assert(s@.skip(0) =~= s@);
        read_digits(s, 0, max)
    }
}

/// Reads `s` as a `u64`.
pub fn read_u64(s: &Vec<char>) -> (out: Option<u64>)
    ensures
        out matches Some(n) ==> parse_unsigned(s@, u64::MAX as int) == Some(n as int),
        out is None ==> parse_unsigned(s@, u64::MAX as int) is None,
{
    read_unsigned(s, u64::MAX)
}

/// Reads `s` as a `u32`.
pub fn read_u32(s: &Vec<char>) -> (out: Option<u32>)
    ensures
        out matches Some(n) ==> parse_unsigned(s@, u32::MAX as int) == Some(n as int),
        out is None ==> parse_unsigned(s@, u32::MAX as int) is None,
{
    match read_unsigned(s, 0xFFFF_FFFF) {
        Some(n) => Some(n as u32),
        None => None,
    }
}

/// Reads `s` as a `usize`.
pub fn read_usize(s: &Vec<char>) -> (out: Option<usize>)
    ensures
        out matches Some(n) ==> parse_unsigned(s@, usize::MAX as int) == Some(n as int),
        out is None ==> parse_unsigned(s@, usize::MAX as int) is None,
{
    match read_unsigned(s, usize::MAX as u64) {
        Some(n) => Some(n as usize),
        None => None,
    }
}

/// Reads `s` as an `i32`.
pub fn read_i32(s: &Vec<char>) -> (out: Option<i32>)
    ensures
        out matches Some(n) ==> parse_signed(s@, i32::MIN as int, i32::MAX as int) == Some(
            n as int,
        ),
        out is None ==> parse_signed(s@, i32::MIN as int, i32::MAX as int) is None,
{
    if s.len() > 0 && s[0] == '-' {
        match read_digits(s, 1, 0x8000_0000) {
            Some(n) => Some((0 - (n as i64)) as i32),
            None => None,
        }
    } else {
        match read_unsigned(s, 0x7FFF_FFFF) {
            Some(n) => Some(n as i32),
            None => None,
        }
    }
}

/// The decimal digit that stands for `d`, which is less than ten.
pub open spec fn digit_char(d: nat) -> char {
    ((0x30 + d) as u8) as char
}

/// The decimal digits that write `n`, without leading zeros.
pub open spec fn decimal_digits(n: nat) -> Seq<char>
    decreases n,
{
    if n < 10 {
        seq![digit_char(n)]
    } else {
        decimal_digits(n / 10).push(digit_char(n % 10))
    }
}

/// What was written as a number reads back as that number.
pub proof fn lemma_decimal_digits(n: nat)
    ensures
        decimal_digits(n).len() > 0,
        all_digits(decimal_digits(n)),
        decimal_value(decimal_digits(n)) == n,
        forall|max: int| n <= max ==> parse_unsigned(decimal_digits(n), max) == Some(n as int),
    decreases n,
{
    if n < 10 {
        let s = seq![digit_char(n)];
        assert(s.drop_last() =~= Seq::<char>::empty());
        assert(decimal_value(s.drop_last()) == 0);
        assert(s.last() == digit_char(n));
    } else {
        lemma_decimal_digits(n / 10);
        lemma_decimal_value_push(decimal_digits(n / 10), digit_char(n % 10));
    }
    assert(decimal_digits(n)[0] != '+');
}

/// Writes `n` in decimal digits.
pub fn digits_of(n: u128) -> (out: Vec<char>)
    ensures
        out@ == decimal_digits(n as nat),
    decreases n,
{
    if n < 10 {
        let mut out: Vec<char> = Vec::new();
        out.push((0x30u8 + n as u8) as char);
        assert(out@ =~= seq![digit_char(n as nat)]);
        out
    } else {
        let mut out = digits_of(n / 10);
        out.push((0x30u8 + (n % 10) as u8) as char);
        out
    }
}

/// The decimal digits that write `n`, with a minus sign before them where
/// `n` is less than zero.
pub open spec fn signed_digits(n: int) -> Seq<char> {
    if n < 0 {
        seq!['-'] + decimal_digits((-n) as nat)
    } else {
        decimal_digits(n as nat)
    }
}

/// Writes `n` in decimal digits, with its sign where it is less than zero.
pub fn signed_digits_of(n: i32) -> (out: Vec<char>)
    ensures
        out@ == signed_digits(n as int),
{
    if n < 0 {
        let mut out: Vec<char> = Vec::new();
        out.push('-');
        let mut digits = digits_of((0 - (n as i64)) as u128);
        out.append(&mut digits);
        assert(out@ =~= signed_digits(n as int));
        out
    } else {
        digits_of(n as u128)
    }
}

/// A signed number that was written reads back as that number.
pub proof fn lemma_signed_digits(n: int, min: int, max: int)
    requires
        min <= n <= max,
        min <= 0 <= max,
    ensures
        parse_signed(signed_digits(n), min, max) == Some(n),
{
    if n < 0 {
        let digits = decimal_digits((-n) as nat);
        lemma_decimal_digits((-n) as nat);
        assert(signed_digits(n).skip(1) =~= digits);
        assert(signed_digits(n)[0] == '-');
    } else {
        lemma_decimal_digits(n as nat);
        assert(decimal_digits(n as nat)[0] != '-');
    }
}

} // verus!
