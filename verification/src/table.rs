//! Keyed rows: text in which each line is a key, followed by a value and
//! perhaps more, all separated by whitespace.

use crate::text::{
    chars_of, lines, parse_unsigned, read_u32, read_u64, read_usize, split, split_lines, tokens,
    Separator,
};
use vstd::prelude::*;

verus! {

/// The deep view of a vector of characters is its view.
pub proof fn lemma_chars_deep_view(v: Vec<char>)
    ensures
        v.deep_view() == v@,
{
    assert(v.deep_view() =~= v@);
}

/// A text as rows: the whitespace-separated tokens of each of its lines.
#[derive(Debug)]
pub struct Table {
    pub rows: Vec<Vec<Vec<char>>>,
}

impl View for Table {
    type V = Seq<Seq<Seq<char>>>;

    open spec fn view(&self) -> Seq<Seq<Seq<char>>> {
        self.rows.deep_view()
    }
}

/// The tokens of each line of `text`.
pub open spec fn rows(text: Seq<char>) -> Seq<Seq<Seq<char>>> {
    let ls = lines(text);
    Seq::new(ls.len(), |i: int| tokens(ls[i]))
}

/// Whether the first token of `row` is `key`.
pub open spec fn has_key(row: Seq<Seq<char>>, key: Seq<char>) -> bool {
    row.len() > 0 && row[0] == key
}

/// The last of `rows` whose first token is `key`.
pub open spec fn last_row(rows: Seq<Seq<Seq<char>>>, key: Seq<char>) -> Option<Seq<Seq<char>>>
    decreases rows.len(),
{
    if rows.len() == 0 {
        None
    } else if has_key(rows.last(), key) {
        Some(rows.last())
    } else {
        last_row(rows.drop_last(), key)
    }
}

/// The token that follows `key` in the last of `rows` whose first token is
/// `key`. There is none where no row has the key, and none where that last
/// row holds the key alone.
pub open spec fn value_of(rows: Seq<Seq<Seq<char>>>, key: Seq<char>) -> Option<Seq<char>> {
    match last_row(rows, key) {
        Some(row) => if row.len() >= 2 {
            Some(row[1])
        } else {
            None
        },
        None => None,
    }
}

/// The number that `value` writes, up to `max`; zero where there is no value
/// or where it writes no such number.
pub open spec fn number_or_zero(value: Option<Seq<char>>, max: int) -> int {
    match value {
        Some(v) => match parse_unsigned(v, max) {
            Some(n) => n,
            None => 0,
        },
        None => 0,
    }
}

/// The number that `value` writes, up to `max`, if there is a value and it
/// writes one.
pub open spec fn number_if_any(value: Option<Seq<char>>, max: int) -> Option<int> {
    match value {
        Some(v) => parse_unsigned(v, max),
        None => None,
    }
}

/// The last row with the key is the row at the greatest index that has it.
pub proof fn lemma_last_row(rows: Seq<Seq<Seq<char>>>, key: Seq<char>)
    ensures
        last_row(rows, key) is None <==> forall|i: int|
            0 <= i < rows.len() ==> !has_key(#[trigger] rows[i], key),
        last_row(rows, key) matches Some(row) ==> exists|i: int|
            0 <= i < rows.len() && #[trigger] rows[i] == row && has_key(row, key) && forall|j: int|
                i < j < rows.len() ==> !has_key(#[trigger] rows[j], key),
    decreases rows.len(),
{
    if rows.len() == 0 {
    } else if has_key(rows.last(), key) {
        assert(rows[rows.len() - 1] == rows.last());
    } else {
        let front = rows.drop_last();
        lemma_last_row(front, key);
        assert(forall|i: int| 0 <= i < front.len() ==> front[i] == rows[i]);
        if last_row(front, key) is Some {
            let row = last_row(front, key)->0;
            let i = choose|i: int|
                0 <= i < front.len() && #[trigger] front[i] == row && has_key(row, key) && forall|
                    j: int,
                | i < j < front.len() ==> !has_key(#[trigger] front[j], key);
            assert(rows[i] == row);
            assert forall|j: int| i < j < rows.len() implies !has_key(#[trigger] rows[j], key) by {
                if j < front.len() {
                    assert(front[j] == rows[j]);
                }
            }
        } else {
            assert forall|i: int| 0 <= i < rows.len() implies !has_key(#[trigger] rows[i], key) by {
                if i < front.len() {
                    assert(front[i] == rows[i]);
                }
            }
        }
    }
}

/// Tells whether `a` and `b` hold the same characters.
pub fn same_chars(a: &Vec<char>, b: &Vec<char>) -> (same: bool)
    ensures
        same == (a@ == b@),
{
    if a.len() != b.len() {
        return false;
    }
    let mut i: usize = 0;
    while i < a.len()
        invariant
            i <= a.len(),
            a.len() == b.len(),
            a@.take(i as int) == b@.take(i as int),
        decreases a.len() - i,
    {
        if a[i] != b[i] {
            return false;
        }
        assert(a@.take(i + 1) =~= a@.take(i as int).push(a@[i as int]));
        assert(b@.take(i + 1) =~= b@.take(i as int).push(b@[i as int]));
        i += 1;
    }
    assert(a@.take(i as int) =~= a@);
    assert(b@.take(i as int) =~= b@);
    true
}

/// Splits `text` into lines and each line into its tokens.
pub fn parse_rows(text: &str) -> (out: Table)
    ensures
        out@ == rows(text@),
{
    let ls = split_lines(&chars_of(text));
    let mut out: Vec<Vec<Vec<char>>> = Vec::new();
    let mut i: usize = 0;
    while i < ls.len()
        invariant
            i <= ls.len(),
            ls.deep_view() == lines(text@),
            out.len() == i,
            forall|k: int| 0 <= k < i ==> (#[trigger] out@[k]).deep_view() == tokens(lines(text@)[k]),
        decreases ls.len() - i,
    {
        let row = split(&ls[i], Separator::Whitespace);
        proof {
            lemma_chars_deep_view(ls@[i as int]);
            assert(ls.deep_view()[i as int] == ls@[i as int].deep_view());
        }
        out.push(row);
        i += 1;
    }
    assert(out.deep_view() =~= rows(text@));
    Table { rows: out }
}

/// Finds the token that follows `key` in the last row that begins with it.
pub fn find_value<'a>(table: &'a Table, key: &str) -> (out: Option<&'a Vec<char>>)
    ensures
        out matches Some(v) ==> value_of(table@, key@) == Some(v@),
        out is None ==> value_of(table@, key@) is None,
{
    let wanted = chars_of(key);
    let ghost all = table@;
    let mut i: usize = table.rows.len();
    assert(all.take(i as int) =~= all);
    while i > 0
        invariant
            i <= table.rows.len(),
            all == table@,
            wanted@ == key@,
            last_row(all, key@) == last_row(all.take(i as int), key@),
        decreases i,
    {
        let row = &table.rows[i - 1];
        let ghost prefix = all.take(i as int);
        proof {
            assert(prefix.last() == all[i - 1]);
            assert(all[i - 1] == table.rows@[i - 1].deep_view());
            assert(prefix.drop_last() =~= all.take(i - 1));
            if row.len() > 0 {
                lemma_chars_deep_view(row@[0]);
                assert(all[i - 1][0] == row@[0]@);
            }
            if row.len() > 1 {
                lemma_chars_deep_view(row@[1]);
                assert(all[i - 1][1] == row@[1]@);
            }
        }
        if row.len() > 0 && same_chars(&row[0], &wanted) {
            if row.len() >= 2 {
                return Some(&row[1]);
            } else {
                return None;
            }
        }
        i -= 1;
    }
    None
}

/// The `usize` that follows `key`, or zero.
pub fn usize_value(table: &Table, key: &str) -> (n: usize)
    ensures
        n == number_or_zero(value_of(table@, key@), usize::MAX as int),
{
    match find_value(table, key) {
        Some(v) => match read_usize(v) {
            Some(n) => n,
            None => 0,
        },
        None => 0,
    }
}

/// The `u32` that follows `key`, or zero.
pub fn u32_value(table: &Table, key: &str) -> (n: u32)
    ensures
        n == number_or_zero(value_of(table@, key@), u32::MAX as int),
{
    match find_value(table, key) {
        Some(v) => match read_u32(v) {
            Some(n) => n,
            None => 0,
        },
        None => 0,
    }
}

/// The `u64` that follows `key`, if there is one.
pub fn u64_if_any(table: &Table, key: &str) -> (n: Option<u64>)
    ensures
        n matches Some(x) ==> number_if_any(value_of(table@, key@), u64::MAX as int)
            == Some(x as int),
        n is None ==> number_if_any(value_of(table@, key@), u64::MAX as int) is None,
{
    match find_value(table, key) {
        Some(v) => read_u64(v),
        None => None,
    }
}

} // verus!
