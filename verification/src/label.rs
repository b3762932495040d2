//! Building the textual row labels.
//!
//! Each synthetic row is labelled with a version string and a path string,
//! both a fixed prefix followed by the row's index in decimal.

use crate::row::RowData;
use vstd::arithmetic::div_mod::lemma_div_decreases;
use vstd::prelude::*;
use vstd::string::StringExecFns;

verus! {

/// The character for one decimal digit.
pub open spec fn digit_char(d: int) -> char
    recommends
        0 <= d <= 9,
{
    if d == 0 {
        '0'
    } else if d == 1 {
        '1'
    } else if d == 2 {
        '2'
    } else if d == 3 {
        '3'
    } else if d == 4 {
        '4'
    } else if d == 5 {
        '5'
    } else if d == 6 {
        '6'
    } else if d == 7 {
        '7'
    } else if d == 8 {
        '8'
    } else {
        '9'
    }
}

/// The decimal notation of `n`, without leading zeroes (a single zero for 0).
pub open spec fn decimal_chars(n: nat) -> Seq<char>
    decreases n,
{
    if n < 10 {
        seq![digit_char(n as int)]
    } else {
        decimal_chars(n / 10).push(digit_char((n % 10) as int))
    }
}

/// The one-character string for a decimal digit.
fn digit_str(d: u64) -> (s: &'static str)
    requires
        d <= 9,
    ensures
        s@ == seq![digit_char(d as int)],
{
    proof {
        reveal_strlit("0");
        reveal_strlit("1");
        reveal_strlit("2");
        reveal_strlit("3");
        reveal_strlit("4");
        reveal_strlit("5");
        reveal_strlit("6");
        reveal_strlit("7");
        reveal_strlit("8");
        reveal_strlit("9");
    }
    match d {
        0 => "0",
        1 => "1",
        2 => "2",
        3 => "3",
        4 => "4",
        5 => "5",
        6 => "6",
        7 => "7",
        8 => "8",
        _ => "9",
    }
}

/// The decimal notation of `n` as a string.
pub fn u64_to_decimal(n: u64) -> (s: String)
    ensures
        s@ == decimal_chars(n as nat),
    decreases n,
{
    if n <= 9 {
        digit_str(n).to_owned()
    } else {
        proof {
            lemma_div_decreases(n as int, 10);
        }
        let mut s = u64_to_decimal(n / 10);
        s.append(digit_str(n % 10));
        proof {
            assert(s@ =~= decimal_chars(n as nat));
        }
        s
    }
}

/// One synthetic row: both labels are their prefix followed by the index in
/// decimal.
pub fn make_row(version_prefix: &str, path_prefix: &str, index: u64) -> (r: RowData)
    ensures
        r.version@ == version_prefix@ + decimal_chars(index as nat),
        r.path@ == path_prefix@ + decimal_chars(index as nat),
{
    let digits = u64_to_decimal(index);
    let mut version = version_prefix.to_owned();
    version.append(digits.as_str());
    let mut path = path_prefix.to_owned();
    path.append(digits.as_str());
    RowData::new(version, path)
}

/// The synthetic row list: `count` rows whose labels carry their index in
/// decimal after the given prefixes.
pub fn synthetic_rows(version_prefix: &str, path_prefix: &str, count: usize) -> (rows: Vec<
    RowData,
>)
    ensures
        rows@.len() == count,
        forall|i: int|
            0 <= i < count ==> #[trigger] rows@[i].version@ == version_prefix@ + decimal_chars(
                i as nat,
            ) && rows@[i].path@ == path_prefix@ + decimal_chars(i as nat),
{
    let mut rows: Vec<RowData> = Vec::new();
    let mut i: usize = 0;
    while i < count
        invariant
            i <= count,
            rows@.len() == i,
            forall|j: int|
                0 <= j < i ==> #[trigger] rows@[j].version@ == version_prefix@ + decimal_chars(
                    j as nat,
                ) && rows@[j].path@ == path_prefix@ + decimal_chars(j as nat),
        decreases count - i,
    {
        let row = make_row(version_prefix, path_prefix, i as u64);
        rows.push(row);
        i = i + 1;
    }
    rows
}

} // verus!
