//! Executable character classification and sequence comparison, each proved
//! equal to its specification in `model`.

use vstd::prelude::*;
use crate::model::is_ws;
use crate::model::is_upper;
use crate::model::is_lower;
use crate::model::is_alpha;
use crate::model::is_digit;
use crate::model::is_alnum;
use crate::model::is_hex_digit;
use crate::model::to_lower;
use crate::model::hex_value;

verus! {

pub(crate) fn ws(c: char) -> (b: bool)
    ensures
        b == is_ws(c),
{
    c == ' ' || c == '\t' || c == '\n' || c == '\u{0c}'
}

pub(crate) fn upper(c: char) -> (b: bool)
    ensures
        b == is_upper(c),
{
    let u = c as u32;
    65 <= u && u <= 90
}

pub(crate) fn lower(c: char) -> (b: bool)
    ensures
        b == is_lower(c),
{
    let u = c as u32;
    97 <= u && u <= 122
}

pub(crate) fn alpha(c: char) -> (b: bool)
    ensures
        b == is_alpha(c),
{
    upper(c) || lower(c)
}

pub(crate) fn digit(c: char) -> (b: bool)
    ensures
        b == is_digit(c),
{
    let u = c as u32;
    48 <= u && u <= 57
}

pub(crate) fn alnum(c: char) -> (b: bool)
    ensures
        b == is_alnum(c),
{
    alpha(c) || digit(c)
}

pub(crate) fn hex_digit(c: char) -> (b: bool)
    ensures
        b == is_hex_digit(c),
{
    let u = c as u32;
    digit(c) || (97 <= u && u <= 102) || (65 <= u && u <= 70)
}

/// The numeric value of one hexadecimal digit.
pub(crate) fn hex_digit_value(c: char) -> (v: u32)
    requires
        is_hex_digit(c),
    ensures
        v == hex_value(c),
{
    let u = c as u32;
    if u >= 97 {
        u - 87
    } else if u >= 65 {
        u - 55
    } else {
        u - 48
    }
}

/// ASCII uppercase folded to lowercase.
pub(crate) fn lower_char(c: char) -> (r: char)
    ensures
        r == to_lower(c),
{
    if upper(c) {
        match c {
            'A' => 'a',
            'B' => 'b',
            'C' => 'c',
            'D' => 'd',
            'E' => 'e',
            'F' => 'f',
            'G' => 'g',
            'H' => 'h',
            'I' => 'i',
            'J' => 'j',
            'K' => 'k',
            'L' => 'l',
            'M' => 'm',
            'N' => 'n',
            'O' => 'o',
            'P' => 'p',
            'Q' => 'q',
            'R' => 'r',
            'S' => 's',
            'T' => 't',
            'U' => 'u',
            'V' => 'v',
            'W' => 'w',
            'X' => 'x',
            'Y' => 'y',
            _ => 'z',
        }
    } else {
        c
    }
}

/// Character-by-character equality of two vectors.
pub(crate) fn chars_eq(a: &Vec<char>, b: &Vec<char>) -> (r: bool)
    ensures
        r == (a@ == b@),
{
    if a.len() != b.len() {
        assert(a@ != b@);
        return false;
    }
    let n = a.len();
    let mut i: usize = 0;
    while i < n
        invariant
            n == a.len() == b.len(),
            0 <= i <= n,
            forall|j: int| 0 <= j < i ==> a@[j] == b@[j],
        decreases n - i,
    {
        if a[i] != b[i] {
            return false;
        }
        i = i + 1;
    }
    proof {
        assert(a@ =~= b@);
    }
    true
}

/// A copy of a character vector.
pub(crate) fn clone_chars(v: &Vec<char>) -> (r: Vec<char>)
    ensures
        r@ == v@,
{
    let mut r: Vec<char> = Vec::new();
    let n = v.len();
    let mut i: usize = 0;
    while i < n
        invariant
            n == v.len(),
            0 <= i <= n,
            r@ == v@.take(i as int),
        decreases n - i,
    {
        r.push(v[i]);
        proof {
            assert(r@ =~= v@.take(i + 1));
        }
        i = i + 1;
    }
    proof {
        assert(v@.take(n as int) =~= v@);
    }
    r
}

} // verus!
