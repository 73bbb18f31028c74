//! The sixteen-key DTMF keypad: which cell of the four-by-four grid a symbol
//! sits in, and the frequency that each row and each column sounds.

use vstd::prelude::*;

verus! {

/// Frequencies of the low group in Hz, one per keypad row.
pub const LOW_TONES: [u32; 4] = [697, 770, 852, 941];

/// Frequencies of the high group in Hz, one per keypad column.
pub const HIGH_TONES: [u32; 4] = [1209, 1336, 1477, 1633];

/// The tone table: each symbol with its (row, column) on the keypad.
pub open spec fn tone_grid() -> Map<char, (nat, nat)> {
    map![
        '1' => (0nat, 0nat),
        '2' => (0nat, 1nat),
        '3' => (0nat, 2nat),
        'A' => (0nat, 3nat),
        '4' => (1nat, 0nat),
        '5' => (1nat, 1nat),
        '6' => (1nat, 2nat),
        'B' => (1nat, 3nat),
        '7' => (2nat, 0nat),
        '8' => (2nat, 1nat),
        '9' => (2nat, 2nat),
        'C' => (2nat, 3nat),
        '*' => (3nat, 0nat),
        '0' => (3nat, 1nat),
        '#' => (3nat, 2nat),
        'D' => (3nat, 3nat),
    ]
}

/// The key that is printed on the keypad at a row and a column, both counted
/// from zero.
pub open spec fn key_at(row: nat, column: nat) -> char {
    seq![
        seq!['1', '2', '3', 'A'],
        seq!['4', '5', '6', 'B'],
        seq!['7', '8', '9', 'C'],
        seq!['*', '0', '#', 'D'],
    ][row as int][column as int]
}

/// Whether `c` is one of the sixteen symbols, as the table spells them.
pub open spec fn is_symbol(c: char) -> bool {
    tone_grid().dom().contains(c)
}

/// Looks a symbol up in the tone table. Lowercase letters are absent: a
/// caller normalizes first.
pub fn lookup(symbol: char) -> (cell: Option<(usize, usize)>)
    ensures
        cell is Some <==> is_symbol(symbol),
        cell matches Some((row, column)) ==> {
            &&& row < 4
            &&& column < 4
            &&& tone_grid()[symbol] == (row as nat, column as nat)
        },
{
    match symbol {
        '1' => Some((0, 0)),
        '2' => Some((0, 1)),
        '3' => Some((0, 2)),
        'A' => Some((0, 3)),
        '4' => Some((1, 0)),
        '5' => Some((1, 1)),
        '6' => Some((1, 2)),
        'B' => Some((1, 3)),
        '7' => Some((2, 0)),
        '8' => Some((2, 1)),
        '9' => Some((2, 2)),
        'C' => Some((2, 3)),
        '*' => Some((3, 0)),
        '0' => Some((3, 1)),
        '#' => Some((3, 2)),
        'D' => Some((3, 3)),
        _ => None,
    }
}

/// ASCII uppercase of `c`: `a` to `z` become `A` to `Z`, every other
/// character stays.
pub open spec fn to_upper(c: char) -> char {
    if 'a' <= c && c <= 'z' {
        (c as int - 32) as char
    } else {
        c
    }
}

/// Normalizes one input character to the case the tone table uses.
pub fn normalize(c: char) -> (upper: char)
    ensures
        upper == to_upper(c),
{
    if 'a' <= c && c <= 'z' {
        let code: u8 = c as u8;
        (code - 32) as char
    } else {
        c
    }
}

/// ASCII lowercase of `c`: `A` to `Z` become `a` to `z`, every other
/// character stays.
pub open spec fn to_lower(c: char) -> char {
    if 'A' <= c && c <= 'Z' {
        (c as int + 32) as char
    } else {
        c
    }
}

/// Whether two characters differ at most in the case of an ASCII letter.
pub open spec fn same_ignoring_case(a: char, b: char) -> bool {
    to_lower(a) == to_lower(b)
}

/// The tone table is the whole keypad and nothing else: it has sixteen
/// symbols, each in a cell of the four-by-four grid, no two in one cell, and
/// in every cell the key that the keypad shows there.
pub proof fn lemma_tone_grid_is_the_keypad()
    ensures
        tone_grid().dom().finite(),
        tone_grid().dom().len() == 16,
        forall|s: char| #[trigger]
            is_symbol(s) ==> tone_grid()[s].0 < 4 && tone_grid()[s].1 < 4,
        forall|s: char, t: char|
            is_symbol(s) && is_symbol(t) && #[trigger] tone_grid()[s] == #[trigger] tone_grid()[t]
                ==> s == t,
        forall|row: nat, column: nat|
            row < 4 && column < 4 ==> {
                &&& is_symbol(#[trigger] key_at(row, column))
                &&& tone_grid()[key_at(row, column)] == (row, column)
            },
{
    assert(tone_grid().dom() =~= set![
        '1', '2', '3', 'A', '4', '5', '6', 'B', '7', '8', '9', 'C', '*', '0', '#', 'D',
    ]);
}

/// Every symbol of the tone table is already normalized, so normalizing
/// finds it where it is, and a lowercase letter is never in the table. A
/// character that is no symbol once normalized was none before.
pub proof fn lemma_symbols_are_normalized(c: char)
    ensures
        is_symbol(c) ==> to_upper(c) == c,
        is_symbol(c) ==> !('a' <= c && c <= 'z'),
        !is_symbol(to_upper(c)) ==> !is_symbol(c),
{
}

/// Looking up a normalized character gives the same answer whatever the case
/// in which the character was written.
pub proof fn lemma_lookup_ignores_case(a: char, b: char)
    requires
        same_ignoring_case(a, b),
    ensures
        to_upper(a) == to_upper(b),
        is_symbol(to_upper(a)) == is_symbol(to_upper(b)),
        tone_grid()[to_upper(a)] == tone_grid()[to_upper(b)],
{
}

/// A letter of the keypad written in lowercase is the same symbol once
/// normalized, and normalizing twice changes nothing more.
pub proof fn lemma_normalize_folds_case(c: char)
    ensures
        to_upper(to_lower(c)) == to_upper(c),
        to_upper(to_upper(c)) == to_upper(c),
        same_ignoring_case(c, to_upper(c)),
        same_ignoring_case(c, to_lower(c)),
{
}

} // verus!
