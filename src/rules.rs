//! Normalisation of Cppcheck rule identifiers to internal diagnostic codes.
use vstd::prelude::*;

use vstd::string::StringExecFns;

use crate::table::{lemma_rule_ids_nonempty, rule_id, rule_id_text, CHECKER_BASE, MISRA_BASE, MISRA_RULES, TABLE_LEN};
use crate::text::same_text;

verus! {

broadcast use vstd::string::group_string_axioms;

/// The first position at or after `from` where the table holds `id`.
pub open spec fn position_from(id: Seq<char>, from: int) -> Option<int>
    decreases TABLE_LEN - from,
{
    if from < 0 || from >= TABLE_LEN {
        None
    } else if rule_id(from) == id {
        Some(from)
    } else {
        position_from(id, from + 1)
    }
}

/// The position of `id` in the table, if the table holds it.
pub open spec fn position_of(id: Seq<char>) -> Option<int> {
    position_from(id, 0)
}

/// The number of the code given to position `i` of the table.
pub open spec fn code_number(i: int) -> int {
    if i < MISRA_RULES {
        MISRA_BASE + i
    } else {
        CHECKER_BASE + (i - MISRA_RULES)
    }
}

/// The decimal digit for `d`, which is below ten.
pub open spec fn digit_char(d: int) -> char {
    if d == 0 {
        '0'
    } else if d == 1 {
        '1'
    } else if d == 2 {
        '2'
    } else if d == 3 {
        '3'
    } else if d == 4 {
        '4'
    } else if d == 5 {
        '5'
    } else if d == 6 {
        '6'
    } else if d == 7 {
        '7'
    } else if d == 8 {
        '8'
    } else {
        '9'
    }
}

/// The code numbered `n`: the prefix `CXX-W`, then `n` in four digits.
pub open spec fn code_text(n: int) -> Seq<char> {
    seq![
        'C',
        'X',
        'X',
        '-',
        'W',
        digit_char(n / 1000 % 10),
        digit_char(n / 100 % 10),
        digit_char(n / 10 % 10),
        digit_char(n % 10),
    ]
}

/// The internal code for the rule identifier `id`; `None` where the table
/// does not hold `id`.
pub open spec fn code_of(id: Seq<char>) -> Option<Seq<char>> {
    match position_of(id) {
        Some(i) => Some(code_text(code_number(i))),
        None => None,
    }
}

/// A position that `position_from` reports lies in the table, at or after
/// `from`, and holds the identifier looked for.
proof fn lemma_position_from(id: Seq<char>, from: int)
    ensures
        match position_from(id, from) {
            Some(i) => from <= i < TABLE_LEN && rule_id(i) == id,
            None => true,
        },
    decreases TABLE_LEN - from,
{
    if 0 <= from < TABLE_LEN && rule_id(from) != id {
        lemma_position_from(id, from + 1);
    }
}

/// Different numbers below ten thousand are written as different codes.
proof fn lemma_code_text_injective(a: int, b: int)
    requires
        0 <= a < 10000,
        0 <= b < 10000,
        code_text(a) == code_text(b),
    ensures
        a == b,
{
    assert(code_text(a)[5] == code_text(b)[5]);
    assert(code_text(a)[6] == code_text(b)[6]);
    assert(code_text(a)[7] == code_text(b)[7]);
    assert(code_text(a)[8] == code_text(b)[8]);
    assert(a == b) by (nonlinear_arith)
        requires
            0 <= a < 10000,
            0 <= b < 10000,
            a / 1000 % 10 == b / 1000 % 10,
            a / 100 % 10 == b / 100 % 10,
            a / 10 % 10 == b / 10 % 10,
            a % 10 == b % 10,
    ;
}

/// Normalisation depends on the identifier alone: equal identifiers get
/// equal results, on every call.
pub proof fn mapping_is_deterministic(a: Seq<char>, b: Seq<char>)
    requires
        a == b,
    ensures
        code_of(a) == code_of(b),
{
}

/// No code is shared: two different identifiers that both have a code have
/// different codes.
pub proof fn codes_are_distinct(a: Seq<char>, b: Seq<char>)
    requires
        a != b,
        code_of(a) is Some,
        code_of(b) is Some,
    ensures
        code_of(a) != code_of(b),
{
    lemma_position_from(a, 0);
    lemma_position_from(b, 0);
    let i = position_of(a)->0;
    let j = position_of(b)->0;
    assert(i != j);
    assert(code_number(i) != code_number(j));
    if code_of(a) == code_of(b) {
        lemma_code_text_injective(code_number(i), code_number(j));
    }
}

/// Only a non-empty identifier has a code: the empty string is unmapped.
pub proof fn empty_identifier_is_unmapped(id: Seq<char>)
    ensures
        code_of(id) is Some ==> id.len() > 0,
{
    lemma_position_from(id, 0);
    lemma_rule_ids_nonempty();
}

/// Every code is the prefix `CXX-W` followed by four decimal digits.
pub proof fn codes_are_well_formed(id: Seq<char>)
    ensures
        match code_of(id) {
            Some(c) => c.len() == 9 && c.subrange(0, 5) == seq!['C', 'X', 'X', '-', 'W']
                && forall|k: int| 5 <= k < 9 ==> '0' <= #[trigger] c[k] <= '9',
            None => true,
        },
{
    if let Some(c) = code_of(id) {
        assert(c.subrange(0, 5) =~= seq!['C', 'X', 'X', '-', 'W']);
    }
}

/// Finds `s` in the table.
fn position(s: &str) -> (r: Option<usize>)
    ensures
        match r {
            Some(i) => i < TABLE_LEN && position_of(s@) == Some(i as int),
            None => position_of(s@) == None::<int>,
        },
{
    let mut i: usize = 0;
    while i < TABLE_LEN
        invariant
            i <= TABLE_LEN,
            position_of(s@) == position_from(s@, i as int),
        decreases TABLE_LEN - i,
    {
        if same_text(s, rule_id_text(i)) {
            return Some(i);
        }
        i = i + 1;
    }
    None
}

/// The text of one decimal digit.
fn digit_text(d: u32) -> (r: &'static str)
    requires
        d < 10,
    ensures
        r@ == seq![digit_char(d as int)],
{
    proof {
        reveal_strlit("0");
        reveal_strlit("1");
        reveal_strlit("2");
        reveal_strlit("3");
        reveal_strlit("4");
        reveal_strlit("5");
        reveal_strlit("6");
        reveal_strlit("7");
        reveal_strlit("8");
        reveal_strlit("9");
    }
    let r = match d {
        0 => "0",
        1 => "1",
        2 => "2",
        3 => "3",
        4 => "4",
        5 => "5",
        6 => "6",
        7 => "7",
        8 => "8",
        _ => "9",
    };
    assert(r@ =~= seq![digit_char(d as int)]);
    r
}

/// Writes out the code numbered `n`.
fn code_string(n: u32) -> (r: String)
    requires
        n < 10000,
    ensures
        r@ == code_text(n as int),
{
    proof {
        reveal_strlit("CXX-W");
    }
    let mut r = "CXX-W".to_owned();
    r.append(digit_text(n / 1000 % 10));
    r.append(digit_text(n / 100 % 10));
    r.append(digit_text(n / 10 % 10));
    r.append(digit_text(n % 10));
    assert(r@ =~= code_text(n as int));
    r
}

/// Maps a Cppcheck rule identifier to its internal diagnostic code, or to
/// `None` where the table does not hold the identifier. Every string is a
/// valid input.
pub fn mapping(s: &str) -> (r: Option<String>)
    ensures
        match r {
            Some(c) => code_of(s@) == Some(c@),
            None => code_of(s@) == None::<Seq<char>>,
        },
{
    match position(s) {
        Some(i) => {
            let n: u32 = if i < MISRA_RULES {
                MISRA_BASE + i as u32
            } else {
                CHECKER_BASE + (i - MISRA_RULES) as u32
            };
            Some(code_string(n))
        },
        None => None,
    }
}

} // verus!
