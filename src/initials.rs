//! The owner mark: a 19-bit code read as four base-27 digits.

use vstd::prelude::*;

use crate::tag::AEITagData;
use crate::text::push_char;

verus! {

/// The letter of the first digit: 0 is 'A', 1 is 'B', and so on.
pub open spec fn lead_char(d: int) -> char {
    (65 + d) as char
}

/// The character of a later digit: 0 is a blank, 1 is 'A', 2 is 'B', and so on.
pub open spec fn mark_char(d: int) -> char {
    if d == 0 {
        ' '
    } else {
        (64 + d) as char
    }
}

/// The four characters of the owner mark whose code is `code`, most
/// significant digit first.
pub open spec fn initials_of(code: int) -> Seq<char> {
    seq![
        lead_char(code / 19683),
        mark_char((code / 729) % 27),
        mark_char((code / 27) % 27),
        mark_char(code % 27),
    ]
}

/// The character of a later digit, `d < 27`.
fn mark_char_exec(d: u32) -> (c: char)
    requires
        d < 27,
    ensures
        c == mark_char(d as int),
{
    if d == 0 {
        ' '
    } else {
        ((64 + d) as u8) as char
    }
}

impl AEITagData {
    /// Decode an owner-mark code into its four characters.
    pub fn deserialize_equipement_initial(equipment_initial_code: u32) -> (r: String)
        requires
            equipment_initial_code < 524288,
        ensures
            r@ == initials_of(equipment_initial_code as int),
    {
        let code = equipment_initial_code;
        let n1 = code / 19683;
        let n2 = (code % 19683) / 729;
        let n3 = (code % 729) / 27;
        let n4 = code % 27;
        assert(n2 == (code / 729) % 27 && n3 == (code / 27) % 27) by (nonlinear_arith)
            requires
                n2 == (code % 19683) / 729,
                n3 == (code % 729) / 27,
        ;
        let mut s = String::new();
        push_char(&mut s, ((65 + n1) as u8) as char);
        push_char(&mut s, mark_char_exec(n2));
        push_char(&mut s, mark_char_exec(n3));
        push_char(&mut s, mark_char_exec(n4));
        assert(s@ =~= initials_of(code as int));
        s
    }
}

} // verus!
