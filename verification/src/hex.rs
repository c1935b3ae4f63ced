//! Hexadecimal digits and the numbers they spell, most significant digit
//! first.

use vstd::prelude::*;

verus! {

/// The lowercase hexadecimal digit for a value from 0 to 15.
pub open spec fn hex_digit(d: int) -> char {
    if d < 10 {
        (48 + d) as char
    } else {
        (87 + d) as char
    }
}

/// The value of a hexadecimal digit of either case; `None` for any other
/// character.
pub open spec fn hex_value(c: char) -> Option<int> {
    let n = c as int;
    if 48 <= n <= 57 {
        Some(n - 48)
    } else if 97 <= n <= 102 {
        Some(n - 87)
    } else if 65 <= n <= 70 {
        Some(n - 55)
    } else {
        None
    }
}

/// Whether the character is one of `0` to `9` or `a` to `f`.
pub open spec fn is_lower_hex(c: char) -> bool {
    let n = c as int;
    48 <= n <= 57 || 97 <= n <= 102
}

/// Sixteen to the power `n`.
pub open spec fn pow16(n: nat) -> nat
    decreases n,
{
    if n == 0 {
        1
    } else {
        16 * pow16((n - 1) as nat)
    }
}

/// The `n` lowest base-16 digits of `v`, most significant first.
pub open spec fn digits_of(v: nat, n: nat) -> Seq<int>
    decreases n,
{
    if n == 0 {
        Seq::empty()
    } else {
        digits_of(v / 16, (n - 1) as nat).push((v % 16) as int)
    }
}

/// The number that a sequence of base-16 digits spells, most significant
/// first.
pub open spec fn digits_value(digits: Seq<int>) -> nat
    decreases digits.len(),
{
    if digits.len() == 0 {
        0
    } else {
        (digits_value(digits.drop_last()) * 16 + digits.last()) as nat
    }
}

/// Whether every entry is a base-16 digit.
pub open spec fn in_range(digits: Seq<int>) -> bool {
    forall|i: int| 0 <= i < digits.len() ==> 0 <= #[trigger] digits[i] < 16
}

/// A digit and its character determine each other.
pub proof fn digit_and_character(d: int)
    requires
        0 <= d < 16,
    ensures
        hex_value(hex_digit(d)) == Some(d),
        is_lower_hex(hex_digit(d)),
{
}

/// A lowercase digit's value spells the same character again.
pub proof fn character_and_digit(c: char)
    requires
        is_lower_hex(c),
    ensures
        hex_value(c) is Some,
        0 <= hex_value(c).unwrap() < 16,
        hex_digit(hex_value(c).unwrap()) == c,
{
}

/// Thirty-two base-16 digits span exactly the 128-bit values.
pub proof fn thirty_two_digits_span_u128()
    ensures
        pow16(32) == 0x1_0000_0000_0000_0000_0000_0000_0000_0000,
{
    assert(pow16(4) == 0x1_0000) by {
        reveal_with_fuel(pow16, 5);
    }
    assert(pow16(8) == 0x1_0000_0000) by {
        reveal_with_fuel(pow16, 5);
    }
    assert(pow16(12) == 0x1_0000_0000_0000) by {
        reveal_with_fuel(pow16, 5);
    }
    assert(pow16(16) == 0x1_0000_0000_0000_0000) by {
        reveal_with_fuel(pow16, 5);
    }
    assert(pow16(20) == 0x1_0000_0000_0000_0000_0000) by {
        reveal_with_fuel(pow16, 5);
    }
    assert(pow16(24) == 0x1_0000_0000_0000_0000_0000_0000) by {
        reveal_with_fuel(pow16, 5);
    }
    assert(pow16(28) == 0x1_0000_0000_0000_0000_0000_0000_0000) by {
        reveal_with_fuel(pow16, 5);
    }
    assert(pow16(32) == 0x1_0000_0000_0000_0000_0000_0000_0000_0000) by {
        reveal_with_fuel(pow16, 5);
    }
}

/// The digits of a number are as many as asked for, each in range.
pub proof fn digits_are_digits(v: nat, n: nat)
    ensures
        digits_of(v, n).len() == n,
        in_range(digits_of(v, n)),
    decreases n,
{
    if n > 0 {
        digits_are_digits(v / 16, (n - 1) as nat);
    }
}

/// A number below `16^n` is spelled in full by its `n` digits.
pub proof fn digits_spell_the_number(v: nat, n: nat)
    requires
        v < pow16(n),
    ensures
        digits_value(digits_of(v, n)) == v,
    decreases n,
{
    if n > 0 {
        let higher = digits_of(v / 16, (n - 1) as nat);
        digits_spell_the_number(v / 16, (n - 1) as nat);
        assert(higher.push((v % 16) as int).drop_last() =~= higher);
    }
}

/// Digits in range spell a number below `16^n` whose digits they are.
pub proof fn number_keeps_its_digits(digits: Seq<int>)
    requires
        in_range(digits),
    ensures
        digits_value(digits) < pow16(digits.len()),
        digits_of(digits_value(digits), digits.len()) == digits,
    decreases digits.len(),
{
    if digits.len() > 0 {
        let higher = digits.drop_last();
        assert(in_range(higher)) by {
            assert forall|i: int| 0 <= i < higher.len() implies 0 <= #[trigger] higher[i]
                < 16 by {
                assert(higher[i] == digits[i]);
            }
        }
        number_keeps_its_digits(higher);
        let v = digits_value(digits);
        assert(0 <= digits.last() < 16);
        assert(v / 16 == digits_value(higher));
        assert(v % 16 == digits.last());
        assert(higher.push(digits.last()) =~= digits);
    } else {
        assert(digits_of(0, 0) =~= digits);
    }
}

} // verus!
