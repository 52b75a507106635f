use vstd::prelude::*;
use vstd::string::StringExecFns;

verus! {

/// The upper-case hexadecimal digit for `d` (0 to 15).
pub open spec fn hex_digit(d: int) -> char {
    seq!['0', '1', '2', '3', '4', '5', '6', '7', '8', '9', 'A', 'B', 'C', 'D', 'E', 'F'][d]
}

/// `value` in `width` upper-case hexadecimal digits, zero-padded (the low
/// `width` digits when `value` has more).
pub open spec fn hex_text(value: nat, width: nat) -> Seq<char>
    decreases width,
{
    if width == 0 {
        Seq::empty()
    } else {
        hex_text(value / 16, (width - 1) as nat).push(hex_digit((value % 16) as int))
    }
}

/// `value` in decimal, without leading zeros.
pub open spec fn decimal_text(value: nat) -> Seq<char>
    decreases value,
{
    if value < 10 {
        seq![hex_digit(value as int)]
    } else {
        decimal_text(value / 10).push(hex_digit((value % 10) as int))
    }
}

/// `value` in decimal, with a leading `-` when negative.
pub open spec fn signed_decimal_text(value: int) -> Seq<char> {
    if value < 0 {
        seq!['-'] + decimal_text((-value) as nat)
    } else {
        decimal_text(value as nat)
    }
}

/// The one-character string of hexadecimal digit `d`.
fn digit_str(d: u8) -> (r: &'static str)
    requires
        d < 16,
    ensures
        r@ == seq![hex_digit(d as int)],
{
    match d {
        0 => {
            proof {
                reveal_strlit("0");
            }
            "0"
        },
        1 => {
            proof {
                reveal_strlit("1");
            }
            "1"
        },
        2 => {
            proof {
                reveal_strlit("2");
            }
            "2"
        },
        3 => {
            proof {
                reveal_strlit("3");
            }
            "3"
        },
        4 => {
            proof {
                reveal_strlit("4");
            }
            "4"
        },
        5 => {
            proof {
                reveal_strlit("5");
            }
            "5"
        },
        6 => {
            proof {
                reveal_strlit("6");
            }
            "6"
        },
        7 => {
            proof {
                reveal_strlit("7");
            }
            "7"
        },
        8 => {
            proof {
                reveal_strlit("8");
            }
            "8"
        },
        9 => {
            proof {
                reveal_strlit("9");
            }
            "9"
        },
        10 => {
            proof {
                reveal_strlit("A");
            }
            "A"
        },
        11 => {
            proof {
                reveal_strlit("B");
            }
            "B"
        },
        12 => {
            proof {
                reveal_strlit("C");
            }
            "C"
        },
        13 => {
            proof {
                reveal_strlit("D");
            }
            "D"
        },
        14 => {
            proof {
                reveal_strlit("E");
            }
            "E"
        },
        _ => {
            proof {
                reveal_strlit("F");
            }
            "F"
        },
    }
}

/// Appends `value` in `width` upper-case hexadecimal digits.
pub fn push_hex(s: &mut String, value: u64, width: usize)
    ensures
        final(s)@ == old(s)@ + hex_text(value as nat, width as nat),
    decreases width,
{
    if width > 0 {
        push_hex(s, value / 16, width - 1);
        s.append(digit_str((value % 16) as u8));
        assert(hex_text(value as nat, width as nat) == hex_text((value / 16) as nat, (width - 1) as nat).push(
            hex_digit((value % 16) as int),
        ));
    }
    assert(old(s)@ + hex_text(value as nat, width as nat) =~= s@) by {
        if width == 0 {
            assert(hex_text(value as nat, 0) =~= Seq::<char>::empty());
        }
    }
}

/// Appends `value` in decimal.
pub fn push_decimal(s: &mut String, value: u64)
    ensures
        final(s)@ == old(s)@ + decimal_text(value as nat),
    decreases value,
{
    if value >= 10 {
        push_decimal(s, value / 10);
    }
    s.append(digit_str((value % 10) as u8));
    assert(old(s)@ + decimal_text(value as nat) =~= s@);
}

/// Appends `value` in decimal, with a leading `-` when negative.
pub fn push_signed_decimal(s: &mut String, value: i64)
    requires
        value > i64::MIN,
    ensures
        final(s)@ == old(s)@ + signed_decimal_text(value as int),
{
    if value < 0 {
        proof {
            reveal_strlit("-");
        }
        s.append("-");
        push_decimal(s, (-value) as u64);
        assert(old(s)@ + signed_decimal_text(value as int) =~= s@);
    } else {
        push_decimal(s, value as u64);
    }
}

} // verus!
