use vstd::prelude::*;

verus! {

use vstd::string::StringExecFns;

/// An audio output device as reported by the sound server, with its name and
/// description already normalized: a record whose raw name or description was
/// absent carries a deterministic placeholder instead.
pub struct Device {
    /// Stable handle assigned by the sound server.
    pub index: u32,
    /// Name of the device, the key used to locate the current default.
    pub name: String,
    /// Human-readable description of the device.
    pub desc: String,
}

/// The character for a single decimal digit.
pub open spec fn digit_char(d: int) -> char
    recommends
        0 <= d < 10,
{
    if d == 0 {
        '0'
    } else if d == 1 {
        '1'
    } else if d == 2 {
        '2'
    } else if d == 3 {
        '3'
    } else if d == 4 {
        '4'
    } else if d == 5 {
        '5'
    } else if d == 6 {
        '6'
    } else if d == 7 {
        '7'
    } else if d == 8 {
        '8'
    } else {
        '9'
    }
}

/// The decimal rendering of `n`, most significant digit first, no leading zeros
/// (a single `'0'` for zero).
pub open spec fn decimal_seq(n: nat) -> Seq<char>
    decreases n,
{
    if n < 10 {
        seq![digit_char(n as int)]
    } else {
        decimal_seq(n / 10).push(digit_char((n % 10) as int))
    }
}

/// The placeholder name substituted when a raw record carries no name.
pub open spec fn unknown_name_seq(index: u32) -> Seq<char> {
    "[unknown name "@ + decimal_seq(index as nat) + "]"@
}

/// The placeholder description substituted when a raw record carries none.
pub open spec fn unknown_desc_seq(index: u32) -> Seq<char> {
    "[unknown description "@ + decimal_seq(index as nat) + "]"@
}

/// The display form of a device: `"{desc} ({index}, {name})"`.
pub open spec fn display_seq(d: Device) -> Seq<char> {
    d.desc@ + " ("@ + decimal_seq(d.index as nat) + ", "@ + d.name@ + ")"@
}

/// Appends the single decimal digit `d` to `s`.
fn push_digit(s: &mut String, d: u32)
    requires
        d < 10,
    ensures
        final(s)@ == old(s)@ + seq![digit_char(d as int)],
{
    if d == 0 {
        proof {
            reveal_strlit("0");
        }
        s.append("0");
        assert(s@ =~= old(s)@ + seq![digit_char(d as int)]);
    } else if d == 1 {
        proof {
            reveal_strlit("1");
        }
        s.append("1");
        assert(s@ =~= old(s)@ + seq![digit_char(d as int)]);
    } else if d == 2 {
        proof {
            reveal_strlit("2");
        }
        s.append("2");
        assert(s@ =~= old(s)@ + seq![digit_char(d as int)]);
    } else if d == 3 {
        proof {
            reveal_strlit("3");
        }
        s.append("3");
        assert(s@ =~= old(s)@ + seq![digit_char(d as int)]);
    } else if d == 4 {
        proof {
            reveal_strlit("4");
        }
        s.append("4");
        assert(s@ =~= old(s)@ + seq![digit_char(d as int)]);
    } else if d == 5 {
        proof {
            reveal_strlit("5");
        }
        s.append("5");
        assert(s@ =~= old(s)@ + seq![digit_char(d as int)]);
    } else if d == 6 {
        proof {
            reveal_strlit("6");
        }
        s.append("6");
        assert(s@ =~= old(s)@ + seq![digit_char(d as int)]);
    } else if d == 7 {
        proof {
            reveal_strlit("7");
        }
        s.append("7");
        assert(s@ =~= old(s)@ + seq![digit_char(d as int)]);
    } else if d == 8 {
        proof {
            reveal_strlit("8");
        }
        s.append("8");
        assert(s@ =~= old(s)@ + seq![digit_char(d as int)]);
    } else {
        proof {
            reveal_strlit("9");
        }
        s.append("9");
        assert(s@ =~= old(s)@ + seq![digit_char(d as int)]);
    }
}

/// Appends the decimal rendering of `n` to `s`.
fn push_decimal(s: &mut String, n: u32)
    ensures
        final(s)@ == old(s)@ + decimal_seq(n as nat),
    decreases n,
{
    if n >= 10 {
        push_decimal(s, n / 10);
    }
    push_digit(s, n % 10);
    assert(s@ =~= old(s)@ + decimal_seq(n as nat));
}

impl Device {
    /// Normalizes a raw record: the index is kept, and an absent name or
    /// description is replaced by its deterministic placeholder. Never fails.
    pub fn from_raw(index: u32, name: Option<String>, desc: Option<String>) -> (d: Device)
        ensures
            d.index == index,
            name matches Some(n) ==> d.name@ == n@,
            name is None ==> d.name@ == unknown_name_seq(index),
            desc matches Some(t) ==> d.desc@ == t@,
            desc is None ==> d.desc@ == unknown_desc_seq(index),
    {
        let name = match name {
            Some(n) => n,
            None => {
                let mut s = "[unknown name ".to_owned();
                push_decimal(&mut s, index);
                s.append("]");
                assert(s@ =~= unknown_name_seq(index));
                s
            },
        };
        let desc = match desc {
            Some(t) => t,
            None => {
                let mut s = "[unknown description ".to_owned();
                push_decimal(&mut s, index);
                s.append("]");
                assert(s@ =~= unknown_desc_seq(index));
                s
            },
        };
        Device { index, name, desc }
    }

    /// The display form `"{desc} ({index}, {name})"`, used when listing devices.
    pub fn display_string(&self) -> (s: String)
        ensures
            s@ == display_seq(*self),
    {
        let mut s = self.desc.clone();
        s.append(" (");
        push_decimal(&mut s, self.index);
        s.append(", ");
        s.append(self.name.as_str());
        s.append(")");
        assert(s@ =~= display_seq(*self));
        s
    }
}

impl Clone for Device {
    /// A clone is equal to the original, field for field.
    fn clone(&self) -> (d: Device)
        ensures
            d == *self,
    {
        Device { index: self.index, name: self.name.clone(), desc: self.desc.clone() }
    }
}

} // verus!
