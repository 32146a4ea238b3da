//! Identity of the component: its class and profile identifiers, its
//! language, and the registry key under which the server registers.

use vstd::prelude::*;

verus! {

/// A 128-bit identifier, split as the host splits it: one 32-bit group, two
/// 16-bit groups, and a final 64-bit group kept in byte order.
#[derive(Clone, Copy, Debug, PartialEq, Eq, Structural)]
pub struct Guid {
    pub data1: u32,
    pub data2: u16,
    pub data3: u16,
    pub data4: u64,
}

/// The class identifier of the component.
pub open spec fn spec_ime_clsid() -> Guid {
    Guid { data1: 0x9de5f508, data2: 0x1b88, data3: 0x42bc, data4: 0x9f58be50828c40b1 }
}

/// The class identifier of the component.
pub fn ime_clsid() -> (r: Guid)
    ensures
        r == spec_ime_clsid(),
{
    Guid { data1: 0x9de5f508, data2: 0x1b88, data3: 0x42bc, data4: 0x9f58be50828c40b1 }
}

/// The identifier of the component's input profile.
pub fn ime_profile() -> (r: Guid)
    ensures
        r == (Guid { data1: 0x5f9083f2, data2: 0x0f4a, data3: 0x4c6e, data4: 0xaf9512c7bfc1603e }),
{
    Guid { data1: 0x5f9083f2, data2: 0x0f4a, data3: 0x4c6e, data4: 0xaf9512c7bfc1603e }
}

pub const LANG_BANGLA: u16 = 0x45;

pub const SUBLANG_BANGLA_BANGLADESH: u16 = 0x02;

/// The language identifier the component registers under and tags composed
/// text with: Bangla as spoken in Bangladesh.
pub fn ime_langid() -> (r: u16)
    ensures
        r == 0x845,
{
    proof {
        assert((SUBLANG_BANGLA_BANGLADESH << 10) | LANG_BANGLA == 0x845) by (bit_vector);
    }
    (SUBLANG_BANGLA_BANGLADESH << 10) | LANG_BANGLA
}

/// The uppercase hexadecimal digit for a value below sixteen.
pub open spec fn spec_hex_char(d: u8) -> char {
    if d == 0 {
        '0'
    } else if d == 1 {
        '1'
    } else if d == 2 {
        '2'
    } else if d == 3 {
        '3'
    } else if d == 4 {
        '4'
    } else if d == 5 {
        '5'
    } else if d == 6 {
        '6'
    } else if d == 7 {
        '7'
    } else if d == 8 {
        '8'
    } else if d == 9 {
        '9'
    } else if d == 10 {
        'A'
    } else if d == 11 {
        'B'
    } else if d == 12 {
        'C'
    } else if d == 13 {
        'D'
    } else if d == 14 {
        'E'
    } else {
        'F'
    }
}

/// The last `digits` hexadecimal digits of `v`, most significant first.
pub open spec fn spec_hex_digits(v: u64, digits: nat) -> Seq<char>
    decreases digits,
{
    if digits == 0 {
        Seq::empty()
    } else {
        spec_hex_digits(v / 16, (digits - 1) as nat) + seq![spec_hex_char((v % 16) as u8)]
    }
}

/// The textual form of a `Guid`, as the host renders it: five groups of
/// uppercase hexadecimal digits, 8-4-4-4-12, separated by dashes.
pub open spec fn spec_guid_chars(g: Guid) -> Seq<char> {
    spec_hex_digits(g.data1 as u64, 8) + seq!['-'] + spec_hex_digits(g.data2 as u64, 4)
        + seq!['-'] + spec_hex_digits(g.data3 as u64, 4) + seq!['-'] + spec_hex_digits(
        g.data4 >> 48,
        4,
    ) + seq!['-'] + spec_hex_digits(g.data4 & 0xffff_ffff_ffff, 12)
}

/// The registry key under which the component's class is registered.
pub open spec fn spec_ime_key() -> Seq<char> {
    seq!['C', 'L', 'S', 'I', 'D', '\\', '{'] + spec_guid_chars(spec_ime_clsid()) + seq!['}']
}

fn hex_str(d: u8) -> (r: &'static str)
    requires
        d < 16,
    ensures
        r@ =~= seq![spec_hex_char(d)],
{
    proof {
        reveal_strlit("0");
        reveal_strlit("1");
        reveal_strlit("2");
        reveal_strlit("3");
        reveal_strlit("4");
        reveal_strlit("5");
        reveal_strlit("6");
        reveal_strlit("7");
        reveal_strlit("8");
        reveal_strlit("9");
        reveal_strlit("A");
        reveal_strlit("B");
        reveal_strlit("C");
        reveal_strlit("D");
        reveal_strlit("E");
        reveal_strlit("F");
    }
    if d == 0 {
        "0"
    } else if d == 1 {
        "1"
    } else if d == 2 {
        "2"
    } else if d == 3 {
        "3"
    } else if d == 4 {
        "4"
    } else if d == 5 {
        "5"
    } else if d == 6 {
        "6"
    } else if d == 7 {
        "7"
    } else if d == 8 {
        "8"
    } else if d == 9 {
        "9"
    } else if d == 10 {
        "A"
    } else if d == 11 {
        "B"
    } else if d == 12 {
        "C"
    } else if d == 13 {
        "D"
    } else if d == 14 {
        "E"
    } else {
        "F"
    }
}

/// Append the last `digits` hexadecimal digits of `v`, most significant
/// first.
fn push_hex_digits(s: &mut String, v: u64, digits: u8)
    requires
        digits <= 16,
    ensures
        final(s)@ == old(s)@ + spec_hex_digits(v, digits as nat),
    decreases digits,
{
    if digits == 0 {
        assert(old(s)@ + spec_hex_digits(v, 0) =~= old(s)@);
    } else {
        push_hex_digits(s, v / 16, digits - 1);
        let d = (v % 16) as u8;
        s.append(hex_str(d));
    }
}

/// The registry key under which the component's class is registered:
/// `CLSID\` followed by the braced textual form of the class identifier.
pub fn ime_key() -> (r: String)
    ensures
        r@ == spec_ime_key(),
{
    let mut s = String::new();
    s.append("CLSID\\{");
    proof {
        reveal_strlit("CLSID\\{");
        assert("CLSID\\{"@ =~= seq!['C', 'L', 'S', 'I', 'D', '\\', '{']);
    }
    let g = ime_clsid();
    push_hex_digits(&mut s, g.data1 as u64, 8);
    s.append("-");
    push_hex_digits(&mut s, g.data2 as u64, 4);
    s.append("-");
    push_hex_digits(&mut s, g.data3 as u64, 4);
    s.append("-");
    push_hex_digits(&mut s, g.data4 >> 48, 4);
    s.append("-");
    push_hex_digits(&mut s, g.data4 & 0xffff_ffff_ffff, 12);
    s.append("}");
    proof {
        reveal_strlit("-");
        reveal_strlit("}");
        assert("-"@ =~= seq!['-']);
        assert("}"@ =~= seq!['}']);
        assert(s@ =~= spec_ime_key());
    }
    s
}

} // verus!
