//! Text as the system calls want it: zero-terminated UTF-16, and numbers written out in decimal.

use vstd::prelude::*;

verus! {

/// The UTF-16 code units of one character: the character itself in the basic plane, and a
/// high and a low surrogate, ten bits each, beyond it.
pub open spec fn utf16_units(c: char) -> Seq<u16> {
    let v = c as int;
    if v < 0x1_0000 {
        seq![v as u16]
    } else {
        seq![
            (0xD800 + (v - 0x1_0000) / 0x400) as u16,
            (0xDC00 + (v - 0x1_0000) % 0x400) as u16,
        ]
    }
}

/// The UTF-16 encoding of a text.
pub open spec fn utf16(text: Seq<char>) -> Seq<u16>
    decreases text.len(),
{
    if text.len() == 0 {
        Seq::empty()
    } else {
        utf16(text.drop_last()) + utf16_units(text.last())
    }
}

/// The UTF-16 encoding of a text with the zero behind it that ends a string in a system call.
pub open spec fn wide(text: Seq<char>) -> Seq<u16> {
    utf16(text).push(0)
}

/// Puts the code units of `c` behind `units`.
fn push_utf16(units: &mut Vec<u16>, c: char)
    ensures
        final(units)@ == old(units)@ + utf16_units(c),
{
    let v: u32 = c as u32;
    if v < 0x1_0000 {
        units.push(v as u16);
    } else {
        let high: u32 = 0xD800 + (v - 0x1_0000) / 0x400;
        let low: u32 = 0xDC00 + (v - 0x1_0000) % 0x400;
        units.push(high as u16);
        units.push(low as u16);
    }
    assert(units@ =~= old(units)@ + utf16_units(c));
}

/// Encodes `text` in UTF-16 and ends it with a zero.
pub fn wide_string(text: &str) -> (units: Vec<u16>)
    ensures
        units@ == wide(text@),
{
    let mut units: Vec<u16> = Vec::new();
    for c in it: text.chars()
        invariant
            it.seq() == text@,
            units@ == utf16(text@.take(it.index())),
    {
        push_utf16(&mut units, c);
        assert(text@.take(it.index() + 1).drop_last() =~= text@.take(it.index()));
    }
    assert(text@.take(text@.len() as int) =~= text@);
    units.push(0);
    units
}

/// The character of one decimal digit.
pub open spec fn digit(d: int) -> char {
    if d == 0 {
        '0'
    } else if d == 1 {
        '1'
    } else if d == 2 {
        '2'
    } else if d == 3 {
        '3'
    } else if d == 4 {
        '4'
    } else if d == 5 {
        '5'
    } else if d == 6 {
        '6'
    } else if d == 7 {
        '7'
    } else if d == 8 {
        '8'
    } else {
        '9'
    }
}

/// A natural number in decimal, without leading zeros.
pub open spec fn decimal(n: nat) -> Seq<char>
    decreases n,
{
    if n < 10 {
        seq![digit(n as int)]
    } else {
        decimal(n / 10).push(digit((n % 10) as int))
    }
}

/// An integer in decimal, with a minus sign where it is negative.
pub open spec fn signed_decimal(v: int) -> Seq<char> {
    if v < 0 {
        seq!['-'] + decimal((-v) as nat)
    } else {
        decimal(v as nat)
    }
}

fn digit_str(d: u32) -> (s: &'static str)
    requires
        d < 10,
    ensures
        s@ == seq![digit(d as int)],
{
    proof {
        reveal_strlit("0");
        reveal_strlit("1");
        reveal_strlit("2");
        reveal_strlit("3");
        reveal_strlit("4");
        reveal_strlit("5");
        reveal_strlit("6");
        reveal_strlit("7");
        reveal_strlit("8");
        reveal_strlit("9");
    }
    let s = match d {
        0 => "0",
        1 => "1",
        2 => "2",
        3 => "3",
        4 => "4",
        5 => "5",
        6 => "6",
        7 => "7",
        8 => "8",
        _ => "9",
    };
    assert(s@ =~= seq![digit(d as int)]);
    s
}

fn decimal_string(n: u32) -> (s: String)
    ensures
        s@ == decimal(n as nat),
    decreases n,
{
    if n < 10 {
        String::from_str(digit_str(n))
    } else {
        let mut s = decimal_string(n / 10);
        s.append(digit_str(n % 10));
        assert(s@ =~= decimal(n as nat));
        s
    }
}

/// Writes `v` in decimal.
pub fn signed_decimal_string(v: i32) -> (s: String)
    ensures
        s@ == signed_decimal(v as int),
{
    if v < 0 {
        proof {
            reveal_strlit("-");
        }
        let magnitude: u32 = (-(v as i64)) as u32;
        let mut s = String::from_str("-");
        s.append(decimal_string(magnitude).as_str());
        assert(s@ =~= signed_decimal(v as int));
        s
    } else {
        decimal_string(v as u32)
    }
}

/// The number that a sequence of decimal digits stands for.
pub open spec fn decimal_value(digits: Seq<char>) -> int
    decreases digits.len(),
{
    if digits.len() == 0 {
        0
    } else {
        10 * decimal_value(digits.drop_last()) + (digits.last() as int - '0' as int)
    }
}

proof fn lemma_utf16_units_distinguish(a: char, b: char)
    ensures
        utf16_units(a).len() == 1 || utf16_units(a).len() == 2,
        utf16_units(a).len() == 2 <==> 0xDC00 <= utf16_units(a).last() < 0xE000,
        utf16_units(a) == utf16_units(b) ==> a == b,
{
    if utf16_units(a) == utf16_units(b) && a as int >= 0x1_0000 {
        assert(utf16_units(a)[0] == utf16_units(b)[0]);
        assert(utf16_units(a)[1] == utf16_units(b)[1]);
    } else if utf16_units(a) == utf16_units(b) {
        assert(utf16_units(a)[0] == utf16_units(b)[0]);
    }
}

/// Two texts with the same UTF-16 encoding are the same text: no character is lost or
/// changed on the way to a system call.
pub proof fn law_utf16_determines_text(a: Seq<char>, b: Seq<char>)
    requires
        utf16(a) == utf16(b),
    ensures
        a == b,
    decreases a.len(),
{
    if a.len() == 0 {
        if b.len() > 0 {
            lemma_utf16_units_distinguish(b.last(), b.last());
            assert(utf16(b).len() > 0);
        }
    } else {
        lemma_utf16_units_distinguish(a.last(), a.last());
        if b.len() == 0 {
            assert(utf16(a).len() > 0);
        } else {
            lemma_utf16_units_distinguish(b.last(), b.last());
            let ua = utf16_units(a.last());
            let ub = utf16_units(b.last());
            assert(utf16(a).last() == ua.last());
            assert(utf16(b).last() == ub.last());
            let whole = utf16(a);
            assert(ua =~= whole.skip(whole.len() - ua.len()));
            assert(ub =~= whole.skip(whole.len() - ub.len()));
            lemma_utf16_units_distinguish(a.last(), b.last());
            assert(utf16(a.drop_last()) =~= whole.take(whole.len() - ua.len()));
            assert(utf16(b.drop_last()) =~= whole.take(whole.len() - ub.len()));
            law_utf16_determines_text(a.drop_last(), b.drop_last());
            assert(a =~= a.drop_last().push(a.last()));
            assert(b =~= b.drop_last().push(b.last()));
        }
    }
}

proof fn lemma_utf16_units_nonzero(c: char)
    requires
        c != '\0',
    ensures
        forall|i: int| 0 <= i < utf16_units(c).len() ==> utf16_units(c)[i] != 0,
{
}

proof fn lemma_utf16_nonzero(text: Seq<char>)
    requires
        !text.contains('\0'),
    ensures
        forall|i: int| 0 <= i < utf16(text).len() ==> utf16(text)[i] != 0,
    decreases text.len(),
{
    if text.len() > 0 {
        assert(!text.drop_last().contains('\0')) by {
            if text.drop_last().contains('\0') {
                let i = choose|i: int|
                    0 <= i < text.drop_last().len() && text.drop_last()[i] == '\0';
                assert(text[i] == '\0');
            }
        }
        lemma_utf16_nonzero(text.drop_last());
        assert(text[text.len() - 1] != '\0');
        lemma_utf16_units_nonzero(text.last());
        let front = utf16(text.drop_last());
        let back = utf16_units(text.last());
        assert forall|i: int| 0 <= i < utf16(text).len() implies utf16(text)[i] != 0 by {
            if i < front.len() {
                assert(utf16(text)[i] == front[i]);
            } else {
                assert(utf16(text)[i] == back[i - front.len()]);
            }
        }
    }
}

/// The zero that ends an encoded text is the first one in it, unless the text itself holds
/// a NUL: the system reads the whole text and nothing behind it.
pub proof fn law_wide_ends_at_its_first_zero(text: Seq<char>)
    requires
        !text.contains('\0'),
    ensures
        wide(text).last() == 0,
        forall|i: int| 0 <= i < wide(text).len() - 1 ==> wide(text)[i] != 0,
{
    lemma_utf16_nonzero(text);
}

/// The digits of a number stand for that number.
pub proof fn law_decimal_reads_back(n: nat)
    ensures
        decimal_value(decimal(n)) == n,
    decreases n,
{
    if n < 10 {
        assert(decimal(n).drop_last() =~= Seq::<char>::empty());
        assert(decimal_value(decimal(n).drop_last()) == 0);
    } else {
        law_decimal_reads_back(n / 10);
        assert(decimal(n).drop_last() =~= decimal(n / 10));
    }
}

/// A text is encoded piece by piece.
pub proof fn law_utf16_joins(a: Seq<char>, b: Seq<char>)
    ensures
        utf16(Seq::empty()) == Seq::<u16>::empty(),
        utf16(a + b) == utf16(a) + utf16(b),
    decreases b.len(),
{
    if b.len() == 0 {
        assert(a + b =~= a);
        assert(utf16(a) + utf16(b) =~= utf16(a));
    } else {
        law_utf16_joins(a, b.drop_last());
        assert((a + b).drop_last() =~= a + b.drop_last());
        assert((a + b).last() == b.last());
        assert(utf16(a + b) =~= utf16(a) + utf16(b));
    }
}

/// A character of the basic plane is encoded as its own number. Any other is encoded as a high and
/// a low surrogate, which hold the upper and the lower ten bits of how far it lies beyond that
/// plane.
pub proof fn law_utf16_of_one_character(c: char)
    ensures
        ({
            let units = utf16(seq![c]);
            if (c as int) < 0x1_0000 {
                &&& units.len() == 1
                &&& units[0] == c as int
            } else {
                &&& units.len() == 2
                &&& 0xD800 <= units[0] < 0xDC00
                &&& 0xDC00 <= units[1] < 0xE000
                &&& c as int == 0x1_0000 + (units[0] - 0xD800) * 0x400 + (units[1] - 0xDC00)
            }
        }),
{
    let text = seq![c];
    assert(text.drop_last() =~= Seq::empty());
    assert(utf16(text.drop_last()) =~= Seq::<u16>::empty());
    assert(utf16(text) =~= utf16_units(c));
}

/// A string for a system call is the encoding of the text with one zero behind it.
pub proof fn law_wide_adds_one_zero(text: Seq<char>)
    ensures
        wide(text).len() == utf16(text).len() + 1,
        wide(text).last() == 0,
        wide(text).drop_last() == utf16(text),
{
    assert(wide(text).drop_last() =~= utf16(text));
}

/// The text is `n` in decimal digits, with no more of them than it takes.
pub open spec fn writes_out(text: Seq<char>, n: int) -> bool {
    &&& text.len() > 0
    &&& forall|i: int|
        0 <= i < text.len() ==> '0' as int <= (#[trigger] text[i]) as int <= '9' as int
    &&& text.len() > 1 ==> text[0] != '0'
    &&& decimal_value(text) == n
}

/// A natural number is written out in digits.
pub proof fn law_decimal_writes_out_the_number(n: nat)
    ensures
        writes_out(decimal(n), n as int),
    decreases n,
{
    law_decimal_reads_back(n);
    if n >= 10 {
        law_decimal_writes_out_the_number(n / 10);
        let front = decimal(n / 10);
        assert(decimal(n)[0] == front[0]);
        if front.len() == 1 && front[0] == '0' {
            assert(front.drop_last() =~= Seq::empty());
            assert(decimal_value(front.drop_last()) == 0);
            assert(decimal_value(front) == 0);
        }
        assert forall|i: int| 0 <= i < decimal(n).len() implies '0' as int
            <= (#[trigger] decimal(n)[i]) as int <= '9' as int by {
            if i < front.len() {
                assert(decimal(n)[i] == front[i]);
            }
        }
    }
}

/// An integer is written out in digits, behind a minus sign where it is negative.
pub proof fn law_signed_decimal_writes_out_the_number(v: int)
    ensures
        v >= 0 ==> writes_out(signed_decimal(v), v),
        v < 0 ==> {
            &&& signed_decimal(v).len() > 0
            &&& signed_decimal(v)[0] == '-'
            &&& writes_out(signed_decimal(v).skip(1), -v)
        },
{
    if v < 0 {
        law_decimal_writes_out_the_number((-v) as nat);
        assert(signed_decimal(v).skip(1) =~= decimal((-v) as nat));
    } else {
        law_decimal_writes_out_the_number(v as nat);
    }
}

} // verus!
