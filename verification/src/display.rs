//! Text of the remote's 128x64 status screen: joystick axes, speed limit,
//! transmit result and ack count, one line each. Each line fits the screen's
//! 32-character line buffer.

use vstd::prelude::*;

verus! {

/// The decimal digit `d` (0..=9) as a character.
pub open spec fn digit_char(d: int) -> char {
    (d + 48) as char
}

/// Decimal representation of `n`, without leading zeros.
pub open spec fn decimal(n: nat) -> Seq<char>
    decreases n,
{
    if n < 10 {
        seq![digit_char(n as int)]
    } else {
        decimal(n / 10).push(digit_char((n % 10) as int))
    }
}

/// `v` with its sign always shown (`+` for zero and positives).
pub open spec fn signed_decimal(v: int) -> Seq<char> {
    if v < 0 {
        seq!['-'] + decimal((-v) as nat)
    } else {
        seq!['+'] + decimal(v as nat)
    }
}

/// `s` right-aligned in a field of `width` characters, padded with spaces.
pub open spec fn pad_left(s: Seq<char>, width: nat) -> Seq<char> {
    if s.len() >= width {
        s
    } else {
        Seq::new((width - s.len()) as nat, |i: int| ' ') + s
    }
}

/// "X:<x> Y:<y>" with each axis signed and right-aligned in five characters.
pub open spec fn joystick_line(axis_x: i16, axis_y: i16) -> Seq<char> {
    seq!['X', ':'] + pad_left(signed_decimal(axis_x as int), 5) + seq![' ', 'Y', ':'] + pad_left(
        signed_decimal(axis_y as int),
        5,
    )
}

/// "SPD: <limit>%".
pub open spec fn speed_line(speed_limit: u8) -> Seq<char> {
    seq!['S', 'P', 'D', ':', ' '] + decimal(speed_limit as nat) + seq!['%']
}

/// "TX: OK" after a successful send, "TX: FAIL" otherwise.
pub open spec fn link_line(sent: bool) -> Seq<char> {
    if sent {
        seq!['T', 'X', ':', ' ', 'O', 'K']
    } else {
        seq!['T', 'X', ':', ' ', 'F', 'A', 'I', 'L']
    }
}

/// "CNT: <count>".
pub open spec fn count_line(ack_count: u32) -> Seq<char> {
    seq!['C', 'N', 'T', ':', ' '] + decimal(ack_count as nat)
}

/// 10 to the power `k`.
pub open spec fn pow10(k: nat) -> nat
    decreases k,
{
    if k == 0 {
        1
    } else {
        10 * pow10((k - 1) as nat)
    }
}

/// A number below 10^k has at most k decimal digits.
pub proof fn lemma_decimal_len(n: nat, k: nat)
    requires
        1 <= k,
        n < pow10(k),
    ensures
        decimal(n).len() <= k,
    decreases k,
{
    if n >= 10 {
        if k == 1 {
            assert(pow10(1) == 10) by {
                reveal_with_fuel(pow10, 2);
            }
        }
        assert(n / 10 < pow10((k - 1) as nat)) by (nonlinear_arith)
            requires
                n < 10 * pow10((k - 1) as nat),
        ;
        lemma_decimal_len(n / 10, (k - 1) as nat);
    }
}

proof fn lemma_pow10_values()
    ensures
        pow10(3) == 1000,
        pow10(5) == 100000,
        pow10(10) == 10000000000,
{
    reveal_with_fuel(pow10, 11);
}

/// The four lines of the status screen, top to bottom.
pub struct StatusText {
    pub joystick: Vec<char>,
    pub speed: Vec<char>,
    pub link: Vec<char>,
    pub count: Vec<char>,
}

/// Longest line the screen's line buffer holds.
pub const LINE_CAPACITY: usize = 32;

fn push_decimal(out: &mut Vec<char>, n: u32)
    ensures
        final(out)@ == old(out)@ + decimal(n as nat),
    decreases n,
{
    if n >= 10 {
        push_decimal(out, n / 10);
    }
    let d: u8 = (n % 10) as u8;
    out.push((48u8 + d) as char);
    proof {
        if n >= 10 {
            assert(decimal(n as nat) == decimal((n / 10) as nat).push(digit_char((n % 10) as int)));
        }
    }
    assert(final(out)@ =~= old(out)@ + decimal(n as nat));
}

fn push_chars(out: &mut Vec<char>, s: &[char])
    ensures
        final(out)@ == old(out)@ + s@,
{
    let mut i: usize = 0;
    while i < s.len()
        invariant
            i <= s.len(),
            out@ == old(out)@ + s@.take(i as int),
        decreases s.len() - i,
    {
        out.push(s[i]);
        assert(s@.take(i + 1) =~= s@.take(i as int).push(s@[i as int]));
        i = i + 1;
    }
    assert(s@.take(s.len() as int) =~= s@);
}

/// Appends `v`, sign always shown, right-aligned in five characters.
fn push_signed5(out: &mut Vec<char>, v: i16)
    ensures
        final(out)@ == old(out)@ + pad_left(signed_decimal(v as int), 5),
{
    let mut num: Vec<char> = Vec::new();
    if v < 0 {
        num.push('-');
        push_decimal(&mut num, (-(v as i32)) as u32);
    } else {
        num.push('+');
        push_decimal(&mut num, v as u32);
    }
    assert(num@ =~= signed_decimal(v as int));
    let mut pad: Vec<char> = Vec::new();
    while pad.len() + num.len() < 5
        invariant
            pad@ == Seq::new(pad@.len(), |i: int| ' '),
            pad@.len() + num@.len() <= 5 || pad@.len() == 0,
        decreases 5 - pad.len(),
    {
        pad.push(' ');
        assert(pad@ =~= Seq::new(pad@.len(), |i: int| ' '));
    }
    assert(pad@ + num@ =~= pad_left(num@, 5));
    out.append(&mut pad);
    out.append(&mut num);
}

/// The text of the status screen for the given readings.
pub fn status_text(axis_x: i16, axis_y: i16, speed_limit: u8, sent: bool, ack_count: u32) -> (t: StatusText)
    ensures
        t.joystick@ == joystick_line(axis_x, axis_y),
        t.speed@ == speed_line(speed_limit),
        t.link@ == link_line(sent),
        t.count@ == count_line(ack_count),
        t.joystick@.len() <= LINE_CAPACITY,
        t.speed@.len() <= LINE_CAPACITY,
        t.link@.len() <= LINE_CAPACITY,
        t.count@.len() <= LINE_CAPACITY,
{
    proof {
        lemma_pow10_values();
        lemma_decimal_len(speed_limit as nat, 3);
        lemma_decimal_len(ack_count as nat, 10);
        let ax = if axis_x < 0 { -(axis_x as int) } else { axis_x as int };
        let ay = if axis_y < 0 { -(axis_y as int) } else { axis_y as int };
        lemma_decimal_len(ax as nat, 5);
        lemma_decimal_len(ay as nat, 5);
    }
    let mut joystick: Vec<char> = Vec::new();
    push_chars(&mut joystick, &['X', ':']);
    push_signed5(&mut joystick, axis_x);
    push_chars(&mut joystick, &[' ', 'Y', ':']);
    push_signed5(&mut joystick, axis_y);

    let mut speed: Vec<char> = Vec::new();
    push_chars(&mut speed, &['S', 'P', 'D', ':', ' ']);
    push_decimal(&mut speed, speed_limit as u32);
    speed.push('%');

    let mut link: Vec<char> = Vec::new();
    if sent {
        push_chars(&mut link, &['T', 'X', ':', ' ', 'O', 'K']);
    } else {
        push_chars(&mut link, &['T', 'X', ':', ' ', 'F', 'A', 'I', 'L']);
    }

    let mut count: Vec<char> = Vec::new();
    push_chars(&mut count, &['C', 'N', 'T', ':', ' ']);
    push_decimal(&mut count, ack_count);
    StatusText { joystick, speed, link, count }
}

} // verus!
