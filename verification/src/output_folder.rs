use vstd::prelude::*;

verus! {

/// The character that renders a single decimal digit value.
pub open spec fn digit_char(d: nat) -> char {
    if d == 0 {
        '0'
    } else if d == 1 {
        '1'
    } else if d == 2 {
        '2'
    } else if d == 3 {
        '3'
    } else if d == 4 {
        '4'
    } else if d == 5 {
        '5'
    } else if d == 6 {
        '6'
    } else if d == 7 {
        '7'
    } else if d == 8 {
        '8'
    } else {
        '9'
    }
}

/// Decimal rendering of a natural number, most significant digit first,
/// without leading zeroes.
pub open spec fn dec_digits(n: nat) -> Seq<char>
    decreases n,
{
    if n < 10 {
        seq![digit_char(n)]
    } else {
        dec_digits(n / 10) + seq![digit_char(n % 10)]
    }
}

/// Rendering of a number zero-padded to a width of two characters;
/// a number of three or more digits renders in full.
pub open spec fn pad2(n: nat) -> Seq<char> {
    if n < 10 {
        seq!['0', digit_char(n)]
    } else {
        dec_digits(n)
    }
}

/// The canonical relative path for a (year, month, day) triple:
/// `YEAR/MM/DD`, with month and day zero-padded to two digits.
pub open spec fn folder_path(y: nat, m: nat, d: nat) -> Seq<char> {
    dec_digits(y) + seq!['/'] + pad2(m) + seq!['/'] + pad2(d)
}

/// A normalized (year, month, day) triple naming the destination folder
/// for one file. All three fields are always populated together.
#[derive(Clone, Copy, PartialEq, Eq, Structural, Debug)]
pub struct OutputFolder {
    pub year: u16,
    pub month: u8,
    pub day: u8,
}

impl OutputFolder {
    pub fn new(year: u16, month: u8, day: u8) -> (r: Self)
        ensures
            r == (OutputFolder { year, month, day }),
    {
        Self { year, month, day }
    }

    /// Renders the three-segment relative path `YEAR/MM/DD`.
    pub fn get_path(&self) -> (r: String)
        ensures
            r@ == folder_path(self.year as nat, self.month as nat, self.day as nat),
    {
        proof {
            reveal_strlit("/");
        }
        let mut s = decimal_u16(self.year);
        s.append("/");
        let m = pad2_u8(self.month);
        s.append(m.as_str());
        s.append("/");
        let d = pad2_u8(self.day);
        s.append(d.as_str());
        proof {
            assert(s@ =~= folder_path(self.year as nat, self.month as nat, self.day as nat));
        }
        s
    }
}

/// A one-character string for a single decimal digit value.
fn digit_str(d: u8) -> (r: &'static str)
    requires
        d < 10,
    ensures
        r@ =~= seq![digit_char(d as nat)],
{
    proof {
        reveal_strlit("0");
        reveal_strlit("1");
        reveal_strlit("2");
        reveal_strlit("3");
        reveal_strlit("4");
        reveal_strlit("5");
        reveal_strlit("6");
        reveal_strlit("7");
        reveal_strlit("8");
        reveal_strlit("9");
    }
    match d {
        0 => "0",
        1 => "1",
        2 => "2",
        3 => "3",
        4 => "4",
        5 => "5",
        6 => "6",
        7 => "7",
        8 => "8",
        _ => "9",
    }
}

/// Renders a number in decimal, without padding.
fn decimal_u16(n: u16) -> (r: String)
    ensures
        r@ == dec_digits(n as nat),
    decreases n,
{
    if n < 10 {
        digit_str(n as u8).to_owned()
    } else {
        let mut s = decimal_u16(n / 10);
        s.append(digit_str((n % 10) as u8));
        s
    }
}

/// Renders a number zero-padded to two characters.
fn pad2_u8(n: u8) -> (r: String)
    ensures
        r@ == pad2(n as nat),
{
    if n < 10 {
        proof {
            reveal_strlit("0");
        }
        let mut s = "0".to_owned();
        s.append(digit_str(n));
        proof {
            assert(s@ =~= pad2(n as nat));
        }
        s
    } else {
        decimal_u16(n as u16)
    }
}

} // verus!
