use vstd::prelude::*;

verus! {

/// The error values a spreadsheet cell can hold.
#[derive(Debug, Clone, Copy, PartialEq, Eq)]
pub enum CellError {
    Div0,
    NA,
    Name,
    Null,
    Num,
    Ref,
    Value,
    GettingData,
}

/// The text a spreadsheet shows for an error cell.
pub open spec fn error_text(e: CellError) -> Seq<char> {
    match e {
        CellError::Div0 => "#DIV/0!"@,
        CellError::NA => "#N/A"@,
        CellError::Name => "#NAME?"@,
        CellError::Null => "#NULL!"@,
        CellError::Num => "#NUM!"@,
        CellError::Ref => "#REF!"@,
        CellError::Value => "#VALUE!"@,
        CellError::GettingData => "#DATA!"@,
    }
}

/// One spreadsheet cell. Cells whose value is a floating-point number
/// (plain numbers, serial date-times and durations) are held by the
/// decimal text of that number, so that no floating point enters here.
#[derive(Debug, Clone, PartialEq)]
pub enum Cell {
    String(String),
    Int(i64),
    Float(String),
    Bool(bool),
    DateTime(String),
    Duration(String),
    DateTimeIso(String),
    DurationIso(String),
    Error(CellError),
    Empty,
}

/// The character of a decimal digit.
pub open spec fn digit_char(d: nat) -> char {
    if d < 10 {
        ('0' as u32 + d) as char
    } else {
        '?'
    }
}

/// The decimal digits of `n`, most significant first, without leading zeros.
pub open spec fn digits_of(n: nat) -> Seq<char>
    decreases n,
{
    if n < 10 {
        seq![digit_char(n)]
    } else {
        digits_of(n / 10).push(digit_char(n % 10))
    }
}

/// The decimal text of an integer, with a leading `-` when it is negative.
pub open spec fn int_text(i: int) -> Seq<char> {
    if i < 0 {
        seq!['-'] + digits_of((-i) as nat)
    } else {
        digits_of(i as nat)
    }
}

/// The text that a cell coerces to.
pub open spec fn cell_text(c: Cell) -> Seq<char> {
    match c {
        Cell::String(s) => s@,
        Cell::Int(i) => int_text(i as int),
        Cell::Float(s) => s@,
        Cell::Bool(b) => if b { "true"@ } else { "false"@ },
        Cell::DateTime(s) => s@,
        Cell::Duration(s) => s@,
        Cell::DateTimeIso(s) => s@,
        Cell::DurationIso(s) => s@,
        Cell::Error(e) => error_text(e),
        Cell::Empty => Seq::empty(),
    }
}

impl CellError {
    /// The text a spreadsheet shows for this error.
    pub fn description(&self) -> (r: String)
        ensures
            r@ == error_text(*self),
    {
        let s = match self {
            CellError::Div0 => "#DIV/0!",
            CellError::NA => "#N/A",
            CellError::Name => "#NAME?",
            CellError::Null => "#NULL!",
            CellError::Num => "#NUM!",
            CellError::Ref => "#REF!",
            CellError::Value => "#VALUE!",
            CellError::GettingData => "#DATA!",
        };
        proof {
            reveal_strlit("#DIV/0!");
            reveal_strlit("#N/A");
            reveal_strlit("#NAME?");
            reveal_strlit("#NULL!");
            reveal_strlit("#NUM!");
            reveal_strlit("#REF!");
            reveal_strlit("#VALUE!");
            reveal_strlit("#DATA!");
        }
        String::from_str(s)
    }
}

/// Appends the decimal digits of `n` to `out`.
fn push_digits(out: &mut String, n: u64)
    ensures
        final(out)@ == old(out)@ + digits_of(n as nat),
    decreases n,
{
    if n >= 10 {
        push_digits(out, n / 10);
    }
    let d = n % 10;
    let s = match d {
        0 => "0",
        1 => "1",
        2 => "2",
        3 => "3",
        4 => "4",
        5 => "5",
        6 => "6",
        7 => "7",
        8 => "8",
        _ => "9",
    };
    proof {
        reveal_strlit("0");
        reveal_strlit("1");
        reveal_strlit("2");
        reveal_strlit("3");
        reveal_strlit("4");
        reveal_strlit("5");
        reveal_strlit("6");
        reveal_strlit("7");
        reveal_strlit("8");
        reveal_strlit("9");
        assert(s@ == seq![digit_char(d as nat)]);
    }
    let ghost before = out@;
    out.append(s);
    proof {
        if n >= 10 {
            assert(digits_of(n as nat) == digits_of((n / 10) as nat).push(digit_char((n % 10) as nat)));
        }
        assert(out@ =~= old(out)@ + digits_of(n as nat));
    }
}

/// The decimal text of `i`.
pub fn decimal_text(i: i64) -> (r: String)
    ensures
        r@ == int_text(i as int),
{
    let mut out = String::new();
    if i < 0 {
        out.append("-");
        proof {
            reveal_strlit("-");
        }
        let m: u64 = if i == i64::MIN {
            9223372036854775808u64
        } else {
            (-i) as u64
        };
        push_digits(&mut out, m);
        proof {
            assert(out@ =~= seq!['-'] + digits_of((-(i as int)) as nat));
        }
    } else {
        push_digits(&mut out, i as u64);
        proof {
            assert(out@ =~= digits_of(i as nat));
        }
    }
    out
}

/// The text of a cell: strings and text-held numbers as they are,
/// integers in decimal, booleans as `true`/`false`, errors by their
/// spreadsheet text, and an empty cell as the empty string.
pub fn coerce(c: &Cell) -> (r: String)
    ensures
        r@ == cell_text(*c),
{
    match c {
        Cell::String(s) => s.clone(),
        Cell::Int(i) => decimal_text(*i),
        Cell::Float(s) => s.clone(),
        Cell::Bool(b) => {
            proof {
                reveal_strlit("true");
                reveal_strlit("false");
            }
            if *b {
                String::from_str("true")
            } else {
                String::from_str("false")
            }
        },
        Cell::DateTime(s) => s.clone(),
        Cell::Duration(s) => s.clone(),
        Cell::DateTimeIso(s) => s.clone(),
        Cell::DurationIso(s) => s.clone(),
        Cell::Error(e) => e.description(),
        Cell::Empty => String::new(),
    }
}

} // verus!
