//! Errors that the event loop and the windows can report.

use vstd::prelude::*;

verus! {

/// The decimal digit `d` as a character.
pub open spec fn digit_char(d: nat) -> char {
    if d == 0 { '0' }
    else if d == 1 { '1' }
    else if d == 2 { '2' }
    else if d == 3 { '3' }
    else if d == 4 { '4' }
    else if d == 5 { '5' }
    else if d == 6 { '6' }
    else if d == 7 { '7' }
    else if d == 8 { '8' }
    else { '9' }
}

/// The decimal notation of `n`, most significant digit first, without leading zeros.
pub open spec fn decimal(n: nat) -> Seq<char>
    decreases n,
{
    if n < 10 {
        seq![digit_char(n)]
    } else {
        decimal(n / 10).push(digit_char(n % 10))
    }
}

/// The number that a decimal digit character stands for.
pub open spec fn digit_value(c: char) -> int {
    c as int - '0' as int
}

/// The number that a string of decimal digits stands for, most significant digit first.
pub open spec fn decimal_value(s: Seq<char>) -> int
    decreases s.len(),
{
    if s.len() == 0 {
        0
    } else {
        decimal_value(s.drop_last()) * 10 + digit_value(s.last())
    }
}

/// The decimal notation of `n` is made of digits, reads back as `n`, and starts with a zero
/// only when it is the notation of zero.
pub proof fn lemma_decimal_reads_back(n: nat)
    ensures
        decimal_value(decimal(n)) == n,
        decimal(n).len() >= 1,
        forall|i: int| 0 <= i < decimal(n).len() ==> '0' <= #[trigger] decimal(n)[i] <= '9',
        decimal(n)[0] == '0' ==> n == 0,
    decreases n,
{
    let d = if n < 10 { n } else { n % 10 };
    assert(digit_value(digit_char(d)) == d && '0' <= digit_char(d) <= '9' && (digit_char(d) == '0'
        ==> d == 0));
    if n >= 10 {
        lemma_decimal_reads_back(n / 10);
        let s = decimal(n);
        assert(s.drop_last() =~= decimal(n / 10));
        assert(s.last() == digit_char(n % 10));
        assert(s[0] == decimal(n / 10)[0]);
        assert(decimal_value(s) == decimal_value(decimal(n / 10)) * 10 + digit_value(
            digit_char(n % 10),
        ));
        assert((n / 10) * 10 + n % 10 == n);
        assert forall|i: int| 0 <= i < s.len() implies '0' <= #[trigger] s[i] <= '9' by {
            if i < s.len() - 1 {
                assert(s[i] == decimal(n / 10)[i]);
            }
        }
    } else {
        assert(decimal(n).drop_last() =~= Seq::<char>::empty());
        assert(decimal_value(Seq::<char>::empty()) == 0);
        assert(decimal_value(decimal(n)) == decimal_value(decimal(n).drop_last()) * 10
            + digit_value(decimal(n).last()));
    }
}

/// The text of a `NotSupportedError`.
pub open spec fn not_supported_text() -> Seq<char> {
    "the requested operation is not supported by Winit"@
}

/// The text of an `OsError` raised at `file:line` for a platform error that reads `error`.
pub open spec fn os_error_text(line: u32, file: Seq<char>, error: Seq<char>) -> Seq<char> {
    "os error at "@ + file + ":"@ + decimal(line as nat) + ": "@ + error
}

fn digit_str(d: u32) -> (s: &'static str)
    requires
        d < 10,
    ensures
        s@ == seq![digit_char(d as nat)],
{
    proof {
        reveal_strlit("0");
        reveal_strlit("1");
        reveal_strlit("2");
        reveal_strlit("3");
        reveal_strlit("4");
        reveal_strlit("5");
        reveal_strlit("6");
        reveal_strlit("7");
        reveal_strlit("8");
        reveal_strlit("9");
    }
    match d {
        0 => "0",
        1 => "1",
        2 => "2",
        3 => "3",
        4 => "4",
        5 => "5",
        6 => "6",
        7 => "7",
        8 => "8",
        _ => "9",
    }
}

/// Appends the decimal notation of `n` to `out`.
pub fn push_decimal(out: &mut String, n: u32)
    ensures
        final(out)@ == old(out)@ + decimal(n as nat),
    decreases n,
{
    if n >= 10 {
        push_decimal(out, n / 10);
    }
    let d = digit_str(n % 10);
    out.append(d);
    proof {
        if n >= 10 {
            assert(old(out)@ + decimal(n as nat) =~= old(out)@ + decimal((n / 10) as nat) + seq![
                digit_char((n % 10) as nat),
            ]);
        }
    }
}

/// The error returned when a requested operation is not supported by the backend.
///
/// It has no fields, so it shows as just its name, and it is `non_exhaustive`, so only this
/// crate makes one.
#[derive(Clone, Copy, Debug)]
#[non_exhaustive]
pub struct NotSupportedError {}

impl NotSupportedError {
    pub fn new() -> NotSupportedError {
        NotSupportedError {}
    }

    /// What the error displays.
    pub fn to_string(&self) -> (s: String)
        ensures
            s@ == not_supported_text(),
    {
        String::from_str("the requested operation is not supported by Winit")
    }
}

/// An error reported by the operating system, with the place in the source where it was raised.
#[derive(Debug)]
pub struct OsError {
    line: u32,
    file: &'static str,
    error: String,
}

impl View for OsError {
    /// The line, the file and the text of the platform error.
    type V = (u32, Seq<char>, Seq<char>);

    closed spec fn view(&self) -> (u32, Seq<char>, Seq<char>) {
        (self.line, self.file@, self.error@)
    }
}

impl OsError {
    /// An error raised at `file:line` for the platform error whose text is `error`.
    pub fn new(line: u32, file: &'static str, error: String) -> (e: OsError)
        ensures
            e@ == (line, file@, error@),
    {
        OsError { line, file, error }
    }

    /// What the error displays: `os error at FILE:LINE: ERROR`.
    pub fn to_string(&self) -> (s: String)
        ensures
            s@ == os_error_text(self@.0, self@.1, self@.2),
    {
        let mut s = String::from_str("os error at ");
        s.append(self.file);
        s.append(":");
        push_decimal(&mut s, self.line);
        s.append(": ");
        s.append(self.error.as_str());
        s
    }
}

/// An error that a fallible operation of the library reports to its caller.
#[derive(Debug)]
pub enum ExternalError {
    /// The operation is not supported by the backend.
    NotSupported(NotSupportedError),
    /// The operating system reported an error.
    Os(OsError),
}

impl ExternalError {
    /// What the error displays: the text of the error it holds.
    pub fn to_string(&self) -> (s: String)
        ensures
            s@ == match self {
                ExternalError::NotSupported(_) => not_supported_text(),
                ExternalError::Os(e) => os_error_text(e@.0, e@.1, e@.2),
            },
    {
        match self {
            ExternalError::NotSupported(e) => e.to_string(),
            ExternalError::Os(e) => e.to_string(),
        }
    }
}

} // verus!
