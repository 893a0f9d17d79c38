use vstd::prelude::*;
use vstd::string::*;

verus! {

/// The form of a new submission: the program text.
pub struct SolvePost {
    pub answer: String,
}

/// Status of a submission as the store holds it.
#[derive(PartialEq, Eq, Structural, Debug, Clone, Copy)]
pub enum Status {
    Pending,
    Accepted,
    Rejected,
}

/// The status a stored text stands for: `Pending`, `AC` or `WA`.
pub open spec fn status_of(s: Seq<char>) -> Option<Status> {
    if s == "Pending"@ {
        Some(Status::Pending)
    } else if s == "AC"@ {
        Some(Status::Accepted)
    } else if s == "WA"@ {
        Some(Status::Rejected)
    } else {
        None
    }
}

pub open spec fn status_text(st: Status) -> Seq<char> {
    match st {
        Status::Pending => "Pending"@,
        Status::Accepted => "AC"@,
        Status::Rejected => "WA"@,
    }
}

impl Status {
    /// The text under which the store keeps this status.
    pub fn as_text(&self) -> (r: &'static str)
        ensures
            r@ == status_text(*self),
    {
        match self {
            Status::Pending => "Pending",
            Status::Accepted => "AC",
            Status::Rejected => "WA",
        }
    }

    /// Reads a stored status text; any other text is `None`.
    pub fn from_text(s: &str) -> (r: Option<Status>)
        ensures
            r == status_of(s@),
    {
        if crate::text::eq_str(s, "Pending") {
            Some(Status::Pending)
        } else if crate::text::eq_str(s, "AC") {
            Some(Status::Accepted)
        } else if crate::text::eq_str(s, "WA") {
            Some(Status::Rejected)
        } else {
            None
        }
    }

    pub open spec fn is_terminal(self) -> bool {
        self != Status::Pending
    }
}

/// Terminal verdict of one submission.
#[derive(PartialEq, Eq, Structural, Debug, Clone, Copy)]
pub enum Verdict {
    Accepted,
    Rejected,
}

impl Verdict {
    pub open spec fn status(self) -> Status {
        match self {
            Verdict::Accepted => Status::Accepted,
            Verdict::Rejected => Status::Rejected,
        }
    }

    /// The store's status for this verdict; never `Pending`.
    pub fn to_status(&self) -> (r: Status)
        ensures
            r == self.status(),
            r.is_terminal(),
    {
        match self {
            Verdict::Accepted => Status::Accepted,
            Verdict::Rejected => Status::Rejected,
        }
    }
}

/// What is written back for a submission, in one update.
pub struct Record {
    pub verdict: Verdict,
    pub stdout: String,
    pub stderr: String,
}

/// Text that `String::from_utf8_lossy` makes of some bytes.
pub uninterp spec fn lossy_utf8(b: Seq<u8>) -> Seq<char>;

/// Relies on `String::from_utf8_lossy`: the text depends on the bytes alone,
/// and no bytes give the empty text.
#[verifier::external_body]
pub(crate) fn decode_lossy(b: &Vec<u8>) -> (r: String)
    ensures
        r@ == lossy_utf8(b@),
        b@.len() == 0 ==> r@.len() == 0,
{
    String::from_utf8_lossy(b.as_slice()).into_owned()
}

/// Decimal digit `d`, for `d < 10`.
pub open spec fn digit(d: nat) -> char {
    if d == 0 { '0' } else if d == 1 { '1' } else if d == 2 { '2' } else if d == 3 { '3' }
    else if d == 4 { '4' } else if d == 5 { '5' } else if d == 6 { '6' } else if d == 7 { '7' }
    else if d == 8 { '8' } else { '9' }
}

/// Decimal notation of `n`: no sign, no leading zero.
pub open spec fn decimal(n: nat) -> Seq<char>
    decreases n,
{
    if n < 10 {
        seq![digit(n)]
    } else {
        decimal(n / 10) + seq![digit(n % 10)]
    }
}

/// Relies on `ToString` through `u64`'s `Display`: the decimal notation.
#[verifier::external_body]
pub(crate) fn decimal_text(n: u64) -> (r: String)
    ensures
        r@ == decimal(n as nat),
{
    n.to_string()
}

} // verus!
