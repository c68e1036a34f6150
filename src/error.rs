use vstd::prelude::*;
use vstd::string::*;

use crate::claims::string_views;
use crate::tenure::StorageError;

verus! {

/// The body of every error answer.
#[derive(Debug)]
pub struct ErrorResponse {
    pub code: String,
    pub message: String,
    pub details: Option<String>,
}

pub open spec fn opt_view(o: Option<String>) -> Option<Seq<char>> {
    match o {
        Some(s) => Some(s@),
        None => None,
    }
}

impl ErrorResponse {
    /// The response carries exactly this code, message and details.
    pub open spec fn says(&self, code: Seq<char>, message: Seq<char>, details: Option<Seq<char>>) -> bool {
        &&& self.code@ == code
        &&& self.message@ == message
        &&& opt_view(self.details) == details
    }

    pub fn new(code: &str, message: &str, details: Option<String>) -> (r: Self)
        ensures
            r.says(code@, message@, opt_view(details)),
    {
        ErrorResponse { code: String::from_str(code), message: String::from_str(message), details }
    }
}

pub open spec fn digit_char(d: nat) -> char {
    seq!['0', '1', '2', '3', '4', '5', '6', '7', '8', '9'][d as int]
}

pub open spec fn digits(n: nat) -> Seq<char>
    decreases n,
{
    if n < 10 {
        seq![digit_char(n)]
    } else {
        digits(n / 10).push(digit_char(n % 10))
    }
}

/// The decimal notation of an integer, with a leading `-` when negative.
pub open spec fn decimal(n: int) -> Seq<char> {
    if n < 0 {
        seq!['-'] + digits((-n) as nat)
    } else {
        digits(n as nat)
    }
}

/// What `{:?}` writes for a list of strings.
pub uninterp spec fn debug_list(items: Seq<Seq<char>>) -> Seq<char>;

/// The one-character text of a decimal digit.
fn digit_text(d: u32) -> (r: &'static str)
    requires
        d < 10,
    ensures
        r@ == seq![digit_char(d as nat)],
{
    proof {
        reveal_strlit("0");
        reveal_strlit("1");
        reveal_strlit("2");
        reveal_strlit("3");
        reveal_strlit("4");
        reveal_strlit("5");
        reveal_strlit("6");
        reveal_strlit("7");
        reveal_strlit("8");
        reveal_strlit("9");
    }
    match d {
        0 => "0",
        1 => "1",
        2 => "2",
        3 => "3",
        4 => "4",
        5 => "5",
        6 => "6",
        7 => "7",
        8 => "8",
        _ => "9",
    }
}

/// Writes `n` in decimal.
pub fn decimal_text(n: i32) -> (r: String)
    ensures
        r@ == decimal(n as int),
{
    let negative = n < 0;
    let mut m: u32 = if negative { (0i64 - n as i64) as u32 } else { n as u32 };
    let ghost total: nat = m as nat;
    let mut acc = String::new();
    while m >= 10
        invariant
            digits(total) == digits(m as nat) + acc@,
        decreases m,
    {
        let d = m % 10;
        proof {
            let rest = digits((m / 10) as nat);
            assert(digits(m as nat) == rest.push(digit_char(d as nat)));
            assert(rest.push(digit_char(d as nat)) + acc@ =~= rest + (seq![digit_char(d as nat)] + acc@));
        }
        acc = String::from_str(digit_text(d)).concat(acc.as_str());
        m = m / 10;
    }
    let out = String::from_str(digit_text(m)).concat(acc.as_str());
    if negative {
        proof {
            reveal_strlit("-");
        }
        String::from_str("-").concat(out.as_str())
    } else {
        out
    }
}

/// Relies on `Debug` of `Vec<String>`: the text depends on the strings alone.
#[verifier::external_body]
fn debug_text(items: &Vec<String>) -> (r: String)
    ensures
        r@ == debug_list(string_views(items@)),
{
    format!("{:?}", items)
}

pub const FORBIDDEN_PREFIX: &'static str = "Missing Permission(s): ";
pub const DUPLICATE_PREFIX: &'static str = "A tenure for year ";
pub const DUPLICATE_SUFFIX: &'static str = " already exists";
pub const REPLACE_DUPLICATE_PREFIX: &'static str = "Another tenure already exists for year ";
pub const DEACTIVATE_HINT: &'static str = "Set the current active tenure to inactive first";

/// Why a tenure command was refused.
#[derive(Debug)]
pub enum TenureError {
    /// The caller lacks the permissions listed.
    Forbidden { missing: Vec<String> },
    /// Another tenure already has this year; `on_update` when an update was refused.
    DuplicateYear { year: i32, on_update: bool },
    /// The command would leave two tenures active; `on_update` when an update was refused.
    InvalidAction { on_update: bool },
    /// No tenure has the id given.
    NotFound,
    /// The tenure is the only active one.
    LastActiveTenure,
    /// The store failed; nothing was written.
    Storage(StorageError),
}

impl TenureError {
    /// This is a refusal for lack of exactly the permissions `missing`.
    pub open spec fn denies(&self, missing: Seq<Seq<char>>) -> bool {
        match self {
            TenureError::Forbidden { missing: m } => string_views(m@) == missing,
            _ => false,
        }
    }

    pub open spec fn status_spec(&self) -> u16 {
        match self {
            TenureError::Forbidden { .. } => 403,
            TenureError::DuplicateYear { .. } => 409,
            TenureError::InvalidAction { .. } => 409,
            TenureError::NotFound => 404,
            TenureError::LastActiveTenure => 409,
            TenureError::Storage(_) => 500,
        }
    }

    /// The HTTP status that answers this error.
    pub fn status(&self) -> (r: u16)
        ensures
            r == self.status_spec(),
    {
        match self {
            TenureError::Forbidden { .. } => 403,
            TenureError::DuplicateYear { .. } => 409,
            TenureError::InvalidAction { .. } => 409,
            TenureError::NotFound => 404,
            TenureError::LastActiveTenure => 409,
            TenureError::Storage(_) => 500,
        }
    }

    /// The error body sent to the client.
    pub fn to_response(&self) -> (r: ErrorResponse)
        ensures
            match self {
                TenureError::Forbidden { missing } => r.says(
                    "UNAUTHORIZED"@,
                    "Insufficient permissions"@,
                    Some(FORBIDDEN_PREFIX@ + debug_list(string_views(missing@))),
                ),
                TenureError::DuplicateYear { year, on_update } => r.says(
                    "DUPLICATE_YEAR"@,
                    if *on_update {
                        REPLACE_DUPLICATE_PREFIX@ + decimal(*year as int)
                    } else {
                        DUPLICATE_PREFIX@ + decimal(*year as int) + DUPLICATE_SUFFIX@
                    },
                    None,
                ),
                TenureError::InvalidAction { on_update } => r.says(
                    "INVALID_ACTION"@,
                    "There can not be multiple active tenures at once"@,
                    if *on_update { None } else { Some(DEACTIVATE_HINT@) },
                ),
                TenureError::NotFound => r.says("TENURE_NOT_FOUND"@, "Tenure not found"@, None),
                TenureError::LastActiveTenure => r.says(
                    "LAST_ACTIVE_TENURE"@,
                    "Cannot delete the only active tenure"@,
                    Some("Set another tenure to active before deleting this one"@),
                ),
                TenureError::Storage(_) => r.says("INTERNAL_ERROR"@, "Internal storage error"@, None),
            },
    {
        match self {
            TenureError::Forbidden { missing } => {
                let details = String::from_str(FORBIDDEN_PREFIX).concat(debug_text(missing).as_str());
                ErrorResponse::new("UNAUTHORIZED", "Insufficient permissions", Some(details))
            },
            TenureError::DuplicateYear { year, on_update } => {
                let message = if *on_update {
                    String::from_str(REPLACE_DUPLICATE_PREFIX).concat(decimal_text(*year).as_str())
                } else {
                    String::from_str(DUPLICATE_PREFIX).concat(decimal_text(*year).as_str()).concat(DUPLICATE_SUFFIX)
                };
                ErrorResponse::new("DUPLICATE_YEAR", message.as_str(), None)
            },
            TenureError::InvalidAction { on_update } => {
                let details = if *on_update { None } else { Some(String::from_str(DEACTIVATE_HINT)) };
                ErrorResponse::new("INVALID_ACTION", "There can not be multiple active tenures at once", details)
            },
            TenureError::NotFound => ErrorResponse::new("TENURE_NOT_FOUND", "Tenure not found", None),
            TenureError::LastActiveTenure => ErrorResponse::new(
                "LAST_ACTIVE_TENURE",
                "Cannot delete the only active tenure",
                Some(String::from_str("Set another tenure to active before deleting this one")),
            ),
            TenureError::Storage(_) => ErrorResponse::new("INTERNAL_ERROR", "Internal storage error", None),
        }
    }
}

} // verus!
