use vstd::prelude::*;
use vstd::string::StrSliceExecFns;

verus! {

/// The lifecycle state of a ticket.
#[derive(Debug, Clone, Copy, PartialEq, Eq, Structural)]
pub enum Status {
    ToDo,
    InProgress,
    Done,
}

/// ASCII case folding of one character; every other character is kept.
pub open spec fn fold_char(c: char) -> char {
    if 'A' <= c && c <= 'Z' {
        ((c as u8) + 32) as char
    } else {
        c
    }
}

/// ASCII case folding of a whole text.
pub open spec fn fold(s: Seq<char>) -> Seq<char> {
    s.map_values(|c: char| fold_char(c))
}

pub open spec fn todo_token() -> Seq<char> {
    seq!['t', 'o', 'd', 'o']
}

pub open spec fn in_progress_token() -> Seq<char> {
    seq!['i', 'n', 'p', 'r', 'o', 'g', 'r', 'e', 's', 's']
}

pub open spec fn done_token() -> Seq<char> {
    seq!['d', 'o', 'n', 'e']
}

/// The status that a text names, once folded, if it names one.
pub open spec fn status_of(s: Seq<char>) -> Option<Status> {
    if fold(s) == todo_token() {
        Some(Status::ToDo)
    } else if fold(s) == in_progress_token() {
        Some(Status::InProgress)
    } else if fold(s) == done_token() {
        Some(Status::Done)
    } else {
        None
    }
}

fn fold_exec(c: char) -> (r: char)
    ensures
        r == fold_char(c),
{
    if 'A' <= c && c <= 'Z' {
        ((c as u8) + 32) as char
    } else {
        c
    }
}

/// Whether `s`, folded, is exactly `token`.
fn folds_to(s: &str, len: usize, token: &[char]) -> (r: bool)
    requires
        len == s@.len(),
    ensures
        r == (fold(s@) == token@),
{
    if len != token.len() {
        proof {
            assert(fold(s@).len() != token@.len());
        }
        return false;
    }
    let mut i: usize = 0;
    while i < len
        invariant
            len == s@.len(),
            len == token@.len(),
            0 <= i <= len,
            forall|j: int| 0 <= j < i ==> fold_char(s@[j]) == token@[j],
        decreases len - i,
    {
        let c = s.get_char(i);
        if fold_exec(c) != token[i] {
            proof {
                assert(fold(s@)[i as int] != token@[i as int]);
            }
            return false;
        }
        i = i + 1;
    }
    proof {
        assert(fold(s@) =~= token@);
    }
    true
}

/// A text that names no status: it holds the text as it was given.
#[derive(Debug, Clone)]
pub struct ParseStatusError {
    invalid_status: String,
}

impl ParseStatusError {
    pub closed spec fn rejected(&self) -> Seq<char> {
        self.invalid_status@
    }

    /// The error for a text that names no status.
    pub fn new(invalid_status: String) -> (r: ParseStatusError)
        ensures
            r.rejected() == invalid_status@,
    {
        ParseStatusError { invalid_status }
    }

    /// The text that named no status.
    pub fn invalid_status(&self) -> (r: &String)
        ensures
            r@ == self.rejected(),
    {
        &self.invalid_status
    }
}

impl PartialEq for ParseStatusError {
    fn eq(&self, other: &ParseStatusError) -> (r: bool) {
        self.invalid_status == other.invalid_status
    }
}

impl vstd::std_specs::cmp::PartialEqSpecImpl for ParseStatusError {
    open spec fn obeys_eq_spec() -> bool {
        true
    }

    open spec fn eq_spec(&self, other: &ParseStatusError) -> bool {
        self.rejected() == other.rejected()
    }
}

impl Eq for ParseStatusError {
}

impl Status {
    /// Reads a status from text, ignoring ASCII case. Surrounding whitespace
    /// is part of the text and makes it unrecognised.
    pub fn parse(s: &str) -> (r: Result<Status, ParseStatusError>)
        ensures
            match status_of(s@) {
                Some(st) => r == Ok::<Status, ParseStatusError>(st),
                None => r is Err && r->Err_0.rejected() == s@,
            },
    {
        let len = s.unicode_len();
        if folds_to(s, len, &['t', 'o', 'd', 'o']) {
            Ok(Status::ToDo)
        } else if folds_to(s, len, &['i', 'n', 'p', 'r', 'o', 'g', 'r', 'e', 's', 's']) {
            Ok(Status::InProgress)
        } else if folds_to(s, len, &['d', 'o', 'n', 'e']) {
            Ok(Status::Done)
        } else {
            Err(ParseStatusError::new(s.to_owned()))
        }
    }
}

/// The error of the conversions from text, which carry no payload.
pub const INVALID_STATUS: &'static str = "Invalid status string";

/// What the conversions from text give back.
pub open spec fn converted(s: Seq<char>) -> Result<Status, &'static str> {
    match status_of(s) {
        Some(st) => Ok(st),
        None => Err(INVALID_STATUS),
    }
}

impl<'a> TryFrom<&'a str> for Status {
    type Error = &'static str;

    fn try_from(value: &'a str) -> (r: Result<Status, &'static str>) {
        match Status::parse(value) {
            Ok(st) => Ok(st),
            Err(_) => Err(INVALID_STATUS),
        }
    }
}

impl<'a> vstd::std_specs::convert::TryFromSpecImpl<&'a str> for Status {
    open spec fn obeys_try_from_spec() -> bool {
        true
    }

    open spec fn try_from_spec(v: &'a str) -> Result<Status, &'static str> {
        converted(v@)
    }
}

impl TryFrom<String> for Status {
    type Error = &'static str;

    fn try_from(value: String) -> (r: Result<Status, &'static str>) {
        match Status::parse(value.as_str()) {
            Ok(st) => Ok(st),
            Err(_) => Err(INVALID_STATUS),
        }
    }
}

impl vstd::std_specs::convert::TryFromSpecImpl<String> for Status {
    open spec fn obeys_try_from_spec() -> bool {
        true
    }

    open spec fn try_from_spec(v: String) -> Result<Status, &'static str> {
        converted(v@)
    }
}

} // verus!
