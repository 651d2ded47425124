use crate::status::{done_token, fold, in_progress_token, status_of, todo_token, ParseStatusError, Status};
use vstd::prelude::*;
use vstd::string::StringExecFns;
use vstd::utf8::encode_utf8;

verus! {

/// The longest title a ticket accepts, in bytes.
pub const TITLE_MAX_BYTES: usize = 50;

/// The longest description a ticket accepts, in bytes.
pub const DESCRIPTION_MAX_BYTES: usize = 500;

/// Length of a text in bytes of its UTF-8 encoding.
pub open spec fn byte_len(s: Seq<char>) -> nat {
    encode_utf8(s).len()
}

pub open spec fn valid_title(s: Seq<char>) -> bool {
    s.len() > 0 && byte_len(s) <= TITLE_MAX_BYTES
}

pub open spec fn valid_description(s: Seq<char>) -> bool {
    s.len() > 0 && byte_len(s) <= DESCRIPTION_MAX_BYTES
}

/// What a ticket holds.
pub struct TicketView {
    pub title: Seq<char>,
    pub description: Seq<char>,
    pub status: Status,
}

impl TicketView {
    pub open spec fn valid(self) -> bool {
        valid_title(self.title) && valid_description(self.description)
    }
}

/// Why a ticket was refused, with the texts that a status failure carries:
/// the status as given, and the text held by the inner parse error.
pub enum Rejection {
    TitleCannotBeEmpty,
    TitleTooLong,
    DescriptionCannotBeEmpty,
    DescriptionTooLong,
    InvalidStatus(Seq<char>, Seq<char>),
}

/// The outcome of building a ticket from a title, a description and a status
/// text: the first rule that fails decides the error.
pub open spec fn build(title: Seq<char>, description: Seq<char>, status: Seq<char>) -> Result<
    TicketView,
    Rejection,
> {
    if title.len() == 0 {
        Err(Rejection::TitleCannotBeEmpty)
    } else if byte_len(title) > TITLE_MAX_BYTES {
        Err(Rejection::TitleTooLong)
    } else if description.len() == 0 {
        Err(Rejection::DescriptionCannotBeEmpty)
    } else if byte_len(description) > DESCRIPTION_MAX_BYTES {
        Err(Rejection::DescriptionTooLong)
    } else {
        match status_of(status) {
            Some(st) => Ok(TicketView { title, description, status: st }),
            None => Err(Rejection::InvalidStatus(status, status)),
        }
    }
}

/// A ticket whose title and description were checked when it was built.
#[derive(Debug)]
pub struct Ticket {
    title: String,
    description: String,
    status: Status,
}

impl Ticket {
    #[verifier::type_invariant]
    spec fn inv(&self) -> bool {
        self@.valid()
    }
}

impl View for Ticket {
    type V = TicketView;

    closed spec fn view(&self) -> TicketView {
        TicketView { title: self.title@, description: self.description@, status: self.status }
    }
}

/// The reasons for which a ticket cannot be built.
#[derive(Debug)]
pub enum TicketNewError {
    TitleCannotBeEmpty,
    TitleTooLong,
    DescriptionCannotBeEmpty,
    DescriptionTooLong,
    InvalidStatus(String, ParseStatusError),
}

impl View for TicketNewError {
    type V = Rejection;

    open spec fn view(&self) -> Rejection {
        match self {
            TicketNewError::TitleCannotBeEmpty => Rejection::TitleCannotBeEmpty,
            TicketNewError::TitleTooLong => Rejection::TitleTooLong,
            TicketNewError::DescriptionCannotBeEmpty => Rejection::DescriptionCannotBeEmpty,
            TicketNewError::DescriptionTooLong => Rejection::DescriptionTooLong,
            TicketNewError::InvalidStatus(s, e) => Rejection::InvalidStatus(s@, e.rejected()),
        }
    }
}

pub open spec fn outcome(r: Result<Ticket, TicketNewError>) -> Result<TicketView, Rejection> {
    match r {
        Ok(t) => Ok(t@),
        Err(e) => Err(e@),
    }
}

impl Ticket {
    /// Builds a ticket, checking in order: the title is not empty, the title
    /// fits in 50 bytes, the description is not empty, the description fits
    /// in 500 bytes, the status names one of the three states.
    pub fn new(title: String, description: String, status: String) -> (r: Result<
        Ticket,
        TicketNewError,
    >)
        requires
            byte_len(title@) <= usize::MAX,
            byte_len(description@) <= usize::MAX,
        ensures
            outcome(r) == build(title@, description@, status@),
    {
        if title.as_str().is_empty() {
            return Err(TicketNewError::TitleCannotBeEmpty);
        }
        if title.as_str().len() > TITLE_MAX_BYTES {
            return Err(TicketNewError::TitleTooLong);
        }
        if description.as_str().is_empty() {
            return Err(TicketNewError::DescriptionCannotBeEmpty);
        }
        if description.as_str().len() > DESCRIPTION_MAX_BYTES {
            return Err(TicketNewError::DescriptionTooLong);
        }
        match Status::parse(status.as_str()) {
            Ok(st) => Ok(Ticket { title, description, status: st }),
            Err(e) => Err(TicketNewError::InvalidStatus(status, e)),
        }
    }
}


impl Ticket {
    pub fn title(&self) -> (r: &String)
        ensures
            r@ == self@.title,
            valid_title(r@),
    {
        proof {
            use_type_invariant(self);
        }
        &self.title
    }

    pub fn description(&self) -> (r: &String)
        ensures
            r@ == self@.description,
            valid_description(r@),
    {
        proof {
            use_type_invariant(self);
        }
        &self.description
    }

    pub fn status(&self) -> (r: Status)
        ensures
            r == self@.status,
    {
        self.status
    }

    /// The title and status of the ticket, in storage of their own.
    pub fn summary(&self) -> (r: Summary)
        ensures
            r.title@ == self@.title,
            r.status == self@.status,
    {
        Summary { title: self.title.clone(), status: self.status }
    }
}

impl Clone for Ticket {
    fn clone(&self) -> (r: Ticket)
        ensures
            r@ == self@,
    {
        proof {
            use_type_invariant(self);
        }
        Ticket { title: self.title.clone(), description: self.description.clone(), status: self.status }
    }
}

impl PartialEq for Ticket {
    fn eq(&self, other: &Ticket) -> (r: bool) {
        self.title == other.title && self.description == other.description && self.status
            == other.status
    }
}

impl vstd::std_specs::cmp::PartialEqSpecImpl for Ticket {
    open spec fn obeys_eq_spec() -> bool {
        true
    }

    open spec fn eq_spec(&self, other: &Ticket) -> bool {
        self@ == other@
    }
}

impl Eq for Ticket {
}

/// A ticket's title and status, apart from the ticket.
#[derive(Debug, Clone, PartialEq, Eq)]
pub struct Summary {
    pub title: String,
    pub status: Status,
}

/// A copy of the ticket beside its summary.
pub fn summary(ticket: Ticket) -> (r: (Ticket, Summary))
    ensures
        r.0@ == ticket@,
        r.1.title@ == ticket@.title,
        r.1.status == ticket@.status,
{
    (ticket.clone(), ticket.summary())
}

/// The human-readable message for each reason.
pub open spec fn message_of(e: Rejection) -> Seq<char> {
    match e {
        Rejection::TitleCannotBeEmpty => "Title cannot be empty"@,
        Rejection::TitleTooLong => "Title cannot be longer than 50 bytes"@,
        Rejection::DescriptionCannotBeEmpty => "Description cannot be empty"@,
        Rejection::DescriptionTooLong => "Description cannot be longer than 500 bytes"@,
        Rejection::InvalidStatus(s, _) => "`"@ + s
            + "` is not a valid status. Use one of: ToDo, InProgress, Done"@,
    }
}

impl TicketNewError {
    /// The message that describes this error.
    pub fn message(&self) -> (r: String)
        ensures
            r@ == message_of(self@),
    {
        match self {
            TicketNewError::TitleCannotBeEmpty => "Title cannot be empty".to_owned(),
            TicketNewError::TitleTooLong => "Title cannot be longer than 50 bytes".to_owned(),
            TicketNewError::DescriptionCannotBeEmpty => "Description cannot be empty".to_owned(),
            TicketNewError::DescriptionTooLong => {
                "Description cannot be longer than 500 bytes".to_owned()
            },
            TicketNewError::InvalidStatus(s, _) => {
                let mut m = "`".to_owned();
                m.append(s.as_str());
                m.append("` is not a valid status. Use one of: ToDo, InProgress, Done");
                m
            },
        }
    }

    /// The error that caused this one: the parse error of a status that
    /// names no state, and nothing otherwise.
    pub fn source(&self) -> (r: Option<&ParseStatusError>)
        ensures
            match self {
                TicketNewError::InvalidStatus(_, e) => r == Some(e),
                _ => r is None,
            },
    {
        match self {
            TicketNewError::InvalidStatus(_, e) => Some(e),
            _ => None,
        }
    }
}

proof fn lemma_tokens_distinct()
    ensures
        todo_token() != in_progress_token(),
        todo_token() != done_token(),
        in_progress_token() != done_token(),
{
    assert(todo_token().len() != in_progress_token().len());
    assert(todo_token()[0] != done_token()[0]);
    assert(in_progress_token().len() != done_token().len());
}

proof fn lemma_empty_has_no_bytes(s: Seq<char>)
    ensures
        s.len() == 0 <==> byte_len(s) == 0,
{
    if s.len() > 0 {
        let head = vstd::utf8::encode_scalar(s[0] as u32);
        assert(encode_utf8(s) == head + encode_utf8(s.drop_first()));
        assert(head.len() > 0);
    }
}

/// A title and a description within their limits, with a status that spells
/// one of the three states in any ASCII case, always give a ticket that holds
/// them and that state.
pub proof fn lemma_valid_input_builds(title: Seq<char>, description: Seq<char>, status: Seq<char>)
    requires
        valid_title(title),
        valid_description(description),
        fold(status) == todo_token() || fold(status) == in_progress_token() || fold(status)
            == done_token(),
    ensures
        fold(status) == todo_token() ==> build(title, description, status) == Ok::<
            TicketView,
            Rejection,
        >(TicketView { title, description, status: Status::ToDo }),
        fold(status) == in_progress_token() ==> build(title, description, status) == Ok::<
            TicketView,
            Rejection,
        >(TicketView { title, description, status: Status::InProgress }),
        fold(status) == done_token() ==> build(title, description, status) == Ok::<
            TicketView,
            Rejection,
        >(TicketView { title, description, status: Status::Done }),
{
    lemma_tokens_distinct();
}

/// With a valid title and description, a status text that spells none of the
/// three states fails the ticket with a status error that carries that text,
/// both as given and inside its cause.
pub proof fn lemma_unknown_status_rejected(
    title: Seq<char>,
    description: Seq<char>,
    status: Seq<char>,
)
    requires
        valid_title(title),
        valid_description(description),
        fold(status) != todo_token(),
        fold(status) != in_progress_token(),
        fold(status) != done_token(),
    ensures
        build(title, description, status) == Err::<TicketView, Rejection>(
            Rejection::InvalidStatus(status, status),
        ),
{
}

/// An empty title is reported before anything else, whatever the description
/// and status are.
pub proof fn lemma_empty_title_first(title: Seq<char>, description: Seq<char>, status: Seq<char>)
    requires
        title.len() == 0,
    ensures
        build(title, description, status) == Err::<TicketView, Rejection>(
            Rejection::TitleCannotBeEmpty,
        ),
{
}

/// The byte limits are inclusive: a title of 50 bytes and a description of
/// 500 bytes are accepted, one byte more is refused.
pub proof fn lemma_length_boundaries(title: Seq<char>, description: Seq<char>, status: Seq<char>)
    requires
        status_of(status) is Some,
    ensures
        byte_len(title) == 50 && valid_description(description) ==> build(
            title,
            description,
            status,
        ) is Ok,
        byte_len(title) == 51 ==> build(title, description, status) == Err::<
            TicketView,
            Rejection,
        >(Rejection::TitleTooLong),
        valid_title(title) && byte_len(description) == 500 ==> build(
            title,
            description,
            status,
        ) is Ok,
        valid_title(title) && byte_len(description) == 501 ==> build(
            title,
            description,
            status,
        ) == Err::<TicketView, Rejection>(Rejection::DescriptionTooLong),
{
    lemma_empty_has_no_bytes(title);
    lemma_empty_has_no_bytes(description);
}

} // verus!
