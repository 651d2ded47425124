use tickets::ticket::{DESCRIPTION_MAX_BYTES, TITLE_MAX_BYTES};
use tickets::{summary, Status, Ticket, TicketNewError};

fn valid_title() -> String {
    "A title".to_string()
}

fn valid_description() -> String {
    "A description".to_string()
}

#[test]
fn invalid_status() {
    let err = Ticket::new(valid_title(), valid_description(), "invalid".into()).unwrap_err();
    assert_eq!(
        err.message(),
        "`invalid` is not a valid status. Use one of: ToDo, InProgress, Done"
    );
    assert!(err.source().is_some());
}

#[test]
fn invalid_status_keeps_text_and_cause() {
    let err = Ticket::new("Title".into(), "Desc".into(), "invalid".into()).unwrap_err();
    match &err {
        TicketNewError::InvalidStatus(s, cause) => {
            assert_eq!(s, "invalid");
            assert_eq!(cause.invalid_status(), "invalid");
        }
        other => panic!("unexpected error: {:?}", other),
    }
    assert_eq!(err.source().unwrap().invalid_status(), "invalid");
}

#[test]
fn mixed_case_statuses_build() {
    let t = Ticket::new("Fix bug".into(), "App crashes on login".into(), "ToDO".into()).unwrap();
    assert_eq!(t.status(), Status::ToDo);
    let t = Ticket::new("Title".into(), "Desc".into(), "inproGress".into()).unwrap();
    assert_eq!(t.status(), Status::InProgress);
    let t = Ticket::new("Title".into(), "Desc".into(), "Done".into()).unwrap();
    assert_eq!(t.status(), Status::Done);
}

#[test]
fn built_ticket_keeps_texts() {
    let t = Ticket::new("Fix bug".into(), "App crashes on login".into(), "todo".into()).unwrap();
    assert_eq!(t.title(), "Fix bug");
    assert_eq!(t.description(), "App crashes on login");
}

#[test]
fn empty_title_rejected() {
    let err = Ticket::new("".into(), "desc".into(), "done".into()).unwrap_err();
    assert!(matches!(err, TicketNewError::TitleCannotBeEmpty));
    assert_eq!(err.message(), "Title cannot be empty");
    assert!(err.source().is_none());
}

#[test]
fn empty_title_reported_before_empty_description() {
    let err = Ticket::new("".into(), "".into(), "nonsense".into()).unwrap_err();
    assert!(matches!(err, TicketNewError::TitleCannotBeEmpty));
}

#[test]
fn title_length_boundary() {
    assert_eq!(TITLE_MAX_BYTES, 50);
    assert!(Ticket::new("a".repeat(50), valid_description(), "todo".into()).is_ok());
    let err = Ticket::new("a".repeat(51), valid_description(), "todo".into()).unwrap_err();
    assert!(matches!(err, TicketNewError::TitleTooLong));
    assert_eq!(err.message(), "Title cannot be longer than 50 bytes");
}

#[test]
fn description_length_boundary() {
    assert_eq!(DESCRIPTION_MAX_BYTES, 500);
    assert!(Ticket::new(valid_title(), "d".repeat(500), "done".into()).is_ok());
    let err = Ticket::new(valid_title(), "d".repeat(501), "done".into()).unwrap_err();
    assert!(matches!(err, TicketNewError::DescriptionTooLong));
    assert_eq!(err.message(), "Description cannot be longer than 500 bytes");
}

#[test]
fn empty_description_rejected() {
    let err = Ticket::new(valid_title(), "".into(), "invalid".into()).unwrap_err();
    assert!(matches!(err, TicketNewError::DescriptionCannotBeEmpty));
    assert_eq!(err.message(), "Description cannot be empty");
}

#[test]
fn lengths_count_bytes_not_chars() {
    // 25 two-byte characters: 50 bytes.
    assert!(Ticket::new("é".repeat(25), valid_description(), "todo".into()).is_ok());
    // 26 two-byte characters: 52 bytes, though only 26 characters.
    let err = Ticket::new("é".repeat(26), valid_description(), "todo".into()).unwrap_err();
    assert!(matches!(err, TicketNewError::TitleTooLong));
    let err = Ticket::new(valid_title(), "€".repeat(167), "todo".into()).unwrap_err();
    assert!(matches!(err, TicketNewError::DescriptionTooLong));
}

#[test]
fn title_checked_before_status() {
    let err = Ticket::new("a".repeat(51), "".into(), "bad".into()).unwrap_err();
    assert!(matches!(err, TicketNewError::TitleTooLong));
}

#[test]
fn summary_is_independent_of_ticket() {
    let t = Ticket::new("Fix bug".into(), "App crashes on login".into(), "done".into()).unwrap();
    let mut s = t.summary();
    assert_eq!(s.title, "Fix bug");
    assert_eq!(s.status, Status::Done);
    s.title.push_str(" later");
    s.status = Status::ToDo;
    assert_eq!(t.title(), "Fix bug");
    assert_eq!(t.status(), Status::Done);
    drop(s);
    assert_eq!(t.description(), "App crashes on login");
}

#[test]
fn summary_function_returns_copy_and_summary() {
    let t = Ticket::new("Title".into(), "Desc".into(), "InProgress".into()).unwrap();
    let (copy, s) = summary(t.clone());
    assert_eq!(copy, t);
    assert_eq!(s.title, "Title");
    assert_eq!(s.status, Status::InProgress);
    drop(copy);
    assert_eq!(t.title(), "Title");
}

#[test]
fn cloned_ticket_equals_original() {
    let t = Ticket::new("Title".into(), "Desc".into(), "todo".into()).unwrap();
    let c = t.clone();
    assert_eq!(c, t);
    let other = Ticket::new("Title".into(), "Desc".into(), "done".into()).unwrap();
    assert_ne!(other, t);
}
