use std::convert::TryFrom;
use tickets::Status;

#[test]
fn test_try_from_string() {
    let status = Status::try_from("ToDO".to_string()).unwrap();
    assert_eq!(status, Status::ToDo);

    let status = Status::try_from("inproGress".to_string()).unwrap();
    assert_eq!(status, Status::InProgress);

    let status = Status::try_from("Done".to_string()).unwrap();
    assert_eq!(status, Status::Done);
}

#[test]
fn test_try_from_str() {
    let status = Status::try_from("todo").unwrap();
    assert_eq!(status, Status::ToDo);

    let status = Status::try_from("inprogress").unwrap();
    assert_eq!(status, Status::InProgress);

    let status = Status::try_from("done").unwrap();
    assert_eq!(status, Status::Done);
}

#[test]
fn test_invalid_status() {
    let result = Status::try_from("invalid");
    assert_eq!(result, Err("Invalid status string"));
}

#[test]
fn parse_any_ascii_case() {
    assert_eq!(Status::parse("TODO"), Ok(Status::ToDo));
    assert_eq!(Status::parse("ToDo"), Ok(Status::ToDo));
    assert_eq!(Status::parse("INPROGRESS"), Ok(Status::InProgress));
    assert_eq!(Status::parse("InProgress"), Ok(Status::InProgress));
    assert_eq!(Status::parse("dOnE"), Ok(Status::Done));
}

#[test]
fn parse_keeps_rejected_text_as_given() {
    let err = Status::parse("In Progress").unwrap_err();
    assert_eq!(err.invalid_status(), "In Progress");
    let err = Status::parse("DONE!").unwrap_err();
    assert_eq!(err.invalid_status(), "DONE!");
}

#[test]
fn parse_refuses_whitespace_and_partial_tokens() {
    assert!(Status::parse(" todo").is_err());
    assert!(Status::parse("todo ").is_err());
    assert!(Status::parse("tod").is_err());
    assert!(Status::parse("todos").is_err());
    assert!(Status::parse("").is_err());
    assert!(Status::parse("progress").is_err());
}

#[test]
fn parse_refuses_non_ascii_look_alikes() {
    assert!(Status::parse("tödo").is_err());
    assert!(Status::parse("dοne").is_err());
}
