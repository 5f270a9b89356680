use contact_form::boundary::{begin_submit, finish_submit, malformed_body, validation_failure, PersistenceError, SubmitStep};
use contact_form::envelope::{ApiError, Envelope};
use contact_form::goal::Goal;
use contact_form::record::{StoreAssigned, Timestamp};
use contact_form::submission::{parse, ContactInput, Field, ValidationError};

fn input(full_name: &str, email: &str, phone: &str, market: &str, goal: &str) -> ContactInput {
    ContactInput {
        full_name: Some(full_name.to_string()),
        email: Some(email.to_string()),
        phone: Some(phone.to_string()),
        market: Some(market.to_string()),
        goal: Some(goal.to_string()),
    }
}

fn jane() -> ContactInput {
    input("Jane Doe", "jane@x.com", "555-0100", "Austin", "MaxCashFlow")
}

fn assigned() -> StoreAssigned {
    let t = Timestamp::new(2024, 3, 5, 14, 7, 9, 0).unwrap();
    StoreAssigned { id: 0x123e4567_e89b_12d3_a456_426614174000, created_at: t, updated_at: t }
}

#[test]
fn valid_input_parses_verbatim() {
    let v = parse(input(" Jane ", "a@b", "1", "NYC", "Scale")).unwrap();
    assert_eq!(v.full_name, " Jane ");
    assert_eq!(v.email, "a@b");
    assert_eq!(v.phone, "1");
    assert_eq!(v.market, "NYC");
    assert_eq!(v.goal, Goal::Scale);
}

#[test]
fn every_label_parses() {
    let labels = ["BuyFirstProperty", "MaxCashFlow", "Appreciation", "Scale", "Exchange"];
    let goals = [Goal::BuyFirstProperty, Goal::MaxCashFlow, Goal::Appreciation, Goal::Scale, Goal::Exchange];
    for i in 0..5 {
        assert_eq!(Goal::from_label(labels[i]), Some(goals[i]));
        assert_eq!(goals[i].label(), labels[i]);
        assert_eq!(parse(input("a", "b", "c", "d", labels[i])).unwrap().goal, goals[i]);
    }
}

fn missing(r: Result<contact_form::submission::ValidatedSubmission, ValidationError>) -> Field {
    match r {
        Err(ValidationError::MissingField(f)) => f,
        other => panic!("expected a missing field, got {:?}", other),
    }
}

#[test]
fn each_absent_field_is_named() {
    let mut i = jane();
    i.full_name = None;
    assert_eq!(missing(parse(i)), Field::FullName);
    let mut i = jane();
    i.email = None;
    assert_eq!(missing(parse(i)), Field::Email);
    let mut i = jane();
    i.phone = None;
    assert_eq!(missing(parse(i)), Field::Phone);
    let mut i = jane();
    i.market = None;
    assert_eq!(missing(parse(i)), Field::Market);
    let mut i = jane();
    i.goal = None;
    assert_eq!(missing(parse(i)), Field::Goal);
}

#[test]
fn blank_fields_count_as_missing() {
    let mut i = jane();
    i.phone = Some("  \t\n".to_string());
    assert_eq!(missing(parse(i)), Field::Phone);
    let mut i = jane();
    i.market = Some(String::new());
    assert_eq!(missing(parse(i)), Field::Market);
    let mut i = jane();
    i.goal = Some(" ".to_string());
    assert_eq!(missing(parse(i)), Field::Goal);
}

#[test]
fn first_missing_field_wins() {
    let mut i = jane();
    i.market = None;
    i.email = Some(String::new());
    assert_eq!(missing(parse(i)), Field::Email);
}

#[test]
fn field_names_on_the_wire() {
    assert_eq!(Field::FullName.name(), "full_name");
    assert_eq!(Field::Email.name(), "email");
    assert_eq!(Field::Phone.name(), "phone");
    assert_eq!(Field::Market.name(), "market");
    assert_eq!(Field::Goal.name(), "goal");
}

#[test]
fn unknown_goal_is_echoed() {
    for bad in ["GetRich", "scale", "MaxCashFlow ", "Exchanges", "maxcashflow"] {
        match parse(input("a", "b", "c", "d", bad)) {
            Err(ValidationError::InvalidGoal(v)) => assert_eq!(v, bad),
            other => panic!("expected an invalid goal, got {:?}", other),
        }
    }
    assert_eq!(Goal::from_label("GetRich"), None);
}

#[test]
fn jane_doe_is_stored_and_answered() {
    let v = match begin_submit(jane()) {
        SubmitStep::Store(v) => v,
        SubmitStep::Reject(r) => panic!("rejected: {:?}", r),
    };
    let reply = finish_submit(v, Ok(assigned()));
    assert_eq!(reply.status, 201);
    match reply.body {
        Envelope::Success(resp) => {
            assert_eq!(resp.data.goal, "MaxCashFlow");
            assert_eq!(resp.data.id, "123e4567-e89b-12d3-a456-426614174000");
            assert!(!resp.data.id.is_empty());
            assert_eq!(resp.data.full_name, "Jane Doe");
            assert_eq!(resp.data.email, "jane@x.com");
            assert_eq!(resp.data.phone, "555-0100");
            assert_eq!(resp.data.market, "Austin");
            assert_eq!(resp.data.created_at, "2024-03-05T14:07:09");
            assert_eq!(resp.data.updated_at, "2024-03-05T14:07:09");
            assert_eq!(resp.message.as_deref(), Some("Contact form submitted successfully"));
        }
        Envelope::Failure(e) => panic!("failed: {:?}", e),
    }
}

#[test]
fn get_rich_goal_is_rejected_before_storing() {
    let mut i = jane();
    i.goal = Some("GetRich".to_string());
    match begin_submit(i) {
        SubmitStep::Reject(reply) => {
            assert_eq!(reply.status, 400);
            match reply.body {
                Envelope::Failure(e) => {
                    assert_eq!(e.error, "Invalid goal: GetRich");
                    assert_eq!(
                        e.details.as_deref(),
                        Some("goal must be one of BuyFirstProperty, MaxCashFlow, Appreciation, Scale, Exchange")
                    );
                }
                Envelope::Success(_) => panic!("success envelope"),
            }
        }
        SubmitStep::Store(_) => panic!("would store a row"),
    }
}

#[test]
fn empty_email_is_rejected_before_storing() {
    let mut i = jane();
    i.email = Some(String::new());
    match begin_submit(i) {
        SubmitStep::Reject(reply) => {
            assert_eq!(reply.status, 400);
            match reply.body {
                Envelope::Failure(e) => {
                    assert_eq!(e.error, "Missing required field: email");
                    assert!(e.details.is_none());
                }
                Envelope::Success(_) => panic!("success envelope"),
            }
        }
        SubmitStep::Store(_) => panic!("would store a row"),
    }
}

#[test]
fn store_failure_gives_generic_envelope() {
    let v = parse(jane()).unwrap();
    let reply = finish_submit(v, Err(PersistenceError { details: "connection refused".to_string() }));
    assert_eq!(reply.status, 500);
    match reply.body {
        Envelope::Failure(e) => {
            assert_eq!(e.error, "Failed to save contact form");
            assert!(e.details.is_none());
        }
        Envelope::Success(_) => panic!("success envelope"),
    }
}

#[test]
fn malformed_body_gives_failure_envelope() {
    let reply = malformed_body("expected a JSON object".to_string());
    assert_eq!(reply.status, 400);
    match reply.body {
        Envelope::Failure(e) => {
            assert_eq!(e.error, "Invalid request body");
            assert_eq!(e.details.as_deref(), Some("expected a JSON object"));
        }
        Envelope::Success(_) => panic!("success envelope"),
    }
}

#[test]
fn validation_failure_names_field() {
    let e = validation_failure(&ValidationError::MissingField(Field::FullName));
    assert_eq!(e.error, "Missing required field: full_name");
    assert!(e.details.is_none());
}

#[test]
fn api_error_from_text() {
    let a = ApiError::from("boom");
    assert_eq!(a.error, "boom");
    assert!(a.details.is_none());
    let b = ApiError::from("bang".to_string());
    assert_eq!(b.error, "bang");
    assert!(b.details.is_none());
    let c = ApiError::bare("");
    assert_eq!(c.error, "");
}
