//! The submit operation at the boundary: every outcome leaves as an envelope.
//!
//! Submitting runs in two steps around the store write. `begin_submit`
//! validates and either rejects at once or asks for the row to be written;
//! `finish_submit` turns what the store answered into the reply.

use vstd::prelude::*;
use vstd::string::StringExecFns;
use crate::envelope::{ApiError, ApiResponse, Envelope, Reply};
use crate::goal::{goal_of_label, lemma_label_round_trip};
use crate::record::{lemma_rendered_lengths, projects, stored_record, to_response, ContactSubmission, OutboundContact, StoreAssigned};
use crate::submission::{lemma_field_names_distinct, lemma_missing_field_named, given, parse, parse_ensures, ContactInput, Field, ValidatedSubmission, ValidationError};

verus! {

/// The store rejected or failed the write; `details` are for the log only.
#[derive(Clone, Debug)]
pub struct PersistenceError {
    pub details: String,
}

/// What validation decided: reply at once, or store this submission.
#[derive(Clone, Debug)]
pub enum SubmitStep {
    Reject(Reply<OutboundContact>),
    Store(ValidatedSubmission),
}

pub open spec fn missing_prefix() -> Seq<char> {
    "Missing required field: "@
}

pub open spec fn invalid_goal_prefix() -> Seq<char> {
    "Invalid goal: "@
}

pub open spec fn goal_hint() -> Seq<char> {
    "goal must be one of BuyFirstProperty, MaxCashFlow, Appreciation, Scale, Exchange"@
}

pub open spec fn saved_message() -> Seq<char> {
    "Contact form submitted successfully"@
}

pub open spec fn save_failed_text() -> Seq<char> {
    "Failed to save contact form"@
}

pub open spec fn bad_body_text() -> Seq<char> {
    "Invalid request body"@
}

/// `e` is the failure envelope for validation error `v`: the missing field
/// is named, or the invalid goal is echoed with the legal labels as details.
pub open spec fn describes(e: ApiError, v: ValidationError) -> bool {
    match v {
        ValidationError::MissingField(f) => e.error@ == missing_prefix() + f.spec_name()
            && e.details is None,
        ValidationError::InvalidGoal(g) => e.error@ == invalid_goal_prefix() + g@
            && (e.details matches Some(d) && d@ == goal_hint()),
    }
}

/// The failure envelope for a validation error.
pub fn validation_failure(v: &ValidationError) -> (r: ApiError)
    ensures
        describes(r, *v),
{
    match v {
        ValidationError::MissingField(f) => {
            let mut error = String::from_str("Missing required field: ");
            error.append(f.name());
            ApiError { error, details: None }
        },
        ValidationError::InvalidGoal(g) => {
            let mut error = String::from_str("Invalid goal: ");
            error.append(g.as_str());
            let hint = String::from_str(
                "goal must be one of BuyFirstProperty, MaxCashFlow, Appreciation, Scale, Exchange",
            );
            ApiError { error, details: Some(hint) }
        },
    }
}

/// Validates a submission: an invalid one is answered with 400 and its
/// failure envelope, and nothing is to be stored; a valid one is handed on.
pub fn begin_submit(input: ContactInput) -> (r: SubmitStep)
    ensures
        (r is Store) <==> (input.first_missing() is None && goal_of_label(
            input.goal->Some_0@,
        ) is Some),
        r matches SubmitStep::Store(v) ==> parse_ensures(input, Ok(v)),
        r matches SubmitStep::Reject(reply) ==> {
            &&& reply.status == 400
            &&& reply.consistent()
            &&& reply.body matches Envelope::Failure(e)
            &&& exists|v: ValidationError| parse_ensures(input, Err(v)) && describes(e, v)
        },
{
    match parse(input) {
        Ok(v) => SubmitStep::Store(v),
        Err(v) => {
            let e = validation_failure(&v);
            SubmitStep::Reject(Reply { status: 400, body: Envelope::Failure(e) })
        },
    }
}

/// Answers a stored submission: 201 with the created record on success,
/// 500 with a generic failure envelope when the store failed.
pub fn finish_submit(v: ValidatedSubmission, stored: Result<StoreAssigned, PersistenceError>) -> (r:
    Reply<OutboundContact>)
    ensures
        r.consistent(),
        stored matches Ok(a) ==> {
            &&& r.status == 201
            &&& r.body matches Envelope::Success(resp)
            &&& projects(resp.data, stored_record(v, a))
            &&& resp.message matches Some(m) && m@ == saved_message()
        },
        stored is Err ==> {
            &&& r.status == 500
            &&& r.body matches Envelope::Failure(e)
            &&& e.error@ == save_failed_text()
            &&& e.details is None
        },
{
    match stored {
        Ok(a) => {
            let record = ContactSubmission::stored(v, a);
            let data = to_response(record);
            let message = Some(String::from_str("Contact form submitted successfully"));
            Reply { status: 201, body: Envelope::Success(ApiResponse { data, message }) }
        },
        Err(_) => Reply {
            status: 500,
            body: Envelope::Failure(ApiError::bare("Failed to save contact form")),
        },
    }
}

/// Answers a body that could not be read as a submission at all: 400 with
/// a failure envelope carrying the reader's explanation as details.
pub fn malformed_body(details: String) -> (r: Reply<OutboundContact>)
    ensures
        r.consistent(),
        r.status == 400,
        r.body matches Envelope::Failure(e) && e.error@ == bad_body_text() && e.details == Some(
            details,
        ),
{
    Reply {
        status: 400,
        body: Envelope::Failure(
            ApiError { error: String::from_str("Invalid request body"), details: Some(details) },
        ),
    }
}

/// A valid submission parses, and the wire shape of the record stored from
/// it repeats every submitted attribute verbatim, with a non-empty
/// identifier and timestamps assigned by the store.
pub proof fn lemma_valid_submission_round_trips(
    input: ContactInput,
    r: Result<ValidatedSubmission, ValidationError>,
    assigned: StoreAssigned,
    o: OutboundContact,
)
    requires
        forall|f: Field| given(#[trigger] input.spec_field(f)),
        goal_of_label(input.goal->Some_0@) is Some,
        parse_ensures(input, r),
        r matches Ok(v) ==> projects(o, stored_record(v, assigned)),
    ensures
        r is Ok,
        o.full_name@ == input.full_name->Some_0@,
        o.email@ == input.email->Some_0@,
        o.phone@ == input.phone->Some_0@,
        o.market@ == input.market->Some_0@,
        o.goal@ == input.goal->Some_0@,
        o.id@.len() > 0,
        o.created_at@.len() > 0,
        o.updated_at@.len() > 0,
{
    assert(given(input.spec_field(Field::FullName)));
    assert(given(input.spec_field(Field::Email)));
    assert(given(input.spec_field(Field::Phone)));
    assert(given(input.spec_field(Field::Market)));
    assert(given(input.spec_field(Field::Goal)));
    let g = goal_of_label(input.goal->Some_0@)->Some_0;
    lemma_label_round_trip(g, input.goal->Some_0@);
    lemma_rendered_lengths(assigned.id, assigned.created_at);
    lemma_rendered_lengths(assigned.id, assigned.updated_at);
}

/// When exactly one required attribute is missing or blank, the failure
/// envelope cites exactly that attribute: after the fixed prefix its text is
/// that attribute's name and no other's, and it carries no details.
pub proof fn lemma_missing_field_cited(
    input: ContactInput,
    f: Field,
    r: Result<ValidatedSubmission, ValidationError>,
    e: ApiError,
)
    requires
        !given(input.spec_field(f)),
        forall|g: Field| g != f ==> given(#[trigger] input.spec_field(g)),
        parse_ensures(input, r),
        r matches Err(v) && describes(e, v),
    ensures
        e.details is None,
        e.error@ == missing_prefix() + f.spec_name(),
        e.error@.subrange(missing_prefix().len() as int, e.error@.len() as int) == f.spec_name(),
        forall|g: Field| g != f ==> e.error@.subrange(missing_prefix().len() as int, e.error@.len() as int)
            != #[trigger] g.spec_name(),
{
    lemma_missing_field_named(input, f, r);
    let rest = e.error@.subrange(missing_prefix().len() as int, e.error@.len() as int);
    assert(rest =~= f.spec_name());
    assert forall|g: Field| g != f implies rest != #[trigger] g.spec_name() by {
        lemma_field_names_distinct(f, g);
    }
}

} // verus!
