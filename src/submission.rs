//! Validation of an inbound contact-form submission.

use vstd::prelude::*;
use crate::goal::{Goal, goal_of_label};
use crate::text::{blank, is_blank};

verus! {

/// The five required attributes of a submission, in the order they are checked.
#[derive(Clone, Copy, Debug, PartialEq, Eq, Structural)]
pub enum Field {
    FullName,
    Email,
    Phone,
    Market,
    Goal,
}

impl Field {
    /// The attribute's name on the wire.
    pub open spec fn spec_name(self) -> Seq<char> {
        match self {
            Field::FullName => "full_name"@,
            Field::Email => "email"@,
            Field::Phone => "phone"@,
            Field::Market => "market"@,
            Field::Goal => "goal"@,
        }
    }

    /// The attribute's name on the wire.
    pub fn name(&self) -> (r: &str)
        ensures
            r@ == self.spec_name(),
    {
        match self {
            Field::FullName => "full_name",
            Field::Email => "email",
            Field::Phone => "phone",
            Field::Market => "market",
            Field::Goal => "goal",
        }
    }
}

/// A submission as it arrives: any attribute may be absent.
#[derive(Clone, Debug)]
pub struct ContactInput {
    pub full_name: Option<String>,
    pub email: Option<String>,
    pub phone: Option<String>,
    pub market: Option<String>,
    pub goal: Option<String>,
}

/// A submission whose attributes were all found present and whose goal is legal.
#[derive(Clone, Debug)]
pub struct ValidatedSubmission {
    pub full_name: String,
    pub email: String,
    pub phone: String,
    pub market: String,
    pub goal: Goal,
}

/// Why a submission was rejected.
#[derive(Clone, Debug)]
pub enum ValidationError {
    /// A required attribute was absent or blank.
    MissingField(Field),
    /// The goal matched none of the legal labels; the offending text is kept.
    InvalidGoal(String),
}

/// An attribute counts as given when it is there and not blank.
pub open spec fn given(v: Option<String>) -> bool {
    v is Some && !blank(v->Some_0@)
}

impl ContactInput {
    /// The value of one attribute.
    pub open spec fn spec_field(self, f: Field) -> Option<String> {
        match f {
            Field::FullName => self.full_name,
            Field::Email => self.email,
            Field::Phone => self.phone,
            Field::Market => self.market,
            Field::Goal => self.goal,
        }
    }

    /// The first required attribute, in checking order, that is not given.
    pub open spec fn first_missing(self) -> Option<Field> {
        if !given(self.full_name) {
            Some(Field::FullName)
        } else if !given(self.email) {
            Some(Field::Email)
        } else if !given(self.phone) {
            Some(Field::Phone)
        } else if !given(self.market) {
            Some(Field::Market)
        } else if !given(self.goal) {
            Some(Field::Goal)
        } else {
            None
        }
    }
}

/// What `parse` owes for `input`: the first missing attribute is reported;
/// otherwise an unknown goal is reported with its text; otherwise every
/// attribute is carried over verbatim.
pub open spec fn parse_ensures(
    input: ContactInput,
    r: Result<ValidatedSubmission, ValidationError>,
) -> bool {
    match input.first_missing() {
        Some(f) => r matches Err(ValidationError::MissingField(g)) && g == f,
        None => match goal_of_label(input.goal->Some_0@) {
            None => r matches Err(ValidationError::InvalidGoal(v)) && v@ == input.goal->Some_0@,
            Some(g) => r matches Ok(s) && s.goal == g
                && s.full_name@ == input.full_name->Some_0@
                && s.email@ == input.email->Some_0@
                && s.phone@ == input.phone->Some_0@
                && s.market@ == input.market->Some_0@,
        },
    }
}

/// Checks that the value of one attribute is given, and hands it over.
fn take_given(v: Option<String>, f: Field) -> (r: Result<String, ValidationError>)
    ensures
        given(v) ==> r == Ok::<String, ValidationError>(v->Some_0),
        !given(v) ==> (r matches Err(ValidationError::MissingField(g)) && g == f),
{
    match v {
        Some(s) => {
            if is_blank(s.as_str()) {
                Err(ValidationError::MissingField(f))
            } else {
                Ok(s)
            }
        },
        None => Err(ValidationError::MissingField(f)),
    }
}

/// Turns an inbound submission into a validated one, or says why it cannot.
pub fn parse(input: ContactInput) -> (r: Result<ValidatedSubmission, ValidationError>)
    ensures
        parse_ensures(input, r),
{
    let full_name = match take_given(input.full_name, Field::FullName) {
        Ok(s) => s,
        Err(e) => return Err(e),
    };
    let email = match take_given(input.email, Field::Email) {
        Ok(s) => s,
        Err(e) => return Err(e),
    };
    let phone = match take_given(input.phone, Field::Phone) {
        Ok(s) => s,
        Err(e) => return Err(e),
    };
    let market = match take_given(input.market, Field::Market) {
        Ok(s) => s,
        Err(e) => return Err(e),
    };
    let goal_text = match take_given(input.goal, Field::Goal) {
        Ok(s) => s,
        Err(e) => return Err(e),
    };
    match Goal::from_label(goal_text.as_str()) {
        Some(goal) => Ok(ValidatedSubmission { full_name, email, phone, market, goal }),
        None => Err(ValidationError::InvalidGoal(goal_text)),
    }
}

/// Distinct attributes have distinct names.
pub proof fn lemma_field_names_distinct(f: Field, g: Field)
    ensures
        f != g ==> f.spec_name() != g.spec_name(),
{
    reveal_strlit("full_name");
    reveal_strlit("email");
    reveal_strlit("phone");
    reveal_strlit("market");
    reveal_strlit("goal");
    if f != g {
        if f.spec_name().len() == g.spec_name().len() {
            assert(f.spec_name()[0] != g.spec_name()[0]);
        }
    }
}

/// When exactly one required attribute is missing or blank, parsing fails
/// naming that attribute.
pub proof fn lemma_missing_field_named(
    input: ContactInput,
    f: Field,
    r: Result<ValidatedSubmission, ValidationError>,
)
    requires
        !given(input.spec_field(f)),
        forall|g: Field| g != f ==> given(#[trigger] input.spec_field(g)),
        parse_ensures(input, r),
    ensures
        r matches Err(ValidationError::MissingField(g)) && g == f,
{
    assert(given(input.spec_field(Field::FullName)) || f == Field::FullName);
    assert(given(input.spec_field(Field::Email)) || f == Field::Email);
    assert(given(input.spec_field(Field::Phone)) || f == Field::Phone);
    assert(given(input.spec_field(Field::Market)) || f == Field::Market);
    assert(given(input.spec_field(Field::Goal)) || f == Field::Goal);
}

/// When every attribute is given but the goal is none of the five labels,
/// parsing fails with that goal text.
pub proof fn lemma_invalid_goal_echoed(input: ContactInput, r: Result<ValidatedSubmission, ValidationError>)
    requires
        forall|g: Field| given(#[trigger] input.spec_field(g)),
        goal_of_label(input.goal->Some_0@) is None,
        parse_ensures(input, r),
    ensures
        r matches Err(ValidationError::InvalidGoal(v)) && v@ == input.goal->Some_0@,
{
    assert(given(input.spec_field(Field::FullName)));
    assert(given(input.spec_field(Field::Email)));
    assert(given(input.spec_field(Field::Phone)));
    assert(given(input.spec_field(Field::Market)));
    assert(given(input.spec_field(Field::Goal)));
}

} // verus!
