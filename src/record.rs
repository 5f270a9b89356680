//! The stored contact record and its outbound shape.

use vstd::prelude::*;
use vstd::string::StringExecFns;
use crate::goal::Goal;
use crate::render::{fixed_digits, lemma_fixed_digits_len, push_digits};
use crate::submission::ValidatedSubmission;

verus! {

/// A point in time as the store reports it, to the microsecond, without zone.
#[derive(Clone, Copy, Debug, PartialEq, Eq, Structural)]
pub struct Timestamp {
    pub year: u16,
    pub month: u8,
    pub day: u8,
    pub hour: u8,
    pub minute: u8,
    pub second: u8,
    pub micros: u32,
}

pub open spec fn leap_year(y: int) -> bool {
    y % 4 == 0 && (y % 100 != 0 || y % 400 == 0)
}

pub open spec fn days_in_month(y: int, m: int) -> int {
    if m == 2 {
        if leap_year(y) { 29 } else { 28 }
    } else if m == 4 || m == 6 || m == 9 || m == 11 {
        30
    } else {
        31
    }
}

impl Timestamp {
    /// A real calendar instant with a four-digit year.
    pub open spec fn wf(self) -> bool {
        &&& self.year <= 9999
        &&& 1 <= self.month <= 12
        &&& 1 <= self.day <= days_in_month(self.year as int, self.month as int)
        &&& self.hour < 24
        &&& self.minute < 60
        &&& self.second < 60
        &&& self.micros < 1_000_000
    }

    /// Builds a timestamp from its parts, if they name a real instant.
    pub fn new(year: u16, month: u8, day: u8, hour: u8, minute: u8, second: u8, micros: u32)
        -> (r: Option<Timestamp>)
        ensures
            r matches Some(t) ==> t.wf(),
            r matches Some(t) ==> t == (Timestamp { year, month, day, hour, minute, second, micros }),
            r is None ==> !(Timestamp { year, month, day, hour, minute, second, micros }).wf(),
    {
        let leap = year % 4 == 0 && (year % 100 != 0 || year % 400 == 0);
        let days: u8 = if month == 2 {
            if leap { 29 } else { 28 }
        } else if month == 4 || month == 6 || month == 9 || month == 11 {
            30
        } else {
            31
        };
        if year <= 9999 && 1 <= month && month <= 12 && 1 <= day && day <= days && hour < 24
            && minute < 60 && second < 60 && micros < 1_000_000 {
            Some(Timestamp { year, month, day, hour, minute, second, micros })
        } else {
            None
        }
    }

    /// ISO 8601 text: `YYYY-MM-DDTHH:MM:SS`, then the fraction of the second
    /// when it is not zero: three digits when it is a whole number of
    /// milliseconds, else six.
    pub open spec fn spec_iso(self) -> Seq<char> {
        let whole = fixed_digits(self.year as nat, 10, 4) + "-"@
            + fixed_digits(self.month as nat, 10, 2) + "-"@
            + fixed_digits(self.day as nat, 10, 2) + "T"@
            + fixed_digits(self.hour as nat, 10, 2) + ":"@
            + fixed_digits(self.minute as nat, 10, 2) + ":"@
            + fixed_digits(self.second as nat, 10, 2);
        if self.micros == 0 {
            whole
        } else if self.micros % 1000 == 0 {
            whole + "."@ + fixed_digits((self.micros / 1000) as nat, 10, 3)
        } else {
            whole + "."@ + fixed_digits(self.micros as nat, 10, 6)
        }
    }

    /// Renders the timestamp as ISO 8601 text.
    pub fn to_iso(&self) -> (r: String)
        ensures
            r@ == self.spec_iso(),
    {
        let mut out = String::new();
        push_digits(&mut out, self.year as u128, 10, 4);
        out.append("-");
        push_digits(&mut out, self.month as u128, 10, 2);
        out.append("-");
        push_digits(&mut out, self.day as u128, 10, 2);
        out.append("T");
        push_digits(&mut out, self.hour as u128, 10, 2);
        out.append(":");
        push_digits(&mut out, self.minute as u128, 10, 2);
        out.append(":");
        push_digits(&mut out, self.second as u128, 10, 2);
        if self.micros != 0 {
            out.append(".");
            if self.micros % 1000 == 0 {
                push_digits(&mut out, (self.micros / 1000) as u128, 10, 3);
            } else {
                push_digits(&mut out, self.micros as u128, 10, 6);
            }
        }
        assert(out@ =~= self.spec_iso());
        out
    }
}

/// The canonical text of a 128-bit identifier: 32 lowercase hex digits in
/// groups of 8, 4, 4, 4 and 12, joined by hyphens.
pub open spec fn uuid_text(id: u128) -> Seq<char> {
    let v = id as nat;
    fixed_digits(v / 0x1_0000_0000_0000_0000_0000_0000, 16, 8) + "-"@
        + fixed_digits(v / 0x1_0000_0000_0000_0000_0000, 16, 4) + "-"@
        + fixed_digits(v / 0x1_0000_0000_0000_0000, 16, 4) + "-"@
        + fixed_digits(v / 0x1_0000_0000_0000, 16, 4) + "-"@
        + fixed_digits(v, 16, 12)
}

/// Renders an identifier in its canonical hyphenated form.
pub fn uuid_string(id: u128) -> (r: String)
    ensures
        r@ == uuid_text(id),
{
    let mut out = String::new();
    push_digits(&mut out, id / 0x1_0000_0000_0000_0000_0000_0000, 16, 8);
    out.append("-");
    push_digits(&mut out, id / 0x1_0000_0000_0000_0000_0000, 16, 4);
    out.append("-");
    push_digits(&mut out, id / 0x1_0000_0000_0000_0000, 16, 4);
    out.append("-");
    push_digits(&mut out, id / 0x1_0000_0000_0000, 16, 4);
    out.append("-");
    push_digits(&mut out, id, 16, 12);
    assert(out@ =~= uuid_text(id));
    out
}

/// The rendered identifier has 36 characters and the rendered timestamps at
/// least 19: neither is ever empty.
pub proof fn lemma_rendered_lengths(id: u128, t: Timestamp)
    ensures
        uuid_text(id).len() == 36,
        t.spec_iso().len() >= 19,
{
    reveal_strlit("-");
    reveal_strlit("T");
    reveal_strlit(":");
    reveal_strlit(".");
    let v = id as nat;
    lemma_fixed_digits_len(v / 0x1_0000_0000_0000_0000_0000_0000, 16, 8);
    lemma_fixed_digits_len(v / 0x1_0000_0000_0000_0000_0000, 16, 4);
    lemma_fixed_digits_len(v / 0x1_0000_0000_0000_0000, 16, 4);
    lemma_fixed_digits_len(v / 0x1_0000_0000_0000, 16, 4);
    lemma_fixed_digits_len(v, 16, 12);
    lemma_fixed_digits_len(t.year as nat, 10, 4);
    lemma_fixed_digits_len(t.month as nat, 10, 2);
    lemma_fixed_digits_len(t.day as nat, 10, 2);
    lemma_fixed_digits_len(t.hour as nat, 10, 2);
    lemma_fixed_digits_len(t.minute as nat, 10, 2);
    lemma_fixed_digits_len(t.second as nat, 10, 2);
    lemma_fixed_digits_len(t.micros as nat, 10, 6);
    lemma_fixed_digits_len((t.micros / 1000) as nat, 10, 3);
}

/// What the store assigns to a new row: its identifier and its two timestamps.
#[derive(Clone, Copy, Debug, PartialEq, Eq, Structural)]
pub struct StoreAssigned {
    pub id: u128,
    pub created_at: Timestamp,
    pub updated_at: Timestamp,
}

/// A persisted contact record, one per stored row.
#[derive(Clone, Debug)]
pub struct ContactSubmission {
    pub id: u128,
    pub full_name: String,
    pub email: String,
    pub phone: String,
    pub market: String,
    pub goal: Goal,
    pub created_at: Timestamp,
    pub updated_at: Timestamp,
}

/// The record that storing `v` yields, given what the store assigned.
pub open spec fn stored_record(v: ValidatedSubmission, assigned: StoreAssigned) -> ContactSubmission {
    ContactSubmission {
        id: assigned.id,
        full_name: v.full_name,
        email: v.email,
        phone: v.phone,
        market: v.market,
        goal: v.goal,
        created_at: assigned.created_at,
        updated_at: assigned.updated_at,
    }
}

impl ContactSubmission {
    /// The record that storing `v` yields, given what the store assigned.
    pub fn stored(v: ValidatedSubmission, assigned: StoreAssigned) -> (r: ContactSubmission)
        ensures
            r == stored_record(v, assigned),
    {
        ContactSubmission {
            id: assigned.id,
            full_name: v.full_name,
            email: v.email,
            phone: v.phone,
            market: v.market,
            goal: v.goal,
            created_at: assigned.created_at,
            updated_at: assigned.updated_at,
        }
    }
}

/// A contact record in its wire shape: every attribute as text.
#[derive(Clone, Debug)]
pub struct OutboundContact {
    pub id: String,
    pub full_name: String,
    pub email: String,
    pub phone: String,
    pub market: String,
    pub goal: String,
    pub created_at: String,
    pub updated_at: String,
}

/// `o` is the wire shape of `record`: text attributes verbatim, the goal by
/// its label, the identifier and timestamps in their canonical text.
pub open spec fn projects(o: OutboundContact, record: ContactSubmission) -> bool {
    &&& o.id@ == uuid_text(record.id)
    &&& o.full_name@ == record.full_name@
    &&& o.email@ == record.email@
    &&& o.phone@ == record.phone@
    &&& o.market@ == record.market@
    &&& o.goal@ == record.goal.spec_label()
    &&& o.created_at@ == record.created_at.spec_iso()
    &&& o.updated_at@ == record.updated_at.spec_iso()
}

/// Projects a stored record into its wire shape, losing nothing.
pub fn to_response(record: ContactSubmission) -> (r: OutboundContact)
    ensures
        projects(r, record),
{
    let id = uuid_string(record.id);
    let goal = String::from_str(record.goal.label());
    let created_at = record.created_at.to_iso();
    let updated_at = record.updated_at.to_iso();
    OutboundContact {
        id,
        full_name: record.full_name,
        email: record.email,
        phone: record.phone,
        market: record.market,
        goal,
        created_at,
        updated_at,
    }
}

/// The statement that stores a validated submission; the store assigns the
/// identifier and both timestamps and returns them.
pub open spec fn insert_text() -> Seq<char> {
    "INSERT INTO contacts (full_name, email, phone, market, goal) VALUES ($1, $2, $3, $4, CAST($5 AS goal)) RETURNING id, created_at, updated_at"@
}

/// The statement that stores a validated submission.
pub fn insert_sql() -> (r: String)
    ensures
        r@ == insert_text(),
{
    String::from_str(
        "INSERT INTO contacts (full_name, email, phone, market, goal) VALUES ($1, $2, $3, $4, CAST($5 AS goal)) RETURNING id, created_at, updated_at",
    )
}

/// The parameters of the insert statement for `v`, in placeholder order.
pub fn insert_values(v: &ValidatedSubmission) -> (r: Vec<String>)
    ensures
        r@.len() == 5,
        r@[0]@ == v.full_name@,
        r@[1]@ == v.email@,
        r@[2]@ == v.phone@,
        r@[3]@ == v.market@,
        r@[4]@ == v.goal.spec_label(),
{
    let mut r: Vec<String> = Vec::new();
    r.push(v.full_name.clone());
    r.push(v.email.clone());
    r.push(v.phone.clone());
    r.push(v.market.clone());
    r.push(String::from_str(v.goal.label()));
    r
}

} // verus!
