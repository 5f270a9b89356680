//! The closed enumeration of investment goals.

use vstd::prelude::*;
use crate::text::same_text;

verus! {

/// An investment goal: exactly one of five labels is legal.
#[derive(Clone, Copy, Debug, PartialEq, Eq, Structural)]
pub enum Goal {
    BuyFirstProperty,
    MaxCashFlow,
    Appreciation,
    Scale,
    Exchange,
}

impl Goal {
    /// The label under which a goal travels and is stored.
    pub open spec fn spec_label(self) -> Seq<char> {
        match self {
            Goal::BuyFirstProperty => "BuyFirstProperty"@,
            Goal::MaxCashFlow => "MaxCashFlow"@,
            Goal::Appreciation => "Appreciation"@,
            Goal::Scale => "Scale"@,
            Goal::Exchange => "Exchange"@,
        }
    }

    /// The label of this goal.
    pub fn label(&self) -> (r: &str)
        ensures
            r@ == self.spec_label(),
    {
        match self {
            Goal::BuyFirstProperty => "BuyFirstProperty",
            Goal::MaxCashFlow => "MaxCashFlow",
            Goal::Appreciation => "Appreciation",
            Goal::Scale => "Scale",
            Goal::Exchange => "Exchange",
        }
    }

    /// Reads a goal from its label; the match is exact and case-sensitive.
    pub fn from_label(s: &str) -> (r: Option<Goal>)
        ensures
            r == goal_of_label(s@),
    {
        if same_text(s, "BuyFirstProperty") {
            Some(Goal::BuyFirstProperty)
        } else if same_text(s, "MaxCashFlow") {
            Some(Goal::MaxCashFlow)
        } else if same_text(s, "Appreciation") {
            Some(Goal::Appreciation)
        } else if same_text(s, "Scale") {
            Some(Goal::Scale)
        } else if same_text(s, "Exchange") {
            Some(Goal::Exchange)
        } else {
            None
        }
    }
}

/// The goal whose label is `s`, if any.
pub open spec fn goal_of_label(s: Seq<char>) -> Option<Goal> {
    if s == Goal::BuyFirstProperty.spec_label() {
        Some(Goal::BuyFirstProperty)
    } else if s == Goal::MaxCashFlow.spec_label() {
        Some(Goal::MaxCashFlow)
    } else if s == Goal::Appreciation.spec_label() {
        Some(Goal::Appreciation)
    } else if s == Goal::Scale.spec_label() {
        Some(Goal::Scale)
    } else if s == Goal::Exchange.spec_label() {
        Some(Goal::Exchange)
    } else {
        None
    }
}

/// Reading a goal's own label gives that goal back, and only the five labels
/// name a goal.
pub proof fn lemma_label_round_trip(g: Goal, s: Seq<char>)
    ensures
        goal_of_label(g.spec_label()) == Some(g),
        goal_of_label(s) == Some(g) ==> s == g.spec_label(),
{
    reveal_strlit("BuyFirstProperty");
    reveal_strlit("MaxCashFlow");
    reveal_strlit("Appreciation");
    reveal_strlit("Scale");
    reveal_strlit("Exchange");
    assert("BuyFirstProperty"@ != "MaxCashFlow"@) by {
        assert("BuyFirstProperty"@.len() != "MaxCashFlow"@.len());
    }
    assert("BuyFirstProperty"@ != "Appreciation"@) by {
        assert("BuyFirstProperty"@.len() != "Appreciation"@.len());
    }
    assert("BuyFirstProperty"@ != "Scale"@) by {
        assert("BuyFirstProperty"@.len() != "Scale"@.len());
    }
    assert("BuyFirstProperty"@ != "Exchange"@) by {
        assert("BuyFirstProperty"@.len() != "Exchange"@.len());
    }
    assert("MaxCashFlow"@ != "Appreciation"@) by {
        assert("MaxCashFlow"@.len() != "Appreciation"@.len());
    }
    assert("MaxCashFlow"@ != "Scale"@) by {
        assert("MaxCashFlow"@.len() != "Scale"@.len());
    }
    assert("MaxCashFlow"@ != "Exchange"@) by {
        assert("MaxCashFlow"@[0] != "Exchange"@[0]);
    }
    assert("Appreciation"@ != "Scale"@) by {
        assert("Appreciation"@.len() != "Scale"@.len());
    }
    assert("Appreciation"@ != "Exchange"@) by {
        assert("Appreciation"@.len() != "Exchange"@.len());
    }
    assert("Scale"@ != "Exchange"@) by {
        assert("Scale"@.len() != "Exchange"@.len());
    }
}

} // verus!
