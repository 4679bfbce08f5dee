//! The three answers a vote can give.

use vstd::prelude::*;
use vstd::string::StringExecFns;

verus! {

/// What a voter reports of the shop.
#[derive(Clone, Copy, Debug, PartialEq, Eq, Hash, Structural)]
pub enum Action {
    /// The shop is open.
    Found,
    /// The shop is not there.
    NotFound,
    /// The shop has sold out.
    SoldOut,
}

/// Whether two texts hold the same characters.
pub(crate) fn same_text(a: &str, b: &str) -> (r: bool)
    ensures
        r == (a@ == b@),
{
    String::from_str(a) == String::from_str(b)
}

impl Action {
    /// The name under which the action is stored and sent.
    pub open spec fn name(self) -> Seq<char> {
        match self {
            Action::Found => "found"@,
            Action::NotFound => "not_found"@,
            Action::SoldOut => "sold_out"@,
        }
    }

    /// The words shown to voters for the action.
    pub open spec fn label(self) -> Seq<char> {
        match self {
            Action::Found => "営業してる"@,
            Action::NotFound => "いない"@,
            Action::SoldOut => "売り切れた"@,
        }
    }

    /// The name under which the action is stored and sent.
    pub fn as_str(&self) -> (s: &'static str)
        ensures
            s@ == self.name(),
    {
        match self {
            Action::Found => "found",
            Action::NotFound => "not_found",
            Action::SoldOut => "sold_out",
        }
    }

    /// The words shown to voters for the action.
    pub fn label_str(&self) -> (s: &'static str)
        ensures
            s@ == self.label(),
    {
        match self {
            Action::Found => "営業してる",
            Action::NotFound => "いない",
            Action::SoldOut => "売り切れた",
        }
    }

    /// The action that `name` names, if it names one.
    pub open spec fn named(name: Seq<char>) -> Option<Action> {
        if name == Action::Found.name() {
            Some(Action::Found)
        } else if name == Action::NotFound.name() {
            Some(Action::NotFound)
        } else if name == Action::SoldOut.name() {
            Some(Action::SoldOut)
        } else {
            None
        }
    }

    /// The action that `name` names, if it names one.
    pub fn parse(name: &str) -> (r: Option<Action>)
        ensures
            r == Action::named(name@),
    {
        if same_text(name, "found") {
            Some(Action::Found)
        } else if same_text(name, "not_found") {
            Some(Action::NotFound)
        } else if same_text(name, "sold_out") {
            Some(Action::SoldOut)
        } else {
            None
        }
    }
}

/// No two actions share a name.
pub proof fn lemma_names_distinct(a: Action, b: Action)
    ensures
        a.name() == b.name() <==> a == b,
{
    reveal_strlit("found");
    reveal_strlit("not_found");
    reveal_strlit("sold_out");
    if a != b {
        assert(a.name().len() != b.name().len() || a.name()[0] != b.name()[0]);
    }
}

/// A text names an action exactly when it is that action's name, so parsing
/// the name of an action gives the action back.
pub proof fn lemma_named_round_trip(a: Action, name: Seq<char>)
    ensures
        Action::named(a.name()) == Some(a),
        Action::named(name) == Some(a) <==> name == a.name(),
{
    lemma_names_distinct(a, Action::Found);
    lemma_names_distinct(a, Action::NotFound);
    lemma_names_distinct(a, Action::SoldOut);
    lemma_names_distinct(Action::Found, Action::NotFound);
    lemma_names_distinct(Action::Found, Action::SoldOut);
    lemma_names_distinct(Action::NotFound, Action::SoldOut);
}

} // verus!
