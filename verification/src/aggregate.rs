//! The tally: how many votes each action has, and when the last was cast.

use crate::action::Action;
use crate::time::Timestamp;
use crate::vote::{latest_updated_at, lemma_counts_add_up, votes_for, Vote};
use crate::vote_service::VoteService;
use vstd::prelude::*;

verus! {

/// The tally of the votes.
#[derive(Clone, Copy, Debug, PartialEq, Eq, Structural)]
pub struct Aggregate {
    /// How many votes say the shop is open.
    pub found: u64,
    /// How many votes say the shop is not there.
    pub not_found: u64,
    /// How many votes say the shop has sold out.
    pub sold_out: u64,
    /// How many votes there are.
    pub total: u64,
    /// When the last vote was cast, if there is any vote.
    pub latest_updated_at: Option<Timestamp>,
}

/// The tally of `rows`.
pub open spec fn tally_of(rows: Seq<Vote>) -> Aggregate {
    Aggregate {
        found: votes_for(rows, Action::Found).len() as u64,
        not_found: votes_for(rows, Action::NotFound).len() as u64,
        sold_out: votes_for(rows, Action::SoldOut).len() as u64,
        total: rows.len() as u64,
        latest_updated_at: latest_updated_at(rows),
    }
}

impl Aggregate {
    /// Counts the votes of the store. The three counts add up to the total.
    pub fn compute(votes: &VoteService) -> (tally: Aggregate)
        ensures
            tally == tally_of(votes@),
            tally.found + tally.not_found + tally.sold_out == tally.total,
            tally.total == votes@.len(),
    {
        proof {
            lemma_counts_add_up(votes@);
        }
        let total: usize = votes.len();
        Aggregate {
            found: votes.count_votes_by_action(Action::Found),
            not_found: votes.count_votes_by_action(Action::NotFound),
            sold_out: votes.count_votes_by_action(Action::SoldOut),
            total: total as u64,
            latest_updated_at: votes.get_latest_vote_updated_at(),
        }
    }

    /// How many votes are for `action`.
    pub fn count(&self, action: Action) -> (n: u64)
        ensures
            n == match action {
                Action::Found => self.found,
                Action::NotFound => self.not_found,
                Action::SoldOut => self.sold_out,
            },
    {
        match action {
            Action::Found => self.found,
            Action::NotFound => self.not_found,
            Action::SoldOut => self.sold_out,
        }
    }
}

} // verus!
