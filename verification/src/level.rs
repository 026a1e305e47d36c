//! The commitment level of a configuration and its textual tag.

use std::str::FromStr;
use vstd::prelude::*;

verus! {

/// How settled a slot must be before the tool trusts what it reads from it.
#[derive(Clone, Copy, Debug, PartialEq, Eq, Structural)]
pub enum CommitmentLevel {
    Processed,
    Confirmed,
    Finalized,
}

impl CommitmentLevel {
    /// The tag under which a level is written to the configuration file.
    pub open spec fn tag(self) -> Seq<char> {
        match self {
            CommitmentLevel::Processed => "processed"@,
            CommitmentLevel::Confirmed => "confirmed"@,
            CommitmentLevel::Finalized => "finalized"@,
        }
    }

    /// The level that a tag stands for, if it stands for one.
    pub open spec fn of_tag(tag: Seq<char>) -> Option<CommitmentLevel> {
        if tag == "processed"@ {
            Some(CommitmentLevel::Processed)
        } else if tag == "confirmed"@ {
            Some(CommitmentLevel::Confirmed)
        } else if tag == "finalized"@ {
            Some(CommitmentLevel::Finalized)
        } else {
            None
        }
    }

    /// Every level is found again from its own tag.
    pub proof fn lemma_tag_round_trip(self)
        ensures
            Self::of_tag(self.tag()) == Some(self),
            self.tag().len() == 9,
    {
        reveal_strlit("processed");
        reveal_strlit("confirmed");
        reveal_strlit("finalized");
        assert("processed"@[0] != "confirmed"@[0]);
        assert("processed"@[0] != "finalized"@[0]);
        assert("confirmed"@[0] != "finalized"@[0]);
    }
}

/// Calls `solana_commitment_config::CommitmentLevel::from_str`, which accepts
/// exactly the three tags `processed`, `confirmed` and `finalized`, and hands
/// the level over as this library's own enum. Not proved: that the outside
/// function maps each tag to the variant of the same name and refuses every
/// other string.
#[verifier::external_body]
pub(crate) fn level_from_tag(tag: &str) -> (level: Option<CommitmentLevel>)
    ensures
        level == CommitmentLevel::of_tag(tag@),
{
    match solana_commitment_config::CommitmentLevel::from_str(tag) {
        Ok(solana_commitment_config::CommitmentLevel::Processed) => Some(CommitmentLevel::Processed),
        Ok(solana_commitment_config::CommitmentLevel::Confirmed) => Some(CommitmentLevel::Confirmed),
        Ok(solana_commitment_config::CommitmentLevel::Finalized) => Some(CommitmentLevel::Finalized),
        Err(_) => None,
    }
}

/// Calls the `Display` impl of `solana_commitment_config::CommitmentLevel`
/// through `to_string`. Not proved: that it writes the variant's name in
/// lower case and nothing else.
#[verifier::external_body]
pub(crate) fn level_to_tag(level: CommitmentLevel) -> (tag: String)
    ensures
        tag@ == level.tag(),
{
    match level {
        CommitmentLevel::Processed => solana_commitment_config::CommitmentLevel::Processed.to_string(),
        CommitmentLevel::Confirmed => solana_commitment_config::CommitmentLevel::Confirmed.to_string(),
        CommitmentLevel::Finalized => solana_commitment_config::CommitmentLevel::Finalized.to_string(),
    }
}

} // verus!
