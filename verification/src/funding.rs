use vstd::prelude::*;

verus! {

/// A funding round: proposals are created under a DAO and voted on
/// with credits.
pub struct Dao {
    /// Human-readable name of the DAO.
    pub name: String,
    /// The principal that created the DAO.
    pub authority: u64,
    /// How many proposals have been created under this DAO.
    pub proposal_count: u64,
    /// Derivation parameter for the DAO's account.
    pub bump: u8,
}

/// One proposal and its running vote tallies.
pub struct Proposal {
    /// The principal that created the proposal.
    pub authority: u64,
    /// Where the proposal's content lives.
    pub metadata: String,
    /// Credits cast in favor.
    pub yes_vote_count: u64,
    /// Credits cast against.
    pub no_vote_count: u64,
    /// Derivation parameter for the proposal's account.
    pub bump: u8,
}

/// One voter's vote on one proposal.
pub struct Vote {
    /// The principal that voted.
    pub authority: u64,
    /// The credits the vote carried.
    pub vote_credits: u64,
    /// 1 for a vote in favor; anything else counts against.
    pub vote_type: u8,
    /// Derivation parameter for the vote's account.
    pub bump: u8,
}

/// Creates a DAO with no proposals yet.
pub fn init_dao(name: String, authority: u64, bump: u8) -> (d: Dao)
    ensures
        d.authority == authority,
        d.proposal_count == 0,
        d.bump == bump,
        d.name == name,
{
    Dao { name, authority, proposal_count: 0, bump }
}

/// Creates a proposal under `dao` with empty tallies and counts it.
/// The proposal count never reaches its numeric limit in practice;
/// the unchecked increment this models would abort there.
pub fn init_proposal(dao: &mut Dao, authority: u64, metadata: String, bump: u8) -> (p: Proposal)
    requires
        old(dao).proposal_count < u64::MAX,
    ensures
        p.authority == authority,
        p.metadata == metadata,
        p.yes_vote_count == 0,
        p.no_vote_count == 0,
        p.bump == bump,
        *final(dao) == (Dao { proposal_count: (old(dao).proposal_count + 1) as u64, ..*old(dao) }),
{
    dao.proposal_count = dao.proposal_count + 1;
    Proposal { authority, metadata, yes_vote_count: 0, no_vote_count: 0, bump }
}

/// Casts `vote_credits` on `proposal`: a `vote_type` of 1 counts in
/// favor, anything else against.  Returns the vote record.  The
/// affected tally must have room for the credits; the unchecked
/// addition this models would abort otherwise.
pub fn cast(proposal: &mut Proposal, voter: u64, vote_credits: u64, vote_type: u8, bump: u8) -> (v:
    Vote)
    requires
        vote_type == 1 ==> old(proposal).yes_vote_count + vote_credits <= u64::MAX,
        vote_type != 1 ==> old(proposal).no_vote_count + vote_credits <= u64::MAX,
    ensures
        v == (Vote { authority: voter, vote_credits, vote_type, bump }),
        vote_type == 1 ==> *final(proposal) == (Proposal {
            yes_vote_count: (old(proposal).yes_vote_count + vote_credits) as u64,
            ..*old(proposal)
        }),
        vote_type != 1 ==> *final(proposal) == (Proposal {
            no_vote_count: (old(proposal).no_vote_count + vote_credits) as u64,
            ..*old(proposal)
        }),
{
    if vote_type == 1 {
        proposal.yes_vote_count = proposal.yes_vote_count + vote_credits;
    } else {
        proposal.no_vote_count = proposal.no_vote_count + vote_credits;
    }
    Vote { authority: voter, vote_credits, vote_type, bump }
}

} // verus!
