//! Proposals of commands to the replicated state machine, alone or in
//! batches, with the metadata that identifies and orders them.

use vstd::prelude::*;
use crate::cluster_api::{is_uuid_text, new_uuid_text};
use crate::raft::kv_example::utc_now_ms;

verus! {

/// Metadata of a proposal.
#[derive(Debug, Clone)]
pub struct ProposalMetadata {
    /// Unique id of the proposal
    pub proposal_id: String,
    /// When the proposal was made, in milliseconds since the Unix epoch (UTC)
    pub timestamp_ms: i64,
    /// Who made the proposal
    pub originator: Option<String>,
    /// Id correlating the proposal with others
    pub correlation_id: Option<String>,
    /// Priority, higher first
    pub priority: u8,
}

/// Fresh metadata: a random id, no originator or correlation, priority 0.
pub open spec fn is_fresh_metadata(m: ProposalMetadata) -> bool {
    &&& is_uuid_text(m.proposal_id@)
    &&& m.originator is None
    &&& m.correlation_id is None
    &&& m.priority == 0
}

impl Default for ProposalMetadata {
    fn default() -> (r: Self)
        ensures
            is_fresh_metadata(r),
    {
        ProposalMetadata {
            proposal_id: new_uuid_text(),
            timestamp_ms: utc_now_ms(),
            originator: None,
            correlation_id: None,
            priority: 0,
        }
    }
}

/// A command proposed for replication, with its metadata.
#[derive(Debug, Clone)]
pub struct GenericProposal<C> {
    /// The command
    pub command: C,
    /// Its metadata
    pub metadata: ProposalMetadata,
}

impl<C> GenericProposal<C> {
    /// A proposal of a command with fresh metadata.
    pub fn new(command: C) -> (r: Self)
        ensures
            r.command == command,
            is_fresh_metadata(r.metadata),
    {
        GenericProposal { command, metadata: ProposalMetadata::default() }
    }

    /// A proposal of a command with the given metadata.
    pub fn with_metadata(command: C, metadata: ProposalMetadata) -> (r: Self)
        ensures
            r.command == command,
            r.metadata == metadata,
    {
        GenericProposal { command, metadata }
    }

    /// The proposal with its originator set.
    pub fn with_originator(self, originator: String) -> (r: Self)
        ensures
            r.command == self.command,
            r.metadata == (ProposalMetadata { originator: Some(originator), ..self.metadata }),
    {
        let mut p = self;
        p.metadata.originator = Some(originator);
        p
    }

    /// The proposal with its correlation id set.
    pub fn with_correlation_id(self, correlation_id: String) -> (r: Self)
        ensures
            r.command == self.command,
            r.metadata == (ProposalMetadata { correlation_id: Some(correlation_id), ..self.metadata }),
    {
        let mut p = self;
        p.metadata.correlation_id = Some(correlation_id);
        p
    }

    /// The proposal with its priority set.
    pub fn with_priority(self, priority: u8) -> (r: Self)
        ensures
            r.command == self.command,
            r.metadata == (ProposalMetadata { priority, ..self.metadata }),
    {
        let mut p = self;
        p.metadata.priority = priority;
        p
    }
}

/// Proposals submitted together, in order.
#[derive(Debug, Clone)]
pub struct BatchProposal<C> {
    /// The proposals, in order
    pub proposals: Vec<GenericProposal<C>>,
    /// Metadata of the batch
    pub batch_metadata: ProposalMetadata,
}

impl<C> BatchProposal<C> {
    /// A batch of the given proposals with fresh metadata.
    pub fn new(proposals: Vec<GenericProposal<C>>) -> (r: Self)
        ensures
            r.proposals@ == proposals@,
            is_fresh_metadata(r.batch_metadata),
    {
        BatchProposal { proposals, batch_metadata: ProposalMetadata::default() }
    }

    /// An empty batch with fresh metadata.
    pub fn empty() -> (r: Self)
        ensures
            r.proposals@.len() == 0,
            is_fresh_metadata(r.batch_metadata),
    {
        BatchProposal { proposals: Vec::new(), batch_metadata: ProposalMetadata::default() }
    }

    /// The batch with one more proposal at its end.
    pub fn add_proposal(self, proposal: GenericProposal<C>) -> (r: Self)
        ensures
            r.proposals@ == self.proposals@.push(proposal),
            r.batch_metadata == self.batch_metadata,
    {
        let mut b = self;
        b.proposals.push(proposal);
        b
    }

    /// The batch with more proposals at its end, in their order.
    pub fn add_proposals(self, proposals: Vec<GenericProposal<C>>) -> (r: Self)
        ensures
            r.proposals@ == self.proposals@ + proposals@,
            r.batch_metadata == self.batch_metadata,
    {
        let mut b = self;
        let mut more = proposals;
        b.proposals.append(&mut more);
        b
    }

    /// The number of proposals.
    pub fn len(&self) -> (r: usize)
        ensures
            r == self.proposals@.len(),
    {
        self.proposals.len()
    }

    /// Whether the batch holds no proposal.
    pub fn is_empty(&self) -> (r: bool)
        ensures
            r == (self.proposals@.len() == 0),
    {
        self.proposals.len() == 0
    }
}

/// Builder of a batch of proposals.
pub struct BatchProposalBuilder<C> {
    proposals: Vec<GenericProposal<C>>,
    batch_metadata: ProposalMetadata,
}

impl<C> BatchProposalBuilder<C> {
    /// The proposals gathered so far.
    pub closed spec fn gathered(&self) -> Seq<GenericProposal<C>> {
        self.proposals@
    }

    /// The metadata the batch will carry.
    pub closed spec fn metadata(&self) -> ProposalMetadata {
        self.batch_metadata
    }

    /// A builder with no proposal and fresh metadata.
    pub fn new() -> (r: Self)
        ensures
            r.gathered().len() == 0,
            is_fresh_metadata(r.metadata()),
    {
        BatchProposalBuilder { proposals: Vec::new(), batch_metadata: ProposalMetadata::default() }
    }

    /// Add a proposal of a command, with fresh metadata of its own.
    pub fn add_command(self, command: C) -> (r: Self)
        ensures
            r.gathered().len() == self.gathered().len() + 1,
            r.gathered().drop_last() == self.gathered(),
            r.gathered().last().command == command,
            is_fresh_metadata(r.gathered().last().metadata),
            r.metadata() == self.metadata(),
    {
        let mut b = self;
        b.proposals.push(GenericProposal::new(command));
        b
    }

    /// Add a proposal.
    pub fn add_proposal(self, proposal: GenericProposal<C>) -> (r: Self)
        ensures
            r.gathered() == self.gathered().push(proposal),
            r.metadata() == self.metadata(),
    {
        let mut b = self;
        b.proposals.push(proposal);
        b
    }

    /// Set the originator of the batch.
    pub fn with_originator(self, originator: String) -> (r: Self)
        ensures
            r.gathered() == self.gathered(),
            r.metadata() == (ProposalMetadata { originator: Some(originator), ..self.metadata() }),
    {
        let mut b = self;
        b.batch_metadata.originator = Some(originator);
        b
    }

    /// Set the correlation id of the batch.
    pub fn with_correlation_id(self, correlation_id: String) -> (r: Self)
        ensures
            r.gathered() == self.gathered(),
            r.metadata() == (ProposalMetadata { correlation_id: Some(correlation_id), ..self.metadata() }),
    {
        let mut b = self;
        b.batch_metadata.correlation_id = Some(correlation_id);
        b
    }

    /// Set the priority of the batch.
    pub fn with_priority(self, priority: u8) -> (r: Self)
        ensures
            r.gathered() == self.gathered(),
            r.metadata() == (ProposalMetadata { priority, ..self.metadata() }),
    {
        let mut b = self;
        b.batch_metadata.priority = priority;
        b
    }

    /// The batch of the gathered proposals, in order, with the metadata set.
    pub fn build(self) -> (r: BatchProposal<C>)
        ensures
            r.proposals@ == self.gathered(),
            r.batch_metadata == self.metadata(),
    {
        BatchProposal { proposals: self.proposals, batch_metadata: self.batch_metadata }
    }
}

impl<C> Default for BatchProposalBuilder<C> {
    fn default() -> (r: Self)
        ensures
            r.gathered().len() == 0,
            is_fresh_metadata(r.metadata()),
    {
        Self::new()
    }
}

} // verus!
