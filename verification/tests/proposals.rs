use iroh_raft::raft::proposals::{BatchProposal, BatchProposalBuilder, GenericProposal};
use iroh_raft::raft::kv_example::KvCommand;

#[derive(Debug, Clone, PartialEq)]
enum TestCommand {
    Put { key: String, value: String },
    Delete { key: String },
}

#[test]
fn test_generic_proposal_creation() {
    let command = TestCommand::Put { key: "test".to_string(), value: "value".to_string() };

    let proposal = GenericProposal::new(command.clone());
    assert_eq!(proposal.metadata.priority, 0);
    assert!(proposal.metadata.originator.is_none());

    let proposal_with_originator = GenericProposal::new(command)
        .with_originator("node-1".to_string())
        .with_priority(5);

    assert_eq!(proposal_with_originator.metadata.originator, Some("node-1".to_string()));
    assert_eq!(proposal_with_originator.metadata.priority, 5);
}

#[test]
fn test_batch_proposal_builder() {
    let batch = BatchProposalBuilder::new()
        .add_command(TestCommand::Put { key: "key1".to_string(), value: "value1".to_string() })
        .add_command(TestCommand::Put { key: "key2".to_string(), value: "value2".to_string() })
        .with_originator("batch-creator".to_string())
        .build();

    assert_eq!(batch.len(), 2);
    assert!(!batch.is_empty());
    assert_eq!(batch.batch_metadata.originator, Some("batch-creator".to_string()));
}

#[test]
fn test_empty_batch() {
    let batch = BatchProposal::<TestCommand>::empty();
    assert_eq!(batch.len(), 0);
    assert!(batch.is_empty());
}

#[test]
fn test_generic_proposals() {
    let command = KvCommand::SetValue { key: "key1".to_string(), value: "value1".to_string() };

    let proposal = GenericProposal::new(command.clone())
        .with_originator("test_node".to_string())
        .with_priority(5);

    assert_eq!(proposal.metadata.priority, 5);
    assert_eq!(proposal.metadata.originator, Some("test_node".to_string()));

    let batch = BatchProposalBuilder::new()
        .add_command(command.clone())
        .add_command(KvCommand::Delete { key: "key1".to_string() })
        .with_originator("batch_creator".to_string())
        .build();

    assert_eq!(batch.len(), 2);
    assert!(!batch.is_empty());
    assert_eq!(batch.batch_metadata.originator, Some("batch_creator".to_string()));
}

#[test]
fn proposal_ids_are_uuids_and_distinct() {
    let a = GenericProposal::new(TestCommand::Delete { key: "k".to_string() });
    let b = GenericProposal::new(TestCommand::Delete { key: "k".to_string() });
    assert_eq!(a.metadata.proposal_id.len(), 36);
    assert_eq!(a.metadata.proposal_id.as_bytes()[14], b'4');
    assert_ne!(a.metadata.proposal_id, b.metadata.proposal_id);
    let batch = BatchProposal::new(vec![a]).add_proposals(vec![b]);
    assert_eq!(batch.len(), 2);
    let p = GenericProposal::new(1u8).with_correlation_id("c".to_string());
    assert_eq!(p.metadata.correlation_id, Some("c".to_string()));
}
