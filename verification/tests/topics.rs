use priority_ledger::eth_watch::{BlockRef, ContractTopics, EthWatchCore};

const ABI_WITH_EVENT: &str = r#"[
  {
    "type": "event",
    "name": "NewPriorityRequest",
    "inputs": [
      {"indexed": false, "name": "sender", "type": "address"},
      {"indexed": false, "name": "serialId", "type": "uint64"},
      {"indexed": false, "name": "pubData", "type": "bytes"},
      {"indexed": false, "name": "expirationBlock", "type": "uint256"}
    ],
    "anonymous": false
  }
]"#;

const ABI_WITHOUT_EVENT: &str = r#"[
  {
    "type": "event",
    "name": "SomethingElse",
    "inputs": [],
    "anonymous": false
  }
]"#;

#[test]
fn resolves_the_priority_request_topic() {
    let contract = ethabi::Contract::load(ABI_WITH_EVENT.as_bytes()).unwrap();
    let topics = ContractTopics::new(&contract).unwrap();
    assert_eq!(topics.new_priority_request.len(), 32);

    // The resolved topic is the event's signature hash, not anything echoed
    // back from the inputs.
    let expected = contract.event("NewPriorityRequest").unwrap().signature();
    assert_eq!(topics.new_priority_request, expected.0.to_vec());
    assert_ne!(topics.new_priority_request, vec![0u8; 32]);
}

#[test]
fn missing_event_fails_fast() {
    let contract = ethabi::Contract::load(ABI_WITHOUT_EVENT.as_bytes()).unwrap();
    assert!(ContractTopics::new(&contract).is_none());
}

#[test]
fn filter_is_scoped_to_contract_and_topic() {
    let contract = ethabi::Contract::load(ABI_WITH_EVENT.as_bytes()).unwrap();
    let core = EthWatchCore::new(vec![0x11; 20], &contract).unwrap();
    let filter = core.priority_op_filter(BlockRef::Number(10), BlockRef::Latest);

    assert_eq!(filter.address, vec![0x11; 20]);
    assert_eq!(filter.topic0, core.topics.new_priority_request);
    assert_eq!(filter.from_block, BlockRef::Number(10));
    assert_eq!(filter.to_block, BlockRef::Latest);
}
