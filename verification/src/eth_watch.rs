//! The settlement-chain watcher's verified core: resolving the
//! priority-request event topic, building the log filter for a block
//! range, and decoding fetched event logs into typed priority operations.
//!
//! Fetching the logs themselves is network work and lives outside the
//! library; it hands raw logs in as plain [`EventLog`] values.
//!
//! The wire format decoded here: an event's data section carries, in the
//! contract ABI's encoding, the sender address, the 64-bit serial id, the
//! operation pubdata as a dynamic byte string, and the 256-bit expiration
//! block. The pubdata opens with an opcode byte; a deposit is followed by
//! a 4-byte account id, a 4-byte token id, a 16-byte amount and the
//! 20-byte recipient address, a full exit by a 4-byte account id, the
//! 20-byte owner address and a 4-byte token id, all big-endian.

use vstd::prelude::*;
use crate::byteops::{
    all_zero, be_bytes, be_value, copy_bytes, copy_range, lemma_be_bytes_value, lemma_be_max_small,
    lemma_be_value_bound, range_is_zero, read_be, zero_bytes,
};
use crate::ops::{
    Deposit, DepositV, FullExit, FullExitV, PriorityOp, PriorityOpV, ZkSyncPriorityOp,
    ZkSyncPriorityOpV, DEPOSIT_OP_CODE, FULL_EXIT_OP_CODE,
};

verus! {

/// A fetched log cannot be parsed as a priority operation: an ABI mismatch
/// or a corrupted source, fatal for the whole fetch.
#[derive(Debug, PartialEq, Eq, Structural, Clone, Copy)]
pub enum DecodeError {
    MalformedLog,
}

/// One raw event log as the settlement chain reports it, reduced to plain
/// values: emitting address, topics, data section, and — absent only for
/// pending entries — the carrying transaction's hash and block height.
#[derive(Debug)]
pub struct EventLog {
    pub address: Vec<u8>,
    pub topics: Vec<Vec<u8>>,
    pub data: Vec<u8>,
    pub transaction_hash: Option<Vec<u8>>,
    pub block_number: Option<u64>,
}

/// Spec-level image of an [`EventLog`].
pub ghost struct EventLogV {
    pub address: Seq<u8>,
    pub topics: Seq<Seq<u8>>,
    pub data: Seq<u8>,
    pub transaction_hash: Option<Seq<u8>>,
    pub block_number: Option<u64>,
}

impl View for EventLog {
    type V = EventLogV;

    open spec fn view(&self) -> EventLogV {
        EventLogV {
            address: self.address@,
            topics: self.topics.deep_view(),
            data: self.data@,
            transaction_hash: match self.transaction_hash {
                Option::Some(h) => Option::Some(h@),
                Option::None => Option::None,
            },
            block_number: self.block_number,
        }
    }
}

/// What the data section of a priority-request event holds, when well
/// formed: the serial id, the operation pubdata, and the expiration block.
///
/// The section is four 32-byte head words — sender address, serial id,
/// offset of the pubdata, expiration block — followed at that offset by the
/// pubdata's 32-byte length and its bytes. Values that must fit 64 bits
/// are rejected otherwise.
pub open spec fn spec_parse_event_data(d: Seq<u8>) -> Option<(u64, Seq<u8>, u64)> {
    if d.len() < 128 {
        None
    } else if !all_zero(d.subrange(32, 56)) {
        None
    } else if !all_zero(d.subrange(64, 88)) {
        None
    } else if !all_zero(d.subrange(96, 120)) {
        None
    } else {
        let serial = be_value(d.subrange(56, 64)) as u64;
        let off = be_value(d.subrange(88, 96)) as int;
        let deadline = be_value(d.subrange(120, 128)) as u64;
        if off + 32 > d.len() {
            None
        } else if !all_zero(d.subrange(off, off + 24)) {
            None
        } else {
            let l = be_value(d.subrange(off + 24, off + 32)) as int;
            if off + 32 + l > d.len() {
                None
            } else {
                Some((serial, d.subrange(off + 32, off + 32 + l), deadline))
            }
        }
    }
}

/// What a pubdata byte string denotes, when well formed: the opcode byte
/// picks the operation, the fixed-width fields follow, and nothing may
/// trail them. A deposit's sender is not on the wire; it reads as the zero
/// address.
pub open spec fn spec_parse_pubdata(d: Seq<u8>) -> Option<ZkSyncPriorityOpV> {
    if d.len() == 0 {
        None
    } else if d[0] == DEPOSIT_OP_CODE {
        if d.len() != 45 {
            None
        } else {
            Some(
                ZkSyncPriorityOpV::Deposit(
                    DepositV {
                        from: Seq::new(20, |i: int| 0u8),
                        token: be_value(d.subrange(5, 9)) as u32,
                        amount: be_value(d.subrange(9, 25)) as u128,
                        to: d.subrange(25, 45),
                    },
                ),
            )
        }
    } else if d[0] == FULL_EXIT_OP_CODE {
        if d.len() != 29 {
            None
        } else {
            Some(
                ZkSyncPriorityOpV::FullExit(
                    FullExitV {
                        account_id: be_value(d.subrange(1, 5)) as u32,
                        eth_address: d.subrange(5, 25),
                        token: be_value(d.subrange(25, 29)) as u32,
                    },
                ),
            )
        }
    } else {
        None
    }
}

/// What one raw log denotes, when well formed: its data section parsed as
/// a priority request, stamped with the carrying transaction's hash and
/// block height, which must both be present.
pub open spec fn spec_parse_priority_op(log: EventLogV) -> Option<PriorityOpV> {
    match (log.transaction_hash, log.block_number) {
        (Option::Some(h), Option::Some(b)) => match spec_parse_event_data(log.data) {
            Option::Some(parts) => match spec_parse_pubdata(parts.1) {
                Option::Some(op) => Some(
                    PriorityOpV {
                        serial_id: parts.0,
                        data: op,
                        deadline_block: parts.2,
                        eth_hash: h,
                        eth_block: b,
                    },
                ),
                Option::None => None,
            },
            Option::None => None,
        },
        _ => None,
    }
}

/// What a whole fetched batch denotes: every log parsed, in the order the
/// chain reported them — or nothing, as soon as any single log is
/// malformed.
pub open spec fn spec_decode_all(logs: Seq<EventLog>) -> Option<Seq<PriorityOpV>>
    decreases logs.len(),
{
    if logs.len() == 0 {
        Some(Seq::empty())
    } else {
        match (spec_decode_all(logs.drop_last()), spec_parse_priority_op(logs.last()@)) {
            (Option::Some(s), Option::Some(op)) => Some(s.push(op)),
            _ => None,
        }
    }
}

/// One malformed log poisons the whole batch.
pub proof fn lemma_decode_all_fails(logs: Seq<EventLog>, i: int)
    requires
        0 <= i < logs.len(),
        spec_parse_priority_op(logs[i]@) is None,
    ensures
        spec_decode_all(logs) is None,
    decreases logs.len(),
{
    if i < logs.len() - 1 {
        lemma_decode_all_fails(logs.drop_last(), i);
    }
}

/// Decoding is deterministic: two successful decodings of the same log
/// sequence yield the same operation sequence, so re-querying an unchanged
/// block range returns identical operations in identical order.
pub proof fn lemma_decode_deterministic(
    logs: Seq<EventLog>,
    ops1: Seq<PriorityOpV>,
    ops2: Seq<PriorityOpV>,
)
    requires
        spec_decode_all(logs) == Some(ops1),
        spec_decode_all(logs) == Some(ops2),
    ensures
        ops1 == ops2,
{
}

/// The canonical pubdata of a full exit: the opcode, then account id,
/// owner address and token id.
pub open spec fn spec_encode_full_exit_pubdata(fe: FullExitV) -> Seq<u8> {
    seq![FULL_EXIT_OP_CODE] + be_bytes(fe.account_id as nat, 4) + fe.eth_address + be_bytes(
        fe.token as nat,
        4,
    )
}

/// The canonical pubdata of a deposit: the opcode, then account id (zero
/// until the rollup assigns one), token id, amount and recipient address.
pub open spec fn spec_encode_deposit_pubdata(dep: DepositV) -> Seq<u8> {
    seq![DEPOSIT_OP_CODE] + be_bytes(0, 4) + be_bytes(dep.token as nat, 4) + be_bytes(
        dep.amount as nat,
        16,
    ) + dep.to
}

/// A 32-byte head word holding a 64-bit value.
pub open spec fn spec_word_u64(v: u64) -> Seq<u8> {
    Seq::new(24, |i: int| 0u8) + be_bytes(v as nat, 8)
}

/// The canonical data section of a priority-request event: the four head
/// words — padded sender, serial id, offset of the byte payload, expiration
/// block — then the payload's length word and its bytes.
pub open spec fn spec_encode_event_data(
    sender: Seq<u8>,
    serial_id: u64,
    pubdata: Seq<u8>,
    deadline: u64,
) -> Seq<u8> {
    Seq::new(12, |i: int| 0u8) + sender + spec_word_u64(serial_id) + spec_word_u64(128)
        + spec_word_u64(deadline) + spec_word_u64(pubdata.len() as u64) + pubdata
}

/// Parsing inverts encoding: canonical full-exit pubdata decodes to
/// exactly the operation it was built from.
pub proof fn lemma_full_exit_pubdata_round_trip(fe: FullExitV)
    requires
        fe.eth_address.len() == 20,
    ensures
        spec_parse_pubdata(spec_encode_full_exit_pubdata(fe)) == Some(
            ZkSyncPriorityOpV::FullExit(fe),
        ),
{
    let d = spec_encode_full_exit_pubdata(fe);
    lemma_be_max_small();
    lemma_be_bytes_value(fe.account_id as nat, 4);
    lemma_be_bytes_value(fe.token as nat, 4);
    assert(d.len() == 29);
    assert(d[0] == FULL_EXIT_OP_CODE);
    assert(d.subrange(1, 5) =~= be_bytes(fe.account_id as nat, 4));
    assert(d.subrange(5, 25) =~= fe.eth_address);
    assert(d.subrange(25, 29) =~= be_bytes(fe.token as nat, 4));
}

/// Parsing inverts encoding for deposits; the sender is not on the wire,
/// so it must read as the zero address.
pub proof fn lemma_deposit_pubdata_round_trip(dep: DepositV)
    requires
        dep.to.len() == 20,
        dep.from == Seq::new(20, |i: int| 0u8),
    ensures
        spec_parse_pubdata(spec_encode_deposit_pubdata(dep)) == Some(
            ZkSyncPriorityOpV::Deposit(dep),
        ),
{
    let d = spec_encode_deposit_pubdata(dep);
    lemma_be_max_small();
    lemma_be_bytes_value(0, 4);
    lemma_be_bytes_value(dep.token as nat, 4);
    lemma_be_bytes_value(dep.amount as nat, 16);
    assert(d.len() == 45);
    assert(d[0] == DEPOSIT_OP_CODE);
    assert(d.subrange(5, 9) =~= be_bytes(dep.token as nat, 4));
    assert(d.subrange(9, 25) =~= be_bytes(dep.amount as nat, 16));
    assert(d.subrange(25, 45) =~= dep.to);
}

/// Parsing inverts encoding at the event level: a canonical data section
/// yields exactly the serial id, payload and expiration block it carries.
pub proof fn lemma_event_data_round_trip(
    sender: Seq<u8>,
    serial_id: u64,
    pubdata: Seq<u8>,
    deadline: u64,
)
    requires
        sender.len() == 20,
        pubdata.len() < 0x10000000000000000,
    ensures
        spec_parse_event_data(spec_encode_event_data(sender, serial_id, pubdata, deadline))
            == Some((serial_id, pubdata, deadline)),
{
    let d = spec_encode_event_data(sender, serial_id, pubdata, deadline);
    lemma_be_max_small();
    lemma_be_bytes_value(serial_id as nat, 8);
    lemma_be_bytes_value(128, 8);
    lemma_be_bytes_value(deadline as nat, 8);
    lemma_be_bytes_value(pubdata.len() as nat, 8);
    assert(d.len() == 160 + pubdata.len());
    assert(d.subrange(32, 56) =~= Seq::new(24, |i: int| 0u8));
    assert(d.subrange(56, 64) =~= be_bytes(serial_id as nat, 8));
    assert(d.subrange(64, 88) =~= Seq::new(24, |i: int| 0u8));
    assert(d.subrange(88, 96) =~= be_bytes(128, 8));
    assert(d.subrange(96, 120) =~= Seq::new(24, |i: int| 0u8));
    assert(d.subrange(120, 128) =~= be_bytes(deadline as nat, 8));
    assert(d.subrange(128, 152) =~= Seq::new(24, |i: int| 0u8));
    assert(d.subrange(152, 160) =~= be_bytes(pubdata.len() as nat, 8));
    assert(d.subrange(160, 160 + pubdata.len() as int) =~= pubdata);
}

/// The round trips composed: a priority-request log whose data section is
/// the canonical encoding of a full exit decodes to exactly that full
/// exit, stamped with the log's transaction hash and block height.
pub proof fn lemma_full_exit_log_round_trip(
    fe: FullExitV,
    sender: Seq<u8>,
    serial_id: u64,
    deadline: u64,
    log: EventLogV,
)
    requires
        fe.eth_address.len() == 20,
        sender.len() == 20,
        log.data == spec_encode_event_data(
            sender,
            serial_id,
            spec_encode_full_exit_pubdata(fe),
            deadline,
        ),
        log.transaction_hash is Some,
        log.block_number is Some,
    ensures
        spec_parse_priority_op(log) == Some(
            PriorityOpV {
                serial_id,
                data: ZkSyncPriorityOpV::FullExit(fe),
                deadline_block: deadline,
                eth_hash: log.transaction_hash->Some_0,
                eth_block: log.block_number->Some_0,
            },
        ),
{
    lemma_full_exit_pubdata_round_trip(fe);
    lemma_event_data_round_trip(sender, serial_id, spec_encode_full_exit_pubdata(fe), deadline);
}

/// Parses the ABI-encoded data section of a priority-request event.
pub fn parse_event_data(d: &Vec<u8>) -> (r: Result<(u64, Vec<u8>, u64), DecodeError>)
    ensures
        r matches Ok(parts) ==> spec_parse_event_data(d@) == Some((parts.0, parts.1@, parts.2)),
        r is Err ==> spec_parse_event_data(d@) is None,
{
    let n: usize = d.len();
    if n < 128 {
        return Err(DecodeError::MalformedLog);
    }
    if !range_is_zero(d, 32, 56) {
        return Err(DecodeError::MalformedLog);
    }
    if !range_is_zero(d, 64, 88) {
        return Err(DecodeError::MalformedLog);
    }
    if !range_is_zero(d, 96, 120) {
        return Err(DecodeError::MalformedLog);
    }
    let serial128 = read_be(d, 56, 8);
    let off128 = read_be(d, 88, 8);
    let deadline128 = read_be(d, 120, 8);
    proof {
        lemma_be_max_small();
        lemma_be_value_bound(d@.subrange(56, 64));
        lemma_be_value_bound(d@.subrange(88, 96));
        lemma_be_value_bound(d@.subrange(120, 128));
    }
    let serial = serial128 as u64;
    let off64 = off128 as u64;
    let deadline = deadline128 as u64;
    let n64 = n as u64;
    if off64 > n64 || n64 - off64 < 32 {
        return Err(DecodeError::MalformedLog);
    }
    let off = off64 as usize;
    if !range_is_zero(d, off, off + 24) {
        return Err(DecodeError::MalformedLog);
    }
    let l128 = read_be(d, off + 24, 8);
    proof {
        lemma_be_value_bound(d@.subrange(off as int + 24, off as int + 32));
    }
    let l64 = l128 as u64;
    if l64 > n64 - off64 - 32 {
        return Err(DecodeError::MalformedLog);
    }
    let l = l64 as usize;
    let pubdata = copy_range(d, off + 32, off + 32 + l);
    Ok((serial, pubdata, deadline))
}

/// Parses one operation pubdata byte string.
pub fn parse_priority_queue_pubdata(d: &Vec<u8>) -> (r: Result<ZkSyncPriorityOp, DecodeError>)
    ensures
        r matches Ok(op) ==> spec_parse_pubdata(d@) == Some(op@),
        r is Err ==> spec_parse_pubdata(d@) is None,
{
    let n: usize = d.len();
    if n == 0 {
        return Err(DecodeError::MalformedLog);
    }
    let opcode = d[0];
    proof {
        lemma_be_max_small();
    }
    if opcode == DEPOSIT_OP_CODE {
        if n != 45 {
            return Err(DecodeError::MalformedLog);
        }
        proof {
            lemma_be_value_bound(d@.subrange(5, 9));
        }
        let token = read_be(d, 5, 4) as u32;
        let amount = read_be(d, 9, 16);
        let to = copy_range(d, 25, 45);
        let from = zero_bytes(20);
        Ok(ZkSyncPriorityOp::Deposit(Deposit { from, token, amount, to }))
    } else if opcode == FULL_EXIT_OP_CODE {
        if n != 29 {
            return Err(DecodeError::MalformedLog);
        }
        proof {
            lemma_be_value_bound(d@.subrange(1, 5));
            lemma_be_value_bound(d@.subrange(25, 29));
        }
        let account_id = read_be(d, 1, 4) as u32;
        let eth_address = copy_range(d, 5, 25);
        let token = read_be(d, 25, 4) as u32;
        Ok(ZkSyncPriorityOp::FullExit(FullExit { account_id, eth_address, token }))
    } else {
        Err(DecodeError::MalformedLog)
    }
}

/// Parses one raw log into a typed priority operation.
pub fn parse_priority_op(log: &EventLog) -> (r: Result<PriorityOp, DecodeError>)
    ensures
        r matches Ok(op) ==> spec_parse_priority_op(log@) == Some(op@),
        r is Err ==> spec_parse_priority_op(log@) is None,
{
    let eth_hash = match &log.transaction_hash {
        Some(h) => copy_bytes(h),
        None => {
            return Err(DecodeError::MalformedLog);
        },
    };
    let eth_block = match &log.block_number {
        Some(b) => *b,
        None => {
            return Err(DecodeError::MalformedLog);
        },
    };
    let parts = match parse_event_data(&log.data) {
        Ok(p) => p,
        Err(e) => {
            return Err(e);
        },
    };
    let (serial_id, pubdata, deadline_block) = parts;
    let data = match parse_priority_queue_pubdata(&pubdata) {
        Ok(op) => op,
        Err(e) => {
            return Err(e);
        },
    };
    Ok(PriorityOp { serial_id, data, deadline_block, eth_hash, eth_block })
}

/// Decodes a fetched batch of raw logs into priority operations, in the
/// order given. Any single malformed log fails the whole call: an
/// append-only trusted log must never be silently thinned.
pub fn decode_priority_op_events(logs: &Vec<EventLog>) -> (r: Result<Vec<PriorityOp>, DecodeError>)
    ensures
        r is Ok <==> spec_decode_all(logs@) is Some,
        r matches Ok(ops) ==> {
            let s = spec_decode_all(logs@)->Some_0;
            &&& ops@.len() == s.len()
            &&& forall|i: int| 0 <= i < s.len() ==> ops@[i]@ == s[i]
        },
{
    let mut ops: Vec<PriorityOp> = Vec::new();
    let mut i: usize = 0;
    let n: usize = logs.len();
    proof {
        assert(logs@.subrange(0, 0) =~= Seq::<EventLog>::empty());
    }
    while i < n
        invariant
            i <= n,
            n == logs@.len(),
            spec_decode_all(logs@.subrange(0, i as int)) is Some,
            ops@.len() == spec_decode_all(logs@.subrange(0, i as int))->Some_0.len(),
            forall|j: int|
                0 <= j < ops@.len() ==> ops@[j]@ == spec_decode_all(
                    logs@.subrange(0, i as int),
                )->Some_0[j],
        decreases n - i,
    {
        let ghost prefix = logs@.subrange(0, i as int);
        let op = match parse_priority_op(&logs[i]) {
            Ok(op) => op,
            Err(e) => {
                proof {
                    lemma_decode_all_fails(logs@, i as int);
                }
                return Err(e);
            },
        };
        ops.push(op);
        i = i + 1;
        proof {
            let prefix1 = logs@.subrange(0, i as int);
            assert(prefix1.drop_last() =~= prefix);
            assert(prefix1.last() == logs@[i - 1]);
        }
    }
    proof {
        assert(logs@.subrange(0, n as int) =~= logs@);
    }
    Ok(ops)
}

/// The resolved binary topics of the contract events the watcher filters
/// for.
pub struct ContractTopics {
    pub new_priority_request: Vec<u8>,
}

/// The signature topic an interface description resolves an event name
/// to: the keccak hash of the event's canonical signature, a function of
/// the description and the name alone; nothing when the description has
/// no event of that name.
pub uninterp spec fn abi_event_signature(contract: &ethabi::Contract, name: Seq<char>) -> Option<
    Seq<u8>,
>;

/// Relies on `ethabi::Contract::event` and `ethabi::Event::signature`:
/// looks up the first event with the given name in the interface
/// description and returns its 32-byte signature topic —
/// [`abi_event_signature`], a deterministic digest of the event's
/// canonical form — or nothing exactly when the interface has no such
/// event.
#[verifier::external_body]
fn lookup_event_signature(contract: &ethabi::Contract, name: &str) -> (r: Option<Vec<u8>>)
    ensures
        r is Some <==> abi_event_signature(contract, name@) is Some,
        r matches Some(topic) ==> Some(topic@) == abi_event_signature(contract, name@),
        r matches Some(topic) ==> topic@.len() == 32,
{
    match contract.event(name) {
        Ok(event) => Some(event.signature().0.to_vec()),
        Err(_) => None,
    }
}

/// The contract interface description, held opaquely.
#[verifier::external_type_specification]
#[verifier::external_body]
pub struct ExContract(ethabi::Contract);

impl ContractTopics {
    /// Resolves the priority-request event's topic from the contract's
    /// interface description, once, at startup. `None` exactly when the
    /// interface lacks the event: a build-time contract mismatch the
    /// process must not start over, never a runtime condition to recover
    /// from.
    pub fn new(contract: &ethabi::Contract) -> (r: Option<ContractTopics>)
        ensures
            r is Some <==> abi_event_signature(contract, "NewPriorityRequest"@) is Some,
            r matches Some(t) ==> Some(t.new_priority_request@) == abi_event_signature(
                contract,
                "NewPriorityRequest"@,
            ),
            r matches Some(t) ==> t.new_priority_request@.len() == 32,
    {
        match lookup_event_signature(contract, "NewPriorityRequest") {
            Some(topic) => Some(ContractTopics { new_priority_request: topic }),
            None => None,
        }
    }
}

/// A block reference in the chain's native form: a concrete height or a
/// symbolic tag.
#[derive(Debug, PartialEq, Eq, Structural, Clone, Copy)]
pub enum BlockRef {
    Number(u64),
    Earliest,
    Latest,
    Pending,
}

/// The parameters of one log query: a single emitting address, a single
/// required first topic, and an inclusive block range.
#[derive(Debug)]
pub struct LogFilter {
    pub address: Vec<u8>,
    pub topic0: Vec<u8>,
    pub from_block: BlockRef,
    pub to_block: BlockRef,
}

/// The verified core of the watcher: the rollup contract's address and its
/// resolved event topics. The network client around it builds its queries
/// from [`Self::priority_op_filter`] and hands fetched logs to
/// [`decode_priority_op_events`].
pub struct EthWatchCore {
    pub contract_address: Vec<u8>,
    pub topics: ContractTopics,
}

impl EthWatchCore {
    /// Sets the watcher up for one rollup contract, resolving its event
    /// topics from the interface description; fails fast exactly when the
    /// interface lacks the priority-request event.
    pub fn new(contract_address: Vec<u8>, contract: &ethabi::Contract) -> (r: Option<EthWatchCore>)
        ensures
            r is Some <==> abi_event_signature(contract, "NewPriorityRequest"@) is Some,
            r matches Some(core) ==> core.contract_address@ == contract_address@ && Some(
                core.topics.new_priority_request@,
            ) == abi_event_signature(contract, "NewPriorityRequest"@)
                && core.topics.new_priority_request@.len() == 32,
    {
        match ContractTopics::new(contract) {
            Some(topics) => Some(EthWatchCore { contract_address, topics }),
            None => None,
        }
    }

    /// The filter a priority-operation query uses: scoped to the rollup
    /// contract's address and the priority-request topic, over the
    /// inclusive range `[from_block, to_block]`.
    pub fn priority_op_filter(&self, from_block: BlockRef, to_block: BlockRef) -> (r: LogFilter)
        ensures
            r.address@ == self.contract_address@,
            r.topic0@ == self.topics.new_priority_request@,
            r.from_block == from_block,
            r.to_block == to_block,
    {
        LogFilter {
            address: copy_bytes(&self.contract_address),
            topic0: copy_bytes(&self.topics.new_priority_request),
            from_block,
            to_block,
        }
    }
}

} // verus!
