//! The log that a factory writes for each pool that it creates.
//!
//! The event is `PairCreated(address indexed token0, address indexed token1, address pair,
//! uint256 index)`. Its signature and the two tokens are topics, the pool and its index are
//! the data.
use vstd::prelude::*;

use crate::primitives::Address;

verus! {

/// A log entry: its topics, and its data in the contract ABI encoding.
#[derive(Debug, PartialEq, Eq)]
pub struct Log {
    pub topics: Vec<[u8; 32]>,
    pub data: Vec<u8>,
}

/// The part of a creation log that says which pool was created between which tokens.
#[derive(Clone, Copy, Debug, PartialEq, Eq)]
pub struct PairCreated {
    pub token0: Address,
    pub token1: Address,
    pub pair: Address,
}

/// Why a log is no creation log.
#[derive(Clone, Copy, Debug, PartialEq, Eq)]
pub enum LogError {
    /// There are fewer than three topics.
    TopicListLength,
    /// The first topic is not the signature of the event.
    SignatureHash,
    /// The data ends before the last parameter does.
    Overrun,
    /// The data goes on behind the last parameter.
    ReserMismatch,
    /// The word of the pool holds more than an address.
    TypeCheckFail,
}

/// The Keccak-256 hash of `PairCreated(address,address,address,uint256)`.
pub open spec fn pair_created_hash() -> Seq<u8> {
    seq![
        0x0du8, 0x36u8, 0x48u8, 0xbdu8, 0x0fu8, 0x6bu8, 0xa8u8, 0x01u8,
        0x34u8, 0xa3u8, 0x3bu8, 0xa9u8, 0x27u8, 0x5au8, 0xc5u8, 0x85u8,
        0xd9u8, 0xd3u8, 0x15u8, 0xf0u8, 0xadu8, 0x83u8, 0x55u8, 0xcdu8,
        0xdeu8, 0xfdu8, 0xe3u8, 0x1au8, 0xfau8, 0x28u8, 0xd0u8, 0xe9u8,
    ]
}

/// The Keccak-256 hash of `PairCreated(address,address,address,uint256)`, which is the first
/// topic of every creation log.
pub fn pair_created_signature() -> (r: [u8; 32])
    ensures
        r@ == pair_created_hash(),
{
    let hash: [u8; 32] = [
        0x0d, 0x36, 0x48, 0xbd, 0x0f, 0x6b, 0xa8, 0x01,
        0x34, 0xa3, 0x3b, 0xa9, 0x27, 0x5a, 0xc5, 0x85,
        0xd9, 0xd3, 0x15, 0xf0, 0xad, 0x83, 0x55, 0xcd,
        0xde, 0xfd, 0xe3, 0x1a, 0xfa, 0x28, 0xd0, 0xe9,
    ];
    assert(hash@ =~= pair_created_hash());
    hash
}

/// The address in a 32 byte word: its last 20 bytes.
pub open spec fn word_address(word: Seq<u8>) -> Seq<u8> {
    word.subrange(12, 32)
}

/// The pool in the data of a creation log: two words, of which the first is an address that
/// is padded with zeros and the second is the index.
pub open spec fn data_pair(data: Seq<u8>) -> Result<Seq<u8>, LogError> {
    if data.len() < 64 {
        Err(LogError::Overrun)
    } else if data.len() > 64 {
        Err(LogError::ReserMismatch)
    } else if exists|i: int| 0 <= i < 12 && data[i] != 0 {
        Err(LogError::TypeCheckFail)
    } else {
        Ok(word_address(data))
    }
}

/// The address of a result that holds one.
pub open spec fn address_view(result: Result<Address, LogError>) -> Result<Seq<u8>, LogError> {
    match result {
        Ok(address) => Ok(address@),
        Err(error) => Err(error),
    }
}

/// Reads the topics of a creation log.
///
/// Calls `alloy::sol_types::TopicList::detokenize` on the topic types of the event, `bytes32`,
/// `address` and `address`. It fails exactly when there are fewer than three topics. A
/// `bytes32` is the whole word, an `address` is its last 20 bytes; the first 12 bytes of
/// an `address`, and topics behind the third, are not looked at.
#[verifier::external_body]
fn detokenize_topics(topics: &Vec<[u8; 32]>) -> (r: Option<([u8; 32], Address, Address)>)
    ensures
        r is Some <==> topics@.len() >= 3,
        r is Some ==> (r->0).0 == topics@[0],
        r is Some ==> (r->0).1@ == word_address(topics@[1]@),
        r is Some ==> (r->0).2@ == word_address(topics@[2]@),
{
    let topics = <(
        alloy::sol_types::sol_data::FixedBytes<32>,
        alloy::sol_types::sol_data::Address,
        alloy::sol_types::sol_data::Address,
    ) as alloy::sol_types::TopicList>::detokenize(topics.iter());
    topics.ok().map(
        |t| (t.0.0, Address { bytes: t.1.into_array() }, Address { bytes: t.2.into_array() }),
    )
}

/// Reads the pool out of the data of a creation log.
///
/// Calls `alloy::sol_types::SolType::abi_decode_sequence` on the data types of the event,
/// `address` and `uint256`, with validation. It reads two words, demands that writing them
/// again gives the data that was read, and demands that an `address` is padded with zeros.
/// Static words can be refused in no other way, so the error that remains is the last one.
#[verifier::external_body]
fn decode_data(data: &Vec<u8>) -> (r: Result<Address, LogError>)
    ensures
        address_view(r) == data_pair(data@),
{
    match <(
        alloy::sol_types::sol_data::Address,
        alloy::sol_types::sol_data::Uint<256>,
    ) as alloy::sol_types::SolType>::abi_decode_sequence(data, true) {
        Ok(body) => Ok(Address { bytes: body.0.into_array() }),
        Err(alloy::sol_types::Error::Overrun) => Err(LogError::Overrun),
        Err(alloy::sol_types::Error::ReserMismatch) => Err(LogError::ReserMismatch),
        Err(_) => Err(LogError::TypeCheckFail),
    }
}

/// Whether two words are the same.
fn same_word(a: &[u8; 32], b: &[u8; 32]) -> (r: bool)
    ensures
        r == (a@ == b@),
{
    let mut i: usize = 0;
    while i < 32
        invariant
            i <= 32,
            forall|j: int| 0 <= j < i ==> a@[j] == b@[j],
        decreases 32 - i,
    {
        if a[i] != b[i] {
            return false;
        }
        i = i + 1;
    }
    assert(a@ =~= b@);
    true
}

/// What a creation log says.
pub struct PairCreatedView {
    pub token0: Seq<u8>,
    pub token1: Seq<u8>,
    pub pair: Seq<u8>,
}

impl View for PairCreated {
    type V = PairCreatedView;

    open spec fn view(&self) -> PairCreatedView {
        PairCreatedView { token0: self.token0@, token1: self.token1@, pair: self.pair@ }
    }
}

/// What a log with these topics and this data says, or why it is no creation log. The topics
/// are judged before the data.
pub open spec fn pair_created(topics: Seq<[u8; 32]>, data: Seq<u8>) -> Result<
    PairCreatedView,
    LogError,
> {
    if topics.len() < 3 {
        Err(LogError::TopicListLength)
    } else if topics[0]@ != pair_created_hash() {
        Err(LogError::SignatureHash)
    } else {
        match data_pair(data) {
            Ok(pair) => Ok(
                PairCreatedView {
                    token0: word_address(topics[1]@),
                    token1: word_address(topics[2]@),
                    pair,
                },
            ),
            Err(error) => Err(error),
        }
    }
}

/// Only creation logs are read: a log is read exactly when it has three topics or more, the
/// first of which is the signature of the event, and 64 bytes of data, the first twelve of
/// which are zero. What is read are the last twenty bytes of the second topic, of the third
/// topic and of the first word of the data.
pub proof fn law_only_creation_logs_are_read(topics: Seq<[u8; 32]>, data: Seq<u8>)
    ensures
        pair_created(topics, data) is Ok <==> {
            &&& topics.len() >= 3
            &&& topics[0]@ == pair_created_hash()
            &&& data.len() == 64
            &&& forall|i: int| 0 <= i < 12 ==> data[i] == 0
        },
        pair_created(topics, data) matches Ok(event) ==> {
            &&& event.token0 == topics[1]@.subrange(12, 32)
            &&& event.token1 == topics[2]@.subrange(12, 32)
            &&& event.pair == data.subrange(12, 32)
        },
{
}

/// Why a log is refused: for its number of topics before anything else, then for a first topic
/// that is another word, however many topics there are, then for the length of its data, and
/// then for a word of the pool that holds more than an address.
pub proof fn law_logs_are_refused_for_the_first_thing_wrong(
    topics: Seq<[u8; 32]>,
    data: Seq<u8>,
)
    ensures
        topics.len() < 3 <==> pair_created(topics, data) == Err::<PairCreatedView, LogError>(
            LogError::TopicListLength,
        ),
        topics.len() >= 3 && topics[0]@ != pair_created_hash() <==> pair_created(topics, data)
            == Err::<PairCreatedView, LogError>(LogError::SignatureHash),
        topics.len() >= 3 && topics[0]@ == pair_created_hash() ==> {
            &&& data.len() < 64 <==> pair_created(topics, data) == Err::<PairCreatedView, LogError>(
                LogError::Overrun,
            )
            &&& data.len() > 64 <==> pair_created(topics, data) == Err::<PairCreatedView, LogError>(
                LogError::ReserMismatch,
            )
            &&& (data.len() == 64 && exists|i: int| 0 <= i < 12 && data[i] != 0)
                <==> pair_created(topics, data) == Err::<PairCreatedView, LogError>(
                LogError::TypeCheckFail,
            )
        },
{
}

/// An address in a word of its own: padded with zeros in front.
pub open spec fn address_word(address: Seq<u8>) -> Seq<u8> {
    Seq::new(12, |i: int| 0u8) + address
}

/// The log of a pool's creation says what it was written for: the tokens, padded to words,
/// are read back out of the topics, and the pool out of data that also holds its index. Any
/// further topics change nothing.
pub proof fn law_written_event_is_read_back(
    event: PairCreatedView,
    index: Seq<u8>,
    topics: Seq<[u8; 32]>,
    data: Seq<u8>,
)
    requires
        event.token0.len() == 20,
        event.token1.len() == 20,
        event.pair.len() == 20,
        index.len() == 32,
        topics.len() >= 3,
        topics[0]@ == pair_created_hash(),
        topics[1]@ == address_word(event.token0),
        topics[2]@ == address_word(event.token1),
        data == address_word(event.pair) + index,
    ensures
        pair_created(topics, data) == Ok::<PairCreatedView, LogError>(event),
{
    assert(word_address(address_word(event.token0)) =~= event.token0);
    assert(word_address(address_word(event.token1)) =~= event.token1);
    assert(word_address(data) =~= event.pair);
}

/// Reads a creation log.
pub fn decode_pair_created(log: &Log) -> (r: Result<PairCreated, LogError>)
    ensures
        match r {
            Ok(event) => pair_created(log.topics@, log.data@) == Ok::<_, LogError>(event@),
            Err(error) => pair_created(log.topics@, log.data@) == Err::<PairCreatedView, _>(error),
        },
        r is Ok <==> {
            &&& log.topics@.len() >= 3
            &&& log.topics@[0]@ == pair_created_hash()
            &&& log.data@.len() == 64
            &&& forall|i: int| 0 <= i < 12 ==> log.data@[i] == 0
        },
        r matches Ok(event) ==> {
            &&& event.token0.bytes@ == log.topics@[1]@.subrange(12, 32)
            &&& event.token1.bytes@ == log.topics@[2]@.subrange(12, 32)
            &&& event.pair.bytes@ == log.data@.subrange(12, 32)
        },
{
    match detokenize_topics(&log.topics) {
        None => Err(LogError::TopicListLength),
        Some((signature, token0, token1)) => {
            if !same_word(&signature, &pair_created_signature()) {
                return Err(LogError::SignatureHash);
            }
            match decode_data(&log.data) {
                Ok(pair) => Ok(PairCreated { token0, token1, pair }),
                Err(error) => Err(error),
            }
        },
    }
}

} // verus!
