use alloy::primitives::keccak256;
use amms::amm::uniswap_v2::factory::{PoolRequest, UniswapV2Factory};
use amms::amm::uniswap_v2::pair_batches::PairBatches;
use amms::amm::uniswap_v2::pair_created::{Log, LogError};
use amms::amm::uniswap_v2::retry::{backoff_schedule, retry_strategy, shortened, Delay};
use amms::amm::uniswap_v2::safe_pairs::{
    collect_safe_amms, read_pair_reply, PairOutcome, PairQuery, PAIR_CALL_DELAY_MILLIS,
};
use amms::amm::uniswap_v2::UniswapV2Pool;
use amms::amm::AMM;
use amms::errors::TaskError;
use amms::primitives::{Address, U256};

fn addr(byte: u8) -> Address {
    Address::new([byte; 20])
}

fn u256(value: u64) -> U256 {
    U256 { limbs: [value, 0, 0, 0] }
}

fn factory() -> UniswapV2Factory {
    UniswapV2Factory::new(addr(0xfa), 2638438, 300)
}

/// The index ranges that are asked for, with an empty reply to each request.
fn ranges(length: u64) -> Vec<(u64, u64)> {
    let mut walk = factory().get_all_pairs_via_batched_calls(u256(length));
    let count = walk.count();
    let mut out = Vec::new();
    while let Some(request) = walk.next_request() {
        assert_eq!(request.factory, addr(0xfa));
        assert_eq!(request.idx_from.limbs[1..], [0, 0, 0]);
        assert_eq!(request.idx_to.limbs[1..], [0, 0, 0]);
        out.push((request.idx_from.limbs[0], request.idx_to.limbs[0]));
        walk = walk.absorb(Vec::new());
    }
    assert_eq!(out.len(), count);
    out
}

#[test]
fn new_factory_holds_its_arguments() {
    let f = factory();
    assert_eq!(f.address(), addr(0xfa));
    assert_eq!(f.creation_block(), 2638438);
    assert_eq!(f.fee, 300);
    let d = UniswapV2Factory::default();
    assert!(d.address.is_zero());
    assert_eq!((d.creation_block, d.fee), (0, 0));
}

#[test]
fn no_pairs_means_no_request() {
    assert_eq!(ranges(0), vec![]);
}

#[test]
fn few_pairs_are_read_in_one_batch() {
    assert_eq!(ranges(1), vec![(0, 1)]);
    assert_eq!(ranges(765), vec![(0, 765)]);
    assert_eq!(ranges(766), vec![(0, 766)]);
}

#[test]
fn multiples_of_the_batch_size_are_covered() {
    assert_eq!(ranges(1532), vec![(0, 766), (766, 1532)]);
    assert_eq!(ranges(2298), vec![(0, 766), (766, 1532), (1532, 2298)]);
}

#[test]
fn last_batch_stops_one_short_of_other_lengths() {
    assert_eq!(ranges(767), vec![(0, 766), (766, 766)]);
    assert_eq!(ranges(1000), vec![(0, 766), (766, 999)]);
    assert_eq!(ranges(1533), vec![(0, 766), (766, 1532), (1532, 1532)]);
}

#[test]
fn pools_are_made_of_all_pairs_in_order() {
    let walk: PairBatches = factory().get_all_pairs_via_batched_calls(u256(1532));
    let walk = walk.absorb(vec![addr(1), addr(2)]);
    let walk = walk.absorb(vec![addr(3)]);
    assert!(walk.next_request().is_none());
    let amms = walk.finish();
    let found: Vec<UniswapV2Pool> = amms
        .into_iter()
        .map(|amm| match amm {
            AMM::UniswapV2Pool(pool) => pool,
            _ => panic!("another kind"),
        })
        .collect();
    let expected: Vec<UniswapV2Pool> = [1u8, 2, 3]
        .iter()
        .map(|b| UniswapV2Pool { address: addr(*b), ..UniswapV2Pool::default() })
        .collect();
    assert_eq!(found, expected);
}

#[test]
fn every_two_tokens_are_asked_for_once() {
    let tokens = vec![addr(1), addr(2), addr(3), addr(4)];
    let queries = factory().safe_amms(&tokens);
    let q = |a: u8, b: u8| PairQuery { factory: addr(0xfa), token_a: addr(a), token_b: addr(b) };
    assert_eq!(queries, vec![q(1, 2), q(1, 3), q(1, 4), q(2, 3), q(2, 4), q(3, 4)]);
}

#[test]
fn fewer_than_two_tokens_ask_for_nothing() {
    assert!(factory().safe_amms(&[]).is_empty());
    assert!(factory().safe_amms(&[addr(1)]).is_empty());
}

#[test]
fn equal_tokens_are_asked_for_by_position() {
    assert_eq!(factory().safe_amms(&[addr(1), addr(1), addr(1)]).len(), 3);
}

#[test]
fn zero_address_is_no_pool() {
    let reply: Result<Address, u32> = Ok(Address::zero());
    assert!(matches!(read_pair_reply(reply), Ok(None)));
}

#[test]
fn other_address_is_an_empty_pool() {
    let mut bytes = [0u8; 20];
    bytes[19] = 1;
    let reply: Result<Address, u32> = Ok(Address::new(bytes));
    match read_pair_reply(reply) {
        Ok(Some(AMM::UniswapV2Pool(pool))) => {
            assert_eq!(pool.address, Address::new(bytes));
            assert!(pool.token_a.is_zero() && pool.token_b.is_zero());
            assert_eq!((pool.reserve_0, pool.reserve_1, pool.fee), (0, 0, 0));
            assert_eq!((pool.token_a_decimals, pool.token_b_decimals), (0, 0));
        }
        _ => panic!("no pool"),
    }
}

#[test]
fn failed_call_is_handed_on() {
    let reply: Result<Address, u32> = Err(17);
    assert!(matches!(read_pair_reply(reply), Err(17)));
}

fn found(byte: u8) -> PairOutcome<u32, u8> {
    Ok(read_pair_reply(Ok(addr(byte))))
}

#[test]
fn found_pools_are_collected_in_order() {
    let outcomes = vec![found(1), Ok(Ok(None)), found(2)];
    let amms = collect_safe_amms(outcomes).unwrap();
    let addresses: Vec<Address> = amms
        .iter()
        .map(|amm| match amm {
            AMM::UniswapV2Pool(pool) => pool.address,
            _ => panic!("another kind"),
        })
        .collect();
    assert_eq!(addresses, vec![addr(1), addr(2)]);
}

#[test]
fn first_failure_decides() {
    let outcomes = vec![found(1), Ok(Err(5)), Err(9)];
    assert_eq!(collect_safe_amms(outcomes).unwrap_err(), TaskError::Failed(5));
    let outcomes = vec![found(1), Err(9), Ok(Err(5))];
    assert_eq!(collect_safe_amms(outcomes).unwrap_err(), TaskError::Join(9));
}

#[test]
fn longest_pauses_are_powers_of_five_hundred() {
    assert_eq!(PAIR_CALL_DELAY_MILLIS, 500);
    assert_eq!(
        backoff_schedule(),
        vec![500, 250_000, 125_000_000, 62_500_000_000, 31_250_000_000_000]
    );
}

#[test]
fn pauses_are_never_longer_than_the_longest() {
    let mut all_full = true;
    for _ in 0..200 {
        let delays = retry_strategy();
        assert_eq!(delays.len(), 5);
        for (delay, millis) in delays.iter().zip(backoff_schedule()) {
            assert!(delay.nanos < 1_000_000_000);
            let nanos = delay.secs as u128 * 1_000_000_000 + delay.nanos as u128;
            assert!(nanos <= millis as u128 * 1_000_000);
            all_full = all_full && nanos == millis as u128 * 1_000_000;
        }
    }
    assert!(!all_full);
}

fn word(byte: u8) -> [u8; 32] {
    let mut word = [0u8; 32];
    word[12..].copy_from_slice(&[byte; 20]);
    word
}

fn creation_log() -> Log {
    let mut data = word(0xcc).to_vec();
    data.extend_from_slice(&[0xff; 32]);
    Log {
        topics: vec![factory().amm_created_event_signature(), word(0xaa), word(0xbb)],
        data,
    }
}

#[test]
fn signature_is_the_hash_of_the_event() {
    assert_eq!(
        factory().amm_created_event_signature(),
        keccak256("PairCreated(address,address,address,uint256)").0
    );
}

#[test]
fn creation_log_gives_an_empty_pool_with_its_tokens() {
    match factory().new_empty_amm_from_log(&creation_log()) {
        Ok(AMM::UniswapV2Pool(pool)) => assert_eq!(
            pool,
            UniswapV2Pool {
                address: addr(0xcc),
                token_a: addr(0xaa),
                token_a_decimals: 0,
                token_b: addr(0xbb),
                token_b_decimals: 0,
                reserve_0: 0,
                reserve_1: 0,
                fee: 0,
            }
        ),
        _ => panic!("no pool"),
    }
}

#[test]
fn creation_log_asks_for_the_pool_with_the_fee_of_the_factory() {
    assert_eq!(
        factory().new_amm_from_log(&creation_log()),
        Ok(PoolRequest { address: addr(0xcc), fee: 300 })
    );
}

#[test]
fn further_topics_and_padding_of_topics_are_ignored() {
    let mut log = creation_log();
    log.topics.push([7; 32]);
    log.topics[1][0] = 0xee;
    log.topics[2][11] = 0xee;
    match factory().new_empty_amm_from_log(&log) {
        Ok(AMM::UniswapV2Pool(pool)) => {
            assert_eq!((pool.token_a, pool.token_b), (addr(0xaa), addr(0xbb)));
        }
        _ => panic!("no pool"),
    }
}

#[test]
fn log_with_too_few_topics_is_refused() {
    for n in 0..3 {
        let mut log = creation_log();
        log.topics.truncate(n);
        log.data.clear();
        assert_eq!(factory().new_amm_from_log(&log), Err(LogError::TopicListLength));
    }
}

#[test]
fn log_of_another_event_is_refused() {
    let mut log = creation_log();
    log.topics[0][31] ^= 1;
    log.data.clear();
    assert_eq!(factory().new_amm_from_log(&log), Err(LogError::SignatureHash));
}

#[test]
fn log_with_too_little_data_is_refused() {
    for n in [0usize, 31, 32, 63] {
        let mut log = creation_log();
        log.data.truncate(n);
        assert_eq!(factory().new_amm_from_log(&log), Err(LogError::Overrun));
    }
}

#[test]
fn log_with_too_much_data_is_refused() {
    let mut log = creation_log();
    log.data.push(0);
    assert_eq!(factory().new_amm_from_log(&log), Err(LogError::ReserMismatch));
}

#[test]
fn pair_word_with_more_than_an_address_is_refused() {
    for i in [0usize, 11] {
        let mut log = creation_log();
        log.data[i] = 1;
        assert_eq!(factory().new_amm_from_log(&log), Err(LogError::TypeCheckFail));
        assert!(matches!(
            factory().new_empty_amm_from_log(&log),
            Err(LogError::TypeCheckFail)
        ));
    }
}

fn empty_pools(n: usize) -> Vec<AMM> {
    (0..n).map(|_| AMM::UniswapV2Pool(UniswapV2Pool::default())).collect()
}

/// The batches in which the data of `n` AMMs is read, with a good reply to each.
fn data_ranges(n: usize) -> Vec<(usize, usize)> {
    let mut walk = factory().populate_amm_data(&empty_pools(n));
    let mut out = Vec::new();
    while let Some(batch) = walk.next_batch() {
        out.push(batch);
        walk = walk.absorb_reply::<u32>(Ok(())).unwrap();
    }
    out
}

#[test]
fn data_is_read_in_batches() {
    assert!(data_ranges(0).is_empty());
    assert_eq!(data_ranges(1), vec![(0, 1)]);
    assert_eq!(data_ranges(127), vec![(0, 127)]);
    assert_eq!(data_ranges(128), vec![(0, 127), (127, 128)]);
    assert_eq!(data_ranges(300), vec![(0, 127), (127, 254), (254, 300)]);
}

#[test]
fn failed_data_batch_ends_the_reading() {
    let walk = factory().populate_amm_data(&empty_pools(300));
    let walk = walk.absorb_reply::<u32>(Ok(())).unwrap();
    assert_eq!(walk.next_batch(), Some((127, 254)));
    assert!(matches!(walk.absorb_reply::<u32>(Err(9)), Err(9)));
}

#[test]
fn failed_request_ends_the_walk() {
    let walk = factory().get_all_pairs_via_batched_calls(u256(1532));
    let walk = walk.absorb_reply::<u32>(Ok(vec![addr(1)])).unwrap();
    let request = walk.next_request().unwrap();
    assert_eq!((request.idx_from, request.idx_to), (u256(766), u256(1532)));
    assert!(matches!(walk.absorb_reply::<u32>(Err(7)), Err(7)));
    let walk = factory().get_all_pairs_via_batched_calls(u256(3));
    let amms = walk.absorb_reply::<u32>(Ok(vec![addr(1), addr(2)])).unwrap().finish();
    assert_eq!(amms.len(), 2);
}

#[test]
fn each_pause_is_shortened_on_its_own() {
    let halved = |millis: u64| Delay { secs: millis / 2000, nanos: 0 };
    let delays = shortened(&[4_000, 250_000], halved);
    assert_eq!(delays, vec![Delay { secs: 2, nanos: 0 }, Delay { secs: 125, nanos: 0 }]);
    assert!(shortened(&[], halved).is_empty());
}

#[test]
fn pauses_are_drawn_from_their_own_place() {
    // Of two hundred draws from 250 seconds, one is longer than the first pause of all.
    let longer = (0..200).any(|_| retry_strategy()[1].secs >= 1);
    assert!(longer);
}
