use euclid::chain::{ChainUid, CrossChainUser, CrossChainUserWithLimit};
use euclid::error::ContractError;
use euclid::factory::execute::{
    add_liquidity_request, execute_request_pool_creation, execute_swap_request, register_pool,
    remove_liquidity_request,
};
use euclid::factory::query::{pending_liquidity, pending_swaps, query_all_pools, query_state};
use euclid::factory::response::{Coin, Env, MessageInfo};
use euclid::fee::{DenomFees, PartnerFee};
use euclid::msgs::factory::{AllPoolsResponse, PoolVlpResponse, StateResponse};
use euclid::store::{PendingRecord, Store, TxType};
use euclid::swap::NextSwapPair;
use euclid::token::{Pair, PairWithDenom, Token, TokenType, TokenWithDenom};

const NOW: u64 = 1_700_000_000_000_000_000;

fn token(id: &str) -> Token {
    Token::create(id.to_string()).unwrap()
}

fn native(id: &str, denom: &str) -> TokenWithDenom {
    TokenWithDenom { token: token(id), token_type: TokenType::Native { denom: denom.to_string() } }
}

fn smart(id: &str, address: &str) -> TokenWithDenom {
    TokenWithDenom {
        token: token(id),
        token_type: TokenType::Smart { contract_address: address.to_string() },
    }
}

fn env() -> Env {
    Env { block_time: NOW, contract_address: "factory".to_string() }
}

fn info(sender: &str, funds: &[(&str, u128)]) -> MessageInfo {
    MessageInfo {
        sender: sender.to_string(),
        funds: funds.iter().map(|(d, a)| Coin { denom: d.to_string(), amount: *a }).collect(),
    }
}

fn chain() -> Store {
    let mut store = Store::new();
    store.set_setting("chain_uid", &"nibiru".to_string());
    store.set_setting("router_contract", &"router".to_string());
    store.set_setting("admin", &"admin".to_string());
    store.set_setting("hub_channel", &"channel-7".to_string());
    register_pool(&mut store, &Pair::new(token("t3"), token("t1")).unwrap(), &"vlp13".to_string()).unwrap();
    register_pool(&mut store, &Pair::new(token("t1"), token("t2")).unwrap(), &"vlp12".to_string()).unwrap();
    store.set_escrow(&token("t1"), &"escrow1".to_string());
    store.set_escrow(&token("t2"), &"escrow2".to_string());
    store
}

fn swap(store: &mut Store, sender: &str, tx_id: &str, amount: u128, fee: Option<PartnerFee>) {
    execute_swap_request(
        store,
        &info(sender, &[("ut1", amount)]),
        &env(),
        native("t1", "ut1"),
        token("t3"),
        amount,
        2,
        vec![NextSwapPair { token_in: token("t1"), token_out: token("t3"), test_fail: Some(false) }],
        None,
        vec![CrossChainUserWithLimit {
            user: CrossChainUser { chain_uid: ChainUid::new("osmosis".to_string()), address: "carol".to_string() },
            limit: Some(u128::MAX),
        }],
        tx_id.to_string(),
        fee,
        |_, _| Ok(true),
        |address: String| Ok(address.to_uppercase()),
    )
    .unwrap();
}

#[test]
fn a_swap_in_flight_is_kept_as_it_was_accepted() {
    let mut store = chain();
    let fee = Some(PartnerFee { partner_fee_bps: 30, recipient: "partner".to_string() });
    swap(&mut store, "alice", "tx \"1\"", 10_001, fee);
    let expected = PendingRecord {
        sender: "alice".to_string(),
        tx_id: "tx \"1\"".to_string(),
        tokens: vec![
            ("t1".to_string(), false, "ut1".to_string()),
            ("t3".to_string(), false, String::new()),
        ],
        amounts: vec![9_970, 2, 31],
        route: vec![("t1".to_string(), "t3".to_string(), Some(false))],
        claimants: vec![
            ("carol".to_string(), "osmosis".to_string(), Some(u128::MAX)),
            ("alice".to_string(), "nibiru".to_string(), None),
        ],
        timeout: NOW + 60_000_000_000,
        partner_fee_recipient: Some("PARTNER".to_string()),
    };
    assert_eq!(store.pending_request(TxType::Swap, "alice", "tx \"1\""), Some(expected));
    assert_eq!(store.pending_request(TxType::Swap, "alice", "tx"), None);
    assert_eq!(store.pending_request(TxType::AddLiquidity, "alice", "tx \"1\""), None);
    assert_eq!(store.pending_request(TxType::Swap, &"a".repeat(0x10000), "tx"), None);
    assert!(!store.is_pending(TxType::Swap, &"a".repeat(0x10000), "tx"));
}

#[test]
fn requests_in_flight_are_listed_by_requester() {
    let mut store = chain();
    swap(&mut store, "alice", "b", 100, None);
    swap(&mut store, "alice", "a", 200, None);
    swap(&mut store, "alice", "ab", 300, None);
    swap(&mut store, "alic", "z", 400, None);
    swap(&mut store, "alicea", "c", 500, None);
    let found = pending_swaps(&store, "alice".to_string(), None, Some(1)).unwrap().pending_swaps;
    let ids: Vec<&str> = found.iter().map(|r| r.tx_id.as_str()).collect();
    assert_eq!(ids, vec!["a", "ab", "b"]);
    assert_eq!(found[0].amounts, vec![200, 2, 0]);
    assert_eq!(found[0].partner_fee_recipient, None);
    assert!(pending_swaps(&store, "bob".to_string(), None, None).unwrap().pending_swaps.is_empty());
    assert!(pending_liquidity(&store, "alice".to_string(), None, None).unwrap().pending_liquidity.is_empty());
    assert!(store.list_pending(TxType::Swap, &"a".repeat(0x10000)).is_empty());

    let pair = PairWithDenom { token_1: smart("t2", "cw2"), token_2: native("t1", "ut1") };
    add_liquidity_request(
        &mut store,
        &info("alice", &[("ut1", 9)]),
        &env(),
        pair,
        5,
        9,
        50,
        Some(240),
        "liq".to_string(),
        |_, _| Ok(true),
    )
    .unwrap();
    assert_eq!(
        pending_liquidity(&store, "alice".to_string(), None, None).unwrap().pending_liquidity,
        vec![PendingRecord {
            sender: "alice".to_string(),
            tx_id: "liq".to_string(),
            tokens: vec![
                ("t2".to_string(), true, "cw2".to_string()),
                ("t1".to_string(), false, "ut1".to_string()),
            ],
            amounts: vec![5, 9],
            route: vec![],
            claimants: vec![],
            timeout: NOW + 240_000_000_000,
            partner_fee_recipient: None,
        }]
    );
}

#[test]
fn other_requests_in_flight_are_kept_too() {
    let mut store = chain();
    let pair = PairWithDenom { token_1: native("t4", "ut4"), token_2: smart("t5", "cw5") };
    execute_request_pool_creation(&mut store, &env(), &info("alice", &[]), pair, None, "p".to_string()).unwrap();
    assert_eq!(
        store.pending_request(TxType::PoolCreation, "alice", "p"),
        Some(PendingRecord {
            sender: "alice".to_string(),
            tx_id: "p".to_string(),
            tokens: vec![
                ("t4".to_string(), false, "ut4".to_string()),
                ("t5".to_string(), true, "cw5".to_string()),
            ],
            amounts: vec![],
            route: vec![],
            claimants: vec![],
            timeout: NOW + 60_000_000_000,
            partner_fee_recipient: None,
        })
    );
    remove_liquidity_request(
        &mut store,
        &info("alice", &[]),
        &env(),
        Pair { token_1: token("t2"), token_2: token("t1") },
        77,
        None,
        vec![],
        "r".to_string(),
    )
    .unwrap();
    assert_eq!(
        store.pending_request(TxType::RemoveLiquidity, "alice", "r"),
        Some(PendingRecord {
            sender: "alice".to_string(),
            tx_id: "r".to_string(),
            tokens: vec![
                ("t2".to_string(), false, String::new()),
                ("t1".to_string(), false, String::new()),
            ],
            amounts: vec![77],
            route: vec![],
            claimants: vec![("alice".to_string(), "nibiru".to_string(), None)],
            timeout: NOW + 60_000_000_000,
            partner_fee_recipient: None,
        })
    );
    store.clear_pending(TxType::RemoveLiquidity, "alice", "r");
    assert_eq!(store.pending_request(TxType::RemoveLiquidity, "alice", "r"), None);
    assert!(store.is_pending(TxType::PoolCreation, "alice", "p"));
}

#[test]
fn the_chain_reports_its_state_and_pools() {
    let store = chain();
    assert_eq!(
        query_state(&store),
        Ok(StateResponse {
            chain_id: "nibiru".to_string(),
            router_contract: "router".to_string(),
            hub_channel: Some("channel-7".to_string()),
            admin: "admin".to_string(),
        })
    );
    assert_eq!(
        query_all_pools(&store),
        Ok(AllPoolsResponse {
            pools: vec![
                PoolVlpResponse {
                    pair: Pair { token_1: token("t1"), token_2: token("t2") },
                    vlp: "vlp12".to_string()
                },
                PoolVlpResponse {
                    pair: Pair { token_1: token("t1"), token_2: token("t3") },
                    vlp: "vlp13".to_string()
                },
            ]
        })
    );
    let mut bare = Store::new();
    assert_eq!(query_state(&bare), Err(ContractError::StateNotFound));
    bare.set_setting("chain_uid", &"c".to_string());
    bare.set_setting("admin", &"a".to_string());
    assert_eq!(query_state(&bare), Err(ContractError::StateNotFound));
    bare.set_setting("router_contract", &"r".to_string());
    assert_eq!(query_state(&bare).unwrap().hub_channel, None);
    assert_eq!(query_all_pools(&bare), Ok(AllPoolsResponse { pools: vec![] }));
}

#[test]
fn fees_add_up_by_denomination() {
    let mut fees = DenomFees::new();
    assert_eq!(fees.get_fee("uatom"), 0);
    fees.add_fee("uatom".to_string(), 5);
    fees.add_fee("uosmo".to_string(), 7);
    fees.add_fee("uatom".to_string(), 6);
    assert_eq!(fees.get_fee("uatom"), 11);
    assert_eq!(fees.get_fee("uosmo"), 7);
    assert_eq!(fees.get_fee("other"), 0);
    fees.add_fee("max".to_string(), u128::MAX);
    assert_eq!(fees.get_fee("max"), u128::MAX);
    // Fees with the same totals are equal, in whatever order they were collected.
    let mut other = DenomFees::new();
    other.add_fee("uosmo".to_string(), 3);
    other.add_fee("max".to_string(), u128::MAX);
    other.add_fee("uatom".to_string(), 11);
    assert_ne!(fees, other);
    other.add_fee("uosmo".to_string(), 4);
    assert_eq!(fees, other);
    assert_eq!(other.get_fee("uosmo"), 7);
    assert_eq!(other.get_fee("m"), 0);
    assert_eq!(other.get_fee("maxx"), 0);
    assert_eq!(other.get_fee("z"), 0);
    assert_ne!(fees, DenomFees::new());
    assert_eq!(DenomFees::new(), DenomFees::new());
    assert_eq!(fees.get_key(true, "addr"), "smartaddr");
    assert_eq!(fees.get_key(false, "uatom"), "nativeuatom");
}
