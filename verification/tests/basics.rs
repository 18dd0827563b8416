use euclid::chain::ChainUid;
use euclid::error::{ContractError, ErrorKind};
use euclid::factory::execute::register_pool;
use euclid::router::deposit_escrow;
use euclid::listing::{page_bounds, DEFAULT_LIMIT};
use euclid::order::bytes_less;
use euclid::store::{PendingRecord, Store, TxType};
use euclid::swap::NextSwap;
use euclid::token::{is_valid_id, Pair, PairWithDenom, Token, TokenType, TokenWithDenom};
use euclid::utils::window;

#[test]
fn bytes_compare_as_in_a_dictionary() {
    assert!(bytes_less(b"", b"a"));
    assert!(!bytes_less(b"", b""));
    assert!(!bytes_less(b"a", b""));
    assert!(bytes_less(b"a", b"ab"));
    assert!(bytes_less(b"ab", b"b"));
    assert!(!bytes_less(b"b", b"ab"));
    assert!(!bytes_less(b"abc", b"abc"));
    assert!(bytes_less(b"abc", b"abd"));
    assert!(bytes_less(&[0x7f], &[0x80]));
    assert!(bytes_less(&[1, 255], &[2]));
    for (a, b) in [("a", "b"), ("z", "é"), ("abc", "abcd"), ("", "x"), ("é", "ñ")] {
        assert_eq!(bytes_less(a.as_bytes(), b.as_bytes()), a < b);
        assert_eq!(bytes_less(b.as_bytes(), a.as_bytes()), b < a);
    }
}

#[test]
fn tokens_compare_by_their_names() {
    let t = |id: &str| Token::create(id.to_string()).unwrap();
    assert!(t("a").lt(&t("b")));
    assert!(!t("b").lt(&t("a")));
    assert!(!t("a").lt(&t("a")));
    assert!(t("a").lt(&t("aa")));
    assert!(t("Z").lt(&t("a")));
    assert_eq!(t("a"), t("a").clone());
    assert_ne!(t("a"), t("b"));
    assert_eq!(t("usdc").as_str(), "usdc");
}

#[test]
fn identifiers_are_not_empty_and_fit_a_key() {
    assert!(is_valid_id("a"));
    assert!(!is_valid_id(""));
    assert!(is_valid_id(&"é".repeat(0x7FFF)));
    assert!(!is_valid_id(&"é".repeat(0x8000)));
    let uid = ChainUid::new("nibiru".to_string());
    assert_eq!(uid.validate(), Ok(&uid));
    assert_eq!(uid.as_str(), "nibiru");
    assert_eq!(ChainUid::new(String::new()).validate(), Err(ContractError::InvalidChainId));
    assert_eq!(ChainUid::create("x".repeat(0x10000)), Err(ContractError::InvalidChainId));
    assert_eq!(ChainUid::create("osmosis".to_string()).unwrap(), ChainUid::new("osmosis".to_string()));
}

#[test]
fn token_forms_know_their_denomination() {
    let native = TokenType::Native { denom: "uatom".to_string() };
    let smart = TokenType::Smart { contract_address: "cw20".to_string() };
    assert!(native.is_native() && !native.is_smart());
    assert!(smart.is_smart() && !smart.is_native());
    assert_eq!(native.get_denom(), "uatom");
    assert_eq!(smart.get_denom(), "cw20");
    assert_eq!(native.get_key(), "native:uatom");
    assert_eq!(smart.get_key(), "smart:cw20");
    assert_eq!(native.clone(), native);
    let pair = PairWithDenom {
        token_1: TokenWithDenom { token: Token::create("b".to_string()).unwrap(), token_type: native },
        token_2: TokenWithDenom { token: Token::create("a".to_string()).unwrap(), token_type: smart },
    };
    assert_eq!(pair.get_vec_token_info(), vec![pair.token_1.clone(), pair.token_2.clone()]);
    let plain = pair.get_pair().unwrap();
    assert_eq!(plain.token_1.as_str(), "a");
    assert_eq!(plain.token_2.as_str(), "b");
    assert_eq!(plain.validate(), Ok(()));
    let same = Pair { token_1: plain.token_1.clone(), token_2: plain.token_1.clone() };
    assert_eq!(same.validate(), Err(ContractError::DuplicateTokens));
    assert_eq!(plain.clone(), plain);
}

#[test]
fn every_rejection_has_its_class() {
    let classes = [
        (ContractError::TxAlreadyExist, ErrorKind::Conflict),
        (ContractError::PoolAlreadyExists, ErrorKind::Conflict),
        (ContractError::PoolDoesNotExist, ErrorKind::NotFound),
        (ContractError::UnregisteredPool, ErrorKind::NotFound),
        (ContractError::ChainNotFound, ErrorKind::NotFound),
        (ContractError::EscrowDoesNotExist, ErrorKind::NotFound),
        (ContractError::ChannelNotFound, ErrorKind::NotFound),
        (ContractError::StateNotFound, ErrorKind::NotFound),
        (ContractError::EmptyRoute, ErrorKind::Validation),
        (ContractError::AssetInMismatch, ErrorKind::Validation),
        (ContractError::AssetOutMismatch, ErrorKind::Validation),
        (ContractError::ZeroAssetAmount, ErrorKind::Validation),
        (ContractError::InvalidSlippageTolerance, ErrorKind::Validation),
        (ContractError::InvalidPartnerFee, ErrorKind::Validation),
        (ContractError::InvalidTimeout, ErrorKind::Validation),
        (ContractError::DuplicateTokens, ErrorKind::Validation),
        (ContractError::InvalidTokenID, ErrorKind::Validation),
        (ContractError::InvalidChainId, ErrorKind::Validation),
        (ContractError::InvalidAddress, ErrorKind::Validation),
        (ContractError::UnsupportedDenomination, ErrorKind::Validation),
        (ContractError::InsufficientDeposit, ErrorKind::Validation),
        (ContractError::DenomNotFound, ErrorKind::Validation),
        (ContractError::InsufficientFunds, ErrorKind::Validation),
        (ContractError::Unauthorized, ErrorKind::Validation),
        (ContractError::InvalidSwapId, ErrorKind::Validation),
        (ContractError::NotImplemented, ErrorKind::Validation),
        (ContractError::Overflow, ErrorKind::Arithmetic),
        (ContractError::InvalidAssetOut, ErrorKind::External),
        (ContractError::CollaboratorFailed, ErrorKind::External),
    ];
    for (rejection, class) in classes {
        assert_eq!(rejection.kind(), class, "{:?}", rejection);
    }
}

#[test]
fn page_positions() {
    assert_eq!(DEFAULT_LIMIT, 10);
    assert_eq!(page_bounds(25, None, None), (0, 10));
    assert_eq!(page_bounds(5, None, None), (0, 5));
    assert_eq!(page_bounds(25, Some(20), None), (20, 25));
    assert_eq!(page_bounds(25, Some(25), Some(3)), (25, 25));
    assert_eq!(page_bounds(25, Some(26), Some(3)), (25, 25));
    assert_eq!(page_bounds(25, Some(3), Some(0)), (3, 3));
    assert_eq!(page_bounds(25, Some(3), Some(4)), (3, 7));
    assert_eq!(page_bounds(25, Some(3), Some(u64::MAX)), (3, 25));
    assert_eq!(page_bounds(0, Some(u64::MAX), Some(u64::MAX)), (0, 0));
}

#[test]
fn windows_lie_within_the_list() {
    assert_eq!(window(5, 1, 3), Some((1, 3)));
    assert_eq!(window(5, 0, 5), Some((0, 5)));
    assert_eq!(window(5, 5, 5), Some((5, 5)));
    assert_eq!(window(5, 3, 2), None);
    assert_eq!(window(5, 0, 6), None);
    assert_eq!(window(0, 0, 0), Some((0, 0)));
}

#[test]
fn settings_and_escrows_are_kept_by_name() {
    let mut store = Store::new();
    assert_eq!(store.setting("hub_channel"), None);
    store.set_setting("hub_channel", &"channel-1".to_string());
    store.set_setting("hub_channel", &"channel-2".to_string());
    assert_eq!(store.setting("hub_channel"), Some("channel-2".to_string()));
    assert_eq!(store.setting("hub_channe"), None);
    let t = Token::create("t".to_string()).unwrap();
    assert_eq!(store.escrow_of(&t), None);
    store.set_escrow(&t, &"escrow".to_string());
    assert_eq!(store.escrow_of(&t), Some("escrow".to_string()));
    assert_eq!(store.setting("t"), None);
    // Tables do not share their keys.
    let c = ChainUid::new("t".to_string());
    assert_eq!(store.chain(&c), None);
    store.set_chain(&c, &"meta".to_string());
    assert_eq!(store.chain(&c), Some("meta".to_string()));
    assert_eq!(store.escrow_of(&t), Some("escrow".to_string()));
    assert_eq!(store.escrow_balance(&t, &c), None);
    deposit_escrow(&mut store, &t, &c, 0).unwrap();
    assert_eq!(store.escrow_balance(&t, &c), Some(0));
    let u = Token::create("u".to_string()).unwrap();
    assert_eq!(store.vlp(&t, &u), None);
    assert_eq!(store.pool_of(&t, &u), None);
    register_pool(&mut store, &Pair::new(u.clone(), t.clone()).unwrap(), &"pool".to_string()).unwrap();
    assert_eq!(store.pool_of(&t, &u), Some("pool".to_string()));
    assert_eq!(store.vlp(&t, &u), None);
    assert_eq!(store.list_vlps(&None, &None), vec![]);
    assert_eq!(store.list_pools(), vec![((t.clone(), u.clone()), "pool".to_string())]);
    assert_eq!(store.list_chains(), vec![(c.clone(), "meta".to_string())]);
    assert_eq!(store.list_token_escrows(&t, &None, &None), vec![(c.clone(), 0)]);
    assert_eq!(store.list_escrows(&None, &None), vec![((t, c), 0)]);
}

#[test]
fn a_record_is_kept_under_its_kind_and_key() {
    let mut store = Store::new();
    let record = || PendingRecord {
        sender: "s".to_string(),
        tx_id: "t".to_string(),
        tokens: vec![("a".to_string(), true, "b\\\"".to_string())],
        amounts: vec![0, u128::MAX],
        route: vec![("x".to_string(), "y".to_string(), None), ("y".to_string(), "z".to_string(), Some(true))],
        claimants: vec![("u".to_string(), "c".to_string(), Some(0)), ("v".to_string(), "d".to_string(), None)],
        timeout: u64::MAX,
        partner_fee_recipient: Some(String::new()),
    };
    store.record_pending(TxType::Swap, "s", "t", record());
    assert_eq!(store.pending_request(TxType::Swap, "s", "t"), Some(record()));
    assert_eq!(store.pending_request(TxType::Swap, "st", ""), None);
    assert_eq!(store.pending_request(TxType::Swap, "", "st"), None);
    assert_eq!(store.list_pending(TxType::Swap, "s"), vec![("t".to_string(), record())]);
    assert_eq!(store.list_pending(TxType::PoolCreation, "s"), vec![]);
    assert_eq!(PendingRecord::from_row(record().into_row()), record());
    store.clear_pending(TxType::PoolCreation, "s", "t");
    assert!(store.is_pending(TxType::Swap, "s", "t"));
    assert_eq!(store.take_pending(TxType::AddLiquidity, "s", "t"), None);
    assert_eq!(store.take_pending(TxType::Swap, "s", "t"), Some(record()));
    assert_eq!(store.take_pending(TxType::Swap, "s", "t"), None);
    store.record_pending(TxType::Swap, "s", "t", record());
    store.clear_pending(TxType::Swap, "s", "t");
    assert!(!store.is_pending(TxType::Swap, "s", "t"));
    store.clear_pending(TxType::Swap, &"s".repeat(0x10000), "t");
}

#[test]
fn the_next_pool_of_a_swap_starts_empty() {
    assert_eq!(NextSwap::default(), NextSwap { vlp_address: String::new() });
}
