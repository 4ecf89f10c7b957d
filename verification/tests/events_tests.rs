use inevents::events::ft::{FtBurnEvent, FtBurnEventData, FtTransferEvent, FtTransferEventData, RtFtBurnFilter, RtFtTransferFilter};
use inevents::events::log::{LogNep297EventData, LogTextEventData, RtLogNep297Filter, RtLogTextFilter, deserialize_version_req};
use inevents::events::newcontract::{direct_subaccount, NewContractNep141EventData, NewMemeCookingTokenEventData, RtNewContractNep141Filter, RtNewMemeCookingMemeFilter};
use inevents::events::nft::{NftBurnEventData, NftTransferEventData, RtNftBurnFilter, RtNftTransferFilter};
use inevents::events::potlock::{PotlockPotDonationEventData, PotlockPotProjectDonationEventData, RtPotlockPotDonationFilter, RtPotlockPotProjectDonationFilter};
use inevents::events::price::{PricePoolEventData, RtPricePoolFilter};
use inevents::events::socialdb::{RtSocialDBIndexFilter, SocialDBIndexEventData};
use inevents::events::tps::{BlockInfoEventData, RtBlockInfoFilter};
use inevents::events::trade::{keys_all_present, LiquidityPoolEventData, MemeCookingDepositEventData, RtLiquidityPoolilter, RtMemeCookingDepositFilter, RtTradeSwapilter, TradeSwapEventData};
use inevents::events::transactions::{RtTxReceiptFilter, TxReceiptEventData};
use inevents::events::{contains_key, keyed_get, list_contains_text, text_wanted_ok};
use inevents::json::{JsonNumber, JsonValue};

fn s(x: &str) -> String {
    x.to_string()
}

fn burn(owner: &str, token: &str, amount: u128) -> FtBurnEventData {
    FtBurnEventData {
        owner_id: s(owner),
        amount,
        memo: None,
        token_id: s(token),
        transaction_id: s("tx"),
        receipt_id: s("rc"),
        block_height: 1,
        block_timestamp_nanosec: 0,
    }
}

fn transfer(old: &str, new: &str, amount: u128) -> FtTransferEventData {
    FtTransferEventData {
        old_owner_id: s(old),
        new_owner_id: s(new),
        amount,
        memo: None,
        token_id: s("usdt.tether-token.near"),
        transaction_id: s("tx"),
        receipt_id: s("rc"),
        block_height: 1,
        block_timestamp_nanosec: 0,
    }
}

#[test]
fn event_identifiers() {
    assert_eq!(FtBurnEvent::ID, "ft_burn");
    assert_eq!(FtTransferEvent::ID, "ft_transfer");
}

#[test]
fn wanted_text_helpers() {
    assert!(text_wanted_ok(&None, &s("a")));
    assert!(text_wanted_ok(&Some(s("a")), &s("a")));
    assert!(!text_wanted_ok(&Some(s("a")), &s("b")));
    assert!(list_contains_text(&vec![s("a"), s("b")], &s("b")));
    assert!(!list_contains_text(&vec![s("a"), s("b")], &s("c")));
    assert!(!list_contains_text(&vec![], &s("c")));
    let entries = vec![(s("x"), 5u128), (s("y"), 7u128), (s("x"), 9u128)];
    assert!(contains_key(&entries, &s("y")));
    assert!(!contains_key(&entries, &s("z")));
    assert_eq!(keyed_get(&entries, &s("x")), Some(5));
    assert_eq!(keyed_get(&entries, &s("z")), None);
}

#[test]
fn ft_burn_filter() {
    let event = burn("alice.near", "wrap.near", 100);
    let empty = RtFtBurnFilter { token_id: None, owner_id: None, amount: None, min_amount: None };
    assert!(empty.matches(&event));
    let by_owner = RtFtBurnFilter { token_id: None, owner_id: Some(s("alice.near")), amount: None, min_amount: None };
    assert!(by_owner.matches(&event));
    let other_owner = RtFtBurnFilter { token_id: None, owner_id: Some(s("bob.near")), amount: None, min_amount: None };
    assert!(!other_owner.matches(&event));
    let exact = RtFtBurnFilter { token_id: Some(s("wrap.near")), owner_id: None, amount: Some(100), min_amount: None };
    assert!(exact.matches(&event));
    let wrong_amount = RtFtBurnFilter { token_id: None, owner_id: None, amount: Some(99), min_amount: None };
    assert!(!wrong_amount.matches(&event));
    let min_ok = RtFtBurnFilter { token_id: None, owner_id: None, amount: None, min_amount: Some(100) };
    assert!(min_ok.matches(&event));
    let min_too_high = RtFtBurnFilter { token_id: None, owner_id: None, amount: None, min_amount: Some(101) };
    assert!(!min_too_high.matches(&event));
}

#[test]
fn ft_transfer_filter_involved_accounts() {
    let event = transfer("alice.near", "bob.near", 10);
    let f = |ids: Option<Vec<&str>>| RtFtTransferFilter {
        token_id: None,
        old_owner_id: None,
        new_owner_id: None,
        involved_account_ids: ids.map(|v| v.into_iter().map(s).collect()),
        amount: None,
        min_amount: None,
    };
    assert!(f(None).matches(&event));
    assert!(f(Some(vec!["bob.near"])).matches(&event));
    assert!(f(Some(vec!["carol.near", "alice.near"])).matches(&event));
    assert!(!f(Some(vec!["carol.near"])).matches(&event));
    assert!(!f(Some(vec![])).matches(&event));
    let token = RtFtTransferFilter {
        token_id: Some(s("wrap.near")),
        old_owner_id: None,
        new_owner_id: None,
        involved_account_ids: None,
        amount: None,
        min_amount: None,
    };
    assert!(!token.matches(&event));
}

#[test]
fn nft_filters() {
    let burn = NftBurnEventData {
        owner_id: s("alice.near"),
        token_ids: vec![s("1")],
        memo: None,
        transaction_id: s("tx"),
        receipt_id: s("rc"),
        block_height: 5,
        block_timestamp_nanosec: 0,
        contract_id: s("nft.near"),
    };
    assert!(RtNftBurnFilter { contract_id: Some(s("nft.near")), owner_id: None }.matches(&burn));
    assert!(!RtNftBurnFilter { contract_id: Some(s("other.near")), owner_id: None }.matches(&burn));
    let transfer = NftTransferEventData {
        old_owner_id: s("alice.near"),
        new_owner_id: s("bob.near"),
        token_ids: vec![s("1")],
        memo: None,
        token_prices_near: vec![None],
        transaction_id: s("tx"),
        receipt_id: s("rc"),
        block_height: 5,
        block_timestamp_nanosec: 0,
        contract_id: s("nft.near"),
    };
    let f = RtNftTransferFilter {
        contract_id: None,
        old_owner_id: None,
        new_owner_id: Some(s("bob.near")),
        involved_account_ids: Some(vec![s("alice.near")]),
    };
    assert!(f.matches(&transfer));
    let g = RtNftTransferFilter {
        contract_id: None,
        old_owner_id: Some(s("bob.near")),
        new_owner_id: None,
        involved_account_ids: None,
    };
    assert!(!g.matches(&transfer));
}

#[test]
fn potlock_filters() {
    let donation = PotlockPotDonationEventData {
        donation_id: 1,
        pot_id: s("pot.near"),
        donor_id: s("alice.near"),
        total_amount: 1000,
        net_amount: 900,
        message: None,
        donated_at: 0,
        protocol_fee: 100,
        referrer_id: None,
        referrer_fee: None,
        chef_id: None,
        chef_fee: None,
        transaction_id: s("tx"),
        receipt_id: s("rc"),
        block_height: 1,
        block_timestamp_nanosec: 0,
    };
    let by_pot = RtPotlockPotDonationFilter { pot_id: Some(s("pot.near")), donor_id: None, referrer_id: None };
    assert!(by_pot.matches(&donation));
    // A wanted referrer never matches a donation without one.
    let by_referrer = RtPotlockPotDonationFilter { pot_id: None, donor_id: None, referrer_id: Some(s("ref.near")) };
    assert!(!by_referrer.matches(&donation));

    let project = PotlockPotProjectDonationEventData {
        donation_id: 2,
        pot_id: s("pot.near"),
        donor_id: s("alice.near"),
        total_amount: 1000,
        net_amount: 900,
        message: None,
        donated_at: 0,
        project_id: s("project.near"),
        protocol_fee: 100,
        referrer_id: Some(s("ref.near")),
        referrer_fee: Some(5),
        chef_id: None,
        chef_fee: None,
        transaction_id: s("tx"),
        receipt_id: s("rc"),
        block_height: 1,
        block_timestamp_nanosec: 0,
    };
    let min = |entries: Vec<(&str, u128)>| RtPotlockPotProjectDonationFilter {
        pot_id: None,
        project_id: Some(s("project.near")),
        donor_id: None,
        referrer_id: Some(s("ref.near")),
        min_amounts: Some(entries.into_iter().map(|(k, v)| (s(k), v)).collect()),
    };
    assert!(min(vec![("alice.near", 1000)]).matches(&project));
    assert!(!min(vec![("alice.near", 1001)]).matches(&project));
    // No minimum for this donor: passes.
    assert!(min(vec![("bob.near", 1_000_000)]).matches(&project));
}

#[test]
fn price_pool_filter() {
    let event = PricePoolEventData {
        block_height: 1,
        pool_id: s("REF-1"),
        token0: s("wrap.near"),
        token1: s("usdt.near"),
        token0_in_1_token1: s("0.2"),
        token1_in_1_token0: s("5"),
        timestamp_nanosec: 0,
    };
    let f = |ids: Vec<&str>| RtPricePoolFilter {
        pool_id: None,
        involved_token_account_ids: Some(ids.into_iter().map(s).collect()),
    };
    assert!(f(vec!["wrap.near"]).matches(&event));
    assert!(f(vec!["usdt.near", "wrap.near"]).matches(&event));
    assert!(!f(vec!["wrap.near", "dai.near"]).matches(&event));
    assert!(f(vec![]).matches(&event));
}

#[test]
fn trade_filters() {
    let entries = vec![(s("wrap.near"), -5i128), (s("usdt.near"), 10i128)];
    assert!(keys_all_present(&vec![s("usdt.near")], &entries));
    assert!(!keys_all_present(&vec![s("usdt.near"), s("dai.near")], &entries));
    let swap = TradeSwapEventData {
        balance_changes: entries,
        trader: s("alice.near"),
        transaction_id: s("tx"),
        receipt_id: s("rc"),
        block_height: 1,
        block_timestamp_nanosec: 0,
    };
    assert!(RtTradeSwapilter { trader_account_id: Some(s("alice.near")), involved_token_account_ids: Some(vec![s("wrap.near")]) }.matches(&swap));
    assert!(!RtTradeSwapilter { trader_account_id: Some(s("bob.near")), involved_token_account_ids: None }.matches(&swap));
    let liquidity = LiquidityPoolEventData {
        pool: s("REF-1"),
        tokens: vec![(s("wrap.near"), 3)],
        provider_account_id: s("alice.near"),
        transaction_id: s("tx"),
        receipt_id: s("rc"),
        block_height: 1,
        block_timestamp_nanosec: 0,
    };
    assert!(!RtLiquidityPoolilter { provider_account_id: None, involved_token_account_ids: Some(vec![s("usdt.near")]) }.matches(&liquidity));
    let deposit = MemeCookingDepositEventData {
        meme_id: 7,
        trader: s("alice.near"),
        transaction_id: s("tx"),
        receipt_id: s("rc"),
        amount: 1,
        protocol_fee: 0,
        referrer: None,
        referrer_fee: None,
        block_height: 1,
        block_timestamp_nanosec: 0,
    };
    assert!(RtMemeCookingDepositFilter { meme_id: Some(7), trader_account_id: None }.matches(&deposit));
    assert!(!RtMemeCookingDepositFilter { meme_id: Some(8), trader_account_id: None }.matches(&deposit));
}

#[test]
fn block_filters() {
    let block = BlockInfoEventData {
        block_height: 100,
        block_timestamp_nanosec: 0,
        block_hash: s("h"),
        block_producer: s("p"),
        transaction_count: 0,
        receipt_count: 0,
    };
    assert!(RtBlockInfoFilter { block_height_equal: Some(100), block_height_until: None }.matches(&block));
    assert!(RtBlockInfoFilter { block_height_equal: None, block_height_until: Some(100) }.matches(&block));
    assert!(!RtBlockInfoFilter { block_height_equal: None, block_height_until: Some(99) }.matches(&block));
    assert!(!RtBlockInfoFilter { block_height_equal: Some(101), block_height_until: None }.matches(&block));
    let receipt = TxReceiptEventData {
        block_timestamp_nanosec: 0,
        block_height: 1,
        receipt_id: s("rc"),
        transaction_id: s("tx"),
        executor_id: s("alice.near"),
        success: Some(true),
    };
    assert!(RtTxReceiptFilter { executor_id: Some(s("alice.near")) }.matches(&receipt));
    assert!(!RtTxReceiptFilter { executor_id: Some(s("bob.near")) }.matches(&receipt));
}

#[test]
fn subaccounts() {
    assert!(direct_subaccount("token.meme-cooking.near", "meme-cooking.near"));
    assert!(!direct_subaccount("a.token.meme-cooking.near", "meme-cooking.near"));
    assert!(!direct_subaccount("meme-cooking.near", "meme-cooking.near"));
    assert!(!direct_subaccount("xmeme-cooking.near", "meme-cooking.near"));
    assert!(direct_subaccount(".meme-cooking.near", "meme-cooking.near"));
    let event = NewContractNep141EventData {
        account_id: s("token.tkn.near"),
        transaction_id: s("tx"),
        receipt_id: s("rc"),
        block_height: 1,
        block_timestamp_nanosec: 0,
    };
    assert!(RtNewContractNep141Filter { account_id: None, parent_account_id: Some(s("tkn.near")) }.matches(&event));
    assert!(!RtNewContractNep141Filter { account_id: None, parent_account_id: Some(s("near")) }.matches(&event));
    let meme = NewMemeCookingTokenEventData {
        transaction_id: s("tx"),
        receipt_id: s("rc"),
        block_height: 1,
        block_timestamp_nanosec: 0,
        meme_id: 3,
        token_id: s("meme.meme-cooking.near"),
        total_supply: 1,
        pool_id: 1,
    };
    assert!(RtNewMemeCookingMemeFilter { meme_id: Some(3), token_id: None }.matches(&meme));
    assert!(!RtNewMemeCookingMemeFilter { meme_id: Some(4), token_id: None }.matches(&meme));
}

fn log_text(text: &str) -> LogTextEventData {
    LogTextEventData {
        block_height: 1,
        block_timestamp_nanosec: 0,
        transaction_id: s("tx"),
        receipt_id: s("rc"),
        account_id: s("alice.near"),
        predecessor_id: s("bob.near"),
        log_text: s(text),
    }
}

fn text_filter() -> RtLogTextFilter {
    RtLogTextFilter {
        account_id: None,
        predecessor_id: None,
        text: None,
        text_starts_with: None,
        text_ends_with: None,
        text_contains: None,
    }
}

#[test]
fn log_text_filter() {
    let event = log_text("EVENT_JSON:{\"standard\":\"nep141\"}");
    assert!(text_filter().matches(&event));
    assert!(RtLogTextFilter { text_starts_with: Some(s("EVENT_JSON:")), ..text_filter() }.matches(&event));
    assert!(!RtLogTextFilter { text_starts_with: Some(s("EVENT_JSON;")), ..text_filter() }.matches(&event));
    assert!(RtLogTextFilter { text_ends_with: Some(s("\"}")), ..text_filter() }.matches(&event));
    assert!(RtLogTextFilter { text_contains: Some(s("nep141")), ..text_filter() }.matches(&event));
    assert!(!RtLogTextFilter { text_contains: Some(s("nep171")), ..text_filter() }.matches(&event));
    assert!(!RtLogTextFilter { text: Some(s("EVENT_JSON")), ..text_filter() }.matches(&event));
    assert!(RtLogTextFilter { predecessor_id: Some(s("bob.near")), ..text_filter() }.matches(&event));
}

fn nep297(version: &str) -> LogNep297EventData {
    LogNep297EventData {
        block_height: 1,
        block_timestamp_nanosec: 0,
        transaction_id: s("tx"),
        receipt_id: s("rc"),
        account_id: s("token.near"),
        predecessor_id: s("alice.near"),
        event_standard: s("nep141"),
        event_version: s(version),
        event_event: s("ft_transfer"),
        event_data: None,
    }
}

fn nep297_filter(version_match: Option<&str>) -> RtLogNep297Filter {
    RtLogNep297Filter {
        account_id: None,
        predecessor_id: None,
        standard: Some(s("nep141")),
        version_exact: None,
        version_match: deserialize_version_req(version_match).unwrap(),
        event: None,
    }
}

#[test]
fn log_nep297_filter() {
    assert!(nep297_filter(None).matches(&nep297("1.0.0")));
    assert!(nep297_filter(Some("^1.0.0")).matches(&nep297("1.2.0")));
    assert!(!nep297_filter(Some("^1.0.0")).matches(&nep297("2.0.0")));
    // A version that is not SemVer never meets a requirement.
    assert!(!nep297_filter(Some("^1.0.0")).matches(&nep297("one")));
    let wrong_standard = RtLogNep297Filter { standard: Some(s("nep171")), ..nep297_filter(None) };
    assert!(!wrong_standard.matches(&nep297("1.0.0")));
    // The decision given the outcome of the version check.
    let with_req = nep297_filter(Some(">=1.0.0"));
    assert!(with_req.matches_with_version(&nep297("x"), true));
    assert!(!with_req.matches_with_version(&nep297("x"), false));
    assert!(nep297_filter(None).matches_with_version(&nep297("x"), false));
}

#[test]
fn version_requirement_reading() {
    assert!(matches!(deserialize_version_req(None), Ok(None)));
    assert!(matches!(deserialize_version_req(Some("^1.2")), Ok(Some(_))));
    assert!(deserialize_version_req(Some("not a requirement!")).is_err());
}

fn num(n: u64) -> JsonValue {
    JsonValue::Number(JsonNumber::pos_int(n, (n as f64).to_bits()))
}

#[test]
fn socialdb_filter() {
    let event = SocialDBIndexEventData {
        block_height: 1,
        block_timestamp_nanosec: 0,
        transaction_id: s("tx"),
        receipt_id: s("rc"),
        account_id: s("alice.near"),
        index_type: s("like"),
        index_key: JsonValue::Object(vec![(s("type"), JsonValue::String(s("social"))), (s("path"), num(3))]),
        index_value: JsonValue::Null,
    };
    let f = |key: Option<JsonValue>| RtSocialDBIndexFilter {
        account_id: None,
        token: None,
        index_type: Some(s("like")),
        index_key: key,
        index_value: None,
    };
    assert!(f(None).matches(&event));
    // Members compare whatever their order.
    let same_key = JsonValue::Object(vec![(s("path"), num(3)), (s("type"), JsonValue::String(s("social")))]);
    assert!(f(Some(same_key)).matches(&event));
    let other_key = JsonValue::Object(vec![(s("path"), num(4)), (s("type"), JsonValue::String(s("social")))]);
    assert!(!f(Some(other_key)).matches(&event));
    let wrong_token = RtSocialDBIndexFilter { token: Some(s("comment")), ..f(None) };
    assert!(!wrong_token.matches(&event));
}

#[test]
fn log_nep297_caret_requirement() {
    let f = nep297_filter(Some("^1.0.0"));
    for (v, expected) in [("1.0.0", true), ("1.0.1", true), ("1.1.0", true), ("2.0.0", false)] {
        assert_eq!(f.matches(&nep297(v)), expected, "version {v}");
    }
}
