use nebula_exchange::chain::{
    BankSend, Coin, Env, Instruction, MessageInfo, RegistryCall, Response, WasmExecute, TREASURY,
};
use nebula_exchange::contract::execute::{
    buy as buy_token, delist as delist_token, list as list_token, Messages,
};
use nebula_exchange::contract::{Approval, GetOwnerResponse};
use nebula_exchange::fees::FLAT_DEDUCTION;
use nebula_exchange::msg::{Creator, Royalties, SendTokenMsg, Tmessage};
use nebula_exchange::state::{State, Token};
use nebula_exchange::ContractError;

fn state(basis_points: u16, creators: Vec<Creator>, listed: Vec<Token>) -> State {
    State {
        flagged: false,
        collection: "collection".to_string(),
        contract: "registry".to_string(),
        description: "description".to_string(),
        symbol: "SYM".to_string(),
        logo_uri: "logo".to_string(),
        banner_uri: "banner".to_string(),
        supply: 100,
        owner: "authority".to_string(),
        royalties: Royalties { seller_fee_basis_points: basis_points, creators },
        listed,
        contact: String::new(),
        discord: String::new(),
        twitter: String::new(),
        telegram: String::new(),
        website: String::new(),
    }
}

fn creator(address: &str, share: u8) -> Creator {
    Creator { address: address.to_string(), share }
}

fn token(id: &str, owner: &str, price: u128, expires: i128) -> Token {
    Token { id: id.to_string(), owner: owner.to_string(), is_listed: true, price, expires }
}

fn env(time: u64) -> Env {
    Env { time, contract_address: "exchange".to_string() }
}

fn paying(sender: &str, amount: u128) -> MessageInfo {
    MessageInfo {
        sender: sender.to_string(),
        funds: vec![Coin { denom: "inj".to_string(), amount }],
    }
}

fn sender(sender: &str) -> MessageInfo {
    MessageInfo { sender: sender.to_string(), funds: vec![] }
}

fn send(to: &str, amount: u128) -> Instruction {
    Instruction {
        msg: Messages::Bank(BankSend {
            to_address: to.to_string(),
            amount,
            denom: "inj".to_string(),
        }),
        best_effort: false,
    }
}

fn transfer(recipient: &str, token_id: &str) -> Instruction {
    Instruction {
        msg: Messages::Execute(WasmExecute {
            contract_addr: "registry".to_string(),
            msg: RegistryCall::Transfer(Tmessage {
                transfer_nft: SendTokenMsg {
                    recipient: recipient.to_string(),
                    token_id: token_id.to_string(),
                },
            }),
        }),
        best_effort: false,
    }
}

fn approved(owner: &str) -> GetOwnerResponse {
    GetOwnerResponse {
        owner: owner.to_string(),
        approvals: vec![Approval { spender: "exchange".to_string() }],
    }
}

fn ids(table: &[Token]) -> Vec<&str> {
    table.iter().map(|t| t.id.as_str()).collect()
}

#[test]
fn buy_pays_creators_last_first_then_treasury_seller_and_buyer() {
    let creators = vec![creator("first", 50), creator("second", 30), creator("third", 20)];
    let listed = vec![token("7", "seller", 1_000_000_000_000_000_000, 0)];
    let mut exchange = state(690, creators, listed);

    let response = buy_token(
        &mut exchange,
        "7".to_string(),
        &paying("buyer", 1_069_000_000_000_000_000),
        env(10),
        FLAT_DEDUCTION,
    )
    .unwrap();

    assert_eq!(
        response,
        Response {
            attributes: vec![],
            messages: vec![
                send("third", 13_800_000_000_000_000),
                send("second", 20_700_000_000_000_000),
                send("first", 34_500_000_000_000_000),
                send(TREASURY, 32_070_000_000_000_000),
                send("seller", 898_929_999_999_000_000),
                transfer("buyer", "7"),
            ],
        }
    );
    assert!(exchange.listed.is_empty());
}

#[test]
fn buy_emits_two_payments_and_a_transfer_beside_those_to_the_creators() {
    for n in 0..5usize {
        let creators: Vec<Creator> = (0..n).map(|i| creator(&format!("c{}", i), 20)).collect();
        let mut exchange = state(500, creators, vec![token("1", "seller", 10_000, 0)]);

        let response =
            buy_token(&mut exchange, "1".to_string(), &paying("buyer", 10_500), env(0), 0).unwrap();

        assert_eq!(response.messages.len(), n + 3);
        let payments = response
            .messages
            .iter()
            .filter(|instruction| matches!(instruction.msg, Messages::Bank(_)))
            .count();
        assert_eq!(payments, n + 2);
        assert_eq!(response.messages[n + 2], transfer("buyer", "1"));
    }
}

#[test]
fn buy_below_price_plus_royalty_is_refused_and_changes_nothing() {
    let listed = vec![token("1", "seller", 1_000_000, 0), token("2", "seller", 2_000_000, 5)];
    let mut exchange = state(100, vec![creator("creator", 100)], listed);
    let before = exchange.clone();

    for payment in [1, 999_999, 1_000_000, 1_009_999] {
        let err = buy_token(&mut exchange, "1".to_string(), &paying("buyer", payment), env(10), 0)
            .unwrap_err();
        assert_eq!(err, ContractError::InsufficientFunds {});
        assert_eq!(exchange, before);
    }
}

#[test]
fn buy_at_exactly_price_plus_royalty_succeeds() {
    let mut exchange =
        state(100, vec![creator("creator", 100)], vec![token("1", "seller", 1_000_000, 0)]);

    let response =
        buy_token(&mut exchange, "1".to_string(), &paying("buyer", 1_010_000), env(10), 0).unwrap();

    assert_eq!(
        response.messages,
        vec![
            send("creator", 10_000),
            send(TREASURY, 30_300),
            send("seller", 959_700),
            transfer("buyer", "1"),
        ]
    );
}

#[test]
fn buy_with_more_than_enough_pays_out_no_more() {
    let mut exchange =
        state(100, vec![creator("creator", 100)], vec![token("1", "seller", 1_000_000, 0)]);

    let response =
        buy_token(&mut exchange, "1".to_string(), &paying("buyer", 5_000_000), env(10), 0).unwrap();

    assert_eq!(
        response.messages,
        vec![
            send("creator", 10_000),
            send(TREASURY, 30_300),
            send("seller", 959_700),
            transfer("buyer", "1"),
        ]
    );
}

#[test]
fn buy_without_usable_funds_is_refused() {
    let mut exchange = state(0, vec![], vec![token("1", "seller", 100, 0)]);
    let before = exchange.clone();
    let coin = |denom: &str, amount: u128| Coin { denom: denom.to_string(), amount };
    let funds = vec![
        vec![],
        vec![coin("inj", 0)],
        vec![coin("atom", 1_000)],
        vec![coin("INJ", 1_000)],
        vec![coin("inj", 1_000), coin("atom", 1)],
        vec![coin("inj", 500), coin("inj", 500)],
    ];

    for funds in funds {
        let info = MessageInfo { sender: "buyer".to_string(), funds };
        let err = buy_token(&mut exchange, "1".to_string(), &info, env(0), 0).unwrap_err();
        assert_eq!(err, ContractError::InsufficientFunds {});
        assert_eq!(exchange, before);
    }
}

#[test]
fn buy_is_refused_where_the_price_does_not_cover_the_deductions() {
    let mut exchange =
        state(100, vec![creator("creator", 100)], vec![token("1", "seller", 1_000_000, 0)]);
    let before = exchange.clone();

    // 1,000,000 - 10,000 - 30,300 leaves 959,700 for the flat deduction.
    let err =
        buy_token(&mut exchange, "1".to_string(), &paying("buyer", 1_010_000), env(0), 959_701)
            .unwrap_err();
    assert_eq!(err, ContractError::InsufficientFunds {});
    assert_eq!(exchange, before);

    let err = buy_token(
        &mut exchange,
        "1".to_string(),
        &paying("buyer", 1_010_000),
        env(0),
        FLAT_DEDUCTION,
    )
    .unwrap_err();
    assert_eq!(err, ContractError::InsufficientFunds {});
    assert_eq!(exchange, before);

    let response =
        buy_token(&mut exchange, "1".to_string(), &paying("buyer", 1_010_000), env(0), 959_700)
            .unwrap();
    assert_eq!(response.messages[2], send("seller", 0));
}

#[test]
fn buy_is_refused_where_the_royalty_takes_the_whole_price() {
    let mut exchange =
        state(10_000, vec![creator("creator", 100)], vec![token("1", "seller", 100, 0)]);

    let err =
        buy_token(&mut exchange, "1".to_string(), &paying("buyer", 200), env(0), 0).unwrap_err();

    assert_eq!(err, ContractError::InsufficientFunds {});
}

#[test]
fn buy_of_a_free_listing() {
    let mut exchange = state(690, vec![creator("creator", 100)], vec![token("1", "seller", 0, 0)]);

    let response =
        buy_token(&mut exchange, "1".to_string(), &paying("buyer", 1), env(0), 0).unwrap();

    assert_eq!(
        response.messages,
        vec![send("creator", 0), send(TREASURY, 0), send("seller", 0), transfer("buyer", "1")]
    );
}

#[test]
fn buy_at_a_price_that_no_payment_can_cover() {
    let mut exchange =
        state(1, vec![creator("creator", 100)], vec![token("1", "seller", u128::MAX, 0)]);

    let err = buy_token(&mut exchange, "1".to_string(), &paying("buyer", u128::MAX), env(0), 0)
        .unwrap_err();

    assert_eq!(err, ContractError::InsufficientFunds {});
}

#[test]
fn buy_at_the_largest_price_without_royalty() {
    let mut exchange = state(0, vec![], vec![token("1", "seller", u128::MAX, 0)]);

    let response =
        buy_token(&mut exchange, "1".to_string(), &paying("buyer", u128::MAX), env(0), 0).unwrap();

    let fee = 10_208_471_007_628_153_903_901_238_222_953_046_343;
    assert_eq!(
        response.messages,
        vec![send(TREASURY, fee), send("seller", u128::MAX - fee), transfer("buyer", "1")]
    );
}

#[test]
fn buy_of_an_unknown_token_is_not_found() {
    let mut exchange = state(100, vec![], vec![token("1", "seller", 100, 0)]);
    let before = exchange.clone();

    let err =
        buy_token(&mut exchange, "2".to_string(), &paying("buyer", 1_000), env(0), 0).unwrap_err();

    assert_eq!(err, ContractError::NotFound {});
    assert_eq!(exchange, before);
}

#[test]
fn buy_of_a_lapsed_listing_is_not_found_and_changes_nothing() {
    let listed = vec![token("1", "seller", 100, 50), token("2", "seller", 200, 0)];
    let mut exchange = state(100, vec![], listed);
    let before = exchange.clone();

    let err =
        buy_token(&mut exchange, "1".to_string(), &paying("buyer", 1_000), env(50), 0).unwrap_err();

    assert_eq!(err, ContractError::NotFound {});
    assert_eq!(exchange, before);

    assert!(buy_token(&mut exchange, "1".to_string(), &paying("buyer", 1_000), env(49), 0).is_ok());
}

#[test]
fn buy_sweeps_the_listings_that_have_lapsed() {
    let listed = vec![
        token("old", "a", 1, 10),
        token("target", "b", 2, 0),
        token("fresh", "c", 3, 1_000),
        token("older", "d", 4, 1),
        token("lasting", "e", 5, 0),
    ];
    let mut exchange = state(0, vec![], listed);

    buy_token(&mut exchange, "target".to_string(), &paying("buyer", 2), env(100), 0).unwrap();

    assert_eq!(exchange.listed, vec![token("fresh", "c", 3, 1_000), token("lasting", "e", 5, 0)]);
}

#[test]
fn buy_removes_the_target_and_leaves_the_others_untouched() {
    let listed = vec![
        token("a", "s1", 10, 0),
        token("b", "s2", 20, 500),
        token("c", "s3", 30, 0),
        token("d", "s4", 40, 0),
    ];
    let mut exchange = state(250, vec![creator("creator", 40)], listed);
    let mut expected = exchange.clone();
    expected.listed.remove(2);

    buy_token(&mut exchange, "c".to_string(), &paying("buyer", 31), env(100), 0).unwrap();

    assert_eq!(exchange, expected);
}

#[test]
fn buy_puts_the_rest_of_the_table_in_price_order() {
    let listed = vec![token("c", "s", 30, 0), token("a", "s", 10, 0), token("b", "s", 20, 0)];
    let mut exchange = state(0, vec![], listed);

    buy_token(&mut exchange, "a".to_string(), &paying("buyer", 10), env(0), 0).unwrap();

    assert_eq!(ids(&exchange.listed), vec!["b", "c"]);
}

#[test]
fn buy_with_a_royalty_configuration_out_of_range_is_refused() {
    let listed = vec![token("1", "seller", 100, 0)];
    let mut too_high = state(10_001, vec![], clone(&listed));
    let mut too_many = state(100, vec![creator("a", 60), creator("b", 41)], listed);

    let err =
        buy_token(&mut too_high, "1".to_string(), &paying("buyer", 1_000), env(0), 0).unwrap_err();
    assert_eq!(err, ContractError::InvalidRoyalties {});

    let err =
        buy_token(&mut too_many, "1".to_string(), &paying("buyer", 1_000), env(0), 0).unwrap_err();
    assert_eq!(err, ContractError::InvalidRoyalties {});
    assert_eq!(too_many.listed.len(), 1);
}

fn clone(table: &[Token]) -> Vec<Token> {
    table.to_vec()
}

#[test]
fn list_enters_the_listing_in_price_order() {
    let mut exchange = state(100, vec![], vec![token("a", "x", 10, 0), token("b", "y", 30, 0)]);

    let seller = "seller".to_string();
    let response =
        list_token(&mut exchange, "c".to_string(), 20, 77, seller, &approved("seller")).unwrap();

    assert_eq!(response.attributes.len(), 1);
    assert_eq!(response.attributes[0].key, "action");
    assert_eq!(response.attributes[0].value, "increment");
    assert!(response.messages.is_empty());
    assert_eq!(
        exchange.listed,
        vec![token("a", "x", 10, 0), token("c", "seller", 20, 77), token("b", "y", 30, 0)]
    );
}

#[test]
fn list_behind_listings_of_the_same_price() {
    let mut exchange = state(100, vec![], vec![token("a", "x", 10, 0), token("b", "y", 10, 0)]);

    list_token(&mut exchange, "c".to_string(), 10, 0, "seller".to_string(), &approved("seller"))
        .unwrap();

    assert_eq!(ids(&exchange.listed), vec!["a", "b", "c"]);
}

#[test]
fn list_by_someone_else_than_the_owner_is_unauthorized() {
    let mut exchange = state(100, vec![], vec![token("a", "x", 10, 0)]);
    let before = exchange.clone();

    let err =
        list_token(&mut exchange, "c".to_string(), 20, 0, "thief".to_string(), &approved("seller"))
            .unwrap_err();

    assert_eq!(err, ContractError::Unauthorized {});
    assert_eq!(exchange, before);
}

#[test]
fn list_without_an_approval_is_unauthorized() {
    let mut exchange = state(100, vec![], vec![token("a", "x", 10, 0)]);
    let before = exchange.clone();
    let resp = GetOwnerResponse { owner: "seller".to_string(), approvals: vec![] };

    let err = list_token(&mut exchange, "c".to_string(), 20, 0, "seller".to_string(), &resp)
        .unwrap_err();

    assert_eq!(err, ContractError::Unauthorized {});
    assert_eq!(exchange, before);
}

#[test]
fn list_of_a_listed_token_is_unauthorized_whatever_the_price() {
    let mut exchange = state(100, vec![], vec![token("a", "seller", 10, 0)]);
    let before = exchange.clone();

    let err =
        list_token(&mut exchange, "a".to_string(), 99, 5, "seller".to_string(), &approved("seller"))
            .unwrap_err();

    assert_eq!(err, ContractError::Unauthorized {});
    assert_eq!(exchange, before);
}

#[test]
fn list_again_after_a_sale() {
    let mut exchange = state(0, vec![], vec![]);

    list_token(&mut exchange, "a".to_string(), 10, 0, "seller".to_string(), &approved("seller"))
        .unwrap();
    buy_token(&mut exchange, "a".to_string(), &paying("buyer", 10), env(0), 0).unwrap();
    list_token(&mut exchange, "a".to_string(), 12, 0, "buyer".to_string(), &approved("buyer"))
        .unwrap();

    assert_eq!(exchange.listed, vec![token("a", "buyer", 12, 0)]);
}

#[test]
fn delist_of_an_unknown_token_is_not_found() {
    let mut exchange = state(100, vec![], vec![token("a", "seller", 10, 0)]);
    let before = exchange.clone();

    let err = delist_token(&mut exchange, "b".to_string(), &sender("seller"), env(0)).unwrap_err();

    assert_eq!(err, ContractError::NotFound {});
    assert_eq!(exchange, before);

    let mut empty = state(100, vec![], vec![]);
    let err = delist_token(&mut empty, "a".to_string(), &sender("seller"), env(0)).unwrap_err();
    assert_eq!(err, ContractError::NotFound {});
}

#[test]
fn delist_by_someone_else_than_the_seller_changes_nothing() {
    let mut exchange = state(100, vec![], vec![token("a", "seller", 10, 0)]);
    let before = exchange.clone();

    let err = delist_token(&mut exchange, "a".to_string(), &sender("other"), env(0)).unwrap_err();

    assert_eq!(err, ContractError::Unauthorized {});
    assert_eq!(exchange, before);
}

#[test]
fn delist_takes_out_the_listing_and_no_other() {
    let listed = vec![token("a", "s1", 10, 0), token("b", "s2", 20, 1), token("c", "s3", 30, 0)];
    let mut exchange = state(100, vec![creator("creator", 100)], listed);
    let mut expected = exchange.clone();
    expected.listed.remove(1);

    delist_token(&mut exchange, "b".to_string(), &sender("s2"), env(1_000)).unwrap();

    assert_eq!(exchange, expected);
}
