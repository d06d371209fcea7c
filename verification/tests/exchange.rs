use nebula_exchange::chain::{
    BankSend, Coin, Env, Instruction, MessageInfo, RegistryCall, Response, WasmExecute, TREASURY,
};
use nebula_exchange::contract::execute::Messages;
use nebula_exchange::contract::{
    execute, instantiate, query, registry_query, Approval, GetOwnerResponse, QueryResponse,
    RegistryAnswer, RegistryQuery,
};
use nebula_exchange::msg::{
    Creator, ExecuteMsg, InstantiateMsg, OwnerOf, QueryMsg, Revoke, Rmessage, SendTokenMsg,
    Tmessage,
};
use nebula_exchange::fees::FLAT_DEDUCTION;
use nebula_exchange::state::{State, Token};
use nebula_exchange::ContractError;

const NFT: &str = "contract0";
const EXCHANGE: &str = "contract1";

fn instantiate_msg() -> InstantiateMsg {
    InstantiateMsg {
        collection: "collection".to_string(),
        contract: NFT.to_string(),
        description: "Test collection on Nebula".to_string(),
        symbol: "TEST".to_string(),
        logo_uri: "https://example.com/logo.png".to_string(),
        banner_uri: "https://example.com/banner.png".to_string(),
        supply: 100,
        creators: vec![Creator { address: "creator".to_string(), share: 100 }],
        basis_points: 100,
    }
}

fn env() -> Env {
    Env { time: 1_571_797_419, contract_address: EXCHANGE.to_string() }
}

fn info(sender: &str, funds: Vec<Coin>) -> MessageInfo {
    MessageInfo { sender: sender.to_string(), funds }
}

fn coins(amount: u128, denom: &str) -> Vec<Coin> {
    vec![Coin { denom: denom.to_string(), amount }]
}

/// What the registry says of token 0 once "owner" has minted it and approved the exchange.
fn minted_and_approved() -> RegistryAnswer {
    RegistryAnswer::OwnerOf(GetOwnerResponse {
        owner: "owner".to_string(),
        approvals: vec![Approval { spender: EXCHANGE.to_string() }],
    })
}

fn list_msg() -> ExecuteMsg {
    ExecuteMsg::List { id: 0.to_string(), price: 1000000, expires: 0 }
}

fn exchange() -> State {
    instantiate(instantiate_msg(), "owner".to_string())
        .expect("contract failed to instantiate")
        .0
}

fn exchange_with_listing() -> State {
    let mut state = exchange();
    execute(&mut state, env(), info("owner", vec![]), list_msg(), minted_and_approved(), 0)
        .expect("could not list");
    state
}

#[test]
fn init() {
    instantiate(instantiate_msg(), "owner".to_string()).expect("contract failed to instantiate");
}

#[test]
fn list() {
    let mut state = exchange();

    execute(&mut state, env(), info("owner", vec![]), list_msg(), minted_and_approved(), 0)
        .expect("could not list");
}

#[test]
fn buy() {
    let mut state = exchange_with_listing();

    execute(
        &mut state,
        env(),
        info("buyer", coins(1010000, "inj")),
        ExecuteMsg::Buy { id: 0.to_string() },
        RegistryAnswer::Nothing,
        0,
    )
    .expect("could not buy");
}

#[test]
fn dup_listing() {
    // should pass
    let mut state = exchange_with_listing();

    let err: ContractError =
        execute(&mut state, env(), info("owner", vec![]), list_msg(), minted_and_approved(), 0)
            .unwrap_err();

    assert_eq!(err, ContractError::Unauthorized {});
}

#[test]
fn delist_deauth() {
    let mut state = exchange_with_listing();

    let err: ContractError = execute(
        &mut state,
        env(),
        info("bad_actor", vec![]),
        ExecuteMsg::DeList { id: 0.to_string() },
        RegistryAnswer::Nothing,
        0,
    )
    .unwrap_err();

    assert_eq!(err, ContractError::Unauthorized {});
}

#[test]
fn delist() {
    let mut state = exchange_with_listing();

    execute(
        &mut state,
        env(),
        info("owner", vec![]),
        ExecuteMsg::DeList { id: 0.to_string() },
        RegistryAnswer::Nothing,
        0,
    )
    .expect("could not delist");
}

#[test]
fn instantiate_fills_the_state_from_the_message() {
    let (state, response) = instantiate(instantiate_msg(), "owner".to_string()).unwrap();

    assert!(!state.flagged);
    assert_eq!(state.collection, "collection");
    assert_eq!(state.contract, NFT);
    assert_eq!(state.description, "Test collection on Nebula");
    assert_eq!(state.symbol, "TEST");
    assert_eq!(state.logo_uri, "https://example.com/logo.png");
    assert_eq!(state.banner_uri, "https://example.com/banner.png");
    assert_eq!(state.supply, 100);
    assert_eq!(state.owner, "owner");
    assert_eq!(state.royalties.seller_fee_basis_points, 100);
    assert_eq!(
        state.royalties.creators,
        vec![Creator { address: "creator".to_string(), share: 100 }]
    );
    assert!(state.listed.is_empty());
    assert_eq!(state.contact, "");
    assert_eq!(state.discord, "");
    assert_eq!(state.twitter, "");
    assert_eq!(state.telegram, "");
    assert_eq!(state.website, "");
    assert_eq!(response.attributes.len(), 1);
    assert_eq!(response.attributes[0].key, "method");
    assert_eq!(response.attributes[0].value, "instantiate");
    assert!(response.messages.is_empty());
}

#[test]
fn instantiate_refuses_shares_above_the_whole_pool() {
    let mut msg = instantiate_msg();
    msg.creators.push(Creator { address: "second".to_string(), share: 1 });

    assert_eq!(
        instantiate(msg, "owner".to_string()).unwrap_err(),
        ContractError::InvalidRoyalties {}
    );
}

#[test]
fn instantiate_refuses_a_rate_above_the_whole_price() {
    let mut msg = instantiate_msg();
    msg.basis_points = 10_001;

    assert_eq!(
        instantiate(msg, "owner".to_string()).unwrap_err(),
        ContractError::InvalidRoyalties {}
    );
}

#[test]
fn instantiate_accepts_the_largest_rate_and_no_creators() {
    let mut msg = instantiate_msg();
    msg.basis_points = 10_000;
    msg.creators = vec![];

    assert!(instantiate(msg, "owner".to_string()).is_ok());
}

#[test]
fn registry_query_names_what_each_command_needs() {
    assert_eq!(
        registry_query(&list_msg()),
        RegistryQuery::OwnerOf(OwnerOf { token_id: "0".to_string() })
    );
    assert_eq!(registry_query(&ExecuteMsg::Buy { id: "0".to_string() }), RegistryQuery::Nothing);
    assert_eq!(
        registry_query(&ExecuteMsg::DeList { id: "0".to_string() }),
        RegistryQuery::Nothing
    );
    assert_eq!(registry_query(&ExecuteMsg::Flag { enabled: true }), RegistryQuery::Authority);
    assert_eq!(
        registry_query(&ExecuteMsg::UpdateMetadata {
            creators: None,
            collection: None,
            website: None,
            contact: None,
            twitter: None,
            telegram: None,
            discord: None,
            description: None,
            logo_uri: None,
            banner_uri: None,
            basis_points: None,
        }),
        RegistryQuery::Authority
    );
}

#[test]
fn list_without_an_answer_of_the_registry_is_unauthorized() {
    let mut state = exchange();

    let err =
        execute(&mut state, env(), info("owner", vec![]), list_msg(), RegistryAnswer::Nothing, 0)
            .unwrap_err();

    assert_eq!(err, ContractError::Unauthorized {});
    assert_eq!(state, exchange());
}

#[test]
fn flag_through_execute_needs_the_authority() {
    let mut state = exchange();

    let err = execute(
        &mut state,
        env(),
        info("owner", vec![]),
        ExecuteMsg::Flag { enabled: true },
        RegistryAnswer::Nothing,
        0,
    )
    .unwrap_err();
    assert_eq!(err, ContractError::Unauthorized {});
    assert!(!state.flagged);

    let response = execute(
        &mut state,
        env(),
        info("owner", vec![]),
        ExecuteMsg::Flag { enabled: true },
        RegistryAnswer::Authority("owner".to_string()),
        0,
    )
    .unwrap();
    assert_eq!(response, Response { attributes: vec![], messages: vec![] });
    assert!(state.flagged);
}

#[test]
fn buy_then_buy_again_is_not_found() {
    let mut state = exchange_with_listing();
    assert_eq!(
        state.listed,
        vec![Token {
            id: "0".to_string(),
            owner: "owner".to_string(),
            is_listed: true,
            price: 1_000_000,
            expires: 0,
        }]
    );

    let response = execute(
        &mut state,
        env(),
        info("buyer", coins(1_010_000, "inj")),
        ExecuteMsg::Buy { id: "0".to_string() },
        RegistryAnswer::Nothing,
        0,
    )
    .unwrap();

    let send = |to: &str, amount: u128| Instruction {
        msg: Messages::Bank(BankSend {
            to_address: to.to_string(),
            amount,
            denom: "inj".to_string(),
        }),
        best_effort: false,
    };
    assert_eq!(
        response,
        Response {
            attributes: vec![],
            messages: vec![
                send("creator", 10_000),
                send(TREASURY, 30_300),
                send("owner", 959_700),
                Instruction {
                    msg: Messages::Execute(WasmExecute {
                        contract_addr: NFT.to_string(),
                        msg: RegistryCall::Transfer(Tmessage {
                            transfer_nft: SendTokenMsg {
                                recipient: "buyer".to_string(),
                                token_id: "0".to_string(),
                            },
                        }),
                    }),
                    best_effort: false,
                },
            ],
        }
    );
    assert!(state.listed.is_empty());

    let sold_out = state.clone();
    let err = execute(
        &mut state,
        env(),
        info("buyer", coins(1_010_000, "inj")),
        ExecuteMsg::Buy { id: "0".to_string() },
        RegistryAnswer::Nothing,
        0,
    )
    .unwrap_err();
    assert_eq!(err, ContractError::NotFound {});
    assert_eq!(state, sold_out);
}

#[test]
fn list_then_delist_leaves_no_listing_and_revokes_the_approval() {
    let mut state = exchange_with_listing();

    let response = execute(
        &mut state,
        env(),
        info("owner", vec![]),
        ExecuteMsg::DeList { id: "0".to_string() },
        RegistryAnswer::Nothing,
        0,
    )
    .unwrap();

    assert!(state.listed.is_empty());
    assert_eq!(response.attributes.len(), 1);
    assert_eq!(response.attributes[0].key, "action");
    assert_eq!(response.attributes[0].value, "delist");
    assert_eq!(
        response.messages,
        vec![Instruction {
            msg: Messages::Execute(WasmExecute {
                contract_addr: NFT.to_string(),
                msg: RegistryCall::Revoke(Rmessage {
                    revoke: Revoke { spender: EXCHANGE.to_string(), token_id: "0".to_string() },
                }),
            }),
            best_effort: true,
        }]
    );
}

#[test]
fn query_answers_from_the_state() {
    let mut state = exchange_with_listing();
    state.flagged = true;
    state.website = "https://example.com".to_string();

    match query(&state, QueryMsg::GetMetadata {}) {
        QueryResponse::Metadata(metadata) => {
            assert!(metadata.flagged);
            assert_eq!(metadata.collection, "collection");
            assert_eq!(metadata.description, "Test collection on Nebula");
            assert_eq!(metadata.symbol, "TEST");
            assert_eq!(metadata.logo_uri, "https://example.com/logo.png");
            assert_eq!(metadata.banner_uri, "https://example.com/banner.png");
            assert_eq!(metadata.supply, 100);
            assert_eq!(metadata.contract, NFT);
            assert_eq!(metadata.website, "https://example.com");
            assert_eq!(metadata.contact, "");
            assert_eq!(metadata.twitter, "");
            assert_eq!(metadata.telegram, "");
            assert_eq!(metadata.discord, "");
        }
        other => panic!("unexpected answer {:?}", other),
    }
    match query(&state, QueryMsg::GetListed {}) {
        QueryResponse::Listed(listed) => assert_eq!(listed, state.listed),
        other => panic!("unexpected answer {:?}", other),
    }
}

fn approved(owner: &str) -> RegistryAnswer {
    RegistryAnswer::OwnerOf(GetOwnerResponse {
        owner: owner.to_string(),
        approvals: vec![Approval { spender: EXCHANGE.to_string() }],
    })
}

fn no_token_listed_twice(state: &State) -> bool {
    let table = &state.listed;
    (0..table.len()).all(|i| (i + 1..table.len()).all(|j| table[i].id != table[j].id))
}

fn prices_ascend(state: &State) -> bool {
    state.listed.windows(2).all(|pair| pair[0].price <= pair[1].price)
}

#[test]
fn no_sequence_of_commands_lists_a_token_twice() {
    let mut state = exchange();
    let list = |id: &str, price: u128, expires: i128| ExecuteMsg::List {
        id: id.to_string(),
        price,
        expires,
    };
    let buy = |id: &str| ExecuteMsg::Buy { id: id.to_string() };
    let delist = |id: &str| ExecuteMsg::DeList { id: id.to_string() };
    let commands = vec![
        ("alice", 0, list("a", 300, 0), approved("alice"), true),
        ("alice", 0, list("a", 100, 0), approved("alice"), false),
        ("bob", 0, list("b", 200, 2_000_000_000), approved("bob"), true),
        ("carol", 0, list("c", 200, 1), approved("carol"), true),
        ("carol", 0, list("c", 50, 0), approved("carol"), false),
        ("dave", 0, list("d", 100, 0), approved("dave"), true),
        ("mallory", 0, delist("a"), RegistryAnswer::Nothing, false),
        ("erin", 101, buy("d"), RegistryAnswer::Nothing, true),
        ("erin", 101, buy("d"), RegistryAnswer::Nothing, false),
        ("carol", 0, list("c", 50, 0), approved("carol"), true),
        ("erin", 0, list("d", 400, 0), approved("erin"), true),
        ("bob", 0, list("b", 1, 0), approved("bob"), false),
        ("alice", 0, delist("a"), RegistryAnswer::Nothing, true),
        ("alice", 0, list("a", 50, 0), approved("alice"), true),
        ("frank", 1, buy("b"), RegistryAnswer::Nothing, false),
        ("frank", 202, buy("b"), RegistryAnswer::Nothing, true),
    ];

    for (sender, payment, msg, answer, accepted) in commands {
        let funds = if payment == 0 { vec![] } else { coins(payment, "inj") };
        let result = execute(&mut state, env(), info(sender, funds), msg, answer, 0);

        assert_eq!(result.is_ok(), accepted);
        assert!(no_token_listed_twice(&state));
        assert!(prices_ascend(&state));
    }

    let listed: Vec<(&str, &str, u128)> =
        state.listed.iter().map(|t| (t.id.as_str(), t.owner.as_str(), t.price)).collect();
    assert_eq!(listed, vec![("c", "carol", 50), ("a", "alice", 50), ("d", "erin", 400)]);
}

#[test]
fn update_metadata_through_execute() {
    let mut state = exchange_with_listing();
    let update = || ExecuteMsg::UpdateMetadata {
        creators: None,
        collection: None,
        website: Some("https://example.com".to_string()),
        contact: None,
        twitter: None,
        telegram: None,
        discord: None,
        description: None,
        logo_uri: None,
        banner_uri: None,
        basis_points: Some(690),
    };
    let before = state.clone();

    let err = execute(
        &mut state,
        env(),
        info("owner", vec![]),
        update(),
        RegistryAnswer::Authority("someone else".to_string()),
        0,
    )
    .unwrap_err();
    assert_eq!(err, ContractError::Unauthorized {});
    assert_eq!(state, before);

    let err = execute(&mut state, env(), info("owner", vec![]), update(), minted_and_approved(), 0)
        .unwrap_err();
    assert_eq!(err, ContractError::Unauthorized {});
    assert_eq!(state, before);

    execute(
        &mut state,
        env(),
        info("owner", vec![]),
        update(),
        RegistryAnswer::Authority("owner".to_string()),
        0,
    )
    .unwrap();
    let mut expected = before;
    expected.website = "https://example.com".to_string();
    expected.royalties.seller_fee_basis_points = 690;
    assert_eq!(state, expected);
}

#[test]
fn the_standard_deduction_is_withheld_from_the_seller() {
    let mut state = exchange();
    execute(
        &mut state,
        env(),
        info("owner", vec![]),
        ExecuteMsg::List { id: "0".to_string(), price: 1_000_000_000_000_000_000, expires: 0 },
        minted_and_approved(),
        FLAT_DEDUCTION,
    )
    .unwrap();

    let response = execute(
        &mut state,
        env(),
        info("buyer", coins(1_010_000_000_000_000_000, "inj")),
        ExecuteMsg::Buy { id: "0".to_string() },
        RegistryAnswer::Nothing,
        FLAT_DEDUCTION,
    )
    .unwrap();

    let amounts: Vec<u128> = response
        .messages
        .iter()
        .filter_map(|instruction| match &instruction.msg {
            Messages::Bank(send) => Some(send.amount),
            Messages::Execute(_) => None,
        })
        .collect();
    assert_eq!(
        amounts,
        vec![10_000_000_000_000_000, 30_300_000_000_000_000, 959_699_999_999_000_000]
    );
}
