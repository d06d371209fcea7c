//! What the chain hands to an operation, and what an operation hands back: plain values in
//! both directions.

use crate::contract::execute::{Messages, MessagesView};
use crate::msg::{RevokeView, Rmessage, SendTokenMsgView, Tmessage};
use vstd::prelude::*;

verus! {

/// The denomination in which the exchange is paid and pays out.
pub const DENOM: &'static str = "inj";

/// The address of the platform treasury.
pub const TREASURY: &'static str = "inj1f4psdn7c7ap3aruu5zpex5p9a05k8qd077736v";

/// An amount of one denomination.
#[derive(Debug, PartialEq, Eq)]
pub struct Coin {
    pub denom: String,
    pub amount: u128,
}

/// A `Coin` as plain data.
pub struct CoinView {
    pub denom: Seq<char>,
    pub amount: u128,
}

impl View for Coin {
    type V = CoinView;

    open spec fn view(&self) -> CoinView {
        CoinView { denom: self.denom@, amount: self.amount }
    }
}

/// The coins of a list as plain data, in the same order.
pub open spec fn coins_view(coins: Seq<Coin>) -> Seq<CoinView> {
    coins.map_values(|c: Coin| c@)
}

/// The amount that the funds pay in `denom`: they are one coin of that denomination and
/// hold a positive amount. Funds of any other shape pay nothing.
pub open spec fn paid(funds: Seq<CoinView>, denom: Seq<char>) -> Option<u128> {
    if funds.len() == 1 && funds[0].amount != 0 && funds[0].denom == denom {
        Some(funds[0].amount)
    } else {
        None
    }
}

/// Who sent a command, and the funds attached to it.
#[derive(Debug, PartialEq, Eq)]
pub struct MessageInfo {
    pub sender: String,
    pub funds: Vec<Coin>,
}

/// A `MessageInfo` as plain data.
pub struct MessageInfoView {
    pub sender: Seq<char>,
    pub funds: Seq<CoinView>,
}

impl View for MessageInfo {
    type V = MessageInfoView;

    open spec fn view(&self) -> MessageInfoView {
        MessageInfoView { sender: self.sender@, funds: coins_view(self.funds@) }
    }
}

/// Where and when an operation runs.
#[derive(Debug, PartialEq, Eq)]
pub struct Env {
    /// The clock reading of the current block, in seconds of Unix time.
    pub time: u64,
    /// The address of the exchange itself.
    pub contract_address: String,
}

/// An `Env` as plain data.
pub struct EnvView {
    pub time: u64,
    pub contract_address: Seq<char>,
}

impl View for Env {
    type V = EnvView;

    open spec fn view(&self) -> EnvView {
        EnvView { time: self.time, contract_address: self.contract_address@ }
    }
}

/// A key and a value that describe what an operation did.
#[derive(Debug, PartialEq, Eq)]
pub struct Attribute {
    pub key: String,
    pub value: String,
}

impl View for Attribute {
    type V = (Seq<char>, Seq<char>);

    open spec fn view(&self) -> (Seq<char>, Seq<char>) {
        (self.key@, self.value@)
    }
}

/// The attributes of a list as plain data, in the same order.
pub open spec fn attributes_view(attributes: Seq<Attribute>) -> Seq<(Seq<char>, Seq<char>)> {
    attributes.map_values(|a: Attribute| a@)
}

/// An instruction to pay `amount` of `denom` to `to_address`.
#[derive(Debug, PartialEq, Eq)]
pub struct BankSend {
    pub to_address: String,
    pub amount: u128,
    pub denom: String,
}

/// A `BankSend` as plain data.
pub struct BankSendView {
    pub to_address: Seq<char>,
    pub amount: int,
    pub denom: Seq<char>,
}

impl View for BankSend {
    type V = BankSendView;

    open spec fn view(&self) -> BankSendView {
        BankSendView {
            to_address: self.to_address@,
            amount: self.amount as int,
            denom: self.denom@,
        }
    }
}

/// What the token registry is told to do.
#[derive(Debug, PartialEq, Eq)]
pub enum RegistryCall {
    /// Move a token to a new holder.
    Transfer(Tmessage),
    /// Withdraw an approval.
    Revoke(Rmessage),
}

/// A `RegistryCall` as plain data.
pub enum RegistryCallView {
    Transfer(SendTokenMsgView),
    Revoke(RevokeView),
}

impl View for RegistryCall {
    type V = RegistryCallView;

    open spec fn view(&self) -> RegistryCallView {
        match *self {
            RegistryCall::Transfer(m) => RegistryCallView::Transfer(m@),
            RegistryCall::Revoke(m) => RegistryCallView::Revoke(m@),
        }
    }
}

/// An instruction to call the contract at `contract_addr`, with no funds attached.
#[derive(Debug, PartialEq, Eq)]
pub struct WasmExecute {
    pub contract_addr: String,
    pub msg: RegistryCall,
}

/// A `WasmExecute` as plain data.
pub struct WasmExecuteView {
    pub contract_addr: Seq<char>,
    pub msg: RegistryCallView,
}

impl View for WasmExecute {
    type V = WasmExecuteView;

    open spec fn view(&self) -> WasmExecuteView {
        WasmExecuteView { contract_addr: self.contract_addr@, msg: self.msg@ }
    }
}

/// One outbound message and how its failure is to be treated.
#[derive(Debug, PartialEq, Eq)]
pub struct Instruction {
    pub msg: Messages,
    /// A failure of a best-effort instruction must not undo the operation that emitted it.
    pub best_effort: bool,
}

/// An `Instruction` as plain data.
pub struct InstructionView {
    pub msg: MessagesView,
    pub best_effort: bool,
}

impl View for Instruction {
    type V = InstructionView;

    open spec fn view(&self) -> InstructionView {
        InstructionView { msg: self.msg@, best_effort: self.best_effort }
    }
}

/// The instructions of a list as plain data, in the same order.
pub open spec fn instructions_view(instructions: Seq<Instruction>) -> Seq<InstructionView> {
    instructions.map_values(|i: Instruction| i@)
}

/// What a successful operation returns: attributes that describe it, and the instructions
/// that the chain carries out, in order.
#[derive(Debug, PartialEq, Eq)]
pub struct Response {
    pub attributes: Vec<Attribute>,
    pub messages: Vec<Instruction>,
}

/// A `Response` as plain data.
pub struct ResponseView {
    pub attributes: Seq<(Seq<char>, Seq<char>)>,
    pub messages: Seq<InstructionView>,
}

impl View for Response {
    type V = ResponseView;

    open spec fn view(&self) -> ResponseView {
        ResponseView {
            attributes: attributes_view(self.attributes@),
            messages: instructions_view(self.messages@),
        }
    }
}

impl ResponseView {
    /// A response without attributes or instructions.
    pub open spec fn empty() -> ResponseView {
        ResponseView { attributes: Seq::empty(), messages: Seq::empty() }
    }

    /// This response with one more attribute at the end.
    pub open spec fn with_attribute(self, key: Seq<char>, value: Seq<char>) -> ResponseView {
        ResponseView { attributes: self.attributes.push((key, value)), ..self }
    }

    /// This response with one more instruction at the end.
    pub open spec fn with_message(self, msg: MessagesView, best_effort: bool) -> ResponseView {
        ResponseView {
            messages: self.messages.push(InstructionView { msg, best_effort }),
            ..self
        }
    }
}

impl Response {
    /// A response without attributes or instructions.
    pub fn new() -> (response: Response)
        ensures
            response@ == ResponseView::empty(),
    {
        let response = Response { attributes: Vec::new(), messages: Vec::new() };
        assert(response@.attributes =~= Seq::empty());
        assert(response@.messages =~= Seq::empty());
        response
    }

    /// Appends an attribute.
    pub fn add_attribute(self, key: &str, value: &str) -> (response: Response)
        ensures
            response@ == self@.with_attribute(key@, value@),
    {
        let mut response = self;
        response.attributes.push(Attribute { key: key.to_owned(), value: value.to_owned() });
        assert(response@.attributes =~= self@.attributes.push((key@, value@)));
        response
    }

    /// Appends an instruction that has to succeed.
    pub fn add_message(self, msg: Messages) -> (response: Response)
        ensures
            response@ == self@.with_message(msg@, false),
    {
        let mut response = self;
        response.messages.push(Instruction { msg, best_effort: false });
        assert(response@.messages =~= self@.messages.push(
            InstructionView { msg: msg@, best_effort: false },
        ));
        response
    }

    /// Appends an instruction whose failure is ignored.
    pub fn add_best_effort_message(self, msg: Messages) -> (response: Response)
        ensures
            response@ == self@.with_message(msg@, true),
    {
        let mut response = self;
        response.messages.push(Instruction { msg, best_effort: true });
        assert(response@.messages =~= self@.messages.push(
            InstructionView { msg: msg@, best_effort: true },
        ));
        response
    }
}

} // verus!
