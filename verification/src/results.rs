use vstd::prelude::*;

verus! {

/// The views of the items of a list, in order.
pub open spec fn views<T: View>(items: Seq<T>) -> Seq<T::V> {
    Seq::new(items.len(), |i: int| items[i]@)
}

/// An amount of a native denom.
#[derive(Debug, PartialEq, Eq)]
pub struct Coin {
    pub denom: String,
    pub amount: u128,
}

/// A `Coin` with its denom as a character sequence.
pub struct CoinView {
    pub denom: Seq<char>,
    pub amount: u128,
}

impl View for Coin {
    type V = CoinView;

    open spec fn view(&self) -> CoinView {
        CoinView { denom: self.denom@, amount: self.amount }
    }
}

/// A key and value reported with a response, for observers.
#[derive(Debug, PartialEq, Eq)]
pub struct Attribute {
    pub key: String,
    pub value: String,
}

/// An `Attribute` with its texts as character sequences.
pub struct AttributeView {
    pub key: Seq<char>,
    pub value: Seq<char>,
}

impl View for Attribute {
    type V = AttributeView;

    open spec fn view(&self) -> AttributeView {
        AttributeView { key: self.key@, value: self.value@ }
    }
}

/// A request to the bank module.
#[derive(Debug, PartialEq, Eq)]
pub enum BankMsg {
    /// Send native coins from the pool to `to_address`. The amounts are what
    /// the pool gives up; a tax that the chain withholds on the transfer comes
    /// out of them.
    Send { to_address: String, amount: Vec<Coin> },
}

/// A `BankMsg` with its texts as character sequences and its coins by their
/// views.
pub enum BankMsgView {
    Send { to_address: Seq<char>, amount: Seq<CoinView> },
}

impl View for BankMsg {
    type V = BankMsgView;

    open spec fn view(&self) -> BankMsgView {
        match self {
            BankMsg::Send { to_address, amount } => BankMsgView::Send {
                to_address: to_address@,
                amount: views(amount@),
            },
        }
    }
}

/// A request to another contract. `msg` is the JSON body of the call.
#[derive(Debug, PartialEq, Eq)]
pub enum WasmMsg {
    Execute { contract_addr: String, msg: Vec<u8>, funds: Vec<Coin> },
    Instantiate {
        admin: Option<String>,
        code_id: u64,
        msg: Vec<u8>,
        funds: Vec<Coin>,
        label: String,
    },
}

/// A `WasmMsg` with its texts as character sequences, its body as a byte
/// sequence and its coins by their views.
pub enum WasmMsgView {
    Execute { contract_addr: Seq<char>, msg: Seq<u8>, funds: Seq<CoinView> },
    Instantiate {
        admin: Option<Seq<char>>,
        code_id: u64,
        msg: Seq<u8>,
        funds: Seq<CoinView>,
        label: Seq<char>,
    },
}

impl View for WasmMsg {
    type V = WasmMsgView;

    open spec fn view(&self) -> WasmMsgView {
        match self {
            WasmMsg::Execute { contract_addr, msg, funds } => WasmMsgView::Execute {
                contract_addr: contract_addr@,
                msg: msg@,
                funds: views(funds@),
            },
            WasmMsg::Instantiate { admin, code_id, msg, funds, label } => WasmMsgView::Instantiate {
                admin: match admin {
                    Some(admin) => Some(admin@),
                    None => None,
                },
                code_id: *code_id,
                msg: msg@,
                funds: views(funds@),
                label: label@,
            },
        }
    }
}

/// A request that the pool hands to its environment to carry out.
#[derive(Debug, PartialEq, Eq)]
pub enum CosmosMsg {
    Bank(BankMsg),
    Wasm(WasmMsg),
}

/// A `CosmosMsg` by the view of the request it holds.
pub enum CosmosMsgView {
    Bank(BankMsgView),
    Wasm(WasmMsgView),
}

impl View for CosmosMsg {
    type V = CosmosMsgView;

    open spec fn view(&self) -> CosmosMsgView {
        match self {
            CosmosMsg::Bank(msg) => CosmosMsgView::Bank(msg@),
            CosmosMsg::Wasm(msg) => CosmosMsgView::Wasm(msg@),
        }
    }
}

/// On which outcomes of a request the pool is called back.
#[derive(Debug, PartialEq, Eq, Clone, Copy)]
pub enum ReplyOn {
    Always,
    Error,
    Success,
    Never,
}

/// A request together with the tag under which its outcome is reported back.
#[derive(Debug, PartialEq, Eq)]
pub struct SubMsg {
    pub id: u64,
    pub msg: CosmosMsg,
    pub gas_limit: Option<u64>,
    pub reply_on: ReplyOn,
}

/// A `SubMsg` with its request by its view.
pub struct SubMsgView {
    pub id: u64,
    pub msg: CosmosMsgView,
    pub gas_limit: Option<u64>,
    pub reply_on: ReplyOn,
}

impl View for SubMsg {
    type V = SubMsgView;

    open spec fn view(&self) -> SubMsgView {
        SubMsgView { id: self.id, msg: self.msg@, gas_limit: self.gas_limit, reply_on: self.reply_on }
    }
}

impl SubMsg {
    /// A request whose success is reported back under `id`.
    pub fn reply_on_success(msg: CosmosMsg, id: u64) -> (r: SubMsg)
        ensures
            r@ == (SubMsgView { id, msg: msg@, gas_limit: None, reply_on: ReplyOn::Success }),
    {
        SubMsg { id, msg, gas_limit: None, reply_on: ReplyOn::Success }
    }
}

/// What an entry point hands back: requests to carry out, in order, and
/// attributes to report.
#[derive(Debug, PartialEq, Eq)]
pub struct Response {
    pub messages: Vec<SubMsg>,
    pub attributes: Vec<Attribute>,
}

/// A `Response` with its requests and attributes by their views.
pub struct ResponseView {
    pub messages: Seq<SubMsgView>,
    pub attributes: Seq<AttributeView>,
}

impl View for Response {
    type V = ResponseView;

    open spec fn view(&self) -> ResponseView {
        ResponseView { messages: views(self.messages@), attributes: views(self.attributes@) }
    }
}

impl Response {
    /// A response with no requests and no attributes.
    pub fn new() -> (r: Response)
        ensures
            r@ == (ResponseView { messages: Seq::empty(), attributes: Seq::empty() }),
    {
        let r = Response { messages: Vec::new(), attributes: Vec::new() };
        assert(r@.messages =~= Seq::empty());
        assert(r@.attributes =~= Seq::empty());
        r
    }

    /// The response with one more attribute at the end.
    pub fn add_attribute(self, key: String, value: String) -> (r: Response)
        ensures
            r@ == (ResponseView {
                messages: self@.messages,
                attributes: self@.attributes.push(AttributeView { key: key@, value: value@ }),
            }),
    {
        let mut r = self;
        r.attributes.push(Attribute { key, value });
        assert(r@.attributes =~= self@.attributes.push(AttributeView { key: key@, value: value@ }));
        r
    }

    /// The response with one more request at the end.
    pub fn add_submessage(self, msg: SubMsg) -> (r: Response)
        ensures
            r@ == (ResponseView {
                messages: self@.messages.push(msg@),
                attributes: self@.attributes,
            }),
    {
        let mut r = self;
        r.messages.push(msg);
        assert(r@.messages =~= self@.messages.push(msg@));
        r
    }
}

/// An attribute with the given key and value.
pub fn attr(key: String, value: String) -> (r: Attribute)
    ensures
        r@ == (AttributeView { key: key@, value: value@ }),
{
    Attribute { key, value }
}

} // verus!
