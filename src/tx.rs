//! Draft transactions: the messages, memo and code-check flag that a
//! submission signs and broadcasts.
use vstd::prelude::*;
use prost::Message;

verus! {

/// An amount of one coin denomination, as the chain writes it.
#[derive(Clone, Debug)]
pub struct Coin {
    pub denom: String,
    /// The amount in decimal digits.
    pub amount: String,
}

/// A coin as plain text: denomination and amount.
pub open spec fn coin_view(c: Coin) -> (Seq<char>, Seq<char>) {
    (c.denom@, c.amount@)
}

/// The protobuf encoding of a contract admin update by `sender` that hands
/// `contract` to `new_admin`.
pub uninterp spec fn update_admin_encoding(sender: Seq<char>, new_admin: Seq<char>, contract: Seq<char>) -> Seq<u8>;

/// The protobuf encoding of a contract execution by `sender` on `contract`
/// with JSON message `msg` and attached `funds`.
pub uninterp spec fn execute_contract_encoding(
    sender: Seq<char>,
    contract: Seq<char>,
    msg: Seq<u8>,
    funds: Seq<(Seq<char>, Seq<char>)>,
) -> Seq<u8>;

/// Relies on prost's `Message::encode_to_vec` for cosmos-sdk-proto's
/// `MsgUpdateAdmin`: a function of the three fields alone.
#[verifier::external_body]
fn encode_update_admin(sender: &String, new_admin: &String, contract: &String) -> (r: Vec<u8>)
    ensures
        r@ == update_admin_encoding(sender@, new_admin@, contract@),
{
    cosmos_sdk_proto::cosmwasm::wasm::v1::MsgUpdateAdmin {
        sender: sender.clone(),
        new_admin: new_admin.clone(),
        contract: contract.clone(),
    }.encode_to_vec()
}

/// Relies on prost's `Message::encode_to_vec` for cosmos-sdk-proto's
/// `MsgExecuteContract`: a function of the fields alone.
#[verifier::external_body]
fn encode_execute_contract(sender: &String, contract: &String, msg: &Vec<u8>, funds: &Vec<Coin>) -> (r: Vec<u8>)
    ensures
        r@ == execute_contract_encoding(sender@, contract@, msg@, funds@.map_values(|c: Coin| coin_view(c))),
{
    cosmos_sdk_proto::cosmwasm::wasm::v1::MsgExecuteContract {
        sender: sender.clone(),
        contract: contract.clone(),
        msg: msg.clone(),
        funds: funds.iter().map(|c| cosmos_sdk_proto::cosmos::base::v1beta1::Coin {
            denom: c.denom.clone(),
            amount: c.amount.clone(),
        }).collect(),
    }.encode_to_vec()
}

/// The type URL of a contract admin update.
pub open spec fn update_admin_type_url() -> Seq<char> {
    "/cosmwasm.wasm.v1.MsgUpdateAdmin"@
}

/// The type URL of a contract execution.
pub open spec fn execute_contract_type_url() -> Seq<char> {
    "/cosmwasm.wasm.v1.MsgExecuteContract"@
}

/// One message of a transaction: its type URL and its encoded payload,
/// which the engine carries without reading.
#[derive(Clone, Debug)]
pub struct TypedMessage {
    pub type_url: String,
    pub value: Vec<u8>,
}

impl View for TypedMessage {
    type V = (Seq<char>, Seq<u8>);

    open spec fn view(&self) -> (Seq<char>, Seq<u8>) {
        (self.type_url@, self.value@)
    }
}

impl TypedMessage {
    pub fn new(type_url: String, value: Vec<u8>) -> (r: TypedMessage)
        ensures
            r.type_url == type_url,
            r.value == value,
    {
        TypedMessage { type_url, value }
    }

    /// The type URL and payload.
    pub fn into_inner(self) -> (r: (String, Vec<u8>))
        ensures
            r.0 == self.type_url,
            r.1 == self.value,
    {
        (self.type_url, self.value)
    }
}

/// A draft transaction: messages in order, an optional memo, and whether
/// non-zero result codes are to be accepted.
pub struct TxBuilder {
    messages: Vec<TypedMessage>,
    memo: Option<String>,
    skip_code_check: bool,
}

impl TxBuilder {
    /// The messages, in the order they were added.
    pub closed spec fn messages_spec(&self) -> Seq<(Seq<char>, Seq<u8>)> {
        self.messages@.map_values(|m: TypedMessage| m@)
    }

    pub closed spec fn memo_spec(&self) -> Option<Seq<char>> {
        match self.memo {
            Some(m) => Some(m@),
            None => None,
        }
    }

    pub closed spec fn skip_code_check_spec(&self) -> bool {
        self.skip_code_check
    }

    /// An empty draft: no messages, no memo, result codes checked.
    pub fn new() -> (r: TxBuilder)
        ensures
            r.messages_spec() == Seq::<(Seq<char>, Seq<u8>)>::empty(),
            r.memo_spec() is None,
            !r.skip_code_check_spec(),
    {
        let r = TxBuilder { messages: Vec::new(), memo: None, skip_code_check: false };
        assert(r.messages@.map_values(|m: TypedMessage| m@) =~= Seq::<(Seq<char>, Seq<u8>)>::empty());
        r
    }

    pub fn add_message(self, msg: TypedMessage) -> (r: TxBuilder)
        ensures
            r.messages_spec() == self.messages_spec().push(msg@),
            r.memo_spec() == self.memo_spec(),
            r.skip_code_check_spec() == self.skip_code_check_spec(),
    {
        let mut r = self;
        r.add_message_mut(msg);
        r
    }

    pub fn add_message_mut(&mut self, msg: TypedMessage)
        ensures
            final(self).messages_spec() == old(self).messages_spec().push(msg@),
            final(self).memo_spec() == old(self).memo_spec(),
            final(self).skip_code_check_spec() == old(self).skip_code_check_spec(),
    {
        let ghost m = msg@;
        self.messages.push(msg);
        assert(self.messages@.map_values(|x: TypedMessage| x@) =~= old(self).messages@.map_values(
            |x: TypedMessage| x@,
        ).push(m));
    }

    /// Adds a message by which `wallet` hands the admin rights of
    /// `contract` to `new_admin`.
    pub fn add_update_contract_admin(self, contract: &str, wallet: &str, new_admin: &str) -> (r: TxBuilder)
        ensures
            r.messages_spec() == self.messages_spec().push(
                (update_admin_type_url(), update_admin_encoding(wallet@, new_admin@, contract@)),
            ),
            r.memo_spec() == self.memo_spec(),
            r.skip_code_check_spec() == self.skip_code_check_spec(),
    {
        let mut r = self;
        r.add_update_contract_admin_mut(contract, wallet, new_admin);
        r
    }

    pub fn add_update_contract_admin_mut(&mut self, contract: &str, wallet: &str, new_admin: &str)
        ensures
            final(self).messages_spec() == old(self).messages_spec().push(
                (update_admin_type_url(), update_admin_encoding(wallet@, new_admin@, contract@)),
            ),
            final(self).memo_spec() == old(self).memo_spec(),
            final(self).skip_code_check_spec() == old(self).skip_code_check_spec(),
    {
        let value = encode_update_admin(&wallet.to_owned(), &new_admin.to_owned(), &contract.to_owned());
        self.add_message_mut(TypedMessage {
            type_url: "/cosmwasm.wasm.v1.MsgUpdateAdmin".to_owned(),
            value,
        });
    }

    /// Adds a message by which `wallet` executes `contract` with the JSON
    /// message `msg`, attaching `funds`.
    pub fn add_execute_message(self, contract: &str, wallet: &str, funds: Vec<Coin>, msg: Vec<u8>) -> (r: TxBuilder)
        ensures
            r.messages_spec() == self.messages_spec().push(
                (
                    execute_contract_type_url(),
                    execute_contract_encoding(
                        wallet@,
                        contract@,
                        msg@,
                        funds@.map_values(|c: Coin| coin_view(c)),
                    ),
                ),
            ),
            r.memo_spec() == self.memo_spec(),
            r.skip_code_check_spec() == self.skip_code_check_spec(),
    {
        let mut r = self;
        r.add_execute_message_mut(contract, wallet, funds, msg);
        r
    }

    pub fn add_execute_message_mut(&mut self, contract: &str, wallet: &str, funds: Vec<Coin>, msg: Vec<u8>)
        ensures
            final(self).messages_spec() == old(self).messages_spec().push(
                (
                    execute_contract_type_url(),
                    execute_contract_encoding(
                        wallet@,
                        contract@,
                        msg@,
                        funds@.map_values(|c: Coin| coin_view(c)),
                    ),
                ),
            ),
            final(self).memo_spec() == old(self).memo_spec(),
            final(self).skip_code_check_spec() == old(self).skip_code_check_spec(),
    {
        let value = encode_execute_contract(&wallet.to_owned(), &contract.to_owned(), &msg, &funds);
        self.add_message_mut(TypedMessage {
            type_url: "/cosmwasm.wasm.v1.MsgExecuteContract".to_owned(),
            value,
        });
    }

    pub fn set_memo(self, memo: String) -> (r: TxBuilder)
        ensures
            r.messages_spec() == self.messages_spec(),
            r.memo_spec() == Some(memo@),
            r.skip_code_check_spec() == self.skip_code_check_spec(),
    {
        let mut r = self;
        r.memo = Some(memo);
        r
    }

    pub fn set_optional_memo(self, memo: Option<String>) -> (r: TxBuilder)
        ensures
            r.messages_spec() == self.messages_spec(),
            r.memo_spec() == (match memo {
                Some(m) => Some(m@),
                None => None::<Seq<char>>,
            }),
            r.skip_code_check_spec() == self.skip_code_check_spec(),
    {
        let mut r = self;
        r.memo = memo;
        r
    }

    /// When submitting, accept non-zero result codes instead of failing.
    pub fn skip_code_check(self, skip_code_check: bool) -> (r: TxBuilder)
        ensures
            r.messages_spec() == self.messages_spec(),
            r.memo_spec() == self.memo_spec(),
            r.skip_code_check_spec() == skip_code_check,
    {
        let mut r = self;
        r.skip_code_check = skip_code_check;
        r
    }

    /// Whether non-zero result codes are accepted.
    pub fn code_check_skipped(&self) -> (r: bool)
        ensures
            r == self.skip_code_check_spec(),
    {
        self.skip_code_check
    }

    /// The messages, in order.
    pub fn messages(&self) -> (r: &Vec<TypedMessage>)
        ensures
            r@.map_values(|m: TypedMessage| m@) == self.messages_spec(),
    {
        &self.messages
    }

    /// The memo of the transaction body: the memo set, or empty text.
    pub fn body_memo(&self) -> (r: String)
        ensures
            r@ == (match self.memo_spec() {
                Some(m) => m,
                None => Seq::<char>::empty(),
            }),
    {
        match &self.memo {
            Some(m) => m.clone(),
            None => String::new(),
        }
    }
}

impl Default for TxBuilder {
    fn default() -> (r: TxBuilder)
        ensures
            r.messages_spec() == Seq::<(Seq<char>, Seq<u8>)>::empty(),
            r.memo_spec() is None,
            !r.skip_code_check_spec(),
    {
        TxBuilder::new()
    }
}

} // verus!
