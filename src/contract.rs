//! The settlement engine: the token's state and the operations on it.
//!
//! Each operation either fails and leaves the state as it was, or applies
//! all of its changes and returns the attributes and outbound messages that
//! the host emits. Addresses arrive already validated by the host, and with
//! the code identifier the host found for each contract address.
use vstd::prelude::*;
use crate::allowances::{
    deduct_outcome, decrease_outcome, increase_outcome, AllowanceResponse, Allowances,
    BlockInfo, Expiration,
};
use crate::error::ContractError;
use crate::ledger::Ledger;
use crate::marketing::{
    instantiate_marketing, marketing_of, marketing_outcome, InstantiateMarketingInfo, Marketing,
};
use crate::tax::{TaxInfo, TaxMap};

verus! {

/// The environment of a call: the current block and this contract's address.
#[derive(Debug, Clone, PartialEq, Eq)]
pub struct Env {
    pub block: BlockInfo,
    pub contract: String,
}

/// The code identifiers the host looked up for the two parties of a
/// transfer; `None` for an address that is not a contract.
#[derive(Debug, Clone, Copy, PartialEq, Eq, Structural)]
pub struct CodeIds {
    pub payer: Option<u64>,
    pub recipient: Option<u64>,
}

/// Who may mint, and how far the supply may grow.
#[derive(Debug, Clone, PartialEq, Eq)]
pub struct MinterData {
    pub minter: String,
    /// The largest total supply that minting may reach.
    pub cap: Option<u128>,
}

/// The token's metadata and its total supply.
#[derive(Debug, Clone, PartialEq, Eq)]
pub struct TokenInfo {
    pub name: String,
    pub symbol: String,
    pub decimals: u8,
    pub total_supply: u128,
    pub mint: Option<MinterData>,
}

impl TokenInfo {
    pub open spec fn cap(&self) -> Option<u128> {
        match self.mint {
            Some(m) => m.cap,
            None => None,
        }
    }

    pub fn get_cap(&self) -> (r: Option<u128>)
        ensures
            r == self.cap(),
    {
        match &self.mint {
            Some(m) => m.cap,
            None => None,
        }
    }
}

/// The name of an operation, as reported in its `action` attribute.
#[derive(Debug, Clone, Copy, PartialEq, Eq, Structural)]
pub enum ActionKind {
    Transfer,
    TransferFrom,
    Send,
    SendFrom,
    Burn,
    BurnFrom,
    Mint,
    IncreaseAllowance,
    DecreaseAllowance,
    UpdateMinter,
    UpdateMarketing,
    UploadLogo,
}

/// One key-value attribute of a response.
#[derive(Debug, Clone, PartialEq, Eq)]
pub enum Attribute {
    Action(ActionKind),
    From(String),
    To(String),
    By(String),
    Owner(String),
    Spender(String),
    Amount(u128),
    Net(u128),
    Tax(u128),
    Proceeds(String),
    Admin(String),
    NewMinter(Option<String>),
}

/// An outbound action, executed by the host after the operation succeeds.
#[derive(Debug, Clone, PartialEq, Eq)]
pub enum Msg {
    /// Tells the contract `contract` that it received `amount` from
    /// `sender`, with the payload `msg`.
    Receive { contract: String, sender: String, amount: u128, msg: Vec<u8> },
    /// Calls this token contract (`contract`) to transfer `amount` of its own
    /// balance to `recipient`: the forwarding of escrowed tax.
    ForwardTax { contract: String, recipient: String, amount: u128 },
}

/// What a successful operation reports.
#[derive(Debug, Clone, PartialEq, Eq)]
pub struct Response {
    pub attributes: Vec<Attribute>,
    pub messages: Vec<Msg>,
}

/// The four transfer categories, each with its own tax rule.
#[derive(Debug, Clone, Copy, PartialEq, Eq, Structural)]
pub enum Category {
    Transfer,
    TransferFrom,
    Send,
    SendFrom,
}

impl TaxMap {
    /// The tax rule of a category.
    pub open spec fn rule_spec(&self, c: Category) -> TaxInfo {
        match c {
            Category::Transfer => self.on_transfer,
            Category::TransferFrom => self.on_transfer_from,
            Category::Send => self.on_send,
            Category::SendFrom => self.on_send_from,
        }
    }

    pub fn rule(&self, c: Category) -> (r: &TaxInfo)
        ensures
            *r == self.rule_spec(c),
    {
        match c {
            Category::Transfer => &self.on_transfer,
            Category::TransferFrom => &self.on_transfer_from,
            Category::Send => &self.on_send,
            Category::SendFrom => &self.on_send_from,
        }
    }
}

/// Everything the token stores.
pub struct State {
    pub token: TokenInfo,
    pub balances: Ledger,
    pub allowances: Allowances,
    pub tax_map: TaxMap,
    pub marketing: Marketing,
}

impl State {
    /// The stores are well formed, the balances add up to the total supply,
    /// and the tax map is valid.
    pub open spec fn wf(&self) -> bool {
        &&& self.balances.wf()
        &&& self.allowances.wf()
        &&& self.balances.supply() == self.token.total_supply
        &&& self.tax_map.valid()
    }
}

/// The balance of `a` after `amount` left `payer`, `tax` reached `contract`
/// and `net` reached `recipient`, in that order.
pub open spec fn settled_balance(
    prev: Ledger,
    payer: Seq<char>,
    contract: Seq<char>,
    recipient: Seq<char>,
    amount: nat,
    net: nat,
    tax: nat,
    a: Seq<char>,
) -> int {
    let debited = |x: Seq<char>|
        if x == payer {
            prev.balance(x) - amount
        } else {
            prev.balance(x) as int
        };
    let taxed = |x: Seq<char>|
        if x == contract {
            debited(x) + tax
        } else {
            debited(x)
        };
    if a == recipient {
        taxed(a) + net
    } else {
        taxed(a)
    }
}

/// The outcome of a settlement, given the outcome of the tax split and the
/// payer's funds.
pub open spec fn settle_outcome(
    split: Result<(u128, u128), ContractError>,
    funds: nat,
    amount: u128,
) -> Result<(u128, u128), ContractError> {
    match split {
        Err(e) => Err(e),
        Ok(p) => if amount > funds {
            Err(ContractError::InsufficientFunds)
        } else {
            Ok(p)
        },
    }
}

/// The outcome of a delegated settlement: the allowance is checked first.
pub open spec fn delegated_outcome(
    allowance: Result<AllowanceResponse, ContractError>,
    split: Result<(u128, u128), ContractError>,
    funds: nat,
    amount: u128,
) -> Result<(u128, u128), ContractError> {
    match allowance {
        Err(e) => Err(e),
        Ok(_) => settle_outcome(split, funds, amount),
    }
}

/// The tax attributes: present only when there is tax.
pub open spec fn tax_attributes(net: u128, tax: u128, proceeds: String) -> Seq<Attribute> {
    if tax > 0 {
        seq![Attribute::Net(net), Attribute::Tax(tax), Attribute::Proceeds(proceeds)]
    } else {
        seq![]
    }
}

/// The forwarding of the tax to the proceeds address: present only when
/// there is tax.
pub open spec fn tax_messages(contract: String, proceeds: String, tax: u128) -> Seq<Msg> {
    if tax > 0 {
        seq![Msg::ForwardTax { contract, recipient: proceeds, amount: tax }]
    } else {
        seq![]
    }
}

/// The outcome of a settlement for the state `s`: the split of category
/// `c`'s rule, on the funds of `payer`.
pub open spec fn settlement(
    s: &State,
    c: Category,
    payer: Seq<char>,
    recipient: Seq<char>,
    codes: CodeIds,
    amount: u128,
) -> Result<(u128, u128), ContractError> {
    settle_outcome(
        s.tax_map.rule_spec(c).split(codes.payer, recipient, codes.recipient, amount),
        s.balances.balance(payer),
        amount,
    )
}

/// After a settlement: the balances moved as `settled_balance` says, and
/// nothing else in the ledger, the token info or the tax map changed.
pub open spec fn settled(
    prev: &State,
    next: &State,
    payer: Seq<char>,
    contract: Seq<char>,
    recipient: Seq<char>,
    amount: u128,
    net: u128,
    tax: u128,
) -> bool {
    &&& forall|a: Seq<char>|
        #[trigger] next.balances.balance(a) == settled_balance(
            prev.balances,
            payer,
            contract,
            recipient,
            amount as nat,
            net as nat,
            tax as nat,
            a,
        )
    &&& next.balances.supply() == prev.balances.supply()
    &&& next.token == prev.token
    &&& next.tax_map == prev.tax_map
    &&& next.marketing == prev.marketing
}

/// Moves `amount` out of `payer`'s balance: `tax` to `contract`, `net` to
/// `recipient`.
fn move_funds(
    ledger: &mut Ledger,
    payer: &String,
    contract: &String,
    recipient: &String,
    amount: u128,
    net: u128,
    tax: u128,
)
    requires
        old(ledger).wf(),
        old(ledger).supply() <= u128::MAX,
        amount <= old(ledger).balance(payer@),
        net + tax == amount,
    ensures
        final(ledger).wf(),
        final(ledger).supply() == old(ledger).supply(),
        forall|a: Seq<char>|
            #[trigger] final(ledger).balance(a) == settled_balance(
                *old(ledger),
                payer@,
                contract@,
                recipient@,
                amount as nat,
                net as nat,
                tax as nat,
                a,
            ),
{
    let ghost l0 = *old(ledger);
    let r = ledger.debit(payer, amount);
    assert(r is Ok);
    let ghost l1 = *ledger;
    proof {
        l1.lemma_balance_le_supply(contract@);
    }
    ledger.credit(contract, tax);
    let ghost l2 = *ledger;
    proof {
        l2.lemma_balance_le_supply(recipient@);
    }
    ledger.credit(recipient, net);
    assert forall|a: Seq<char>|
        #[trigger] ledger.balance(a) == settled_balance(
            l0,
            payer@,
            contract@,
            recipient@,
            amount as nat,
            net as nat,
            tax as nat,
            a,
        ) by {
        if a != recipient@ {
            assert(ledger.balance(a) == l2.balance(a));
        }
        if a != contract@ {
            assert(l2.balance(a) == l1.balance(a));
        }
        if a != payer@ {
            assert(l1.balance(a) == l0.balance(a));
        }
    }
}

/// Checks and applies the ledger side of a transfer in category `c`: splits
/// `amount`, debits `payer`, escrows the tax with this contract and credits
/// the net amount to `recipient`. Changes nothing when it fails.
fn settle(
    state: &mut State,
    env: &Env,
    c: Category,
    payer: &String,
    recipient: &String,
    codes: &CodeIds,
    amount: u128,
) -> (r: Result<(u128, u128), ContractError>)
    requires
        old(state).wf(),
    ensures
        r == settlement(old(state), c, payer@, recipient@, *codes, amount),
        r is Err ==> *final(state) == *old(state),
        r is Ok ==> final(state).wf() && final(state).allowances == old(state).allowances
            && settled(
            old(state),
            final(state),
            payer@,
            env.contract@,
            recipient@,
            amount,
            r->Ok_0.0,
            r->Ok_0.1,
        ),
{
    let (net, tax) = state.tax_map.rule(c).deduct_tax(
        codes.payer,
        recipient,
        codes.recipient,
        amount,
    )?;
    if amount > state.balances.balance_of(payer) {
        return Err(ContractError::InsufficientFunds);
    }
    move_funds(&mut state.balances, payer, &env.contract, recipient, amount, net, tax);
    Ok((net, tax))
}

/// Appends the tax attributes and the tax forwarding when `tax` is positive.
fn add_tax_effects(
    response: &mut Response,
    env: &Env,
    net: u128,
    tax: u128,
    proceeds: &String,
)
    ensures
        final(response).attributes@ == old(response).attributes@ + tax_attributes(
            net,
            tax,
            *proceeds,
        ),
        final(response).messages@ == old(response).messages@ + tax_messages(
            env.contract,
            *proceeds,
            tax,
        ),
{
    if tax > 0 {
        response.attributes.push(Attribute::Net(net));
        response.attributes.push(Attribute::Tax(tax));
        response.attributes.push(Attribute::Proceeds(proceeds.clone()));
        response.messages.push(
            Msg::ForwardTax {
                contract: env.contract.clone(),
                recipient: proceeds.clone(),
                amount: tax,
            },
        );
    } else {
        assert(old(response).attributes@ + tax_attributes(net, tax, *proceeds)
            =~= old(response).attributes@);
        assert(old(response).messages@ + tax_messages(env.contract, *proceeds, tax)
            =~= old(response).messages@);
    }
}

/// What `execute_transfer` guarantees, from the state `prev` to the state `next`.
pub open spec fn transfer_post(
    prev: State,
    next: State,
    env: Env,
    sender: String,
    recipient: String,
    amount: u128,
    codes: CodeIds,
    r: Result<Response, ContractError>,
) -> bool {
    match settlement(&prev, Category::Transfer, sender@, recipient@, codes, amount) {
        Err(e) => r == Err::<Response, ContractError>(e) && next == prev,
        Ok((net, tax)) => {
            &&& r is Ok
            &&& settled(&prev, &next, sender@, env.contract@, recipient@, amount, net, tax)
            &&& next.allowances == prev.allowances
            &&& r->Ok_0.attributes@ == seq![
                Attribute::Action(ActionKind::Transfer),
                Attribute::From(sender),
                Attribute::To(recipient),
                Attribute::Amount(amount),
            ] + tax_attributes(net, tax, prev.tax_map.on_transfer.proceeds)
            &&& r->Ok_0.messages@ == tax_messages(
                env.contract,
                prev.tax_map.on_transfer.proceeds,
                tax,
            )
        },
    }
}

/// Transfers `amount` from `sender` to `recipient` under the transfer rule.
pub fn execute_transfer(
    state: &mut State,
    env: &Env,
    sender: &String,
    recipient: &String,
    amount: u128,
    codes: &CodeIds,
) -> (r: Result<Response, ContractError>)
    requires
        old(state).wf(),
    ensures
        final(state).wf(),
        transfer_post(
            *old(state),
            *final(state),
            *env,
            *sender,
            *recipient,
            amount,
            *codes,
            r,
        ),
{
    let (net, tax) = settle(state, env, Category::Transfer, sender, recipient, codes, amount)?;
    let mut response = Response { attributes: Vec::new(), messages: Vec::new() };
    response.attributes.push(Attribute::Action(ActionKind::Transfer));
    response.attributes.push(Attribute::From(sender.clone()));
    response.attributes.push(Attribute::To(recipient.clone()));
    response.attributes.push(Attribute::Amount(amount));
    add_tax_effects(&mut response, env, net, tax, &state.tax_map.on_transfer.proceeds);
    assert(response.attributes@ == seq![
                Attribute::Action(ActionKind::Transfer),
                Attribute::From(*sender),
                Attribute::To(*recipient),
                Attribute::Amount(amount),
            ] + tax_attributes(net, tax, old(state).tax_map.on_transfer.proceeds));
    Ok(response)
}

/// The outcome of a delegated transfer in category `c`, by `spender` on
/// behalf of `owner`: the allowance is checked before anything else.
pub open spec fn delegated_settlement(
    s: &State,
    c: Category,
    spender: Seq<char>,
    owner: Seq<char>,
    recipient: Seq<char>,
    codes: CodeIds,
    amount: u128,
    block: BlockInfo,
) -> Result<(u128, u128), ContractError> {
    match deduct_outcome(s.allowances.entry(owner, spender), amount, block) {
        Err(e) => Err(e),
        Ok(_) => settlement(s, c, owner, recipient, codes, amount),
    }
}

/// Spends `amount` of the allowance `owner` gave `spender` and settles the
/// transfer from `owner` to `recipient`. Changes nothing when it fails.
fn settle_delegated(
    state: &mut State,
    env: &Env,
    c: Category,
    spender: &String,
    owner: &String,
    recipient: &String,
    codes: &CodeIds,
    amount: u128,
) -> (r: Result<(u128, u128), ContractError>)
    requires
        old(state).wf(),
    ensures
        r == delegated_settlement(old(state), c, spender@, owner@, recipient@, *codes, amount, env.block),
        r is Err ==> *final(state) == *old(state),
        r is Ok ==> final(state).wf() && settled(
            old(state),
            final(state),
            owner@,
            env.contract@,
            recipient@,
            amount,
            r->Ok_0.0,
            r->Ok_0.1,
        ) && final(state).allowances.entry(owner@, spender@) == Some(
            deduct_outcome(old(state).allowances.entry(owner@, spender@), amount, env.block)->Ok_0,
        ) && final(state).allowances.others_unchanged(&old(state).allowances, owner@, spender@),
{
    state.allowances.check_deduct(owner, spender, &env.block, amount)?;
    let (net, tax) = settle(state, env, c, owner, recipient, codes, amount)?;
    let deducted = state.allowances.deduct(owner, spender, &env.block, amount);
    assert(deducted is Ok);
    Ok((net, tax))
}

/// What `execute_transfer_from` guarantees, from the state `prev` to the state `next`.
pub open spec fn transfer_from_post(
    prev: State,
    next: State,
    env: Env,
    sender: String,
    owner: String,
    recipient: String,
    amount: u128,
    codes: CodeIds,
    r: Result<Response, ContractError>,
) -> bool {
    match delegated_settlement(
        &prev,
        Category::TransferFrom,
        sender@,
        owner@,
        recipient@,
        codes,
        amount,
        env.block,
    ) {
        Err(e) => r == Err::<Response, ContractError>(e) && next == prev,
        Ok((net, tax)) => {
            &&& r is Ok
            &&& settled(&prev, &next, owner@, env.contract@, recipient@, amount, net, tax)
            &&& next.allowances.entry(owner@, sender@) == Some(
                deduct_outcome(prev.allowances.entry(owner@, sender@), amount, env.block)->Ok_0,
            )
            &&& next.allowances.others_unchanged(&prev.allowances, owner@, sender@)
            &&& r->Ok_0.attributes@ == seq![
                Attribute::Action(ActionKind::TransferFrom),
                Attribute::From(owner),
                Attribute::To(recipient),
                Attribute::By(sender),
                Attribute::Amount(amount),
            ] + tax_attributes(net, tax, prev.tax_map.on_transfer_from.proceeds)
            &&& r->Ok_0.messages@ == tax_messages(
                env.contract,
                prev.tax_map.on_transfer_from.proceeds,
                tax,
            )
        },
    }
}

/// Transfers `amount` from `owner` to `recipient` under the delegated
/// transfer rule, spending the allowance `owner` gave `sender`.
pub fn execute_transfer_from(
    state: &mut State,
    env: &Env,
    sender: &String,
    owner: &String,
    recipient: &String,
    amount: u128,
    codes: &CodeIds,
) -> (r: Result<Response, ContractError>)
    requires
        old(state).wf(),
    ensures
        final(state).wf(),
        transfer_from_post(
            *old(state),
            *final(state),
            *env,
            *sender,
            *owner,
            *recipient,
            amount,
            *codes,
            r,
        ),
{
    let (net, tax) = settle_delegated(
        state,
        env,
        Category::TransferFrom,
        sender,
        owner,
        recipient,
        codes,
        amount,
    )?;
    let mut response = Response { attributes: Vec::new(), messages: Vec::new() };
    response.attributes.push(Attribute::Action(ActionKind::TransferFrom));
    response.attributes.push(Attribute::From(owner.clone()));
    response.attributes.push(Attribute::To(recipient.clone()));
    response.attributes.push(Attribute::By(sender.clone()));
    response.attributes.push(Attribute::Amount(amount));
    add_tax_effects(&mut response, env, net, tax, &state.tax_map.on_transfer_from.proceeds);
    assert(response.attributes@ == seq![
        Attribute::Action(ActionKind::TransferFrom),
        Attribute::From(*owner),
        Attribute::To(*recipient),
        Attribute::By(*sender),
        Attribute::Amount(amount),
    ] + tax_attributes(net, tax, old(state).tax_map.on_transfer_from.proceeds));
    Ok(response)
}

/// What `execute_send` guarantees, from the state `prev` to the state `next`.
pub open spec fn send_post(
    prev: State,
    next: State,
    env: Env,
    sender: String,
    contract: String,
    amount: u128,
    msg: Vec<u8>,
    codes: CodeIds,
    r: Result<Response, ContractError>,
) -> bool {
    match settlement(&prev, Category::Send, sender@, contract@, codes, amount) {
        Err(e) => r == Err::<Response, ContractError>(e) && next == prev,
        Ok((net, tax)) => {
            &&& r is Ok
            &&& settled(&prev, &next, sender@, env.contract@, contract@, amount, net, tax)
            &&& next.allowances == prev.allowances
            &&& r->Ok_0.attributes@ == seq![
                Attribute::Action(ActionKind::Send),
                Attribute::From(sender),
                Attribute::To(contract),
                Attribute::Amount(amount),
            ] + tax_attributes(net, tax, prev.tax_map.on_send.proceeds)
            &&& r->Ok_0.messages@ == seq![
                Msg::Receive { contract: contract, sender: sender, amount: net, msg },
            ] + tax_messages(env.contract, prev.tax_map.on_send.proceeds, tax)
        },
    }
}

/// Sends `amount` from `sender` to the contract `contract` under the send
/// rule, and tells that contract of the net amount it received, with `msg`.
pub fn execute_send(
    state: &mut State,
    env: &Env,
    sender: &String,
    contract: &String,
    amount: u128,
    msg: Vec<u8>,
    codes: &CodeIds,
) -> (r: Result<Response, ContractError>)
    requires
        old(state).wf(),
    ensures
        final(state).wf(),
        send_post(
            *old(state),
            *final(state),
            *env,
            *sender,
            *contract,
            amount,
            msg,
            *codes,
            r,
        ),
{
    let (net, tax) = settle(state, env, Category::Send, sender, contract, codes, amount)?;
    let mut response = Response { attributes: Vec::new(), messages: Vec::new() };
    response.attributes.push(Attribute::Action(ActionKind::Send));
    response.attributes.push(Attribute::From(sender.clone()));
    response.attributes.push(Attribute::To(contract.clone()));
    response.attributes.push(Attribute::Amount(amount));
    response.messages.push(
        Msg::Receive { contract: contract.clone(), sender: sender.clone(), amount: net, msg },
    );
    add_tax_effects(&mut response, env, net, tax, &state.tax_map.on_send.proceeds);
    assert(response.attributes@ == seq![
        Attribute::Action(ActionKind::Send),
        Attribute::From(*sender),
        Attribute::To(*contract),
        Attribute::Amount(amount),
    ] + tax_attributes(net, tax, old(state).tax_map.on_send.proceeds));
    assert(response.messages@ == seq![
        Msg::Receive { contract: *contract, sender: *sender, amount: net, msg },
    ] + tax_messages(env.contract, old(state).tax_map.on_send.proceeds, tax));
    Ok(response)
}

/// What `execute_send_from` guarantees, from the state `prev` to the state `next`.
pub open spec fn send_from_post(
    prev: State,
    next: State,
    env: Env,
    sender: String,
    owner: String,
    contract: String,
    amount: u128,
    msg: Vec<u8>,
    codes: CodeIds,
    r: Result<Response, ContractError>,
) -> bool {
    match delegated_settlement(
        &prev,
        Category::SendFrom,
        sender@,
        owner@,
        contract@,
        codes,
        amount,
        env.block,
    ) {
        Err(e) => r == Err::<Response, ContractError>(e) && next == prev,
        Ok((net, tax)) => {
            &&& r is Ok
            &&& settled(&prev, &next, owner@, env.contract@, contract@, amount, net, tax)
            &&& next.allowances.entry(owner@, sender@) == Some(
                deduct_outcome(prev.allowances.entry(owner@, sender@), amount, env.block)->Ok_0,
            )
            &&& next.allowances.others_unchanged(&prev.allowances, owner@, sender@)
            &&& r->Ok_0.attributes@ == seq![
                Attribute::Action(ActionKind::SendFrom),
                Attribute::From(sender),
                Attribute::To(contract),
                Attribute::By(sender),
                Attribute::Amount(amount),
            ] + tax_attributes(net, tax, prev.tax_map.on_send_from.proceeds)
            &&& r->Ok_0.messages@ == seq![
                Msg::Receive { contract: contract, sender: sender, amount: net, msg },
            ] + tax_messages(env.contract, prev.tax_map.on_send_from.proceeds, tax)
        },
    }
}

/// Sends `amount` from `owner` to the contract `contract` under the
/// delegated send rule, spending the allowance `owner` gave `sender`, and
/// tells that contract of the net amount, with `sender` as its sender.
pub fn execute_send_from(
    state: &mut State,
    env: &Env,
    sender: &String,
    owner: &String,
    contract: &String,
    amount: u128,
    msg: Vec<u8>,
    codes: &CodeIds,
) -> (r: Result<Response, ContractError>)
    requires
        old(state).wf(),
    ensures
        final(state).wf(),
        send_from_post(
            *old(state),
            *final(state),
            *env,
            *sender,
            *owner,
            *contract,
            amount,
            msg,
            *codes,
            r,
        ),
{
    let (net, tax) = settle_delegated(
        state,
        env,
        Category::SendFrom,
        sender,
        owner,
        contract,
        codes,
        amount,
    )?;
    let mut response = Response { attributes: Vec::new(), messages: Vec::new() };
    response.attributes.push(Attribute::Action(ActionKind::SendFrom));
    response.attributes.push(Attribute::From(sender.clone()));
    response.attributes.push(Attribute::To(contract.clone()));
    response.attributes.push(Attribute::By(sender.clone()));
    response.attributes.push(Attribute::Amount(amount));
    response.messages.push(
        Msg::Receive { contract: contract.clone(), sender: sender.clone(), amount: net, msg },
    );
    add_tax_effects(&mut response, env, net, tax, &state.tax_map.on_send_from.proceeds);
    assert(response.attributes@ == seq![
        Attribute::Action(ActionKind::SendFrom),
        Attribute::From(*sender),
        Attribute::To(*contract),
        Attribute::By(*sender),
        Attribute::Amount(amount),
    ] + tax_attributes(net, tax, old(state).tax_map.on_send_from.proceeds));
    assert(response.messages@ == seq![
        Msg::Receive { contract: *contract, sender: *sender, amount: net, msg },
    ] + tax_messages(env.contract, old(state).tax_map.on_send_from.proceeds, tax));
    Ok(response)
}

/// The attributes of an allowance change.
pub open spec fn allowance_attributes(
    kind: ActionKind,
    owner: String,
    spender: String,
    amount: u128,
) -> Seq<Attribute> {
    seq![
        Attribute::Action(kind),
        Attribute::Owner(owner),
        Attribute::Spender(spender),
        Attribute::Amount(amount),
    ]
}

fn allowance_response(kind: ActionKind, owner: &String, spender: &String, amount: u128) -> (r:
    Response)
    ensures
        r.attributes@ == allowance_attributes(kind, *owner, *spender, amount),
        r.messages@ == Seq::<Msg>::empty(),
{
    let mut response = Response { attributes: Vec::new(), messages: Vec::new() };
    response.attributes.push(Attribute::Action(kind));
    response.attributes.push(Attribute::Owner(owner.clone()));
    response.attributes.push(Attribute::Spender(spender.clone()));
    response.attributes.push(Attribute::Amount(amount));
    response
}

/// What `execute_increase_allowance` guarantees, from the state `prev` to the state `next`.
pub open spec fn increase_allowance_post(
    prev: State,
    next: State,
    env: Env,
    sender: String,
    spender: String,
    amount: u128,
    expires: Option<Expiration>,
    r: Result<Response, ContractError>,
) -> bool {
    match increase_outcome(
        prev.allowances.current(sender@, spender@),
        sender@,
        spender@,
        amount,
        expires,
        env.block,
    ) {
        Err(e) => r == Err::<Response, ContractError>(e) && next == prev,
        Ok(_) => {
            &&& r is Ok
            &&& next.allowances.entry(sender@, spender@) == Some(
                AllowanceResponse {
                    allowance: (prev.allowances.current(sender@, spender@).allowance
                        + amount) as u128,
                    expires: match expires {
                        Some(e) => e,
                        None => prev.allowances.current(sender@, spender@).expires,
                    },
                },
            )
            &&& next.allowances.others_unchanged(&prev.allowances, sender@, spender@)
            &&& next.balances == prev.balances
            &&& next.token == prev.token
            &&& next.tax_map == prev.tax_map
            &&& next.marketing == prev.marketing
            &&& r->Ok_0.attributes@ == allowance_attributes(
                ActionKind::IncreaseAllowance,
                sender,
                spender,
                amount,
            )
            &&& r->Ok_0.messages@.len() == 0
        },
    }
}

/// Raises the allowance `sender` gives `spender` by `amount`, replacing its
/// expiration when `expires` is given.
pub fn execute_increase_allowance(
    state: &mut State,
    env: &Env,
    sender: &String,
    spender: &String,
    amount: u128,
    expires: Option<Expiration>,
) -> (r: Result<Response, ContractError>)
    requires
        old(state).wf(),
    ensures
        final(state).wf(),
        increase_allowance_post(
            *old(state),
            *final(state),
            *env,
            *sender,
            *spender,
            amount,
            expires,
            r,
        ),
{
    state.allowances.increase(sender, spender, amount, expires, &env.block)?;
    Ok(allowance_response(ActionKind::IncreaseAllowance, sender, spender, amount))
}

/// What `execute_decrease_allowance` guarantees, from the state `prev` to the state `next`.
pub open spec fn decrease_allowance_post(
    prev: State,
    next: State,
    env: Env,
    sender: String,
    spender: String,
    amount: u128,
    expires: Option<Expiration>,
    r: Result<Response, ContractError>,
) -> bool {
    match decrease_outcome(
        prev.allowances.current(sender@, spender@),
        sender@,
        spender@,
        amount,
        expires,
        env.block,
    ) {
        Err(e) => r == Err::<Response, ContractError>(e) && next == prev,
        Ok(_) => {
            &&& r is Ok
            &&& next.allowances.entry(sender@, spender@) == if amount
                >= prev.allowances.current(sender@, spender@).allowance {
                None
            } else {
                Some(
                    AllowanceResponse {
                        allowance: (prev.allowances.current(sender@, spender@).allowance
                            - amount) as u128,
                        expires: match expires {
                            Some(e) => e,
                            None => prev.allowances.current(sender@, spender@).expires,
                        },
                    },
                )
            }
            &&& next.allowances.others_unchanged(&prev.allowances, sender@, spender@)
            &&& next.balances == prev.balances
            &&& next.token == prev.token
            &&& next.tax_map == prev.tax_map
            &&& next.marketing == prev.marketing
            &&& r->Ok_0.attributes@ == allowance_attributes(
                ActionKind::DecreaseAllowance,
                sender,
                spender,
                amount,
            )
            &&& r->Ok_0.messages@.len() == 0
        },
    }
}

/// Lowers the allowance `sender` gives `spender` by `amount`, replacing its
/// expiration when `expires` is given; removes it when `amount` is at least
/// the allowance.
pub fn execute_decrease_allowance(
    state: &mut State,
    env: &Env,
    sender: &String,
    spender: &String,
    amount: u128,
    expires: Option<Expiration>,
) -> (r: Result<Response, ContractError>)
    requires
        old(state).wf(),
    ensures
        final(state).wf(),
        decrease_allowance_post(
            *old(state),
            *final(state),
            *env,
            *sender,
            *spender,
            amount,
            expires,
            r,
        ),
{
    state.allowances.decrease(sender, spender, amount, expires, &env.block)?;
    Ok(allowance_response(ActionKind::DecreaseAllowance, sender, spender, amount))
}

/// The allowance `owner` gave `spender`; zero and never expiring when there
/// is none.
pub fn query_allowance(state: &State, owner: &String, spender: &String) -> (r: AllowanceResponse)
    requires
        state.wf(),
    ensures
        r == state.allowances.current(owner@, spender@),
{
    state.allowances.query(owner, spender)
}

/// The balance of `address`; zero when it has none.
pub fn query_balance(state: &State, address: &String) -> (r: u128)
    requires
        state.wf(),
    ensures
        r == state.balances.balance(address@),
{
    state.balances.balance_of(address)
}

/// Replaces the tax map. Only the current administrator may do so. Without a
/// new map, every rule becomes untaxed and the administrator stays.
pub fn execute_set_tax_map(state: &mut State, sender: &String, tax_map: Option<TaxMap>) -> (r:
    Result<Response, ContractError>)
    requires
        old(state).wf(),
    ensures
        final(state).wf(),
        old(state).tax_map.admin@ != sender@ ==> r == Err::<Response, ContractError>(
            ContractError::Unauthorized,
        ) && *final(state) == *old(state),
        old(state).tax_map.admin@ == sender@ && tax_map is Some && !tax_map->0.valid() ==> r
            == Err::<Response, ContractError>(ContractError::InvalidTaxMap) && *final(state)
            == *old(state),
        old(state).tax_map.admin@ == sender@ && (tax_map is None || tax_map->0.valid()) ==> {
            &&& r is Ok
            &&& match tax_map {
                Some(m) => final(state).tax_map == m,
                None => final(state).tax_map.is_untaxed() && final(state).tax_map.admin
                    == old(state).tax_map.admin,
            }
            &&& final(state).balances == old(state).balances
            &&& final(state).allowances == old(state).allowances
            &&& final(state).token == old(state).token
            &&& final(state).marketing == old(state).marketing
            &&& r->Ok_0.attributes@ == seq![Attribute::Admin(final(state).tax_map.admin)]
            &&& r->Ok_0.messages@.len() == 0
        },
{
    if state.tax_map.admin != *sender {
        return Err(ContractError::Unauthorized);
    }
    let new_tax_map = match tax_map {
        Some(x) => x,
        None => {
            let mut def = TaxMap::default();
            def.admin = state.tax_map.admin.clone();
            def
        },
    };
    new_tax_map.validate()?;
    state.tax_map = new_tax_map;
    let mut response = Response { attributes: Vec::new(), messages: Vec::new() };
    response.attributes.push(Attribute::Admin(state.tax_map.admin.clone()));
    Ok(response)
}

/// Hands the tax map's administration to `tax_admin`, or to nobody (the
/// empty address). Only the current administrator may do so.
pub fn execute_set_tax_admin(state: &mut State, sender: &String, tax_admin: Option<String>) -> (r:
    Result<Response, ContractError>)
    requires
        old(state).wf(),
    ensures
        final(state).wf(),
        old(state).tax_map.admin@ != sender@ ==> r == Err::<Response, ContractError>(
            ContractError::Unauthorized,
        ) && *final(state) == *old(state),
        old(state).tax_map.admin@ == sender@ ==> {
            &&& r is Ok
            &&& final(state).tax_map.admin@ == match tax_admin {
                Some(a) => a@,
                None => Seq::<char>::empty(),
            }
            &&& final(state).tax_map.on_transfer == old(state).tax_map.on_transfer
            &&& final(state).tax_map.on_transfer_from == old(state).tax_map.on_transfer_from
            &&& final(state).tax_map.on_send == old(state).tax_map.on_send
            &&& final(state).tax_map.on_send_from == old(state).tax_map.on_send_from
            &&& final(state).balances == old(state).balances
            &&& final(state).allowances == old(state).allowances
            &&& final(state).token == old(state).token
            &&& final(state).marketing == old(state).marketing
            &&& r->Ok_0.attributes@ == seq![Attribute::Admin(final(state).tax_map.admin)]
            &&& r->Ok_0.messages@.len() == 0
        },
{
    if state.tax_map.admin != *sender {
        return Err(ContractError::Unauthorized);
    }
    state.tax_map.admin = match tax_admin {
        Some(x) => x,
        None => String::new(),
    };
    let mut response = Response { attributes: Vec::new(), messages: Vec::new() };
    response.attributes.push(Attribute::Admin(state.tax_map.admin.clone()));
    Ok(response)
}

/// Destroys `amount` of `sender`'s tokens.
pub fn execute_burn(state: &mut State, sender: &String, amount: u128) -> (r: Result<
    Response,
    ContractError,
>)
    requires
        old(state).wf(),
    ensures
        final(state).wf(),
        amount > old(state).balances.balance(sender@) ==> r == Err::<Response, ContractError>(
            ContractError::InsufficientFunds,
        ) && *final(state) == *old(state),
        amount <= old(state).balances.balance(sender@) ==> {
            &&& r is Ok
            &&& final(state).balances.balance(sender@) == old(state).balances.balance(sender@)
                - amount
            &&& forall|a: Seq<char>|
                a != sender@ ==> #[trigger] final(state).balances.balance(a)
                    == old(state).balances.balance(a)
            &&& final(state).token.total_supply == old(state).token.total_supply - amount
            &&& final(state).allowances == old(state).allowances
            &&& final(state).tax_map == old(state).tax_map
            &&& final(state).marketing == old(state).marketing
            &&& r->Ok_0.attributes@ == seq![
                Attribute::Action(ActionKind::Burn),
                Attribute::From(*sender),
                Attribute::Amount(amount),
            ]
            &&& r->Ok_0.messages@.len() == 0
        },
{
    state.balances.debit(sender, amount)?;
    state.token.total_supply = state.token.total_supply - amount;
    let mut response = Response { attributes: Vec::new(), messages: Vec::new() };
    response.attributes.push(Attribute::Action(ActionKind::Burn));
    response.attributes.push(Attribute::From(sender.clone()));
    response.attributes.push(Attribute::Amount(amount));
    Ok(response)
}

/// Destroys `amount` of `owner`'s tokens, spending the allowance `owner`
/// gave `sender`.
pub fn execute_burn_from(
    state: &mut State,
    env: &Env,
    sender: &String,
    owner: &String,
    amount: u128,
) -> (r: Result<Response, ContractError>)
    requires
        old(state).wf(),
    ensures
        final(state).wf(),
        match deduct_outcome(old(state).allowances.entry(owner@, sender@), amount, env.block) {
            Err(e) => r == Err::<Response, ContractError>(e) && *final(state) == *old(state),
            Ok(left) => if amount > old(state).balances.balance(owner@) {
                r == Err::<Response, ContractError>(ContractError::InsufficientFunds)
                    && *final(state) == *old(state)
            } else {
                &&& r is Ok
                &&& final(state).balances.balance(owner@) == old(state).balances.balance(owner@)
                    - amount
                &&& forall|a: Seq<char>|
                    a != owner@ ==> #[trigger] final(state).balances.balance(a)
                        == old(state).balances.balance(a)
                &&& final(state).token.total_supply == old(state).token.total_supply - amount
                &&& final(state).allowances.entry(owner@, sender@) == Some(left)
                &&& final(state).allowances.others_unchanged(&old(state).allowances, owner@, sender@)
                &&& final(state).tax_map == old(state).tax_map
                &&& final(state).marketing == old(state).marketing
                &&& r->Ok_0.attributes@ == seq![
                    Attribute::Action(ActionKind::BurnFrom),
                    Attribute::From(*owner),
                    Attribute::By(*sender),
                    Attribute::Amount(amount),
                ]
                &&& r->Ok_0.messages@.len() == 0
            },
        },
{
    state.allowances.check_deduct(owner, sender, &env.block, amount)?;
    state.balances.debit(owner, amount)?;
    state.token.total_supply = state.token.total_supply - amount;
    let deducted = state.allowances.deduct(owner, sender, &env.block, amount);
    assert(deducted is Ok);
    let mut response = Response { attributes: Vec::new(), messages: Vec::new() };
    response.attributes.push(Attribute::Action(ActionKind::BurnFrom));
    response.attributes.push(Attribute::From(owner.clone()));
    response.attributes.push(Attribute::By(sender.clone()));
    response.attributes.push(Attribute::Amount(amount));
    Ok(response)
}

/// Whether `sender` is the minter.
pub open spec fn is_minter(token: TokenInfo, sender: Seq<char>) -> bool {
    token.mint is Some && token.mint->0.minter@ == sender
}

/// Creates `amount` new tokens for `recipient`. Only the minter may mint,
/// and the total supply may not pass the cap.
pub fn execute_mint(state: &mut State, sender: &String, recipient: &String, amount: u128) -> (r:
    Result<Response, ContractError>)
    requires
        old(state).wf(),
    ensures
        final(state).wf(),
        !is_minter(old(state).token, sender@) ==> r == Err::<Response, ContractError>(
            ContractError::Unauthorized,
        ) && *final(state) == *old(state),
        is_minter(old(state).token, sender@) && old(state).token.total_supply + amount
            > u128::MAX ==> r == Err::<Response, ContractError>(ContractError::Overflow)
            && *final(state) == *old(state),
        is_minter(old(state).token, sender@) && old(state).token.total_supply + amount
            <= u128::MAX && old(state).token.cap() is Some && old(state).token.total_supply
            + amount > old(state).token.cap()->0 ==> r == Err::<Response, ContractError>(
            ContractError::CannotExceedCap,
        ) && *final(state) == *old(state),
        is_minter(old(state).token, sender@) && old(state).token.total_supply + amount
            <= u128::MAX && (old(state).token.cap() is None || old(state).token.total_supply
            + amount <= old(state).token.cap()->0) ==> {
            &&& r is Ok
            &&& final(state).balances.balance(recipient@) == old(state).balances.balance(
                recipient@,
            ) + amount
            &&& forall|a: Seq<char>|
                a != recipient@ ==> #[trigger] final(state).balances.balance(a)
                    == old(state).balances.balance(a)
            &&& final(state).token.total_supply == old(state).token.total_supply + amount
            &&& final(state).token.mint == old(state).token.mint
            &&& final(state).allowances == old(state).allowances
            &&& final(state).tax_map == old(state).tax_map
            &&& final(state).marketing == old(state).marketing
            &&& r->Ok_0.attributes@ == seq![
                Attribute::Action(ActionKind::Mint),
                Attribute::To(*recipient),
                Attribute::Amount(amount),
            ]
            &&& r->Ok_0.messages@.len() == 0
        },
{
    let authorized = match &state.token.mint {
        Some(m) => m.minter == *sender,
        None => false,
    };
    if !authorized {
        return Err(ContractError::Unauthorized);
    }
    let new_supply = match state.token.total_supply.checked_add(amount) {
        Some(t) => t,
        None => return Err(ContractError::Overflow),
    };
    if let Some(limit) = state.token.get_cap() {
        if new_supply > limit {
            return Err(ContractError::CannotExceedCap);
        }
    }
    proof {
        state.balances.lemma_balance_le_supply(recipient@);
    }
    state.token.total_supply = new_supply;
    state.balances.credit(recipient, amount);
    let mut response = Response { attributes: Vec::new(), messages: Vec::new() };
    response.attributes.push(Attribute::Action(ActionKind::Mint));
    response.attributes.push(Attribute::To(recipient.clone()));
    response.attributes.push(Attribute::Amount(amount));
    Ok(response)
}

/// Hands the minter role to `new_minter`, keeping the cap, or removes it.
/// Only the minter may do so.
pub fn execute_update_minter(state: &mut State, sender: &String, new_minter: Option<String>) -> (r:
    Result<Response, ContractError>)
    requires
        old(state).wf(),
    ensures
        final(state).wf(),
        !is_minter(old(state).token, sender@) ==> r == Err::<Response, ContractError>(
            ContractError::Unauthorized,
        ) && *final(state) == *old(state),
        is_minter(old(state).token, sender@) ==> {
            &&& r is Ok
            &&& final(state).token.mint == match new_minter {
                Some(m) => Some(MinterData { minter: m, cap: old(state).token.cap() }),
                None => None,
            }
            &&& final(state).token.total_supply == old(state).token.total_supply
            &&& final(state).balances == old(state).balances
            &&& final(state).allowances == old(state).allowances
            &&& final(state).tax_map == old(state).tax_map
            &&& final(state).marketing == old(state).marketing
            &&& r->Ok_0.attributes@ == seq![
                Attribute::Action(ActionKind::UpdateMinter),
                Attribute::NewMinter(new_minter),
            ]
            &&& r->Ok_0.messages@.len() == 0
        },
{
    let cap = match &state.token.mint {
        Some(m) => {
            if m.minter != *sender {
                return Err(ContractError::Unauthorized);
            }
            m.cap
        },
        None => return Err(ContractError::Unauthorized),
    };
    let mut response = Response { attributes: Vec::new(), messages: Vec::new() };
    response.attributes.push(Attribute::Action(ActionKind::UpdateMinter));
    match new_minter {
        Some(m) => {
            response.attributes.push(Attribute::NewMinter(Some(m.clone())));
            state.token.mint = Some(MinterData { minter: m, cap });
        },
        None => {
            response.attributes.push(Attribute::NewMinter(None));
            state.token.mint = None;
        },
    }
    Ok(response)
}

/// An initial balance.
#[derive(Debug, Clone, PartialEq, Eq)]
pub struct Cw20Coin {
    pub address: String,
    pub amount: u128,
}

/// The minter named at creation, and its cap.
#[derive(Debug, Clone, PartialEq, Eq)]
pub struct MinterResponse {
    pub minter: String,
    pub cap: Option<u128>,
}

/// What creating the token takes.
#[derive(Debug, Clone, PartialEq, Eq)]
pub struct InstantiateMsg {
    pub name: String,
    pub symbol: String,
    pub decimals: u8,
    pub initial_balances: Vec<Cw20Coin>,
    pub mint: Option<MinterResponse>,
    pub marketing: Option<InstantiateMarketingInfo>,
    pub tax_map: Option<TaxMap>,
}

/// The token's metadata and supply, as a query reports them.
#[derive(Debug, Clone, PartialEq, Eq)]
pub struct TokenInfoResponse {
    pub name: String,
    pub symbol: String,
    pub decimals: u8,
    pub total_supply: u128,
}

/// Two entries of `accounts` share an address.
pub open spec fn has_duplicates(accounts: Seq<Cw20Coin>) -> bool {
    exists|i: int, j: int|
        0 <= i < j < accounts.len() && #[trigger] accounts[i].address@ == #[trigger] accounts[j].address@
}

/// The sum of the amounts in `accounts`.
pub open spec fn coins_total(accounts: Seq<Cw20Coin>) -> nat
    decreases accounts.len(),
{
    if accounts.len() == 0 {
        0
    } else {
        (coins_total(accounts.drop_last()) + accounts.last().amount) as nat
    }
}

/// Fails when two initial balances name the same address.
pub fn validate_accounts(accounts: &Vec<Cw20Coin>) -> (r: Result<(), ContractError>)
    ensures
        has_duplicates(accounts@) ==> r == Err::<(), ContractError>(
            ContractError::DuplicateInitialBalanceAddresses,
        ),
        !has_duplicates(accounts@) ==> r is Ok,
{
    let mut j: usize = 0;
    while j < accounts.len()
        invariant
            j <= accounts@.len(),
            forall|a: int, b: int| 0 <= a < b < j ==> accounts@[a].address@ != accounts@[b].address@,
        decreases accounts@.len() - j,
    {
        let mut i: usize = 0;
        while i < j
            invariant
                i <= j < accounts@.len(),
                forall|a: int| 0 <= a < i ==> accounts@[a].address@ != accounts@[j as int].address@,
            decreases j - i,
        {
            if accounts[i].address == accounts[j].address {
                assert(accounts@[i as int].address@ == accounts@[j as int].address@);
                return Err(ContractError::DuplicateInitialBalanceAddresses);
            }
            i = i + 1;
        }
        j = j + 1;
    }
    Ok(())
}

/// Records the initial balances in an empty ledger and returns their sum.
/// Fails on a repeated address, or when the sum does not fit.
pub fn create_accounts(ledger: &mut Ledger, accounts: &Vec<Cw20Coin>) -> (r: Result<
    u128,
    ContractError,
>)
    requires
        old(ledger).wf(),
        old(ledger).supply() == 0,
        forall|a: Seq<char>| old(ledger).balance(a) == 0,
    ensures
        final(ledger).wf(),
        has_duplicates(accounts@) ==> r == Err::<u128, ContractError>(
            ContractError::DuplicateInitialBalanceAddresses,
        ),
        !has_duplicates(accounts@) && coins_total(accounts@) > u128::MAX ==> r == Err::<
            u128,
            ContractError,
        >(ContractError::Overflow),
        !has_duplicates(accounts@) && coins_total(accounts@) <= u128::MAX ==> {
            &&& r == Ok::<u128, ContractError>(coins_total(accounts@) as u128)
            &&& final(ledger).supply() == coins_total(accounts@)
            &&& forall|i: int|
                0 <= i < accounts@.len() ==> final(ledger).balance(#[trigger] accounts@[i].address@)
                    == accounts@[i].amount
            &&& forall|a: Seq<char>|
                (forall|i: int| 0 <= i < accounts@.len() ==> accounts@[i].address@ != a)
                    ==> #[trigger] final(ledger).balance(a) == 0
        },
{
    validate_accounts(accounts)?;
    let mut total_supply: u128 = 0;
    let mut i: usize = 0;
    while i < accounts.len()
        invariant
            i <= accounts@.len(),
            !has_duplicates(accounts@),
            ledger.wf(),
            ledger.supply() == total_supply,
            total_supply == coins_total(accounts@.take(i as int)),
            forall|k: int| 0 <= k < i ==> ledger.balance(#[trigger] accounts@[k].address@)
                == accounts@[k].amount,
            forall|a: Seq<char>|
                (forall|k: int| 0 <= k < i ==> accounts@[k].address@ != a)
                    ==> #[trigger] ledger.balance(a) == 0,
        decreases accounts@.len() - i,
    {
        let row = &accounts[i];
        assert(accounts@.take(i + 1).drop_last() =~= accounts@.take(i as int));
        total_supply = match total_supply.checked_add(row.amount) {
            Some(t) => t,
            None => {
                proof {
                    lemma_coins_total_prefix(accounts@, i + 1);
                }
                return Err(ContractError::Overflow);
            },
        };
        proof {
            assert forall|k: int| 0 <= k < i implies accounts@[k].address@ != row.address@ by {
                if accounts@[k].address@ == row.address@ {
                    assert(has_duplicates(accounts@));
                }
            }
        }
        ledger.set_balance(&row.address, row.amount);
        i = i + 1;
    }
    assert(accounts@.take(accounts@.len() as int) =~= accounts@);
    Ok(total_supply)
}

/// A prefix never sums to more than the whole.
proof fn lemma_coins_total_prefix(accounts: Seq<Cw20Coin>, n: int)
    requires
        0 <= n <= accounts.len(),
    ensures
        coins_total(accounts.take(n)) <= coins_total(accounts),
    decreases accounts.len(),
{
    if n < accounts.len() {
        lemma_coins_total_prefix(accounts.drop_last(), n);
        assert(accounts.drop_last().take(n) =~= accounts.take(n));
    } else {
        assert(accounts.take(n) =~= accounts);
    }
}

/// Creates the token: records the initial balances, checks them against the
/// cap, and installs the tax map (untaxed when none is given).
pub fn instantiate(msg: InstantiateMsg) -> (r: Result<State, ContractError>)
    ensures
        has_duplicates(msg.initial_balances@) ==> r == Err::<State, ContractError>(
            ContractError::DuplicateInitialBalanceAddresses,
        ),
        !has_duplicates(msg.initial_balances@) && coins_total(msg.initial_balances@) > u128::MAX
            ==> r == Err::<State, ContractError>(ContractError::Overflow),
        !has_duplicates(msg.initial_balances@) && coins_total(msg.initial_balances@) <= u128::MAX
            && msg.mint is Some && msg.mint->0.cap is Some && coins_total(msg.initial_balances@)
            > msg.mint->0.cap->0 ==> r == Err::<State, ContractError>(
            ContractError::InitialSupplyOverCap,
        ),
        r is Ok ==> {
            let s = r->Ok_0;
            &&& s.wf()
            &&& s.token.total_supply == coins_total(msg.initial_balances@)
            &&& s.token.name == msg.name
            &&& s.token.symbol == msg.symbol
            &&& s.token.decimals == msg.decimals
            &&& s.token.mint == match msg.mint {
                Some(m) => Some(MinterData { minter: m.minter, cap: m.cap }),
                None => None,
            }
            &&& forall|i: int|
                0 <= i < msg.initial_balances@.len() ==> s.balances.balance(
                    #[trigger] msg.initial_balances@[i].address@,
                ) == msg.initial_balances@[i].amount
            &&& forall|a: Seq<char>|
                (forall|i: int|
                    0 <= i < msg.initial_balances@.len() ==> msg.initial_balances@[i].address@ != a)
                    ==> #[trigger] s.balances.balance(a) == 0
            &&& forall|o: Seq<char>, p: Seq<char>| s.allowances.entry(o, p) is None
            &&& s.marketing == marketing_of(msg.marketing)
            &&& match msg.tax_map {
                Some(m) => s.tax_map == m,
                None => s.tax_map.is_untaxed() && s.tax_map.admin@ == Seq::<char>::empty(),
            }
        },
        !has_duplicates(msg.initial_balances@) && coins_total(msg.initial_balances@) <= u128::MAX
            && !(msg.mint is Some && msg.mint->0.cap is Some && coins_total(msg.initial_balances@)
            > msg.mint->0.cap->0) && marketing_outcome(msg.marketing) is Err ==> r == Err::<
            State,
            ContractError,
        >(marketing_outcome(msg.marketing)->Err_0),
        !has_duplicates(msg.initial_balances@) && coins_total(msg.initial_balances@) <= u128::MAX
            && !(msg.mint is Some && msg.mint->0.cap is Some && coins_total(msg.initial_balances@)
            > msg.mint->0.cap->0) && marketing_outcome(msg.marketing) is Ok ==> (r is Ok <==> (
        msg.tax_map is None || msg.tax_map->0.valid())) && (r is Err ==> r == Err::<
            State,
            ContractError,
        >(ContractError::InvalidTaxMap)),
{
    let mut balances = Ledger::new();
    let total_supply = create_accounts(&mut balances, &msg.initial_balances)?;
    let mint = match msg.mint {
        Some(m) => Some(MinterData { minter: m.minter, cap: m.cap }),
        None => None,
    };
    if let Some(m) = &mint {
        if let Some(limit) = m.cap {
            if total_supply > limit {
                return Err(ContractError::InitialSupplyOverCap);
            }
        }
    }
    let marketing = instantiate_marketing(msg.marketing)?;
    let tax_map = match msg.tax_map {
        Some(x) => x,
        None => TaxMap::default(),
    };
    tax_map.validate()?;
    let token = TokenInfo {
        name: msg.name,
        symbol: msg.symbol,
        decimals: msg.decimals,
        total_supply,
        mint,
    };
    Ok(State { token, balances, allowances: Allowances::new(), tax_map, marketing })
}

/// The token's metadata and total supply.
pub fn query_token_info(state: &State) -> (r: TokenInfoResponse)
    ensures
        r.name == state.token.name,
        r.symbol == state.token.symbol,
        r.decimals == state.token.decimals,
        r.total_supply == state.token.total_supply,
{
    TokenInfoResponse {
        name: state.token.name.clone(),
        symbol: state.token.symbol.clone(),
        decimals: state.token.decimals,
        total_supply: state.token.total_supply,
    }
}

/// The minter and its cap, if there is a minter.
pub fn query_minter(state: &State) -> (r: Option<MinterResponse>)
    ensures
        r == match state.token.mint {
            Some(m) => Some(MinterResponse { minter: m.minter, cap: m.cap }),
            None => None,
        },
{
    match &state.token.mint {
        Some(m) => Some(MinterResponse { minter: m.minter.clone(), cap: m.cap }),
        None => None,
    }
}

/// The tax map in force.
pub fn query_tax_map(state: &State) -> (r: &TaxMap)
    ensures
        *r == state.tax_map,
{
    &state.tax_map
}

} // verus!
