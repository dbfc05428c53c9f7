use vstd::prelude::*;
use crate::decimal::{decimal_string, spec_decimal};
use crate::error::{spec_registry_error, registry_error, ContractError, RegistryError};
use crate::msg::{
    BankSend, Coin, ExecuteExt, ExecuteMsg, InstantiateMsg, QueryExt, RegistryOp, RegistryView,
    Response,
};
use crate::payment::{must_pay, spec_must_pay};
use crate::state::{spec_deposit_step, Config, Ledger};
use crate::uri::{derive_token_uri, initial_token_uri, spec_derived_uri, spec_initial_uri};
use crate::validation::{spec_valid_denom, spec_valid_url, validate_native_denom, validate_url};

verus! {

/// What instantiation returns: the validations run in order — deposit
/// denomination, base URL, sale recipient — and the first failure names the
/// error; when all pass, the configuration holds the given parameters and
/// the token-id counter starts at zero.
pub open spec fn instantiate_post(
    msg: InstantiateMsg,
    validated_recipient: Option<String>,
    r: Result<Config, ContractError>,
) -> bool {
    if !spec_valid_denom(msg.deposit_denom@) {
        r == Err::<Config, ContractError>(ContractError::InvalidDenom)
    } else if !spec_valid_url(msg.base_url@) {
        r == Err::<Config, ContractError>(ContractError::InvalidUrl)
    } else if validated_recipient is None {
        r == Err::<Config, ContractError>(ContractError::InvalidAddress)
    } else {
        &&& r is Ok
        &&& r->Ok_0.deposit_denom@ == msg.deposit_denom@
        &&& r->Ok_0.base_url@ == msg.base_url@
        &&& r->Ok_0.mint_price.denom@ == msg.mint_price.denom@
        &&& r->Ok_0.mint_price.amount == msg.mint_price.amount
        &&& r->Ok_0.max_nft_supply == msg.max_nft_supply
        &&& r->Ok_0.sale_funds_recipient@ == validated_recipient->0@
        &&& r->Ok_0.previous_token_id == 0
    }
}

/// Validates the collection parameters and builds the configuration.
///
/// The host alone can resolve addresses, so the handler takes the host's
/// answer for the sale recipient: `Some` with the validated address, or
/// `None` when the host rejected it. Registering name, symbol and minter is
/// the token registry's own setup and happens outside.
pub fn instantiate(msg: &InstantiateMsg, validated_recipient: &Option<String>) -> (r: Result<
    Config,
    ContractError,
>)
    ensures
        instantiate_post(*msg, *validated_recipient, r),
{
    if !validate_native_denom(&msg.deposit_denom) {
        return Err(ContractError::InvalidDenom);
    }
    if !validate_url(&msg.base_url) {
        return Err(ContractError::InvalidUrl);
    }
    match validated_recipient {
        None => Err(ContractError::InvalidAddress),
        Some(recipient) => Ok(
            Config {
                deposit_denom: msg.deposit_denom.clone(),
                base_url: msg.base_url.clone(),
                mint_price: Coin {
                    denom: msg.mint_price.denom.clone(),
                    amount: msg.mint_price.amount,
                },
                max_nft_supply: msg.max_nft_supply,
                sale_funds_recipient: recipient.clone(),
                previous_token_id: 0,
            },
        ),
    }
}

/// The candidate id of the next mint attempt.
pub open spec fn spec_candidate_id(c: Config) -> int {
    c.previous_token_id + 1
}

/// Whether the supply cap rejects a candidate id.
pub open spec fn spec_cap_exceeded(c: Config, candidate: int) -> bool {
    match c.max_nft_supply {
        Some(max) => candidate > max,
        None => false,
    }
}

/// The configuration after an accepted mint attempt: the counter advanced
/// by one and every other parameter untouched.
pub open spec fn config_advanced(old_c: Config, new_c: Config) -> bool {
    &&& new_c.previous_token_id == old_c.previous_token_id + 1
    &&& new_c.deposit_denom == old_c.deposit_denom
    &&& new_c.base_url == old_c.base_url
    &&& new_c.mint_price == old_c.mint_price
    &&& new_c.max_nft_supply == old_c.max_nft_supply
    &&& new_c.sale_funds_recipient == old_c.sale_funds_recipient
}

/// The response of a successful mint: the full payment forwarded to the
/// sale recipient, and a registry create of the candidate token for the
/// caller, starting at the seedling stage.
pub open spec fn mint_ok_response(old_c: Config, sender: Seq<char>, resp: Response) -> bool {
    let id = spec_decimal(spec_candidate_id(old_c) as nat);
    &&& resp.messages@.len() == 1
    &&& resp.messages@[0].to_address@ == old_c.sale_funds_recipient@
    &&& resp.messages@[0].amount@.len() == 1
    &&& resp.messages@[0].amount@[0].denom@ == old_c.mint_price.denom@
    &&& resp.messages@[0].amount@[0].amount == old_c.mint_price.amount
    &&& resp.registry_op matches Some(RegistryOp::Create { token_id, owner, token_uri })
        && token_id@ == id && owner@ == sender && token_uri@ == spec_initial_uri(
        old_c.base_url@,
        id,
    )
}

/// What a mint attempt does. Payment is validated first and a failure
/// leaves the state alone. An accepted payment advances the counter even
/// when the supply cap then rejects the candidate id: a rejected over-cap
/// mint permanently consumes an id slot.
pub open spec fn mint_post(
    old_c: Config,
    new_c: Config,
    sender: Seq<char>,
    funds: Seq<Coin>,
    r: Result<Response, ContractError>,
) -> bool {
    match spec_must_pay(funds, old_c.mint_price.denom@) {
        Err(e) => r == Err::<Response, ContractError>(e) && new_c == old_c,
        Ok(amount) => {
            if amount != old_c.mint_price.amount {
                r == Err::<Response, ContractError>(ContractError::WrongAmount) && new_c == old_c
            } else {
                &&& config_advanced(old_c, new_c)
                &&& if spec_cap_exceeded(old_c, spec_candidate_id(old_c)) {
                    r == Err::<Response, ContractError>(ContractError::SupplyExhausted)
                } else {
                    r is Ok && mint_ok_response(old_c, sender, r->Ok_0)
                }
            }
        },
    }
}

/// Purchases a new token.
///
/// The caller's id, owner and URI hints are ignored: the id comes from the
/// counter, the owner is the caller, and the URI is derived. The returned
/// response forwards the payment to the sale recipient and instructs the
/// registry to create the token.
pub fn execute_mint(config: &mut Config, sender: &String, funds: &Vec<Coin>) -> (r: Result<
    Response,
    ContractError,
>)
    requires
        old(config).previous_token_id < u64::MAX,
    ensures
        mint_post(*old(config), *final(config), sender@, funds@, r),
{
    let amount = match must_pay(funds, config.mint_price.denom.as_str()) {
        Ok(a) => a,
        Err(e) => { return Err(e); },
    };
    if amount != config.mint_price.amount {
        return Err(ContractError::WrongAmount);
    }
    // The read-modify-write on the counter commits before the supply check:
    // an over-cap attempt still consumes its id slot.
    let next = config.previous_token_id + 1;
    config.previous_token_id = next;
    if let Some(max) = config.max_nft_supply {
        if next > max {
            return Err(ContractError::SupplyExhausted);
        }
    }
    let id = decimal_string(next);
    let token_uri = initial_token_uri(&config.base_url, id.as_str());
    let payout = BankSend {
        to_address: config.sale_funds_recipient.clone(),
        amount: vec![Coin { denom: config.mint_price.denom.clone(), amount }],
    };
    Ok(
        Response {
            messages: vec![payout],
            registry_op: Some(
                RegistryOp::Create { token_id: id, owner: sender.clone(), token_uri },
            ),
        },
    )
}

/// What a deposit may assume: when the payment will be accepted and the
/// token exists, the new balance must fit the balance type.
pub open spec fn deposit_pre(
    c: Config,
    l: Ledger,
    token_id: Seq<char>,
    funds: Seq<Coin>,
    token_exists: bool,
) -> bool {
    match spec_must_pay(funds, c.deposit_denom@) {
        Ok(amount) => token_exists ==> l.spec_balance(token_id) + amount <= u128::MAX,
        Err(_) => true,
    }
}

/// What a deposit does. Payment is validated first, then the token's
/// existence; a failure leaves the ledger alone. A success adds the amount
/// to exactly this token's balance and, when the new balance clears a
/// threshold, instructs the registry to set the derived URI; below the
/// lowest threshold the URI stays as it is.
pub open spec fn deposit_post(
    c: Config,
    old_l: Ledger,
    new_l: Ledger,
    token_id: Seq<char>,
    funds: Seq<Coin>,
    token_exists: bool,
    r: Result<Response, ContractError>,
) -> bool {
    match spec_must_pay(funds, c.deposit_denom@) {
        Err(e) => r == Err::<Response, ContractError>(e) && new_l == old_l,
        Ok(amount) => {
            if !token_exists {
                r == Err::<Response, ContractError>(ContractError::NotFound) && new_l == old_l
            } else {
                let new_balance = (old_l.spec_balance(token_id) + amount) as u128;
                &&& new_l@ == spec_deposit_step(old_l@, token_id, amount)
                &&& r is Ok
                &&& r->Ok_0.messages@.len() == 0
                &&& match spec_derived_uri(c.base_url@, token_id, new_balance) {
                    Some(uri) => r->Ok_0.registry_op matches Some(
                        RegistryOp::SetUri { token_id: tid, token_uri },
                    ) && tid@ == token_id && token_uri@ == uri,
                    None => r->Ok_0.registry_op is None,
                }
            }
        },
    }
}

/// Deposits the attached funds into one token.
///
/// `token_exists` is what the registry reported for `token_id`; the
/// registry write that updates the displayed URI is returned as an
/// instruction.
pub fn execute_deposit(
    config: &Config,
    ledger: &mut Ledger,
    token_id: &String,
    funds: &Vec<Coin>,
    token_exists: bool,
) -> (r: Result<Response, ContractError>)
    requires
        old(ledger).wf(),
        deposit_pre(*config, *old(ledger), token_id@, funds@, token_exists),
    ensures
        final(ledger).wf(),
        deposit_post(*config, *old(ledger), *final(ledger), token_id@, funds@, token_exists, r),
{
    let amount = match must_pay(funds, config.deposit_denom.as_str()) {
        Ok(a) => a,
        Err(e) => { return Err(e); },
    };
    if !token_exists {
        return Err(ContractError::NotFound);
    }
    let prior = ledger.balance_of(token_id);
    let new_balance = prior + amount;
    ledger.credit(token_id, amount);
    let registry_op = match derive_token_uri(&config.base_url, token_id, new_balance) {
        Some(token_uri) => Some(RegistryOp::SetUri { token_id: token_id.clone(), token_uri }),
        None => None,
    };
    Ok(Response { messages: Vec::new(), registry_op })
}

/// What a burn does. The registry's burn primitive has already checked
/// ownership and removed the token; its failure passes through. After a
/// confirmed removal the full recorded balance goes back to the caller in
/// one transfer — none when the balance is zero, which is a success, not an
/// error. The ledger itself is not touched: entries outlive their token.
pub open spec fn burn_post(
    c: Config,
    l: Ledger,
    token_id: Seq<char>,
    sender: Seq<char>,
    burn_result: Result<(), RegistryError>,
    r: Result<Response, ContractError>,
) -> bool {
    match burn_result {
        Err(e) => r == Err::<Response, ContractError>(spec_registry_error(e)),
        Ok(_) => {
            let balance = l.spec_balance(token_id);
            &&& r is Ok
            &&& r->Ok_0.registry_op is None
            &&& if balance == 0 {
                r->Ok_0.messages@.len() == 0
            } else {
                &&& r->Ok_0.messages@.len() == 1
                &&& r->Ok_0.messages@[0].to_address@ == sender
                &&& r->Ok_0.messages@[0].amount@.len() == 1
                &&& r->Ok_0.messages@[0].amount@[0].denom@ == c.deposit_denom@
                &&& r->Ok_0.messages@[0].amount@[0].amount == balance
            }
        },
    }
}

/// Destroys a token and pays its balance out.
///
/// `burn_result` is the verdict of the registry's burn primitive, which
/// owns the ownership check and the removal; only after it confirmed does
/// the payout instruction go out.
pub fn execute_burn(
    config: &Config,
    ledger: &Ledger,
    token_id: &String,
    sender: &String,
    burn_result: Result<(), RegistryError>,
) -> (r: Result<Response, ContractError>)
    requires
        ledger.wf(),
    ensures
        burn_post(*config, *ledger, token_id@, sender@, burn_result, r),
{
    let balance = ledger.balance_of(token_id);
    match burn_result {
        Err(e) => Err(registry_error(e)),
        Ok(_) => {
            let messages = if balance > 0 {
                vec![
                    BankSend {
                        to_address: sender.clone(),
                        amount: vec![
                            Coin { denom: config.deposit_denom.clone(), amount: balance },
                        ],
                    },
                ]
            } else {
                Vec::new()
            };
            Ok(Response { messages, registry_op: None })
        },
    }
}

/// What a metadata override does. Only the registry's configured minter may
/// overwrite a token's URI — no minter, no override — and the token must
/// exist; the new URI is taken as given, bypassing threshold derivation.
pub open spec fn update_uri_post(
    minter: Option<String>,
    sender: Seq<char>,
    token_exists: bool,
    token_id: Seq<char>,
    token_uri: Seq<char>,
    r: Result<Response, ContractError>,
) -> bool {
    match minter {
        None => r == Err::<Response, ContractError>(ContractError::Unauthorized),
        Some(m) => {
            if m@ != sender {
                r == Err::<Response, ContractError>(ContractError::Unauthorized)
            } else if !token_exists {
                r == Err::<Response, ContractError>(ContractError::NotFound)
            } else {
                &&& r is Ok
                &&& r->Ok_0.messages@.len() == 0
                &&& r->Ok_0.registry_op matches Some(
                    RegistryOp::SetUri { token_id: tid, token_uri: uri },
                ) && tid@ == token_id && uri@ == token_uri
            }
        },
    }
}

/// Overwrites a token's metadata URI, as the administrative escape hatch.
///
/// `minter` is the registry's configured minter and `token_exists` what the
/// registry reported for `token_id`.
pub fn execute_update_token_uri(
    minter: &Option<String>,
    sender: &String,
    token_exists: bool,
    token_id: &String,
    token_uri: &String,
) -> (r: Result<Response, ContractError>)
    ensures
        update_uri_post(*minter, sender@, token_exists, token_id@, token_uri@, r),
{
    match minter {
        None => Err(ContractError::Unauthorized),
        Some(m) => {
            if !(*m == *sender) {
                Err(ContractError::Unauthorized)
            } else if !token_exists {
                Err(ContractError::NotFound)
            } else {
                Ok(
                    Response {
                        messages: Vec::new(),
                        registry_op: Some(
                            RegistryOp::SetUri {
                                token_id: token_id.clone(),
                                token_uri: token_uri.clone(),
                            },
                        ),
                    },
                )
            }
        },
    }
}

/// Routes a request to its handler.
///
/// `registry` holds what the token registry reported for this request.
/// Requests outside this set never reach the core: the host forwards them
/// to the registry's own handler unchanged.
pub fn execute(
    config: &mut Config,
    ledger: &mut Ledger,
    sender: &String,
    funds: &Vec<Coin>,
    msg: &ExecuteMsg,
    registry: &RegistryView,
) -> (r: Result<Response, ContractError>)
    requires
        old(ledger).wf(),
        match *msg {
            ExecuteMsg::Mint { .. } => old(config).previous_token_id < u64::MAX,
            ExecuteMsg::Extension { msg: ExecuteExt::Deposit { token_id } } => deposit_pre(
                *old(config),
                *old(ledger),
                token_id@,
                funds@,
                registry.token_exists,
            ),
            _ => true,
        },
    ensures
        final(ledger).wf(),
        match *msg {
            ExecuteMsg::Mint { .. } => mint_post(*old(config), *final(config), sender@, funds@, r)
                && *final(ledger) == *old(ledger),
            ExecuteMsg::Burn { token_id } => burn_post(
                *old(config),
                *old(ledger),
                token_id@,
                sender@,
                registry.burn_result,
                r,
            ) && *final(config) == *old(config) && *final(ledger) == *old(ledger),
            ExecuteMsg::Extension { msg: ExecuteExt::Deposit { token_id } } => deposit_post(
                *old(config),
                *old(ledger),
                *final(ledger),
                token_id@,
                funds@,
                registry.token_exists,
                r,
            ) && *final(config) == *old(config),
            ExecuteMsg::Extension {
                msg: ExecuteExt::UpdateTokenUri { token_id, token_uri },
            } => update_uri_post(
                registry.minter,
                sender@,
                registry.token_exists,
                token_id@,
                token_uri@,
                r,
            ) && *final(config) == *old(config) && *final(ledger) == *old(ledger),
        },
{
    match msg {
        ExecuteMsg::Mint { .. } => execute_mint(config, sender, funds),
        ExecuteMsg::Burn { token_id } => execute_burn(
            config,
            ledger,
            token_id,
            sender,
            registry.burn_result,
        ),
        ExecuteMsg::Extension { msg: ExecuteExt::Deposit { token_id } } => execute_deposit(
            config,
            ledger,
            token_id,
            funds,
            registry.token_exists,
        ),
        ExecuteMsg::Extension { msg: ExecuteExt::UpdateTokenUri { token_id, token_uri } } => {
            execute_update_token_uri(
                &registry.minter,
                sender,
                registry.token_exists,
                token_id,
                token_uri,
            )
        },
    }
}

/// Answers a balance query: the configured deposit denomination and the
/// token's accumulated balance, zero when the token has no ledger entry.
/// A missing entry is never an error.
pub fn query(config: &Config, ledger: &Ledger, msg: &QueryExt) -> (r: Coin)
    requires
        ledger.wf(),
    ensures
        match *msg {
            QueryExt::Balance { token_id } => r.denom@ == config.deposit_denom@ && r.amount
                == ledger.spec_balance(token_id@),
        },
{
    match msg {
        QueryExt::Balance { token_id } => Coin {
            denom: config.deposit_denom.clone(),
            amount: ledger.balance_of(token_id),
        },
    }
}

} // verus!
