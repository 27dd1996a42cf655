//! The price-triggered policy: a limit order that is filled once the
//! on-chain price is at or below the price the user asked for.

use crate::clock::{parse_time_limit, time_limit_nanos};
use crate::codec::{
    abi_decode_string,
    abi_decode_uint256,
    abi_decoded_string,
    address_text_value,
    be_value,
    decimal_value,
    parse_address,
    parse_decimal,
    selector_of,
    short_selector,
};
use crate::contracts_abi::{
    AdditionalData,
    CallPayload,
    CommitPlan,
    FlashLoanData,
    MevTimeData,
    PlannedCall,
    ProxyPushed,
    ReturnValue,
    TxOutcome,
    UserObjectivePushed,
};
use crate::guard::{holder_after, GuardOp, TransactionGuard};
use crate::primitives::{
    lemma_amount_value_injective,
    pow2_256,
    Address,
    Amount,
    Hash32,
    TimeSpan,
    WEI_PER_ETHER,
};
use crate::solver::{
    guard_not_held,
    commit_message,
    commit_response,
    commit_succeeded,
    contract_address,
    find_contract,
    Deadline,
    ErrorView,
    Solver,
    SolverError,
    SolverParams,
    SolverResponse,
};
use crate::text::{amount_to_decimal, join_text, decimal_text};
use vstd::prelude::*;

verus! {

/// The application name of the policy.
pub const APP_SELECTOR: &'static str = "FLASHLIQUIDITY.LIMITORDER";

/// The logical name of the flash loan contract.
pub const FLASH_LOAN_NAME: &'static str = "FLASH_LOAN";

/// The logical name of the swap pool contract.
pub const SWAP_POOL_NAME: &'static str = "SWAP_POOL";

/// The gas limit of the commit's transaction.
pub const COMMIT_GAS_LIMIT: u64 = 5_000_000;

/// The parameters that an event must carry.
#[derive(Clone, Copy, Debug, PartialEq, Eq, Structural)]
pub enum ParamKind {
    GiveToken,
    TakeToken,
    BuyPrice,
    Slippage,
    TimeLimit,
}

/// The parameter that is stored under `key`.
pub open spec fn kind_of(key: Seq<u8>) -> Option<ParamKind> {
    if key == selector_of("give_token"@) {
        Some(ParamKind::GiveToken)
    } else if key == selector_of("take_token"@) {
        Some(ParamKind::TakeToken)
    } else if key == selector_of("buy_price"@) {
        Some(ParamKind::BuyPrice)
    } else if key == selector_of("slippage"@) {
        Some(ParamKind::Slippage)
    } else if key == selector_of("time_limit"@) {
        Some(ParamKind::TimeLimit)
    } else {
        None
    }
}

/// What the parameters read so far give for each field, as numbers and
/// byte strings. A field is `None` until the event gives a value for it.
pub struct ExtractedView {
    pub give_token: Option<Seq<u8>>,
    pub take_token: Option<Seq<u8>>,
    pub buy_price: Option<nat>,
    pub slippage: Option<nat>,
    pub time_limit: Option<nat>,
}

/// What the parameters read so far give for each field.
#[derive(Clone, Copy, Debug)]
pub struct Extracted {
    pub give_token: Option<Address>,
    pub take_token: Option<Address>,
    pub buy_price: Option<Amount>,
    pub slippage: Option<Amount>,
    pub time_limit: Option<TimeSpan>,
}

impl View for Extracted {
    type V = ExtractedView;

    open spec fn view(&self) -> ExtractedView {
        ExtractedView {
            give_token: match self.give_token {
                Some(a) => Some(a@),
                None => None,
            },
            take_token: match self.take_token {
                Some(a) => Some(a@),
                None => None,
            },
            buy_price: match self.buy_price {
                Some(a) => Some(a.value()),
                None => None,
            },
            slippage: match self.slippage {
                Some(a) => Some(a.value()),
                None => None,
            },
            time_limit: match self.time_limit {
                Some(t) => Some(t.total_nanos()),
                None => None,
            },
        }
    }
}

impl Extracted {
    /// The time limit, where there is one, is a proper span.
    pub open spec fn wf(self) -> bool {
        self.time_limit matches Some(t) ==> t.wf()
    }
}

/// The address that a parameter value holds: its 20 bytes.
pub open spec fn address_value(value: Seq<u8>) -> Option<Seq<u8>> {
    if value.len() == 20 {
        Some(value)
    } else {
        None
    }
}

/// The time limit that a parameter value holds: the ABI-encoded string in
/// it, read as a span of time, in nanoseconds.
pub open spec fn time_limit_value(value: Seq<u8>) -> Option<nat> {
    match abi_decoded_string(value) {
        Some(text) => time_limit_nanos(text),
        None => None,
    }
}

/// The fields after one more parameter. A token address or a time limit is
/// taken from the last parameter that names it, malformed or not; a price
/// or a slippage from the last one that holds a number.
pub open spec fn extract_step(state: ExtractedView, key: Seq<u8>, value: Seq<u8>) -> ExtractedView {
    match kind_of(key) {
        Some(ParamKind::GiveToken) => ExtractedView { give_token: address_value(value), ..state },
        Some(ParamKind::TakeToken) => ExtractedView { take_token: address_value(value), ..state },
        Some(ParamKind::BuyPrice) => if value.len() >= 32 {
            ExtractedView { buy_price: Some(be_value(value.subrange(0, 32))), ..state }
        } else {
            state
        },
        Some(ParamKind::Slippage) => if value.len() >= 32 {
            ExtractedView { slippage: Some(be_value(value.subrange(0, 32))), ..state }
        } else {
            state
        },
        Some(ParamKind::TimeLimit) => ExtractedView { time_limit: time_limit_value(value), ..state },
        None => state,
    }
}

/// The fields that the first `upto` parameters of an event give.
pub open spec fn extracted(data: Seq<MevTimeData>, upto: int) -> ExtractedView
    decreases upto,
{
    if upto <= 0 || upto > data.len() {
        ExtractedView {
            give_token: None,
            take_token: None,
            buy_price: None,
            slippage: None,
            time_limit: None,
        }
    } else {
        extract_step(extracted(data, upto - 1), data[upto - 1].key@, data[upto - 1].value@)
    }
}

/// Why no solver can be made from these contract addresses and fields: the
/// message of the parameter error, or `None` where nothing is wrong. The
/// first thing that is wrong decides.
pub open spec fn construction_failure(
    flash_loan: Option<Address>,
    swap_pool: Option<Address>,
    fields: ExtractedView,
) -> Option<Seq<char>> {
    if flash_loan.is_none() {
        Some("missing address for contract FLASH_LOAN"@)
    } else if swap_pool.is_none() {
        Some("missing address for contract SWAP_POOL"@)
    } else if fields.give_token.is_none() {
        Some("Error in the parameter give_token: missing or malformed"@)
    } else if fields.take_token.is_none() {
        Some("Error in the parameter take_token: missing or malformed"@)
    } else if fields.buy_price.is_none() {
        Some("Error in the parameter buy_price: missing or malformed"@)
    } else if fields.slippage.is_none() {
        Some("Error in the parameter slippage: missing or malformed"@)
    } else if fields.time_limit.is_none() {
        Some("Error in the parameter time_limit: missing or malformed"@)
    } else {
        None
    }
}

/// The value of the last of the first `upto` named parameters that is
/// called `name`, if any is.
pub open spec fn named_value(data: Seq<AdditionalData>, name: Seq<char>, upto: int) -> Option<
    Seq<char>,
>
    decreases upto,
{
    if upto <= 0 || upto > data.len() {
        None
    } else if data[upto - 1].name@ == name {
        Some(data[upto - 1].value@)
    } else {
        named_value(data, name, upto - 1)
    }
}

/// The value that the named parameters give for `name`.
pub open spec fn value_named(data: Seq<AdditionalData>, name: Seq<char>) -> Option<Seq<char>> {
    named_value(data, name, data.len() as int)
}

/// The amount that a parameter gives in decimal notation.
pub open spec fn amount_in(value: Option<Seq<char>>) -> Option<nat> {
    match value {
        Some(text) => match decimal_value(text) {
            Some(n) => if n < pow2_256() {
                Some(n)
            } else {
                None
            },
            None => None,
        },
        None => None,
    }
}

/// The address that a parameter gives in hexadecimal notation.
pub open spec fn address_in(value: Option<Seq<char>>) -> Option<Seq<u8>> {
    match value {
        Some(text) => address_text_value(text),
        None => None,
    }
}

/// The time limit that a parameter gives in words, in nanoseconds.
pub open spec fn time_limit_in(value: Option<Seq<char>>) -> Option<nat> {
    match value {
        Some(text) => time_limit_nanos(text),
        None => None,
    }
}

/// The fields that named parameters give, each from the last parameter of
/// its name.
pub open spec fn extracted_named(data: Seq<AdditionalData>) -> ExtractedView {
    ExtractedView {
        give_token: address_in(value_named(data, "give_token"@)),
        take_token: address_in(value_named(data, "take_token"@)),
        buy_price: amount_in(value_named(data, "buy_price"@)),
        slippage: amount_in(value_named(data, "slippage"@)),
        time_limit: time_limit_in(value_named(data, "time_limit"@)),
    }
}

/// Why no solver can be made from these contract addresses and named
/// parameters: as for parameters by selector, and an order must name its
/// amount besides.
pub open spec fn named_construction_failure(
    flash_loan: Option<Address>,
    swap_pool: Option<Address>,
    data: Seq<AdditionalData>,
) -> Option<Seq<char>> {
    let fields = extracted_named(data);
    if flash_loan.is_none() || swap_pool.is_none() || fields.give_token.is_none()
        || fields.take_token.is_none() {
        construction_failure(flash_loan, swap_pool, fields)
    } else if amount_in(value_named(data, "amount"@)).is_none() {
        Some("Error in the parameter amount: missing or malformed"@)
    } else {
        construction_failure(flash_loan, swap_pool, fields)
    }
}

/// Finds the value of the last named parameter that is called `name`.
pub fn find_named<'a>(data: &'a Vec<AdditionalData>, name: &str) -> (r: Option<&'a String>)
    ensures
        match r {
            Some(value) => value_named(data@, name@) == Some(value@),
            None => value_named(data@, name@).is_none(),
        },
{
    let wanted = name.to_owned();
    let mut found: Option<&String> = None;
    let mut i: usize = 0;
    while i < data.len()
        invariant
            i <= data.len(),
            wanted@ == name@,
            match found {
                Some(value) => named_value(data@, name@, i as int) == Some(value@),
                None => named_value(data@, name@, i as int).is_none(),
            },
        decreases data.len() - i,
    {
        if data[i].name == wanted {
            found = Some(&data[i].value);
        }
        i += 1;
    }
    found
}

/// The selectors of the five parameter names.
struct ParamKeys {
    give_token: Hash32,
    take_token: Hash32,
    buy_price: Hash32,
    slippage: Hash32,
    time_limit: Hash32,
}

impl ParamKeys {
    spec fn wf(self) -> bool {
        &&& self.give_token@ == selector_of("give_token"@)
        &&& self.take_token@ == selector_of("take_token"@)
        &&& self.buy_price@ == selector_of("buy_price"@)
        &&& self.slippage@ == selector_of("slippage"@)
        &&& self.time_limit@ == selector_of("time_limit"@)
    }

    fn new() -> (r: ParamKeys)
        ensures
            r.wf(),
    {
        proof {
            reveal_strlit("give_token");
            reveal_strlit("take_token");
            reveal_strlit("buy_price");
            reveal_strlit("slippage");
            reveal_strlit("time_limit");
        }
        ParamKeys {
            give_token: short_selector("give_token"),
            take_token: short_selector("take_token"),
            buy_price: short_selector("buy_price"),
            slippage: short_selector("slippage"),
            time_limit: short_selector("time_limit"),
        }
    }

    fn classify(&self, key: &Hash32) -> (r: Option<ParamKind>)
        requires
            self.wf(),
        ensures
            r == kind_of(key@),
    {
        if *key == self.give_token {
            Some(ParamKind::GiveToken)
        } else if *key == self.take_token {
            Some(ParamKind::TakeToken)
        } else if *key == self.buy_price {
            Some(ParamKind::BuyPrice)
        } else if *key == self.slippage {
            Some(ParamKind::Slippage)
        } else if *key == self.time_limit {
            Some(ParamKind::TimeLimit)
        } else {
            None
        }
    }
}

/// Reads the address that the named parameters give for `name`.
pub fn named_address(data: &Vec<AdditionalData>, name: &str) -> (r: Option<Address>)
    ensures
        match r {
            Some(address) => address_in(value_named(data@, name@)) == Some(address@),
            None => address_in(value_named(data@, name@)).is_none(),
        },
{
    match find_named(data, name) {
        Some(text) => parse_address(text.as_str()),
        None => None,
    }
}

/// Reads the amount that the named parameters give for `name`.
pub fn named_amount(data: &Vec<AdditionalData>, name: &str) -> (r: Option<Amount>)
    ensures
        match r {
            Some(amount) => amount_in(value_named(data@, name@)) == Some(amount.value()),
            None => amount_in(value_named(data@, name@)).is_none(),
        },
{
    match find_named(data, name) {
        Some(text) => parse_decimal(text.as_str()),
        None => None,
    }
}

/// Reads an address from a parameter value of exactly 20 bytes.
pub fn address_from_bytes(value: &Vec<u8>) -> (r: Option<Address>)
    ensures
        match r {
            Some(a) => address_value(value@) == Some(a@),
            None => address_value(value@).is_none(),
        },
{
    if value.len() != 20 {
        return None;
    }
    let mut bytes: [u8; 20] = [0u8; 20];
    let mut i: usize = 0;
    while i < 20
        invariant
            i <= 20,
            value.len() == 20,
            forall|j: int| 0 <= j < i ==> bytes@[j] == value@[j],
        decreases 20 - i,
    {
        bytes[i] = value[i];
        i += 1;
    }
    Some(Address { bytes })
}

/// Reads a time limit from a parameter value that holds an ABI-encoded
/// string.
pub fn time_limit_from_bytes(value: &Vec<u8>) -> (r: Option<TimeSpan>)
    ensures
        match r {
            Some(t) => t.wf() && time_limit_value(value@) == Some(t.total_nanos()),
            None => time_limit_value(value@).is_none(),
        },
{
    match abi_decode_string(value.as_slice()) {
        Some(text) => parse_time_limit(text.as_str()),
        None => None,
    }
}

/// Reads the fields of a limit order from the parameters of an event.
pub fn extract_fields(data: &Vec<MevTimeData>) -> (r: Extracted)
    ensures
        r.wf(),
        r@ == extracted(data@, data@.len() as int),
{
    let keys = ParamKeys::new();
    let mut state = Extracted {
        give_token: None,
        take_token: None,
        buy_price: None,
        slippage: None,
        time_limit: None,
    };
    let mut i: usize = 0;
    while i < data.len()
        invariant
            i <= data.len(),
            keys.wf(),
            state.wf(),
            state@ == extracted(data@, i as int),
        decreases data.len() - i,
    {
        let entry = &data[i];
        match keys.classify(&entry.key) {
            Some(ParamKind::GiveToken) => {
                state.give_token = address_from_bytes(&entry.value);
            },
            Some(ParamKind::TakeToken) => {
                state.take_token = address_from_bytes(&entry.value);
            },
            Some(ParamKind::BuyPrice) => {
                if let Some(price) = abi_decode_uint256(entry.value.as_slice()) {
                    state.buy_price = Some(price);
                }
            },
            Some(ParamKind::Slippage) => {
                if let Some(slippage) = abi_decode_uint256(entry.value.as_slice()) {
                    state.slippage = Some(slippage);
                }
            },
            Some(ParamKind::TimeLimit) => {
                state.time_limit = time_limit_from_bytes(&entry.value);
            },
            None => {},
        }
        i += 1;
    }
    state
}

/// A deferred call in a proxy's queue.
#[derive(Clone, Copy, Debug, PartialEq, Eq)]
pub struct Release {
    pub proxy_address: Address,
    pub sequence_number: Amount,
}

/// The gas limit of the commit's transaction where it releases a deferred
/// call.
pub const RELEASE_GAS_LIMIT: u64 = 10_000_000;

/// A limit order bound to the event that asked for it.
#[derive(Clone, Copy, Debug, PartialEq, Eq)]
pub struct LimitOrderSolver {
    pub solver_address: Address,
    pub call_breaker_address: Address,
    pub flash_loan_address: Address,
    pub swap_pool_address: Address,
    pub give_token: Address,
    pub take_token: Address,
    pub buy_price: Amount,
    pub slippage: Amount,
    pub time_limit: TimeSpan,
    pub give_liquidity: u64,
    pub take_liquidity: u64,
    pub with_flash_loan: bool,
    /// The deferred call that the commit releases, where the order came
    /// with one.
    pub release: Option<Release>,
}

impl LimitOrderSolver {
    /// The time limit is a proper span.
    pub open spec fn wf(self) -> bool {
        self.time_limit.wf()
    }

    /// Whether this is the solver of an event under an application's
    /// parameters: each field is what the event or the application gives.
    pub open spec fn built_from(self, event: UserObjectivePushed, params: SolverParams) -> bool {
        let flash_loan = contract_address(params.extra_contract_addresses@, FLASH_LOAN_NAME@);
        let swap_pool = contract_address(params.extra_contract_addresses@, SWAP_POOL_NAME@);
        let fields = extracted(event.mev_time_data@, event.mev_time_data@.len() as int);
        &&& self.wf()
        &&& self.solver_address == params.solver_address
        &&& self.call_breaker_address == params.call_breaker_address
        &&& Some(self.flash_loan_address) == flash_loan
        &&& Some(self.swap_pool_address) == swap_pool
        &&& Some(self.give_token@) == fields.give_token
        &&& Some(self.take_token@) == fields.take_token
        &&& Some(self.buy_price.value()) == fields.buy_price
        &&& Some(self.slippage.value()) == fields.slippage
        &&& Some(self.time_limit.total_nanos()) == fields.time_limit
        &&& self.give_liquidity == params.give_liquidity
        &&& self.take_liquidity == params.take_liquidity
        &&& self.with_flash_loan == params.with_flash_loan
        &&& self.release.is_none()
    }

    /// Why no solver can be made for an event under an application's
    /// parameters, or `None` where one can: an event with another selector
    /// is refused; else the first missing contract address or missing or
    /// malformed parameter is reported.
    pub open spec fn construction_error(event: UserObjectivePushed, params: SolverParams) -> Option<
        ErrorView,
    > {
        if event.app_id@ != selector_of(APP_SELECTOR@) {
            Some(ErrorView::MisleadingSelector(event.app_id@))
        } else {
            match construction_failure(
                contract_address(params.extra_contract_addresses@, FLASH_LOAN_NAME@),
                contract_address(params.extra_contract_addresses@, SWAP_POOL_NAME@),
                extracted(event.mev_time_data@, event.mev_time_data@.len() as int),
            ) {
                Some(message) => Some(ErrorView::ParamError(message)),
                None => None,
            }
        }
    }

    /// Whether this is the solver of named parameters under an
    /// application's parameters, with this deferred call to release.
    pub open spec fn built_from_named(
        self,
        data: Seq<AdditionalData>,
        params: SolverParams,
        release: Option<Release>,
    ) -> bool {
        let flash_loan = contract_address(params.extra_contract_addresses@, FLASH_LOAN_NAME@);
        let swap_pool = contract_address(params.extra_contract_addresses@, SWAP_POOL_NAME@);
        let fields = extracted_named(data);
        &&& self.wf()
        &&& self.solver_address == params.solver_address
        &&& self.call_breaker_address == params.call_breaker_address
        &&& Some(self.flash_loan_address) == flash_loan
        &&& Some(self.swap_pool_address) == swap_pool
        &&& Some(self.give_token@) == fields.give_token
        &&& Some(self.take_token@) == fields.take_token
        &&& Some(self.buy_price.value()) == fields.buy_price
        &&& Some(self.slippage.value()) == fields.slippage
        &&& Some(self.time_limit.total_nanos()) == fields.time_limit
        &&& self.give_liquidity == params.give_liquidity
        &&& self.take_liquidity == params.take_liquidity
        &&& self.with_flash_loan == params.with_flash_loan
        &&& self.release == release
    }

    /// Why no solver can be made from a selector and named parameters, or
    /// `None` where one can.
    pub open spec fn named_construction_error(
        selector: Seq<u8>,
        data: Seq<AdditionalData>,
        params: SolverParams,
    ) -> Option<ErrorView> {
        if selector != selector_of(APP_SELECTOR@) {
            Some(ErrorView::MisleadingSelector(selector))
        } else {
            match named_construction_failure(
                contract_address(params.extra_contract_addresses@, FLASH_LOAN_NAME@),
                contract_address(params.extra_contract_addresses@, SWAP_POOL_NAME@),
                data,
            ) {
                Some(message) => Some(ErrorView::ParamError(message)),
                None => None,
            }
        }
    }

    /// Makes the solver for an event whose parameters come by name and as
    /// texts: addresses in hexadecimal notation, the amount, the price and
    /// the slippage in decimal notation, the time limit in words. Of each
    /// name the last parameter counts. Another selector is refused; a
    /// missing contract address or a missing or malformed parameter is a
    /// parameter error.
    pub fn from_named(selector: &Hash32, data: &Vec<AdditionalData>, params: &SolverParams) -> (r:
        Result<LimitOrderSolver, SolverError>)
        ensures
            match Self::named_construction_error(selector@, data@, *params) {
                Some(expected) => (r matches Err(error) && error@ == expected),
                None => (r matches Ok(solver) && solver.built_from_named(
                    data@,
                    *params,
                    None,
                )),
            },
    {
        let expected = Self::selector();
        if *selector != expected {
            return Err(SolverError::MisleadingSelector(*selector));
        }
        let flash_loan = match find_contract(&params.extra_contract_addresses, FLASH_LOAN_NAME) {
            Some(address) => address,
            None => {
                return Err(
                    SolverError::ParamError("missing address for contract FLASH_LOAN".to_owned()),
                );
            },
        };
        let swap_pool = match find_contract(&params.extra_contract_addresses, SWAP_POOL_NAME) {
            Some(address) => address,
            None => {
                return Err(
                    SolverError::ParamError("missing address for contract SWAP_POOL".to_owned()),
                );
            },
        };
        let give_token = match named_address(data, "give_token") {
            Some(address) => address,
            None => {
                return Err(
                    SolverError::ParamError(
                        "Error in the parameter give_token: missing or malformed".to_owned(),
                    ),
                );
            },
        };
        let take_token = match named_address(data, "take_token") {
            Some(address) => address,
            None => {
                return Err(
                    SolverError::ParamError(
                        "Error in the parameter take_token: missing or malformed".to_owned(),
                    ),
                );
            },
        };
        if named_amount(data, "amount").is_none() {
            return Err(
                SolverError::ParamError(
                    "Error in the parameter amount: missing or malformed".to_owned(),
                ),
            );
        }
        let buy_price = match named_amount(data, "buy_price") {
            Some(price) => price,
            None => {
                return Err(
                    SolverError::ParamError(
                        "Error in the parameter buy_price: missing or malformed".to_owned(),
                    ),
                );
            },
        };
        let slippage = match named_amount(data, "slippage") {
            Some(slippage) => slippage,
            None => {
                return Err(
                    SolverError::ParamError(
                        "Error in the parameter slippage: missing or malformed".to_owned(),
                    ),
                );
            },
        };
        let time_limit = match find_named(data, "time_limit") {
            Some(text) => parse_time_limit(text.as_str()),
            None => None,
        };
        let time_limit = match time_limit {
            Some(limit) => limit,
            None => {
                return Err(
                    SolverError::ParamError(
                        "Error in the parameter time_limit: missing or malformed".to_owned(),
                    ),
                );
            },
        };
        Ok(
            LimitOrderSolver {
                solver_address: params.solver_address,
                call_breaker_address: params.call_breaker_address,
                flash_loan_address: flash_loan,
                swap_pool_address: swap_pool,
                give_token,
                take_token,
                buy_price,
                slippage,
                time_limit,
                give_liquidity: params.give_liquidity,
                take_liquidity: params.take_liquidity,
                with_flash_loan: params.with_flash_loan,
                release: None,
            },
        )
    }

    /// Makes the solver for an event that pushed a deferred call with
    /// named parameters: the solver of the parameters, whose commit
    /// releases the deferred call.
    pub fn from_proxy_pushed(event: &ProxyPushed, params: &SolverParams) -> (r: Result<
        LimitOrderSolver,
        SolverError,
    >)
        ensures
            match Self::named_construction_error(event.selector@, event.data_values@, *params) {
                Some(expected) => (r matches Err(error) && error@ == expected),
                None => (r matches Ok(solver) && solver.built_from_named(
                    event.data_values@,
                    *params,
                    Some(
                        Release {
                            proxy_address: event.proxy_address,
                            sequence_number: event.sequence_number,
                        },
                    ),
                )),
            },
    {
        match Self::from_named(&event.selector, &event.data_values, params) {
            Ok(solver) => Ok(
                LimitOrderSolver {
                    release: Some(
                        Release {
                            proxy_address: event.proxy_address,
                            sequence_number: event.sequence_number,
                        },
                    ),
                    ..solver
                },
            ),
            Err(error) => Err(error),
        }
    }

    /// Makes the solver for an event, from the event's parameters and the
    /// application's static parameters. An event with another selector is
    /// refused; a missing contract address or a missing or malformed event
    /// parameter is a parameter error.
    pub fn new(event: &UserObjectivePushed, params: &SolverParams) -> (r: Result<
        LimitOrderSolver,
        SolverError,
    >)
        ensures
            match Self::construction_error(*event, *params) {
                Some(expected) => (r matches Err(error) && error@ == expected),
                None => (r matches Ok(solver) && solver.built_from(*event, *params)),
            },
    {
        let expected = Self::selector();
        if event.app_id != expected {
            return Err(SolverError::MisleadingSelector(event.app_id));
        }
        let flash_loan = match find_contract(&params.extra_contract_addresses, FLASH_LOAN_NAME) {
            Some(address) => address,
            None => {
                return Err(
                    SolverError::ParamError("missing address for contract FLASH_LOAN".to_owned()),
                );
            },
        };
        let swap_pool = match find_contract(&params.extra_contract_addresses, SWAP_POOL_NAME) {
            Some(address) => address,
            None => {
                return Err(
                    SolverError::ParamError("missing address for contract SWAP_POOL".to_owned()),
                );
            },
        };
        let fields = extract_fields(&event.mev_time_data);
        let give_token = match fields.give_token {
            Some(address) => address,
            None => {
                return Err(
                    SolverError::ParamError(
                        "Error in the parameter give_token: missing or malformed".to_owned(),
                    ),
                );
            },
        };
        let take_token = match fields.take_token {
            Some(address) => address,
            None => {
                return Err(
                    SolverError::ParamError(
                        "Error in the parameter take_token: missing or malformed".to_owned(),
                    ),
                );
            },
        };
        let buy_price = match fields.buy_price {
            Some(price) => price,
            None => {
                return Err(
                    SolverError::ParamError(
                        "Error in the parameter buy_price: missing or malformed".to_owned(),
                    ),
                );
            },
        };
        let slippage = match fields.slippage {
            Some(slippage) => slippage,
            None => {
                return Err(
                    SolverError::ParamError(
                        "Error in the parameter slippage: missing or malformed".to_owned(),
                    ),
                );
            },
        };
        let time_limit = match fields.time_limit {
            Some(limit) => limit,
            None => {
                return Err(
                    SolverError::ParamError(
                        "Error in the parameter time_limit: missing or malformed".to_owned(),
                    ),
                );
            },
        };
        Ok(
            LimitOrderSolver {
                solver_address: params.solver_address,
                call_breaker_address: params.call_breaker_address,
                flash_loan_address: flash_loan,
                swap_pool_address: swap_pool,
                give_token,
                take_token,
                buy_price,
                slippage,
                time_limit,
                give_liquidity: params.give_liquidity,
                take_liquidity: params.take_liquidity,
                with_flash_loan: params.with_flash_loan,
                release: None,
            },
        )
    }

    /// The selector that routes events to this policy.
    pub fn selector() -> (r: Hash32)
        ensures
            r@ == selector_of(APP_SELECTOR@),
    {
        proof {
            reveal_strlit("FLASHLIQUIDITY.LIMITORDER");
        }
        short_selector("FLASHLIQUIDITY.LIMITORDER")
    }

    /// The application name of the policy.
    pub fn app(&self) -> (r: String)
        ensures
            r@ == APP_SELECTOR@,
    {
        APP_SELECTOR.to_owned()
    }

    /// How long the order stays open, counted from the executor's start.
    pub fn time_limit(&self) -> (r: TimeSpan)
        ensures
            r == self.time_limit,
    {
        self.time_limit
    }

    /// Whether a price reading meets the order's condition: the price is at
    /// or below the price asked for.
    pub open spec fn price_met(self, price: Amount) -> bool {
        price.value() <= self.buy_price.value()
    }

    /// The message of a poll step on a price reading.
    pub open spec fn step_message(self, price: Amount) -> Seq<char> {
        if self.price_met(price) {
            "Price conditions are met"@
        } else {
            "The current price "@ + decimal_text(price.value()) + " is higher than the desired "@
                + decimal_text(self.buy_price.value())
        }
    }

    /// Evaluates the order's condition once, on the result of the price
    /// query. A failed query is an execution error that carries its reason.
    pub fn exec_solver_step(&self, price: &Result<Amount, String>) -> (r: Result<
        SolverResponse,
        SolverError,
    >)
        ensures
            match *price {
                Ok(current) => (r matches Ok(response) && response.succeeded == self.price_met(
                    current,
                ) && response.message@ == self.step_message(current) && response.remaining_secs
                    == 0),
                Err(reason) => (r matches Err(error) && error@ == ErrorView::ExecError(reason@)),
            },
    {
        match price {
            Ok(current) => {
                if current.gt(self.buy_price) {
                    let current_text = amount_to_decimal(*current);
                    let desired_text = amount_to_decimal(self.buy_price);
                    let a = join_text("The current price ", current_text.as_str());
                    let b = join_text(a.as_str(), " is higher than the desired ");
                    let message = join_text(b.as_str(), desired_text.as_str());
                    Ok(SolverResponse { succeeded: false, message, remaining_secs: 0 })
                } else {
                    Ok(
                        SolverResponse {
                            succeeded: true,
                            message: "Price conditions are met".to_owned(),
                            remaining_secs: 0,
                        },
                    )
                }
            },
            Err(reason) => Err(SolverError::ExecError(reason.clone())),
        }
    }

    /// A call of the commit that sends no value, cannot be skipped and is
    /// verified.
    pub open spec fn spec_call(
        addr: Address,
        gas: u64,
        payload: CallPayload,
        salt: u64,
        expose_return: bool,
    ) -> PlannedCall {
        PlannedCall {
            amount: Amount { w0: 0, w1: 0, w2: 0, w3: 0 },
            addr,
            gas,
            payload,
            salt,
            skippable: false,
            verifiable: true,
            expose_return,
        }
    }

    /// The call that releases a deferred call.
    pub open spec fn release_call(release: Release) -> PlannedCall {
        Self::spec_call(
            release.proxy_address,
            1_000_000,
            CallPayload::Pull { seq_number: release.sequence_number },
            1,
            false,
        )
    }

    /// The calls of the commit, in the order in which they are listed:
    /// approve both tokens for the swap pool, provide liquidity, release
    /// the deferred call where the order came with one, check the slippage,
    /// withdraw the liquidity.
    pub open spec fn spec_calls(self) -> Seq<PlannedCall> {
        match self.release {
            Some(release) => self.own_calls().insert(3, Self::release_call(release)),
            None => self.own_calls(),
        }
    }

    /// What the calls of the commit are expected to return. Where the
    /// commit releases no deferred call itself, the last of the six values
    /// is for the user's own call.
    pub open spec fn spec_return_values(self) -> Seq<ReturnValue> {
        seq![
            ReturnValue::Bool(true),
            ReturnValue::Bool(true),
            ReturnValue::Empty,
            if self.release.is_some() {
                ReturnValue::AfterOrderPull
            } else {
                ReturnValue::Empty
            },
            ReturnValue::Empty,
            ReturnValue::Empty,
        ]
    }

    /// The order in which the ledger runs the calls: as they are listed
    /// where the commit releases the deferred call itself; else the user's
    /// own call (number 0) runs behind the first three of the solver.
    pub open spec fn spec_order(self) -> Seq<u64> {
        if self.release.is_some() {
            seq![0u64, 1u64, 2u64, 3u64, 4u64, 5u64]
        } else {
            seq![1u64, 2u64, 3u64, 0u64, 4u64, 5u64]
        }
    }

    /// The gas limit of the commit's transaction.
    pub open spec fn spec_gas_limit(self) -> u64 {
        if self.release.is_some() {
            RELEASE_GAS_LIMIT
        } else {
            COMMIT_GAS_LIMIT
        }
    }

    /// The solver's own five calls: approve both tokens for the swap pool,
    /// provide liquidity, check the slippage, withdraw the liquidity.
    pub open spec fn own_calls(self) -> Seq<PlannedCall> {
        seq![
            Self::spec_call(
                self.give_token,
                1_000_000,
                CallPayload::Approve {
                    spender: self.swap_pool_address,
                    amount: spec_ether(self.give_liquidity),
                },
                1,
                false,
            ),
            Self::spec_call(
                self.take_token,
                1_000_000,
                CallPayload::Approve {
                    spender: self.swap_pool_address,
                    amount: spec_ether(self.take_liquidity),
                },
                1,
                false,
            ),
            Self::spec_call(
                self.swap_pool_address,
                1_000_000,
                CallPayload::ProvideLiquidity {
                    provider: self.call_breaker_address,
                    amount_0_in: spec_units(self.give_liquidity),
                    amount_1_in: spec_units(self.take_liquidity),
                },
                1,
                false,
            ),
            Self::spec_call(
                self.swap_pool_address,
                10_000_000,
                CallPayload::CheckSlippage { max_deviation_percentage: self.slippage },
                0,
                true,
            ),
            Self::spec_call(
                self.swap_pool_address,
                1_000_000,
                CallPayload::WithdrawLiquidity {
                    provider: self.call_breaker_address,
                    amount_0_out: spec_units(self.give_liquidity),
                    amount_1_out: spec_units(self.take_liquidity),
                },
                1,
                false,
            ),
        ]
    }

    /// The flash loan that goes with the commit, where the application asks
    /// for one: the liquidity that the commit provides.
    pub open spec fn spec_flash_loan(self) -> Option<FlashLoanData> {
        if self.with_flash_loan {
            Some(
                FlashLoanData {
                    provider: self.flash_loan_address,
                    amount_a: spec_units(self.give_liquidity),
                    amount_b: spec_units(self.take_liquidity),
                },
            )
        } else {
            None
        }
    }

    /// Whether `plan` is the commit of this solver: its calls, the order in
    /// which the ledger runs them, what each is expected to return, and the
    /// flash loan where the application asks for one.
    pub open spec fn is_commit_plan(&self, plan: CommitPlan) -> bool {
        &&& plan.calls@ == self.spec_calls()
        &&& plan.return_values@ == self.spec_return_values()
        &&& plan.order_of_execution@ == self.spec_order()
        &&& plan.gas_limit == self.spec_gas_limit()
        &&& plan.flash_loan == self.spec_flash_loan()
        &&& plan.disbursals@.len() == 0
    }

    /// Begins the commit of an executor: takes the transaction guard for it
    /// and assembles the commit. While another commit holds the guard, none
    /// begins, and nothing changes.
    pub fn begin_commit(&self, guard: &mut TransactionGuard, executor: u128) -> (r: Option<
        CommitPlan,
    >)
        ensures
            final(guard).holder == holder_after(old(guard).holder, GuardOp::Acquire(executor)),
            r.is_some() == old(guard).holder.is_none(),
            r matches Some(plan) ==> self.is_commit_plan(plan),
    {
        if guard.try_acquire(executor) {
            Some(self.commit_plan())
        } else {
            None
        }
    }

    /// Assembles the commit: the calls, the order in which the ledger runs
    /// them, and what each is expected to return. An order that came with a
    /// deferred call releases it between providing the liquidity and
    /// checking the slippage; for any other order the user's own call
    /// (number 0) runs there.
    pub fn commit_plan(&self) -> (r: CommitPlan)
        ensures
            self.is_commit_plan(r),
    {
        let give_units = Amount::from_u64(self.give_liquidity);
        let take_units = Amount::from_u64(self.take_liquidity);
        let give_wei = Amount::from_ether(self.give_liquidity);
        let take_wei = Amount::from_ether(self.take_liquidity);
        proof {
            lemma_amount_value_injective(give_units, spec_units(self.give_liquidity));
            lemma_amount_value_injective(take_units, spec_units(self.take_liquidity));
            lemma_spec_ether(self.give_liquidity);
            lemma_spec_ether(self.take_liquidity);
            lemma_amount_value_injective(give_wei, spec_ether(self.give_liquidity));
            lemma_amount_value_injective(take_wei, spec_ether(self.take_liquidity));
        }
        let mut calls: Vec<PlannedCall> = Vec::new();
        calls.push(
            plain_call(
                self.give_token,
                1_000_000,
                CallPayload::Approve { spender: self.swap_pool_address, amount: give_wei },
                1,
                false,
            ),
        );
        calls.push(
            plain_call(
                self.take_token,
                1_000_000,
                CallPayload::Approve { spender: self.swap_pool_address, amount: take_wei },
                1,
                false,
            ),
        );
        calls.push(
            plain_call(
                self.swap_pool_address,
                1_000_000,
                CallPayload::ProvideLiquidity {
                    provider: self.call_breaker_address,
                    amount_0_in: give_units,
                    amount_1_in: take_units,
                },
                1,
                false,
            ),
        );
        calls.push(
            plain_call(
                self.swap_pool_address,
                10_000_000,
                CallPayload::CheckSlippage { max_deviation_percentage: self.slippage },
                0,
                true,
            ),
        );
        calls.push(
            plain_call(
                self.swap_pool_address,
                1_000_000,
                CallPayload::WithdrawLiquidity {
                    provider: self.call_breaker_address,
                    amount_0_out: give_units,
                    amount_1_out: take_units,
                },
                1,
                false,
            ),
        );
        assert(calls@ =~= self.own_calls());
        let mut return_values: Vec<ReturnValue> = Vec::new();
        return_values.push(ReturnValue::Bool(true));
        return_values.push(ReturnValue::Bool(true));
        return_values.push(ReturnValue::Empty);
        let mut order_of_execution: Vec<u64> = Vec::new();
        let gas_limit: u64;
        match self.release {
            Some(release) => {
                calls.insert(
                    3,
                    plain_call(
                        release.proxy_address,
                        1_000_000,
                        CallPayload::Pull { seq_number: release.sequence_number },
                        1,
                        false,
                    ),
                );
                return_values.push(ReturnValue::AfterOrderPull);
                order_of_execution.push(0);
                order_of_execution.push(1);
                order_of_execution.push(2);
                order_of_execution.push(3);
                gas_limit = RELEASE_GAS_LIMIT;
            },
            None => {
                return_values.push(ReturnValue::Empty);
                order_of_execution.push(1);
                order_of_execution.push(2);
                order_of_execution.push(3);
                order_of_execution.push(0);
                gas_limit = COMMIT_GAS_LIMIT;
            },
        }
        return_values.push(ReturnValue::Empty);
        return_values.push(ReturnValue::Empty);
        order_of_execution.push(4);
        order_of_execution.push(5);
        let flash_loan = if self.with_flash_loan {
            Some(
                FlashLoanData {
                    provider: self.flash_loan_address,
                    amount_a: give_units,
                    amount_b: take_units,
                },
            )
        } else {
            None
        };
        assert(return_values@ =~= self.spec_return_values());
        assert(order_of_execution@ =~= self.spec_order());
        CommitPlan {
            calls,
            return_values,
            order_of_execution,
            gas_limit,
            flash_loan,
            disbursals: Vec::new(),
        }
    }

    /// Ends the commit of the executor that holds the transaction guard:
    /// gives the guard back, however the submission ended, and turns the
    /// end of the submission into the commit's result. For an executor that
    /// does not hold the guard nothing is done, and the result is an
    /// execution error.
    pub fn final_exec(&self, guard: &mut TransactionGuard, executor: u128, outcome: &TxOutcome) -> (r:
        Result<SolverResponse, SolverError>)
        ensures
            old(guard).holder != Some(executor) ==> {
                &&& *final(guard) == *old(guard)
                &&& r matches Err(error) && error@ == ErrorView::ExecError(guard_not_held())
            },
            old(guard).holder == Some(executor) ==> {
                &&& final(guard).holder.is_none()
                &&& outcome is Failed ==> (r matches Err(error) && error@ == ErrorView::ExecError(
                    commit_message(*outcome),
                ))
                &&& !(outcome is Failed) ==> (r matches Ok(response) && response.succeeded
                    == commit_succeeded(*outcome) && response.message@ == commit_message(
                    *outcome,
                ) && response.remaining_secs == 0)
            },
    {
        if !guard.is_held_by(executor) {
            return Err(SolverError::ExecError("The transaction guard is not held".to_owned()));
        }
        guard.release(executor);
        commit_response(outcome)
    }
}

/// The amount of `units` smallest units.
pub open spec fn spec_units(units: u64) -> Amount {
    Amount { w0: units, w1: 0, w2: 0, w3: 0 }
}

/// The amount of `units` whole ether, in smallest units.
pub open spec fn spec_ether(units: u64) -> Amount {
    let product = units as nat * WEI_PER_ETHER as nat;
    Amount {
        w0: (product % 0x1_0000_0000_0000_0000) as u64,
        w1: (product / 0x1_0000_0000_0000_0000) as u64,
        w2: 0,
        w3: 0,
    }
}

/// `spec_ether` stands for the product it is named after.
pub proof fn lemma_spec_ether(units: u64)
    ensures
        spec_ether(units).value() == units as nat * WEI_PER_ETHER as nat,
{
    let product = units as nat * WEI_PER_ETHER as nat;
    assert(product <= 0xFFFF_FFFF_FFFF_FFFF * 1_000_000_000_000_000_000) by (nonlinear_arith)
        requires
            product == units as nat * 1_000_000_000_000_000_000,
            units <= 0xFFFF_FFFF_FFFF_FFFF,
    ;
}

/// A call of the commit that sends no value, cannot be skipped and is
/// verified.
fn plain_call(addr: Address, gas: u64, payload: CallPayload, salt: u64, expose_return: bool) -> (r:
    PlannedCall)
    ensures
        r == LimitOrderSolver::spec_call(addr, gas, payload, salt, expose_return),
{
    PlannedCall {
        amount: Amount { w0: 0, w1: 0, w2: 0, w3: 0 },
        addr,
        gas,
        payload,
        salt,
        skippable: false,
        verifiable: true,
        expose_return,
    }
}

impl Solver for LimitOrderSolver {
    open spec fn spec_app(&self) -> Seq<char> {
        APP_SELECTOR@
    }

    open spec fn spec_deadline(&self) -> Result<Deadline, ErrorView> {
        Ok(Deadline::Within(self.time_limit))
    }

    open spec fn spec_retries_commit(&self) -> bool {
        true
    }

    open spec fn inv(&self) -> bool {
        self.wf()
    }

    fn app(&self) -> (r: String) {
        APP_SELECTOR.to_owned()
    }

    fn deadline(&self) -> (r: Result<Deadline, SolverError>) {
        Ok(Deadline::Within(self.time_limit))
    }

    fn retries_commit(&self) -> (r: bool) {
        true
    }
}

/// An event that gives no value for one of the five parameters yields no
/// fields for a solver: who reads its parameters finds that field empty, and
/// construction reports a parameter error.
pub proof fn lemma_missing_parameter_fails(
    data: Seq<MevTimeData>,
    kind: ParamKind,
    flash_loan: Option<Address>,
    swap_pool: Option<Address>,
)
    requires
        forall|i: int| 0 <= i < data.len() ==> kind_of(#[trigger] data[i].key@) != Some(kind),
    ensures
        construction_failure(flash_loan, swap_pool, extracted(data, data.len() as int)).is_some(),
{
    lemma_missing_parameter_stays_empty(data, kind, data.len() as int);
}

/// Parameters of other kinds leave a field empty.
proof fn lemma_missing_parameter_stays_empty(data: Seq<MevTimeData>, kind: ParamKind, upto: int)
    requires
        0 <= upto <= data.len(),
        forall|i: int| 0 <= i < data.len() ==> kind_of(#[trigger] data[i].key@) != Some(kind),
    ensures
        kind == ParamKind::GiveToken ==> extracted(data, upto).give_token.is_none(),
        kind == ParamKind::TakeToken ==> extracted(data, upto).take_token.is_none(),
        kind == ParamKind::BuyPrice ==> extracted(data, upto).buy_price.is_none(),
        kind == ParamKind::Slippage ==> extracted(data, upto).slippage.is_none(),
        kind == ParamKind::TimeLimit ==> extracted(data, upto).time_limit.is_none(),
    decreases upto,
{
    if upto > 0 {
        lemma_missing_parameter_stays_empty(data, kind, upto - 1);
    }
}

} // verus!
