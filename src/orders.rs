use vstd::prelude::*;

use crate::amounts::{
    get_market_order_amounts, get_order_amounts, levels_wf, market_order_amounts, market_price,
    market_price_from, order_amounts, round_config_for, round_config_spec,
};
use crate::auth::get_current_unix_time_secs;
use crate::data::{CreateOrderOptions, ExtraOrderArgs, MarketOrderArgs, OrderArgs, OrderSummary, Side};
use crate::decimal::{checked_add, checked_mul, Decimal};
use crate::error::ClobError;
use crate::json::{is_str_entry, is_uint_entry, str_entry, uint_entry, JsonBody};
use crate::text::{decimal_digits, decimal_string};

verus! {

/// `2^64`.
pub const LIMB: u128 = 0x1_0000_0000_0000_0000;

/// An unsigned 256-bit integer, as four 64-bit limbs, least significant first.
#[derive(Clone, Copy, Debug, PartialEq, Eq)]
pub struct U256 {
    pub limbs: [u64; 4],
}

impl U256 {
    pub open spec fn value(self) -> nat {
        self.limbs@[0] as nat + self.limbs@[1] as nat * LIMB as nat + self.limbs@[2] as nat * (
        LIMB as nat * LIMB as nat) + self.limbs@[3] as nat * (LIMB as nat * LIMB as nat
            * LIMB as nat)
    }

    pub fn zero() -> (r: U256)
        ensures
            r.value() == 0,
    {
        let r = U256 { limbs: [0, 0, 0, 0] };
        assert(r.limbs@[0] == 0 && r.limbs@[1] == 0 && r.limbs@[2] == 0 && r.limbs@[3] == 0);
        r
    }

    pub fn from_u64(n: u64) -> (r: U256)
        ensures
            r.value() == n,
    {
        let r = U256 { limbs: [n, 0, 0, 0] };
        assert(r.limbs@[0] == n && r.limbs@[1] == 0 && r.limbs@[2] == 0 && r.limbs@[3] == 0);
        r
    }
}

/// A 20-byte account or contract address.
#[derive(Clone, Copy, Debug, PartialEq, Eq)]
pub struct Address {
    pub bytes: [u8; 20],
}

/// How the order's signature is to be checked by the settlement contract.
#[derive(Clone, Copy, Debug, PartialEq, Eq, Structural)]
pub enum SigType {
    /// ECDSA EIP-712 signatures signed by EOAs.
    Eoa,
    /// EIP-712 signatures signed by EOAs that own proxy wallets.
    PolyProxy,
    /// EIP-712 signatures signed by EOAs that own Gnosis safes.
    PolyGnosisSafe,
}

impl SigType {
    pub open spec fn code(self) -> u8 {
        match self {
            SigType::Eoa => 0,
            SigType::PolyProxy => 1,
            SigType::PolyGnosisSafe => 2,
        }
    }

    pub fn as_u8(&self) -> (r: u8)
        ensures
            r == self.code(),
    {
        match self {
            SigType::Eoa => 0,
            SigType::PolyProxy => 1,
            SigType::PolyGnosisSafe => 2,
        }
    }
}

/// The order record the settlement contract verifies, before signing.
#[derive(Clone, Copy, Debug)]
pub struct Order {
    pub salt: u64,
    pub maker: Address,
    pub signer: Address,
    pub taker: Address,
    pub token_id: U256,
    pub maker_amount: u32,
    pub taker_amount: u32,
    pub expiration: u64,
    pub nonce: U256,
    pub fee_rate_bps: u32,
    pub side: u8,
    pub signature_type: u8,
}

/// A wallet that signs on the order builder's behalf: a local key, a
/// hardware wallet or a remote signer. Errors are reported as messages.
pub trait EthSigner {
    /// The wallet's address.
    fn address(&self) -> Address;

    /// Signs the typed-data authentication message for `timestamp` and `nonce`.
    fn sign_clob_auth(&self, timestamp: &str, nonce: &U256) -> Result<String, String>;

    /// Signs `order` as typed data for the exchange contract on `chain_id`.
    fn sign_order(&self, order: &Order, chain_id: u64, exchange: &Address) -> Result<
        String,
        String,
    >;
}

/// Relies on the wallet's `EthSigner::sign_clob_auth`: a signature it returns
/// is one of the authentication message for the `timestamp` and `nonce` it
/// was given.
#[verifier::external_body]
pub(crate) fn sign_auth_message<S: EthSigner>(signer: &S, timestamp: &str, nonce: &U256) -> (r:
    Result<String, String>)
    ensures
        r matches Ok(s) ==> is_clob_auth_signature(s@, timestamp@, *nonce),
{
    signer.sign_clob_auth(timestamp, nonce)
}

/// Relies on the wallet's `EthSigner::sign_order`: a signature it returns is
/// one of the record it was given, for the chain and contract it was given.
#[verifier::external_body]
fn sign_order_record<S: EthSigner>(signer: &S, order: &Order, chain_id: u64, exchange: &Address) -> (r:
    Result<String, String>)
    ensures
        r matches Ok(s) ==> is_order_signature(s@, *order, chain_id, exchange.bytes@),
{
    signer.sign_order(order, chain_id, exchange)
}

/// `signature` is an EIP-712 signature of the wallet authentication message
/// for `timestamp` and `nonce`.
pub uninterp spec fn is_clob_auth_signature(signature: Seq<char>, timestamp: Seq<char>, nonce: U256) -> bool;

/// `signature` is an EIP-712 signature of `order`, by the key of
/// `order.signer`, for the exchange contract `exchange` on `chain_id`.
pub uninterp spec fn is_order_signature(
    signature: Seq<char>,
    order: Order,
    chain_id: u64,
    exchange: Seq<u8>,
) -> bool;

/// The wire form of a signed order: every amount is a decimal string.
#[derive(Clone, Debug)]
pub struct SignedOrderRequest {
    pub salt: u64,
    pub maker: String,
    pub signer: String,
    pub taker: String,
    pub token_id: String,
    pub maker_amount: String,
    pub taker_amount: String,
    pub expiration: String,
    pub nonce: String,
    pub fee_rate_bps: String,
    pub side: String,
    pub signature_type: u8,
    pub signature: String,
}

impl SignedOrderRequest {
    /// The wire entries: camelCase keys, in declaration order; amounts stay
    /// strings, the salt and signature type are numbers.
    pub open spec fn json_entries(self, e: Seq<(String, JsonBody)>) -> bool {
        &&& e.len() == 13
        &&& is_uint_entry(e[0], "salt"@, self.salt as nat)
        &&& is_str_entry(e[1], "maker"@, self.maker@)
        &&& is_str_entry(e[2], "signer"@, self.signer@)
        &&& is_str_entry(e[3], "taker"@, self.taker@)
        &&& is_str_entry(e[4], "tokenId"@, self.token_id@)
        &&& is_str_entry(e[5], "makerAmount"@, self.maker_amount@)
        &&& is_str_entry(e[6], "takerAmount"@, self.taker_amount@)
        &&& is_str_entry(e[7], "expiration"@, self.expiration@)
        &&& is_str_entry(e[8], "nonce"@, self.nonce@)
        &&& is_str_entry(e[9], "feeRateBps"@, self.fee_rate_bps@)
        &&& is_str_entry(e[10], "side"@, self.side@)
        &&& is_uint_entry(e[11], "signatureType"@, self.signature_type as nat)
        &&& is_str_entry(e[12], "signature"@, self.signature@)
    }

    /// The order as a JSON object.
    pub fn to_json_body(&self) -> (r: JsonBody)
        ensures
            r matches JsonBody::Object(e) && self.json_entries(e@),
    {
        let mut e: Vec<(String, JsonBody)> = Vec::new();
        e.push(uint_entry("salt", self.salt));
        e.push(str_entry("maker", &self.maker));
        e.push(str_entry("signer", &self.signer));
        e.push(str_entry("taker", &self.taker));
        e.push(str_entry("tokenId", &self.token_id));
        e.push(str_entry("makerAmount", &self.maker_amount));
        e.push(str_entry("takerAmount", &self.taker_amount));
        e.push(str_entry("expiration", &self.expiration));
        e.push(str_entry("nonce", &self.nonce));
        e.push(str_entry("feeRateBps", &self.fee_rate_bps));
        e.push(str_entry("side", &self.side));
        e.push(uint_entry("signatureType", self.signature_type as u64));
        e.push(str_entry("signature", &self.signature));
        JsonBody::Object(e)
    }
}

/// The 20 bytes alloy_primitives' `Address::from_str` reads from `s`: hex
/// digits of either case, with or without `0x`; `None` otherwise.
pub uninterp spec fn parsed_address_of(s: Seq<char>) -> Option<Seq<u8>>;

/// What alloy_primitives' `U256::from_str_radix(s, 10)` reads from `s`;
/// `None` for a non-digit or a value of `2^256` or more.
pub uninterp spec fn decimal_u256_of(s: Seq<char>) -> Option<nat>;

/// The EIP-55 mixed-case checksum form of an address, `0x` included.
pub uninterp spec fn checksum_of(bytes: Seq<u8>) -> Seq<char>;

/// Relies on alloy_primitives' `Address::from_str`.
#[verifier::external_body]
fn parse_address(s: &str) -> (r: Option<Address>)
    ensures
        r is None <==> parsed_address_of(s@) is None,
        r matches Some(a) ==> parsed_address_of(s@) == Some(a.bytes@),
{
    match s.parse::<alloy_primitives::Address>() {
        Ok(a) => Some(Address { bytes: a.into_array() }),
        Err(_) => None,
    }
}

/// Relies on alloy_primitives' `U256::from_str_radix` in base 10.
#[verifier::external_body]
fn parse_token_id(s: &str) -> (r: Option<U256>)
    ensures
        r is None <==> decimal_u256_of(s@) is None,
        r matches Some(v) ==> decimal_u256_of(s@) == Some(v.value()),
{
    match alloy_primitives::U256::from_str_radix(s, 10) {
        Ok(v) => Some(U256 { limbs: v.into_limbs() }),
        Err(_) => None,
    }
}

/// Relies on alloy_primitives' `Address::to_checksum` without a chain id.
#[verifier::external_body]
fn to_checksum(a: &Address) -> (r: String)
    ensures
        r@ == checksum_of(a.bytes@),
{
    alloy_primitives::Address::from(a.bytes).to_checksum(None)
}

/// Relies on rand's `random`: a uniformly drawn 64-bit value.
#[verifier::external_body]
fn random_u64() -> u64 {
    rand::random::<u64>()
}

/// The salt for a time `now` and a random draw: `now` scaled by the fraction
/// `random / 2^64`, which lies in `[0, 1)`, and truncated.
pub fn salt_from(now: u64, random: u64) -> (r: u64)
    ensures
        r == (now as nat * random as nat) / (LIMB as nat),
        r <= now,
{
    proof {
        assert(now as nat * random as nat <= (LIMB as nat - 1) * (LIMB as nat - 1)) by (nonlinear_arith)
            requires
                now < LIMB,
                random < LIMB,
        ;
    }
    let product = now as u128 * random as u128;
    proof {
        assert(now as nat * random as nat <= now as nat * (LIMB as nat - 1)) by (nonlinear_arith)
            requires
                random < LIMB,
        ;
        assert(now as nat * (LIMB as nat - 1) < now as nat * LIMB as nat + 1) by (nonlinear_arith);
        assert((now as nat * random as nat) / (LIMB as nat) <= now as nat) by (nonlinear_arith)
            requires
                now as nat * random as nat <= now as nat * (LIMB as nat - 1),
                LIMB as nat > 0,
        ;
    }
    (product / LIMB) as u64
}

/// A per-order salt from the clock and a random draw.
fn generate_seed() -> u64 {
    salt_from(get_current_unix_time_secs(), random_u64())
}

/// The settlement contracts of one chain and market kind.
#[derive(Clone, Debug)]
pub struct ContractConfig {
    pub chain_id: u64,
    pub neg_risk: bool,
    pub exchange: String,
    pub collateral: String,
    pub conditional_tokens: String,
}

/// The index of the first registry entry for `chain_id` and `neg_risk`,
/// searching from `i` on.
pub open spec fn find_contract(registry: Seq<ContractConfig>, chain_id: u64, neg_risk: bool, i: nat) -> Option<nat>
    decreases registry.len() - i,
{
    if i >= registry.len() {
        None
    } else if registry[i as int].chain_id == chain_id && registry[i as int].neg_risk == neg_risk {
        Some(i)
    } else {
        find_contract(registry, chain_id, neg_risk, i + 1)
    }
}

/// Looks up the contracts for `chain_id` and `neg_risk`: the first matching
/// entry.
pub fn get_contract_config(registry: &Vec<ContractConfig>, chain_id: u64, neg_risk: bool) -> (r: Option<usize>)
    ensures
        r is None <==> find_contract(registry@, chain_id, neg_risk, 0) is None,
        r matches Some(i) ==> find_contract(registry@, chain_id, neg_risk, 0) == Some(i as nat),
        r matches Some(i) ==> i < registry@.len(),
{
    let mut i: usize = 0;
    while i < registry.len()
        invariant
            i <= registry@.len(),
            find_contract(registry@, chain_id, neg_risk, i as nat) == find_contract(registry@, chain_id, neg_risk, 0),
        decreases registry.len() - i,
    {
        if registry[i].chain_id == chain_id && registry[i].neg_risk == neg_risk {
            return Some(i);
        }
        i = i + 1;
    }
    None
}

/// The exchange contract an order is signed for: the neg-risk flag must be
/// known, the registry must have the pair, and its address must parse.
pub open spec fn exchange_for(chain_id: u64, neg_risk: Option<bool>, registry: Seq<ContractConfig>) -> Result<Seq<u8>, ClobError> {
    match neg_risk {
        None => Err(ClobError::MissingNegRisk),
        Some(nr) => match find_contract(registry, chain_id, nr, 0) {
            None => Err(ClobError::UnknownContract),
            Some(i) => match parsed_address_of(registry[i as int].exchange@) {
                None => Err(ClobError::InvalidExchangeAddress),
                Some(b) => Ok(b),
            },
        },
    }
}

/// Everything a limit order needs before its parties are read: the tick
/// size's precisions, the token units, and the exchange contract's address.
pub open spec fn limit_order_prefix(
    chain_id: u64,
    args: OrderArgs,
    options: CreateOrderOptions,
    registry: Seq<ContractConfig>,
) -> Result<(u32, u32, Seq<u8>), ClobError> {
    match options.tick_size {
        None => Err(ClobError::MissingTickSize),
        Some(t) => match round_config_spec(t) {
            None => Err(ClobError::UnsupportedTickSize),
            Some(cfg) => match order_amounts(args.side, args.size, args.price, cfg) {
                Err(e) => Err(e),
                Ok((maker_amount, taker_amount)) => match exchange_for(chain_id, options.neg_risk, registry) {
                    Err(e) => Err(e),
                    Ok(exchange) => Ok((maker_amount, taker_amount, exchange)),
                },
            },
        },
    }
}

/// As `limit_order_prefix`, for a market buy at `price`.
pub open spec fn market_order_prefix(
    chain_id: u64,
    args: MarketOrderArgs,
    price: Decimal,
    options: CreateOrderOptions,
    registry: Seq<ContractConfig>,
) -> Result<(u32, u32, Seq<u8>), ClobError> {
    match options.tick_size {
        None => Err(ClobError::MissingTickSize),
        Some(t) => match round_config_spec(t) {
            None => Err(ClobError::UnsupportedTickSize),
            Some(cfg) => match market_order_amounts(args.amount, price, cfg) {
                Err(e) => Err(e),
                Ok((maker_amount, taker_amount)) => match exchange_for(chain_id, options.neg_risk, registry) {
                    Err(e) => Err(e),
                    Ok(exchange) => Ok((maker_amount, taker_amount, exchange)),
                },
            },
        },
    }
}

/// `o` is the order record with these fields; its signer is left open.
pub open spec fn is_order_record(
    o: Order,
    salt: u64,
    maker: Address,
    taker: Seq<u8>,
    token_id: nat,
    maker_amount: u32,
    taker_amount: u32,
    expiration: u64,
    nonce: U256,
    fee_rate_bps: u32,
    side: u8,
    signature_type: u8,
) -> bool {
    &&& o.salt == salt
    &&& o.maker == maker
    &&& o.taker.bytes@ == taker
    &&& o.token_id.value() == token_id
    &&& o.maker_amount == maker_amount
    &&& o.taker_amount == taker_amount
    &&& o.expiration == expiration
    &&& o.nonce == nonce
    &&& o.fee_rate_bps == fee_rate_bps
    &&& o.side == side
    &&& o.signature_type == signature_type
}

/// The order record the settlement contract checks, from its parts.
pub fn order_record(
    salt: u64,
    maker: Address,
    signer: Address,
    taker: Address,
    token_id: U256,
    maker_amount: u32,
    taker_amount: u32,
    expiration: u64,
    extras: &ExtraOrderArgs,
    side: Side,
    sig_type: SigType,
) -> (o: Order)
    ensures
        is_order_record(
            o,
            salt,
            maker,
            taker.bytes@,
            token_id.value(),
            maker_amount,
            taker_amount,
            expiration,
            extras.nonce,
            extras.fee_rate_bps,
            side.code(),
            sig_type.code(),
        ),
        o.signer == signer,
{
    Order {
        salt,
        maker,
        signer,
        taker,
        token_id,
        maker_amount,
        taker_amount,
        expiration,
        nonce: extras.nonce,
        fee_rate_bps: extras.fee_rate_bps,
        side: side.as_u8(),
        signature_type: sig_type.as_u8(),
    }
}

/// Builds and signs orders for one wallet.
pub struct OrderBuilder<S: EthSigner> {
    signer: S,
    sig_type: SigType,
    funder: Address,
}

impl<S: EthSigner> OrderBuilder<S> {
    pub closed spec fn spec_sig_type(&self) -> SigType {
        self.sig_type
    }

    pub closed spec fn spec_funder(&self) -> Address {
        self.funder
    }

    /// A builder for `signer`; the signature type defaults to `Eoa` and the
    /// funder to the signer's own address.
    pub fn new(signer: S, sig_type: Option<SigType>, funder: Option<Address>) -> (r: Self)
        ensures
            r.spec_sig_type() == (match sig_type {
                Some(t) => t,
                None => SigType::Eoa,
            }),
            funder matches Some(f) ==> r.spec_funder() == f,
    {
        let sig_type = match sig_type {
            Some(t) => t,
            None => SigType::Eoa,
        };
        let funder = match funder {
            Some(f) => f,
            None => signer.address(),
        };
        OrderBuilder { signer, sig_type, funder }
    }

    /// The signature type's numeric code.
    pub fn get_sig_type(&self) -> (r: u8)
        ensures
            r == self.spec_sig_type().code(),
    {
        self.sig_type.as_u8()
    }

    /// The price of the first book level at which the running notional
    /// `size * price` reaches `amount_to_match`; levels are taken in the
    /// order given, best first.
    pub fn calculate_market_price(&self, positions: &Vec<OrderSummary>, amount_to_match: Decimal) -> (r: Result<Decimal, ClobError>)
        requires
            levels_wf(positions@),
            amount_to_match.wf(),
        ensures
            r == market_price(positions@, amount_to_match),
    {
        let mut sum = Decimal::zero();
        let mut i: usize = 0;
        while i < positions.len()
            invariant
                i <= positions@.len(),
                sum.wf(),
                levels_wf(positions@),
                amount_to_match.wf(),
                market_price_from(positions@, amount_to_match, i as nat, sum) == market_price(positions@, amount_to_match),
            decreases positions.len() - i,
        {
            let level = positions[i];
            proof {
                assert(positions@[i as int].price.wf() && positions@[i as int].size.wf());
            }
            let notional = match checked_mul(&level.size, &level.price) {
                Some(n) => n,
                None => return Err(ClobError::AmountOutOfRange),
            };
            sum = match checked_add(&sum, &notional) {
                Some(s) => s,
                None => return Err(ClobError::AmountOutOfRange),
            };
            if amount_to_match.le(&sum) {
                return Ok(level.price);
            }
            i = i + 1;
        }
        Err(ClobError::InsufficientLiquidity { amount: amount_to_match })
    }

    /// The fields of a signed request that do not come from the signer.
    pub open spec fn request_fields(
        &self,
        req: SignedOrderRequest,
        token_id: Seq<char>,
        side: Side,
        taker: Seq<u8>,
        maker_amount: u32,
        taker_amount: u32,
        expiration: u64,
        extras: ExtraOrderArgs,
        salt: u64,
    ) -> bool {
        &&& req.salt == salt
        &&& req.maker@ == checksum_of(self.spec_funder().bytes@)
        &&& req.taker@ == checksum_of(taker)
        &&& req.token_id@ == token_id
        &&& req.maker_amount@ == decimal_digits(maker_amount as nat)
        &&& req.taker_amount@ == decimal_digits(taker_amount as nat)
        &&& req.expiration@ == decimal_digits(expiration as nat)
        &&& req.nonce@ == decimal_digits(extras.nonce.value())
        &&& req.fee_rate_bps@ == decimal_digits(extras.fee_rate_bps as nat)
        &&& req.side@ == side.name()
        &&& req.signature_type == self.spec_sig_type().code()
    }

    /// The record signed for a request: it carries the request's fields, its
    /// signer is the address in the request, and the request's signature is
    /// a signature of it for `exchange` on `chain_id`.
    pub open spec fn signs_record(
        &self,
        req: SignedOrderRequest,
        o: Order,
        taker: Seq<u8>,
        token_id: nat,
        side: Side,
        maker_amount: u32,
        taker_amount: u32,
        expiration: u64,
        extras: ExtraOrderArgs,
        salt: u64,
        chain_id: u64,
        exchange: Seq<u8>,
    ) -> bool {
        &&& is_order_record(
            o,
            salt,
            self.spec_funder(),
            taker,
            token_id,
            maker_amount,
            taker_amount,
            expiration,
            extras.nonce,
            extras.fee_rate_bps,
            side.code(),
            self.spec_sig_type().code(),
        )
        &&& req.signer@ == checksum_of(o.signer.bytes@)
        &&& is_order_signature(req.signature@, o, chain_id, exchange)
    }

    /// What building the signed order gives: an invalid taker or token id is
    /// rejected; otherwise the wallet signs the order record, and the request
    /// carries its fields and signature, unless the wallet fails.
    pub open spec fn signed_order_outcome(
        &self,
        r: Result<SignedOrderRequest, ClobError>,
        token_id: Seq<char>,
        side: Side,
        maker_amount: u32,
        taker_amount: u32,
        expiration: u64,
        extras: ExtraOrderArgs,
        salt: u64,
        chain_id: u64,
        exchange: Seq<u8>,
    ) -> bool {
        match parsed_address_of(extras.taker@) {
            None => r == Err::<SignedOrderRequest, ClobError>(ClobError::InvalidTakerAddress),
            Some(taker) => match decimal_u256_of(token_id) {
                None => r == Err::<SignedOrderRequest, ClobError>(ClobError::InvalidTokenId),
                Some(token) => match r {
                    Ok(req) => {
                        &&& self.request_fields(req, token_id, side, taker, maker_amount, taker_amount, expiration, extras, salt)
                        &&& exists|o: Order| #[trigger] is_order_signature(req.signature@, o, chain_id, exchange)
                            && self.signs_record(req, o, taker, token, side, maker_amount, taker_amount, expiration, extras, salt, chain_id, exchange)
                    },
                    Err(e) => e is Signing,
                },
            },
        }
    }

    fn build_signed_order(
        &self,
        token_id: &String,
        side: Side,
        chain_id: u64,
        exchange: Address,
        maker_amount: u32,
        taker_amount: u32,
        expiration: u64,
        extras: &ExtraOrderArgs,
        salt: u64,
    ) -> (r: Result<SignedOrderRequest, ClobError>)
        ensures
            self.signed_order_outcome(r, token_id@, side, maker_amount, taker_amount, expiration, *extras, salt, chain_id, exchange.bytes@),
    {
        let taker = match parse_address(extras.taker.as_str()) {
            Some(a) => a,
            None => return Err(ClobError::InvalidTakerAddress),
        };
        let token = match parse_token_id(token_id.as_str()) {
            Some(v) => v,
            None => return Err(ClobError::InvalidTokenId),
        };
        let signer = self.signer.address();
        let order = order_record(
            salt,
            self.funder,
            signer,
            taker,
            token,
            maker_amount,
            taker_amount,
            expiration,
            extras,
            side,
            self.sig_type,
        );
        let signature = match sign_order_record(&self.signer, &order, chain_id, &exchange) {
            Ok(s) => s,
            Err(e) => return Err(ClobError::Signing(e)),
        };
        let req = SignedOrderRequest {
            salt,
            maker: to_checksum(&self.funder),
            signer: to_checksum(&signer),
            taker: to_checksum(&taker),
            token_id: token_id.clone(),
            maker_amount: decimal_string(maker_amount as u64),
            taker_amount: decimal_string(taker_amount as u64),
            expiration: decimal_string(expiration),
            nonce: crate::auth::u256_decimal(&extras.nonce),
            fee_rate_bps: decimal_string(extras.fee_rate_bps as u64),
            side: side.as_str().to_owned(),
            signature_type: self.sig_type.as_u8(),
            signature,
        };
        proof {
            assert(is_order_signature(req.signature@, order, chain_id, exchange.bytes@));
            assert(self.signs_record(
                req,
                order,
                taker.bytes@,
                token.value(),
                side,
                maker_amount,
                taker_amount,
                expiration,
                *extras,
                salt,
                chain_id,
                exchange.bytes@,
            ));
        }
        Ok(req)
    }

    /// Resolves the exchange contract for the order.
    fn resolve_exchange(chain_id: u64, neg_risk: Option<bool>, registry: &Vec<ContractConfig>) -> (r: Result<Address, ClobError>)
        ensures
            match exchange_for(chain_id, neg_risk, registry@) {
                Ok(b) => r matches Ok(a) && a.bytes@ == b,
                Err(e) => r == Err::<Address, ClobError>(e),
            },
    {
        let neg_risk = match neg_risk {
            Some(nr) => nr,
            None => return Err(ClobError::MissingNegRisk),
        };
        let index = match get_contract_config(registry, chain_id, neg_risk) {
            Some(i) => i,
            None => return Err(ClobError::UnknownContract),
        };
        match parse_address(registry[index].exchange.as_str()) {
            Some(a) => Ok(a),
            None => Err(ClobError::InvalidExchangeAddress),
        }
    }

    /// A signed limit order with the given salt.
    pub fn create_order_with_salt(
        &self,
        chain_id: u64,
        order_args: &OrderArgs,
        expiration: u64,
        extras: &ExtraOrderArgs,
        options: CreateOrderOptions,
        registry: &Vec<ContractConfig>,
        salt: u64,
    ) -> (r: Result<SignedOrderRequest, ClobError>)
        requires
            order_args.price.wf(),
            order_args.size.wf(),
            options.tick_size matches Some(t) ==> t.wf(),
        ensures
            match limit_order_prefix(chain_id, *order_args, options, registry@) {
                Err(e) => r == Err::<SignedOrderRequest, ClobError>(e),
                Ok((maker_amount, taker_amount, exchange)) => self.signed_order_outcome(
                    r,
                    order_args.token_id@,
                    order_args.side,
                    maker_amount,
                    taker_amount,
                    expiration,
                    *extras,
                    salt,
                    chain_id,
                    exchange,
                ),
            },
    {
        let tick_size = match options.tick_size {
            Some(t) => t,
            None => return Err(ClobError::MissingTickSize),
        };
        let round_config = match round_config_for(&tick_size) {
            Some(c) => c,
            None => return Err(ClobError::UnsupportedTickSize),
        };
        let (maker_amount, taker_amount) = match get_order_amounts(
            order_args.side,
            order_args.size,
            order_args.price,
            &round_config,
        ) {
            Ok(a) => a,
            Err(e) => return Err(e),
        };
        let exchange = match Self::resolve_exchange(chain_id, options.neg_risk, registry) {
            Ok(a) => a,
            Err(e) => return Err(e),
        };
        self.build_signed_order(
            &order_args.token_id,
            order_args.side,
            chain_id,
            exchange,
            maker_amount,
            taker_amount,
            expiration,
            extras,
            salt,
        )
    }

    /// A signed limit order, salted from the clock and a random draw.
    pub fn create_order(
        &self,
        chain_id: u64,
        order_args: &OrderArgs,
        expiration: u64,
        extras: &ExtraOrderArgs,
        options: CreateOrderOptions,
        registry: &Vec<ContractConfig>,
    ) -> (r: Result<SignedOrderRequest, ClobError>)
        requires
            order_args.price.wf(),
            order_args.size.wf(),
            options.tick_size matches Some(t) ==> t.wf(),
        ensures
            match limit_order_prefix(chain_id, *order_args, options, registry@) {
                Err(e) => r == Err::<SignedOrderRequest, ClobError>(e),
                Ok((maker_amount, taker_amount, exchange)) => exists|salt: u64| self.signed_order_outcome(
                    r,
                    order_args.token_id@,
                    order_args.side,
                    maker_amount,
                    taker_amount,
                    expiration,
                    *extras,
                    salt,
                    chain_id,
                    exchange,
                ),
            },
    {
        let salt = generate_seed();
        self.create_order_with_salt(chain_id, order_args, expiration, extras, options, registry, salt)
    }

    /// A signed market buy of `order_args.amount` at `price`, with the given
    /// salt; it never expires.
    pub fn create_market_order_with_salt(
        &self,
        chain_id: u64,
        order_args: &MarketOrderArgs,
        price: Decimal,
        extras: &ExtraOrderArgs,
        options: CreateOrderOptions,
        registry: &Vec<ContractConfig>,
        salt: u64,
    ) -> (r: Result<SignedOrderRequest, ClobError>)
        requires
            order_args.amount.wf(),
            price.wf(),
            options.tick_size matches Some(t) ==> t.wf(),
        ensures
            match market_order_prefix(chain_id, *order_args, price, options, registry@) {
                Err(e) => r == Err::<SignedOrderRequest, ClobError>(e),
                Ok((maker_amount, taker_amount, exchange)) => self.signed_order_outcome(
                    r,
                    order_args.token_id@,
                    Side::BUY,
                    maker_amount,
                    taker_amount,
                    0,
                    *extras,
                    salt,
                    chain_id,
                    exchange,
                ),
            },
    {
        let tick_size = match options.tick_size {
            Some(t) => t,
            None => return Err(ClobError::MissingTickSize),
        };
        let round_config = match round_config_for(&tick_size) {
            Some(c) => c,
            None => return Err(ClobError::UnsupportedTickSize),
        };
        let (maker_amount, taker_amount) = match get_market_order_amounts(
            order_args.amount,
            price,
            &round_config,
        ) {
            Ok(a) => a,
            Err(e) => return Err(e),
        };
        let exchange = match Self::resolve_exchange(chain_id, options.neg_risk, registry) {
            Ok(a) => a,
            Err(e) => return Err(e),
        };
        self.build_signed_order(
            &order_args.token_id,
            Side::BUY,
            chain_id,
            exchange,
            maker_amount,
            taker_amount,
            0,
            extras,
            salt,
        )
    }

    /// A signed market buy, salted from the clock and a random draw.
    pub fn create_market_order(
        &self,
        chain_id: u64,
        order_args: &MarketOrderArgs,
        price: Decimal,
        extras: &ExtraOrderArgs,
        options: CreateOrderOptions,
        registry: &Vec<ContractConfig>,
    ) -> (r: Result<SignedOrderRequest, ClobError>)
        requires
            order_args.amount.wf(),
            price.wf(),
            options.tick_size matches Some(t) ==> t.wf(),
        ensures
            match market_order_prefix(chain_id, *order_args, price, options, registry@) {
                Err(e) => r == Err::<SignedOrderRequest, ClobError>(e),
                Ok((maker_amount, taker_amount, exchange)) => exists|salt: u64| self.signed_order_outcome(
                    r,
                    order_args.token_id@,
                    Side::BUY,
                    maker_amount,
                    taker_amount,
                    0,
                    *extras,
                    salt,
                    chain_id,
                    exchange,
                ),
            },
    {
        let salt = generate_seed();
        self.create_market_order_with_salt(chain_id, order_args, price, extras, options, registry, salt)
    }
}

} // verus!
