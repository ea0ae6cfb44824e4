//! The payment router on a ledger: each call reads its entries, hands them to
//! the library, and takes the steps of the plan that comes back.

use modeltrace::host::{Address, Bytes32, Plan};
use modeltrace::payment_router::router::PaymentRouter;
use modeltrace::payment_router::types::{
    AuthArgs, Claimed, DataKey, DeadLettered, DisputeResolved, Disputed, Entry, Error, Escrow,
    EscrowClosed, EscrowOpened, Event, FailureReason, PartialReleased, Settlement,
    SettlementFailed, SettlementRecovered, Step, DEAD_LETTER_DELAY, MAX_RELEASES,
    MAX_SETTLEMENT_FAILURES,
};
use soroban_sdk::address_payload::AddressPayload;
use soroban_sdk::testutils::{
    Address as _, ContractFunctionSet, EnvTestConfig, Ledger as _, MockAuth, MockAuthInvoke,
};
use soroban_sdk::token::{StellarAssetClient, TokenClient};
use soroban_sdk::{BytesN, Env, IntoVal, Symbol, TryFromVal, Val};

// ---------------------------------------------------------------------------
// The router as a contract
// ---------------------------------------------------------------------------

type Party = soroban_sdk::Address;
type EscrowRow = (u64, Party, Party, Party, i128, i128, i128, i128, u32, bool);
type SettlementRow = (u64, u32, u32, u32, bool, bool);

fn bytes_in(bytes: &BytesN<32>) -> Bytes32 {
    let raw: [u8; 32] = bytes.to_array();
    Bytes32 {
        hi: u128::from_be_bytes(raw[..16].try_into().unwrap()),
        lo: u128::from_be_bytes(raw[16..].try_into().unwrap()),
    }
}

fn bytes_out(env: &Env, bytes: Bytes32) -> BytesN<32> {
    let mut raw = [0u8; 32];
    raw[..16].copy_from_slice(&bytes.hi.to_be_bytes());
    raw[16..].copy_from_slice(&bytes.lo.to_be_bytes());
    BytesN::from_array(env, &raw)
}

fn party_in(party: &Party) -> Address {
    match party.to_payload().unwrap() {
        AddressPayload::AccountIdPublicKeyEd25519(key) => Address::Account(bytes_in(&key)),
        AddressPayload::ContractIdHash(hash) => Address::Contract(bytes_in(&hash)),
    }
}

fn party_out(env: &Env, address: Address) -> Party {
    let payload = match address {
        Address::Account(key) => AddressPayload::AccountIdPublicKeyEd25519(bytes_out(env, key)),
        Address::Contract(hash) => AddressPayload::ContractIdHash(bytes_out(env, hash)),
    };
    Party::from_payload(env, payload)
}

fn reason_in(reason: u32) -> FailureReason {
    match reason {
        0 => FailureReason::NoDestination,
        1 => FailureReason::NoTrustline,
        2 => FailureReason::AssetRestricted,
        _ => FailureReason::Other,
    }
}

fn reason_out(reason: FailureReason) -> u32 {
    match reason {
        FailureReason::NoDestination => 0,
        FailureReason::NoTrustline => 1,
        FailureReason::AssetRestricted => 2,
        FailureReason::Other => 3,
    }
}

fn escrow_in(row: EscrowRow) -> Escrow {
    Escrow {
        id: row.0,
        payer: party_in(&row.1),
        payee: party_in(&row.2),
        token: party_in(&row.3),
        total: row.4,
        released: row.5,
        claimed: row.6,
        disputed: row.7,
        release_count: row.8,
        closed: row.9,
    }
}

fn escrow_out(env: &Env, escrow: Escrow) -> EscrowRow {
    (
        escrow.id,
        party_out(env, escrow.payer),
        party_out(env, escrow.payee),
        party_out(env, escrow.token),
        escrow.total,
        escrow.released,
        escrow.claimed,
        escrow.disputed,
        escrow.release_count,
        escrow.closed,
    )
}

fn settlement_in(row: SettlementRow) -> Settlement {
    Settlement {
        id: row.0,
        failures: row.1,
        last_reason: reason_in(row.2),
        failed_at: row.3,
        failed: row.4,
        dead_lettered: row.5,
    }
}

fn settlement_out(state: Settlement) -> SettlementRow {
    (
        state.id,
        state.failures,
        reason_out(state.last_reason),
        state.failed_at,
        state.failed,
        state.dead_lettered,
    )
}

fn key_out(env: &Env, key: DataKey) -> Val {
    match key {
        DataKey::Arbiter => (Symbol::new(env, "Arbiter"),).into_val(env),
        DataKey::Counter => (Symbol::new(env, "Counter"),).into_val(env),
        DataKey::Escrow(id) => (Symbol::new(env, "Escrow"), id).into_val(env),
        DataKey::Settlement(id) => (Symbol::new(env, "Settlement"), id).into_val(env),
    }
}

fn marker(env: &Env) -> Symbol {
    Symbol::new(env, "in_fligh")
}

/// A ledger of its own, of which nothing is kept on disk.
fn fresh_env() -> Env {
    Env::new_with_config(EnvTestConfig { capture_snapshot_at_drop: false })
}

fn arg<T: TryFromVal<Env, Val>>(env: &Env, args: &[Val], i: usize) -> T {
    T::try_from_val(env, &args[i]).ok().unwrap()
}

fn party_arg(env: &Env, args: &[Val], i: usize) -> Address {
    party_in(&arg::<Party>(env, args, i))
}

fn read_arbiter(env: &Env) -> Option<Address> {
    let key = key_out(env, DataKey::Arbiter);
    env.storage().instance().get::<Val, Party>(&key).map(|p| party_in(&p))
}

fn read_counter(env: &Env) -> Option<u64> {
    env.storage().instance().get::<Val, u64>(&key_out(env, DataKey::Counter))
}

fn read_escrow(env: &Env, id: u64) -> Option<Escrow> {
    let key = key_out(env, DataKey::Escrow(id));
    let escrow = env.storage().persistent().get::<Val, EscrowRow>(&key).map(escrow_in);
    if let Some(escrow) = &escrow {
        assert!(escrow.is_wf() && escrow.id == id);
    }
    escrow
}

fn read_settlement(env: &Env, id: u64) -> Option<Settlement> {
    let key = key_out(env, DataKey::Settlement(id));
    let state = env.storage().persistent().get::<Val, SettlementRow>(&key).map(settlement_in);
    if let Some(state) = &state {
        assert!(state.is_wf() && state.id == id);
    }
    state
}

fn in_flight(env: &Env) -> bool {
    env.storage().temporary().has(&marker(env))
}

#[allow(deprecated)]
fn take(env: &Env, step: &Step) {
    match step {
        Step::RequireAuth { who } => party_out(env, *who).require_auth(),
        Step::RequireAuthForArgs { who, args } => {
            let bound = match args {
                AuthArgs::Deposit { payee, token, total } => {
                    (party_out(env, *payee), party_out(env, *token), *total).into_val(env)
                }
                AuthArgs::Amount { id, amount } => (*id, *amount).into_val(env),
                AuthArgs::Escrow { id } => (*id,).into_val(env),
            };
            party_out(env, *who).require_auth_for_args(bound)
        }
        Step::SetInFlight => env.storage().temporary().set(&marker(env), &true),
        Step::ClearInFlight => env.storage().temporary().remove(&marker(env)),
        Step::Write { entry } => {
            let key = key_out(env, entry.key());
            match entry {
                Entry::Arbiter(who) => {
                    env.storage().instance().set(&key, &party_out(env, *who))
                }
                Entry::Counter(id) => env.storage().instance().set(&key, id),
                Entry::Escrow(e) => env.storage().persistent().set(&key, &escrow_out(env, *e)),
                Entry::Settlement(s) => env.storage().persistent().set(&key, &settlement_out(*s)),
            }
        }
        Step::ExtendTtl { key, threshold, extend_to } => {
            env.storage().persistent().extend_ttl(&key_out(env, *key), *threshold, *extend_to)
        }
        Step::ExtendInstanceTtl { threshold, extend_to } => {
            env.storage().instance().extend_ttl(*threshold, *extend_to)
        }
        Step::Transfer { token, from, to, amount } => {
            TokenClient::new(env, &party_out(env, *token)).transfer(
                &party_out(env, *from),
                &party_out(env, *to),
                amount,
            )
        }
        Step::Publish { event } => {
            let text = format!("{event:?}");
            env.events().publish(
                (Symbol::new(env, "router"),),
                soroban_sdk::String::from_str(env, &text),
            )
        }
    }
}

fn ended<T>(env: &Env, end: Result<T, Error>) -> T {
    match end {
        Ok(value) => value,
        Err(error) => {
            env.panic_with_error(soroban_sdk::Error::from_contract_error(error.code()))
        }
    }
}

fn perform<T>(env: &Env, plan: Plan<Step, T, Error>) -> T {
    for step in plan.steps.iter() {
        take(env, step);
    }
    ended(env, plan.end)
}

/// The router, as the host calls it.
struct Router;

impl ContractFunctionSet for Router {
    fn call(&self, func: &str, env: Env, args: &[Val]) -> Option<Val> {
        let e = &env;
        let me = party_in(&e.current_contract_address());
        let now = e.ledger().sequence();
        Some(match func {
            "initialize" => {
                let plan = PaymentRouter::initialize(read_arbiter(e), party_arg(e, args, 0));
                perform(e, plan).into_val(e)
            }
            "open_escrow" => {
                let counter = read_counter(e);
                assert!(counter != Some(u64::MAX));
                let plan = PaymentRouter::open_escrow(
                    counter,
                    in_flight(e),
                    me,
                    party_arg(e, args, 0),
                    party_arg(e, args, 1),
                    party_arg(e, args, 2),
                    arg(e, args, 3),
                );
                perform(e, plan).into_val(e)
            }
            "release_partial" => {
                let id: u64 = arg(e, args, 0);
                let plan =
                    PaymentRouter::release_partial(read_escrow(e, id), id, arg(e, args, 1));
                perform(e, plan).into_val(e)
            }
            "claim" => {
                let id: u64 = arg(e, args, 0);
                let plan = PaymentRouter::claim(read_escrow(e, id), in_flight(e), me, id);
                perform(e, plan).into_val(e)
            }
            "dispute" => {
                let id: u64 = arg(e, args, 0);
                let plan = PaymentRouter::dispute(read_escrow(e, id), id, arg(e, args, 1));
                perform(e, plan).into_val(e)
            }
            "resolve_dispute" => {
                let id: u64 = arg(e, args, 0);
                let plan = PaymentRouter::resolve_dispute(
                    read_arbiter(e),
                    read_escrow(e, id),
                    id,
                    arg(e, args, 1),
                );
                perform(e, plan).into_val(e)
            }
            "close_escrow" => {
                let id: u64 = arg(e, args, 0);
                let plan = PaymentRouter::close_escrow(read_escrow(e, id), in_flight(e), me, id);
                perform(e, plan).into_val(e)
            }
            "report_failure" => {
                let id: u64 = arg(e, args, 0);
                let reason = reason_in(arg(e, args, 1));
                let state = read_settlement(e, id);
                assert!(state.map_or(0, |s| s.failures) < u32::MAX);
                let plan =
                    PaymentRouter::report_failure(read_escrow(e, id), state, id, reason, now);
                perform(e, plan).into_val(e)
            }
            "clear_failure" => {
                let id: u64 = arg(e, args, 0);
                let plan =
                    PaymentRouter::clear_failure(read_escrow(e, id), read_settlement(e, id), id);
                perform(e, plan).into_val(e)
            }
            "dead_letter" => {
                let id: u64 = arg(e, args, 0);
                let state = read_settlement(e, id);
                assert!(state.map_or(0, |s| s.failed_at) <= u32::MAX - DEAD_LETTER_DELAY);
                let plan = PaymentRouter::dead_letter(
                    read_arbiter(e),
                    read_escrow(e, id),
                    state,
                    in_flight(e),
                    me,
                    id,
                    now,
                );
                perform(e, plan).into_val(e)
            }
            "get_escrow" => {
                let id: u64 = arg(e, args, 0);
                let escrow = ended(e, PaymentRouter::get_escrow(read_escrow(e, id)));
                escrow_out(e, escrow).into_val(e)
            }
            "claimable" => {
                let id: u64 = arg(e, args, 0);
                ended(e, PaymentRouter::claimable(read_escrow(e, id))).into_val(e)
            }
            "releasable" => {
                let id: u64 = arg(e, args, 0);
                ended(e, PaymentRouter::releasable(read_escrow(e, id))).into_val(e)
            }
            "settlement_status" => {
                let id: u64 = arg(e, args, 0);
                let state = ended(
                    e,
                    PaymentRouter::settlement_status(
                        read_escrow(e, id),
                        read_settlement(e, id),
                        id,
                    ),
                );
                settlement_out(state).into_val(e)
            }
            "dead_letter_at" => {
                let id: u64 = arg(e, args, 0);
                let state = read_settlement(e, id);
                assert!(state.map_or(0, |s| s.failed_at) <= u32::MAX - DEAD_LETTER_DELAY);
                PaymentRouter::dead_letter_at(state, id).into_val(e)
            }
            "max_releases" => PaymentRouter::max_releases().into_val(e),
            "max_settlement_failures" => PaymentRouter::max_settlement_failures().into_val(e),
            "version" => PaymentRouter::version().into_val(e),
            _ => return None,
        })
    }
}

/// A caller's side of the router.
struct RouterClient<'a> {
    env: &'a Env,
    id: &'a Party,
}

impl<'a> RouterClient<'a> {
    fn new(env: &'a Env, id: &'a Party) -> Self {
        RouterClient { env, id }
    }

    fn call<T: TryFromVal<Env, Val>>(
        &self,
        func: &str,
        args: soroban_sdk::Vec<Val>,
    ) -> Result<T, soroban_sdk::Error> {
        let func = Symbol::new(self.env, func);
        match self.env.try_invoke_contract::<T, soroban_sdk::Error>(self.id, &func, args) {
            Ok(value) => Ok(value.ok().unwrap()),
            Err(error) => Err(error.unwrap()),
        }
    }

    fn initialize(&self, arbiter: &Party) {
        self.try_initialize(arbiter).unwrap()
    }

    fn try_initialize(&self, arbiter: &Party) -> Result<(), soroban_sdk::Error> {
        self.call("initialize", (arbiter.clone(),).into_val(self.env))
    }

    fn open_escrow(&self, payer: &Party, payee: &Party, token: &Party, total: &i128) -> u64 {
        self.try_open_escrow(payer, payee, token, total).unwrap()
    }

    fn try_open_escrow(
        &self,
        payer: &Party,
        payee: &Party,
        token: &Party,
        total: &i128,
    ) -> Result<u64, soroban_sdk::Error> {
        let args = (payer.clone(), payee.clone(), token.clone(), *total).into_val(self.env);
        self.call("open_escrow", args)
    }

    fn release_partial(&self, id: &u64, amount: &i128) {
        self.try_release_partial(id, amount).unwrap()
    }

    fn try_release_partial(&self, id: &u64, amount: &i128) -> Result<(), soroban_sdk::Error> {
        self.call("release_partial", (*id, *amount).into_val(self.env))
    }

    fn claim(&self, id: &u64) -> i128 {
        self.try_claim(id).unwrap()
    }

    fn try_claim(&self, id: &u64) -> Result<i128, soroban_sdk::Error> {
        self.call("claim", (*id,).into_val(self.env))
    }

    fn dispute(&self, id: &u64, amount: &i128) {
        self.try_dispute(id, amount).unwrap()
    }

    fn try_dispute(&self, id: &u64, amount: &i128) -> Result<(), soroban_sdk::Error> {
        self.call("dispute", (*id, *amount).into_val(self.env))
    }

    fn resolve_dispute(&self, id: &u64, to_payee: &bool) {
        self.try_resolve_dispute(id, to_payee).unwrap()
    }

    fn try_resolve_dispute(&self, id: &u64, to_payee: &bool) -> Result<(), soroban_sdk::Error> {
        self.call("resolve_dispute", (*id, *to_payee).into_val(self.env))
    }

    fn close_escrow(&self, id: &u64) {
        self.try_close_escrow(id).unwrap()
    }

    fn try_close_escrow(&self, id: &u64) -> Result<(), soroban_sdk::Error> {
        self.call("close_escrow", (*id,).into_val(self.env))
    }

    fn report_failure(&self, id: &u64, reason: FailureReason) -> u32 {
        self.try_report_failure(id, reason).unwrap()
    }

    fn try_report_failure(
        &self,
        id: &u64,
        reason: FailureReason,
    ) -> Result<u32, soroban_sdk::Error> {
        self.call("report_failure", (*id, reason_out(reason)).into_val(self.env))
    }

    fn try_clear_failure(&self, id: &u64) -> Result<(), soroban_sdk::Error> {
        self.call("clear_failure", (*id,).into_val(self.env))
    }

    fn try_dead_letter(&self, id: &u64) -> Result<i128, soroban_sdk::Error> {
        self.call("dead_letter", (*id,).into_val(self.env))
    }

    fn get_escrow(&self, id: &u64) -> Escrow {
        escrow_in(self.call("get_escrow", (*id,).into_val(self.env)).unwrap())
    }

    fn try_get_escrow(&self, id: &u64) -> Result<EscrowRow, soroban_sdk::Error> {
        self.call("get_escrow", (*id,).into_val(self.env))
    }

    fn claimable(&self, id: &u64) -> i128 {
        self.call("claimable", (*id,).into_val(self.env)).unwrap()
    }

    fn releasable(&self, id: &u64) -> i128 {
        self.call("releasable", (*id,).into_val(self.env)).unwrap()
    }

    fn settlement_status(&self, id: &u64) -> Settlement {
        settlement_in(self.call("settlement_status", (*id,).into_val(self.env)).unwrap())
    }

    fn dead_letter_at(&self, id: &u64) -> Option<u32> {
        self.call("dead_letter_at", (*id,).into_val(self.env)).unwrap()
    }

    fn max_releases(&self) -> u32 {
        self.call("max_releases", soroban_sdk::Vec::new(self.env)).unwrap()
    }

    fn max_settlement_failures(&self) -> u32 {
        self.call("max_settlement_failures", soroban_sdk::Vec::new(self.env)).unwrap()
    }

    fn version(&self) -> u32 {
        self.call("version", soroban_sdk::Vec::new(self.env)).unwrap()
    }
}

/// A refusal carries the code of the contract's error.
fn raised(e: Error) -> soroban_sdk::Error {
    soroban_sdk::Error::from_contract_error(e.code())
}

// ---------------------------------------------------------------------------
// Fixture
// ---------------------------------------------------------------------------

struct Fixture {
    env: Env,
    router: Party,
    token: Party,
    payer: Party,
    payee: Party,
    arbiter: Party,
}

fn setup(funding: i128) -> Fixture {
    let env = fresh_env();
    env.mock_all_auths();
    // The waiting time of a failed settlement must not outlive the token.
    env.ledger().with_mut(|ledger| ledger.min_persistent_entry_ttl = 1_000_000);

    let arbiter = Party::generate(&env);
    let router = env.register(Router, ());
    RouterClient::new(&env, &router).initialize(&arbiter);

    let issuer = Party::generate(&env);
    let token = env.register_stellar_asset_contract_v2(issuer).address();

    let payer = Party::generate(&env);
    let payee = Party::generate(&env);
    StellarAssetClient::new(&env, &token).mint(&payer, &funding);

    Fixture { env, router, token, payer, payee, arbiter }
}

impl Fixture {
    fn client(&self) -> RouterClient<'_> {
        RouterClient::new(&self.env, &self.router)
    }

    fn token(&self) -> TokenClient<'_> {
        TokenClient::new(&self.env, &self.token)
    }

    fn open(&self, total: i128) -> u64 {
        self.client().open_escrow(&self.payer, &self.payee, &self.token, &total)
    }

    /// One signature, for one call with these arguments.
    fn sign(&self, who: &Party, fn_name: &str, args: soroban_sdk::Vec<Val>) {
        self.env.mock_auths(&[MockAuth {
            address: who,
            invoke: &MockAuthInvoke { contract: &self.router, fn_name, args, sub_invokes: &[] },
        }]);
    }

    /// What the router still owes on one escrow: the released portion that was
    /// not pulled, plus whatever remains escrowed or frozen.
    fn outstanding(&self, id: u64) -> i128 {
        let e = self.client().get_escrow(&id);
        let unreleased = if e.closed { 0 } else { e.total - e.released - e.disputed };
        (e.released - e.claimed) + unreleased + if e.closed { 0 } else { e.disputed }
    }

    /// The contract holds exactly what it still owes, and no escrow has paid
    /// out more than was deposited into it.
    fn assert_conserved(&self, ids: &[u64]) {
        let owed: i128 = ids.iter().map(|id| self.outstanding(*id)).sum();
        assert_eq!(
            self.token().balance(&self.router),
            owed,
            "router balance must equal the sum of outstanding escrow claims"
        );

        for id in ids {
            let e = self.client().get_escrow(id);
            assert!(e.claimed <= e.released, "escrow {id} paid out unreleased funds");
            assert!(
                e.released + e.disputed <= e.total,
                "escrow {id} released more than it took in"
            );
            assert!(e.claimed >= 0 && e.released >= 0 && e.disputed >= 0);
        }
    }
}

// ---------------------------------------------------------------------------
// Partial release against metered usage
// ---------------------------------------------------------------------------

#[test]
fn test_opening_an_escrow_moves_the_deposit_into_the_contract() {
    let f = setup(10_000);
    let id = f.open(10_000);

    assert_eq!(f.token().balance(&f.payer), 0);
    assert_eq!(f.token().balance(&f.router), 10_000);
    assert_eq!(f.client().releasable(&id), 10_000);
    assert_eq!(f.client().claimable(&id), 0);
}

#[test]
fn test_a_partial_release_settles_the_metered_portion_and_leaves_the_rest() {
    let f = setup(10_000);
    let id = f.open(10_000);

    f.client().release_partial(&id, &2_500);

    let escrow = f.client().get_escrow(&id);
    assert_eq!(escrow.released, 2_500);
    assert_eq!(escrow.release_count, 1);
    assert_eq!(f.client().claimable(&id), 2_500);
    assert_eq!(f.client().releasable(&id), 7_500);

    // A release only makes funds claimable: the contract still holds the whole
    // deposit until the payee pulls.
    assert_eq!(f.token().balance(&f.payee), 0);
    assert_eq!(f.token().balance(&f.router), 10_000);
}

#[test]
fn test_the_payee_pulls_what_has_been_released() {
    let f = setup(10_000);
    let id = f.open(10_000);

    f.client().release_partial(&id, &2_500);
    f.client().release_partial(&id, &1_500);

    let pulled = f.client().claim(&id);

    assert_eq!(pulled, 4_000);
    assert_eq!(f.token().balance(&f.payee), 4_000);
    assert_eq!(f.token().balance(&f.router), 6_000);
    assert_eq!(f.client().claimable(&id), 0);

    assert_eq!(f.client().try_claim(&id), Err(raised(Error::NothingToClaim)));
}

#[test]
fn test_a_release_larger_than_the_remaining_escrow_is_rejected() {
    let f = setup(10_000);
    let id = f.open(10_000);

    f.client().release_partial(&id, &9_000);
    assert_eq!(
        f.client().try_release_partial(&id, &1_001),
        Err(raised(Error::InsufficientEscrow))
    );

    // Exactly the remainder is fine.
    f.client().release_partial(&id, &1_000);
    assert_eq!(f.client().releasable(&id), 0);
}

#[test]
fn test_zero_and_negative_releases_are_rejected() {
    let f = setup(10_000);
    let id = f.open(10_000);

    assert_eq!(f.client().try_release_partial(&id, &0), Err(raised(Error::InvalidAmount)));
    assert_eq!(f.client().try_release_partial(&id, &-100), Err(raised(Error::InvalidAmount)));
}

#[test]
fn test_releases_never_sum_past_the_escrowed_total() {
    let f = setup(10_000);
    let id = f.open(10_000);

    // Settle repeatedly, with claims in between, past the point where the
    // deposit is exhausted.
    let mut expected_released = 0i128;
    for i in 1..=MAX_RELEASES {
        let amount = 400i128;
        let result = f.client().try_release_partial(&id, &amount);

        if expected_released + amount <= 10_000 {
            assert!(result.is_ok(), "release {i} should have succeeded");
            expected_released += amount;
        } else {
            assert_eq!(result, Err(raised(Error::InsufficientEscrow)));
        }

        let escrow = f.client().get_escrow(&id);
        assert_eq!(escrow.released, expected_released);
        assert!(escrow.released <= escrow.total);
        assert!(escrow.claimed <= escrow.released);
        assert!(escrow.releasable() >= 0);

        if i % 3 == 0 && escrow.claimable() > 0 {
            f.client().claim(&id);
        }
    }

    let escrow = f.client().get_escrow(&id);
    assert!(escrow.released <= 10_000);
    if escrow.claimable() > 0 {
        f.client().claim(&id);
    }
    assert_eq!(f.token().balance(&f.payee), escrow.released);
    assert_eq!(
        f.token().balance(&f.router),
        10_000 - escrow.released,
        "the contract never pays out more than it holds"
    );
}

#[test]
fn test_the_partial_release_count_is_capped() {
    let f = setup(1_000_000);
    let id = f.open(1_000_000);

    for _ in 0..MAX_RELEASES {
        f.client().release_partial(&id, &1);
    }

    let escrow = f.client().get_escrow(&id);
    assert_eq!(escrow.release_count, MAX_RELEASES);
    // Plenty is still escrowed: the cap, not the balance, stops this.
    assert!(escrow.releasable() > 0);
    assert_eq!(
        f.client().try_release_partial(&id, &1),
        Err(raised(Error::ReleaseCapReached))
    );
    assert_eq!(f.client().max_releases(), MAX_RELEASES);
}

// ---------------------------------------------------------------------------
// Disputes
// ---------------------------------------------------------------------------

#[test]
fn test_a_dispute_does_not_touch_funds_already_released() {
    let f = setup(10_000);
    let id = f.open(10_000);

    f.client().release_partial(&id, &3_000);
    f.client().dispute(&id, &2_000);

    let escrow = f.client().get_escrow(&id);
    assert_eq!(escrow.disputed, 2_000);
    assert_eq!(escrow.released, 3_000);
    assert_eq!(f.client().claimable(&id), 3_000);

    // The payee can still take it while the dispute is open.
    assert_eq!(f.client().claim(&id), 3_000);
    assert_eq!(f.token().balance(&f.payee), 3_000);
}

#[test]
fn test_a_dispute_freezes_only_its_own_amount_leaving_the_rest_settleable() {
    let f = setup(10_000);
    let id = f.open(10_000);

    f.client().dispute(&id, &4_000);

    assert_eq!(f.client().releasable(&id), 6_000);
    f.client().release_partial(&id, &6_000);
    assert_eq!(f.client().claimable(&id), 6_000);

    // The frozen portion is not available to release around.
    assert_eq!(
        f.client().try_release_partial(&id, &1),
        Err(raised(Error::InsufficientEscrow))
    );
}

#[test]
fn test_resolving_for_the_payee_makes_the_frozen_amount_claimable() {
    let f = setup(10_000);
    let id = f.open(10_000);

    f.client().dispute(&id, &4_000);
    f.client().resolve_dispute(&id, &true);

    let escrow = f.client().get_escrow(&id);
    assert_eq!(escrow.disputed, 0);
    assert_eq!(escrow.released, 4_000);
    // Arbitration does not consume a voluntary release.
    assert_eq!(escrow.release_count, 0);
    assert_eq!(f.client().claim(&id), 4_000);
}

#[test]
fn test_resolving_for_the_payer_returns_the_amount_to_the_escrow() {
    let f = setup(10_000);
    let id = f.open(10_000);

    f.client().dispute(&id, &4_000);
    f.client().resolve_dispute(&id, &false);

    let escrow = f.client().get_escrow(&id);
    assert_eq!(escrow.disputed, 0);
    assert_eq!(escrow.released, 0);
    assert_eq!(f.client().releasable(&id), 10_000);
}

#[test]
fn test_only_the_arbiter_resolves_and_only_an_open_dispute() {
    let f = setup(10_000);
    let id = f.open(10_000);

    assert_eq!(
        f.client().try_resolve_dispute(&id, &true),
        Err(raised(Error::NoDisputeOpen))
    );

    f.client().dispute(&id, &1_000);
    assert_eq!(
        f.client().try_dispute(&id, &1_000),
        Err(raised(Error::DisputeAlreadyOpen))
    );

    let impostor = Party::generate(&f.env);
    f.sign(&impostor, "resolve_dispute", (id, true).into_val(&f.env));
    assert!(f.client().try_resolve_dispute(&id, &true).is_err());
    assert_eq!(f.client().get_escrow(&id).disputed, 1_000);

    f.sign(&f.arbiter, "resolve_dispute", (id, true).into_val(&f.env));
    f.client().resolve_dispute(&id, &true);
    assert_eq!(f.client().get_escrow(&id).disputed, 0);
}

// ---------------------------------------------------------------------------
// Closing
// ---------------------------------------------------------------------------

#[test]
fn test_closing_refunds_the_remainder_and_leaves_released_funds_claimable() {
    let f = setup(10_000);
    let id = f.open(10_000);

    f.client().release_partial(&id, &2_500);
    f.client().close_escrow(&id);

    assert_eq!(f.token().balance(&f.payer), 7_500);
    // The payee is not stranded by the close.
    assert_eq!(f.client().claim(&id), 2_500);
    assert_eq!(f.token().balance(&f.payee), 2_500);
    assert_eq!(f.token().balance(&f.router), 0);

    assert_eq!(f.client().try_release_partial(&id, &1), Err(raised(Error::EscrowClosed)));
}

#[test]
fn test_closing_is_refused_while_a_dispute_is_open() {
    let f = setup(10_000);
    let id = f.open(10_000);

    f.client().dispute(&id, &4_000);
    assert_eq!(f.client().try_close_escrow(&id), Err(raised(Error::DisputeAlreadyOpen)));
}

#[test]
fn test_an_escrow_needs_two_distinct_parties_and_a_positive_amount() {
    let f = setup(10_000);

    assert_eq!(
        f.client().try_open_escrow(&f.payer, &f.payer, &f.token, &1_000),
        Err(raised(Error::SamePayerAndPayee))
    );
    assert_eq!(
        f.client().try_open_escrow(&f.payer, &f.payee, &f.token, &0),
        Err(raised(Error::InvalidAmount))
    );
}

// ---------------------------------------------------------------------------
// Authorization
// ---------------------------------------------------------------------------

#[test]
fn test_the_payer_signature_is_bound_to_the_release_amount() {
    let f = setup(10_000);
    let id = f.open(10_000);

    // Signed to settle 1_000, submitted to settle 9_000.
    f.sign(&f.payer, "release_partial", (id, 1_000i128).into_val(&f.env));
    assert!(f.client().try_release_partial(&id, &9_000).is_err());
    assert_eq!(f.client().get_escrow(&id).released, 0);

    f.sign(&f.payer, "release_partial", (id, 1_000i128).into_val(&f.env));
    f.client().release_partial(&id, &1_000);
    assert_eq!(f.client().get_escrow(&id).released, 1_000);
}

#[test]
fn test_only_the_payee_can_pull() {
    let f = setup(10_000);
    let id = f.open(10_000);
    f.client().release_partial(&id, &1_000);

    let stranger = Party::generate(&f.env);
    f.sign(&stranger, "claim", (id,).into_val(&f.env));

    assert!(f.client().try_claim(&id).is_err());
    assert_eq!(f.token().balance(&stranger), 0);
    assert_eq!(f.client().claimable(&id), 1_000);
}

// ---------------------------------------------------------------------------
// Conservation
// ---------------------------------------------------------------------------

#[test]
fn test_balances_are_conserved_across_a_full_escrow_lifecycle() {
    let f = setup(10_000);
    let id = f.open(10_000);
    f.assert_conserved(&[id]);

    f.client().release_partial(&id, &2_500);
    f.assert_conserved(&[id]);

    f.client().claim(&id);
    f.assert_conserved(&[id]);

    f.client().release_partial(&id, &1_500);
    f.assert_conserved(&[id]);

    f.client().close_escrow(&id);
    f.assert_conserved(&[id]);

    f.client().claim(&id);
    f.assert_conserved(&[id]);

    // Every unit deposited ends up with exactly one party.
    assert_eq!(f.token().balance(&f.payee), 4_000);
    assert_eq!(f.token().balance(&f.payer), 6_000);
    assert_eq!(f.token().balance(&f.router), 0);
}

#[test]
fn test_balances_are_conserved_across_a_dispute() {
    let f = setup(10_000);
    let id = f.open(10_000);

    f.client().release_partial(&id, &1_000);
    f.client().dispute(&id, &4_000);
    f.assert_conserved(&[id]);

    f.client().resolve_dispute(&id, &true);
    f.assert_conserved(&[id]);

    f.client().claim(&id);
    f.assert_conserved(&[id]);
    assert_eq!(f.token().balance(&f.payee), 5_000);
}

#[test]
fn test_conservation_holds_with_several_escrows_sharing_the_contract_balance() {
    let f = setup(30_000);
    let a = f.open(10_000);
    let b = f.open(12_000);
    let c = f.open(8_000);

    f.client().release_partial(&a, &4_000);
    f.client().release_partial(&b, &12_000);
    f.client().claim(&b);
    f.client().close_escrow(&c);

    f.assert_conserved(&[a, b, c]);
    assert_eq!(f.token().balance(&f.router), 10_000);
}

// ---------------------------------------------------------------------------
// Settled paths
// ---------------------------------------------------------------------------

#[test]
fn test_a_second_close_returns_already_settled_and_refunds_nothing() {
    let f = setup(10_000);
    let id = f.open(10_000);

    f.client().release_partial(&id, &2_000);
    f.client().close_escrow(&id);

    let payer_after_first = f.token().balance(&f.payer);
    assert_eq!(payer_after_first, 8_000);

    assert_eq!(f.client().try_close_escrow(&id), Err(raised(Error::AlreadySettled)));
    assert_eq!(f.token().balance(&f.payer), payer_after_first);
    assert_eq!(f.token().balance(&f.router), 2_000);
    f.assert_conserved(&[id]);
}

#[test]
fn test_a_second_claim_on_a_settled_escrow_returns_already_settled() {
    let f = setup(10_000);
    let id = f.open(10_000);

    f.client().release_partial(&id, &3_000);
    f.client().close_escrow(&id);
    assert_eq!(f.client().claim(&id), 3_000);

    assert_eq!(f.client().try_claim(&id), Err(raised(Error::AlreadySettled)));
    assert_eq!(f.token().balance(&f.payee), 3_000);
    assert_eq!(f.token().balance(&f.router), 0);
}

#[test]
fn test_an_open_escrow_with_nothing_released_still_reports_nothing_to_claim() {
    let f = setup(10_000);
    let id = f.open(10_000);

    // Distinct from AlreadySettled: this one is worth retrying later.
    assert_eq!(f.client().try_claim(&id), Err(raised(Error::NothingToClaim)));
}

#[test]
fn test_releases_can_never_sum_past_the_deposit() {
    let f = setup(10_000);
    let id = f.open(10_000);

    f.client().release_partial(&id, &6_000);
    assert_eq!(
        f.client().try_release_partial(&id, &4_001),
        Err(raised(Error::InsufficientEscrow))
    );
    f.client().release_partial(&id, &4_000);
    assert_eq!(
        f.client().try_release_partial(&id, &1),
        Err(raised(Error::InsufficientEscrow))
    );
    f.assert_conserved(&[id]);
}

// ---------------------------------------------------------------------------
// A token that calls back
// ---------------------------------------------------------------------------

/// A token whose `transfer` calls back into the router, once it is armed.
struct HostileToken;

impl ContractFunctionSet for HostileToken {
    fn call(&self, func: &str, env: Env, args: &[Val]) -> Option<Val> {
        let target = Symbol::new(&env, "Target");
        let escrow = Symbol::new(&env, "Escrow");
        let armed = Symbol::new(&env, "Armed");
        match func {
            "arm" => {
                env.storage().instance().set(&target, &arg::<Party>(&env, args, 0));
                env.storage().instance().set(&escrow, &arg::<u64>(&env, args, 1));
                env.storage().instance().set(&armed, &true);
            }
            "transfer" => {
                if env.storage().instance().get(&armed).unwrap_or(false) {
                    // Fire once, so that the callback does not recurse.
                    env.storage().instance().set(&armed, &false);
                    let router: Party = env.storage().instance().get(&target).unwrap();
                    let id: u64 = env.storage().instance().get(&escrow).unwrap();
                    let claim = Symbol::new(&env, "claim");
                    env.invoke_contract::<i128>(&router, &claim, (id,).into_val(&env));
                }
            }
            _ => return None,
        }
        Some(().into_val(&env))
    }
}

fn arm(env: &Env, token: &Party, router: &Party, id: u64) {
    let args = (router.clone(), id).into_val(env);
    env.invoke_contract::<()>(token, &Symbol::new(env, "arm"), args);
}

#[test]
fn test_a_token_that_calls_back_during_a_claim_cannot_pull_twice() {
    let env = fresh_env();
    env.mock_all_auths();

    let arbiter = Party::generate(&env);
    let router = env.register(Router, ());
    let client = RouterClient::new(&env, &router);
    client.initialize(&arbiter);

    let token = env.register(HostileToken, ());
    let payer = Party::generate(&env);
    let payee = Party::generate(&env);

    // The deposit runs while the token is disarmed.
    let id = client.open_escrow(&payer, &payee, &token, &10_000);
    client.release_partial(&id, &4_000);

    arm(&env, &token, &router, id);

    assert!(client.try_claim(&id).is_err());

    // Nothing was recorded.
    let escrow = client.get_escrow(&id);
    assert_eq!(escrow.claimed, 0);
    assert_eq!(escrow.released, 4_000);
    assert_eq!(client.claimable(&id), 4_000);
}

#[test]
fn test_a_token_that_calls_back_during_a_deposit_cannot_drain_another_escrow() {
    let env = fresh_env();
    env.mock_all_auths();

    let arbiter = Party::generate(&env);
    let router = env.register(Router, ());
    let client = RouterClient::new(&env, &router);
    client.initialize(&arbiter);

    let token = env.register(HostileToken, ());
    let payer = Party::generate(&env);
    let payee = Party::generate(&env);

    let victim = client.open_escrow(&payer, &payee, &token, &5_000);
    client.release_partial(&victim, &5_000);

    // Armed before the second deposit: the callback fires while the new row
    // exists and is unfunded.
    arm(&env, &token, &router, victim);

    assert!(client.try_open_escrow(&payer, &payee, &token, &1_000).is_err());

    // The victim escrow is untouched.
    assert_eq!(client.get_escrow(&victim).claimed, 0);
    assert_eq!(client.claimable(&victim), 5_000);
}

// ---------------------------------------------------------------------------
// Recovery of settlements that do not land
// ---------------------------------------------------------------------------

#[test]
fn a_failing_settlement_is_swept_back_after_the_wait() {
    let f = setup(10_000);
    let id = f.open(10_000);
    f.client().release_partial(&id, &4_000);
    f.env.ledger().set_sequence_number(100);

    assert_eq!(f.client().report_failure(&id, FailureReason::NoTrustline), 1);
    assert_eq!(f.client().report_failure(&id, FailureReason::NoTrustline), 2);
    assert!(!f.client().settlement_status(&id).failed);
    assert_eq!(f.client().dead_letter_at(&id), None);
    assert_eq!(f.client().try_dead_letter(&id), Err(raised(Error::SettlementNotFailed)));

    assert_eq!(f.client().report_failure(&id, FailureReason::AssetRestricted), 3);
    let state = f.client().settlement_status(&id);
    assert!(state.failed);
    assert_eq!(state.failed_at, 100);
    assert_eq!(state.last_reason, FailureReason::AssetRestricted);
    assert_eq!(f.client().dead_letter_at(&id), Some(121_060));

    // A later report does not move the deadline.
    f.env.ledger().set_sequence_number(200);
    assert_eq!(f.client().report_failure(&id, FailureReason::Other), 4);
    assert_eq!(f.client().dead_letter_at(&id), Some(121_060));

    f.env.ledger().set_sequence_number(121_059);
    assert_eq!(f.client().try_dead_letter(&id), Err(raised(Error::DeadLetterNotReady)));
    // Reports preserve the claim.
    assert_eq!(f.client().claimable(&id), 4_000);

    f.env.ledger().set_sequence_number(121_060);
    assert_eq!(f.client().try_dead_letter(&id), Ok(4_000));
    assert_eq!(f.token().balance(&f.payer), 4_000);
    assert_eq!(f.token().balance(&f.payee), 0);
    assert_eq!(f.client().claimable(&id), 0);
    assert_eq!(f.client().dead_letter_at(&id), None);
    f.assert_conserved(&[id]);

    assert_eq!(f.client().try_dead_letter(&id), Err(raised(Error::AlreadyDeadLettered)));
    assert_eq!(
        f.client().try_report_failure(&id, FailureReason::Other),
        Err(raised(Error::AlreadyDeadLettered))
    );
}

#[test]
fn a_mended_account_starts_over() {
    let f = setup(10_000);
    let id = f.open(10_000);
    f.client().release_partial(&id, &4_000);
    for _ in 0..MAX_SETTLEMENT_FAILURES {
        f.client().report_failure(&id, FailureReason::NoDestination);
    }
    assert!(f.client().settlement_status(&id).failed);

    assert_eq!(f.client().try_clear_failure(&id), Ok(()));
    let state = f.client().settlement_status(&id);
    assert_eq!(state, Settlement::healthy(id));
    assert_eq!(f.client().dead_letter_at(&id), None);
    assert_eq!(f.client().claim(&id), 4_000);
}

#[test]
fn only_the_payee_reports_and_only_the_arbiter_sweeps() {
    let f = setup(10_000);
    let id = f.open(10_000);
    f.client().release_partial(&id, &4_000);

    f.sign(&f.payer, "report_failure", (id,).into_val(&f.env));
    assert!(f.client().try_report_failure(&id, FailureReason::Other).is_err());

    f.env.mock_all_auths();
    for _ in 0..MAX_SETTLEMENT_FAILURES {
        f.client().report_failure(&id, FailureReason::Other);
    }
    f.env.ledger().set_sequence_number(DEAD_LETTER_DELAY);
    f.sign(&f.payer, "dead_letter", (id,).into_val(&f.env));
    assert!(f.client().try_dead_letter(&id).is_err());
    f.sign(&f.arbiter, "dead_letter", (id,).into_val(&f.env));
    assert_eq!(f.client().try_dead_letter(&id), Ok(4_000));
}

#[test]
fn a_failure_can_only_be_reported_where_something_is_owed() {
    let f = setup(10_000);
    let id = f.open(10_000);
    assert_eq!(
        f.client().try_report_failure(&id, FailureReason::Other),
        Err(raised(Error::NothingToClaim))
    );
    assert_eq!(
        f.client().try_report_failure(&(id + 1), FailureReason::Other),
        Err(raised(Error::EscrowNotFound))
    );
}

// ---------------------------------------------------------------------------
// Initialization and reads
// ---------------------------------------------------------------------------

#[test]
fn the_router_is_initialized_once() {
    let f = setup(10_000);
    assert_eq!(
        f.client().try_initialize(&f.payer),
        Err(raised(Error::AlreadyInitialized))
    );
}

#[test]
fn without_an_arbiter_nothing_is_resolved() {
    let env = fresh_env();
    env.mock_all_auths();
    let router = env.register(Router, ());
    let client = RouterClient::new(&env, &router);
    assert_eq!(client.try_resolve_dispute(&1, &true), Err(raised(Error::NotInitialized)));
    assert_eq!(client.try_dead_letter(&1), Err(raised(Error::NotInitialized)));
}

#[test]
fn unknown_escrows_are_not_found() {
    let f = setup(10_000);
    assert!(f.client().try_get_escrow(&7) == Err(raised(Error::EscrowNotFound)));
    assert_eq!(f.client().try_claim(&7), Err(raised(Error::EscrowNotFound)));
    assert_eq!(f.client().try_dispute(&7, &1), Err(raised(Error::EscrowNotFound)));
    assert_eq!(f.client().try_close_escrow(&7), Err(raised(Error::EscrowNotFound)));
    assert_eq!(f.client().try_clear_failure(&7), Err(raised(Error::EscrowNotFound)));
}

#[test]
fn escrows_are_numbered_from_one() {
    let f = setup(10_000);
    assert_eq!(f.open(1), 1);
    assert_eq!(f.open(1), 2);
    assert_eq!(f.open(1), 3);
    assert_eq!(f.client().max_settlement_failures(), 3);
    assert_eq!(f.client().version(), 3);
}

#[test]
fn a_dispute_must_fit_the_remainder() {
    let f = setup(10_000);
    let id = f.open(10_000);
    f.client().release_partial(&id, &6_000);
    assert_eq!(f.client().try_dispute(&id, &0), Err(raised(Error::InvalidAmount)));
    assert_eq!(f.client().try_dispute(&id, &4_001), Err(raised(Error::InsufficientEscrow)));
    f.client().dispute(&id, &4_000);
    assert_eq!(f.client().releasable(&id), 0);
}

#[test]
fn nothing_is_releasable_once_the_escrow_is_closed() {
    let f = setup(10_000);
    let id = f.open(10_000);
    f.client().release_partial(&id, &2_500);
    assert_eq!(f.client().releasable(&id), 7_500);
    f.client().close_escrow(&id);

    // The remainder was refunded.
    assert_eq!(f.client().releasable(&id), 0);
    assert_eq!(f.client().claimable(&id), 2_500);
    assert_eq!(f.outstanding(id), 2_500);
}

#[test]
fn exactly_what_is_releasable_can_be_released() {
    let f = setup(10_000);
    let id = f.open(10_000);
    f.client().release_partial(&id, &1_000);
    f.client().dispute(&id, &2_000);
    assert_eq!(f.client().releasable(&id), 7_000);
    assert_eq!(f.outstanding(id), 10_000);
    assert_eq!(
        f.client().try_release_partial(&id, &7_001),
        Err(raised(Error::InsufficientEscrow))
    );
    assert_eq!(f.client().try_release_partial(&id, &7_000), Ok(()));
    assert_eq!(f.client().releasable(&id), 0);
}

#[test]
fn an_early_sweep_is_refused_by_a_router_with_and_without_an_arbiter() {
    let failed =
        Settlement { failures: 3, failed: true, failed_at: 10, ..Settlement::healthy(5) };
    let escrow = Some(sample(400, 100, 0, false));
    let early = |arbiter: Option<Address>| {
        PaymentRouter::dead_letter(arbiter, escrow, Some(failed), false, contract(9), 5, 120_969)
    };
    assert_eq!(early(Some(contract(4))).end, Err(Error::DeadLetterNotReady));
    assert_eq!(early(None).end, Err(Error::NotInitialized));
}

#[test]
fn other_tokens_stay_conserved_where_the_router_pays_itself_in_one() {
    let f = setup(1_000);
    let issuer = Party::generate(&f.env);
    let other = f.env.register_stellar_asset_contract_v2(issuer).address();
    StellarAssetClient::new(&f.env, &other).mint(&f.payer, &1_000);

    // The router is the payee of an escrow in the other token, and pulls it.
    let own = f.client().open_escrow(&f.payer, &f.router, &other, &1_000);
    f.client().release_partial(&own, &400);
    f.client().claim(&own);
    assert_eq!(TokenClient::new(&f.env, &other).balance(&f.router), 1_000);
    assert_eq!(f.outstanding(own), 600);

    // In the first token the books still balance, call by call.
    let id = f.open(1_000);
    f.assert_conserved(&[id]);
    f.client().release_partial(&id, &300);
    f.client().claim(&id);
    f.assert_conserved(&[id]);
    f.client().close_escrow(&id);
    f.assert_conserved(&[id]);
}

#[test]
fn a_close_is_final_whatever_follows() {
    let f = setup(20_000);
    let id = f.open(10_000);
    f.client().release_partial(&id, &3_000);
    f.client().close_escrow(&id);
    f.client().claim(&id);
    let other = f.open(10_000);
    f.client().release_partial(&other, &1);
    assert_eq!(f.client().try_close_escrow(&id), Err(raised(Error::AlreadySettled)));
    assert_eq!(f.client().try_release_partial(&id, &1), Err(raised(Error::EscrowClosed)));
    assert_eq!(f.client().try_dispute(&id, &1), Err(raised(Error::EscrowClosed)));
    assert_eq!(f.client().releasable(&id), 0);
    f.assert_conserved(&[id, other]);
}

#[test]
fn a_swept_settlement_stays_swept_whatever_follows() {
    let f = setup(10_000);
    let id = f.open(10_000);
    f.client().release_partial(&id, &4_000);
    for _ in 0..MAX_SETTLEMENT_FAILURES {
        f.client().report_failure(&id, FailureReason::Other);
    }
    f.env.ledger().set_sequence_number(DEAD_LETTER_DELAY);
    assert_eq!(f.client().try_dead_letter(&id), Ok(4_000));
    let state = f.client().settlement_status(&id);

    f.client().release_partial(&id, &1_000);
    let refused = raised(Error::AlreadyDeadLettered);
    assert_eq!(f.client().try_dead_letter(&id), Err(refused));
    assert_eq!(f.client().try_report_failure(&id, FailureReason::Other), Err(refused));
    assert_eq!(f.client().try_clear_failure(&id), Err(refused));
    assert_eq!(f.client().settlement_status(&id), state);
    // What was released since can be pulled.
    assert_eq!(f.client().claim(&id), 1_000);
    f.assert_conserved(&[id]);
}

#[test]
fn rows_only_move_forward() {
    let f = setup(10_000);
    let id = f.open(10_000);
    let mut before = f.client().get_escrow(&id);
    for step in 0..6 {
        match step {
            0 => f.client().release_partial(&id, &3_000),
            1 => f.client().dispute(&id, &2_000),
            2 => f.client().resolve_dispute(&id, &true),
            3 => assert_eq!(f.client().claim(&id), 5_000),
            4 => f.client().release_partial(&id, &1),
            _ => f.client().close_escrow(&id),
        }
        let later = f.client().get_escrow(&id);
        assert_eq!((later.payer, later.payee), (before.payer, before.payee));
        assert_eq!(later.token, before.token);
        assert_eq!(later.total, 10_000);
        assert!(later.released >= before.released && later.claimed >= before.claimed);
        assert!(later.release_count >= before.release_count);
        f.assert_conserved(&[id]);
        before = later;
    }
    assert_eq!((before.released, before.claimed, before.release_count), (5_001, 5_000, 2));
    assert!(before.closed);
}

#[test]
fn calls_touch_only_the_escrow_they_name() {
    let f = setup(20_000);
    let one = f.open(10_000);
    let two = f.open(10_000);
    f.client().release_partial(&two, &1_000);
    let row = f.client().get_escrow(&two);
    let state = f.client().settlement_status(&two);

    f.client().release_partial(&one, &5_000);
    f.client().report_failure(&one, FailureReason::Other);
    f.client().claim(&one);
    f.client().dispute(&one, &1_000);
    f.client().resolve_dispute(&one, &false);
    f.client().close_escrow(&one);

    assert_eq!(f.client().get_escrow(&two), row);
    assert_eq!(f.client().settlement_status(&two), state);
    f.assert_conserved(&[one, two]);
}

#[test]
fn a_dispute_resolved_for_the_payer_leaves_the_row_as_it_was() {
    let f = setup(10_000);
    let id = f.open(10_000);
    f.client().release_partial(&id, &2_500);
    let row = f.client().get_escrow(&id);
    f.client().dispute(&id, &7_500);
    f.client().resolve_dispute(&id, &false);
    assert_eq!(f.client().get_escrow(&id), row);
}

#[test]
fn a_router_that_is_its_own_payee_keeps_what_it_pays() {
    let f = setup(1_000);
    let id = f.client().open_escrow(&f.payer, &f.router, &f.token, &1_000);
    f.client().release_partial(&id, &400);
    f.assert_conserved(&[id]);
    // The books are settled, and the value is where it was.
    assert_eq!(f.client().claim(&id), 400);
    assert_eq!(f.outstanding(id), 600);
    assert_eq!(f.token().balance(&f.router), 1_000);
}

// ---------------------------------------------------------------------------
// Plans
// ---------------------------------------------------------------------------

fn contract(n: u128) -> Address {
    Address::Contract(Bytes32 { hi: 0, lo: n })
}

fn sample(released: i128, claimed: i128, disputed: i128, closed: bool) -> Escrow {
    Escrow {
        id: 5,
        payer: contract(1),
        payee: contract(2),
        token: contract(3),
        total: 1_000,
        released,
        claimed,
        disputed,
        release_count: 1,
        closed,
    }
}

#[test]
fn a_deposit_is_written_before_it_is_moved() {
    let plan = PaymentRouter::open_escrow(
        Some(4),
        false,
        contract(9),
        contract(1),
        contract(2),
        contract(3),
        1_000,
    );
    let row = Escrow { release_count: 0, ..sample(0, 0, 0, false) };
    assert_eq!(plan.end, Ok(5));
    assert_eq!(
        plan.steps[0],
        Step::RequireAuthForArgs {
            who: contract(1),
            args: AuthArgs::Deposit { payee: contract(2), token: contract(3), total: 1_000 },
        }
    );
    let write = Step::Write { entry: Entry::Escrow(row) };
    let transfer = Step::Transfer {
        token: contract(3),
        from: contract(1),
        to: contract(9),
        amount: 1_000,
    };
    let written = plan.steps.iter().position(|s| *s == write).unwrap();
    let marked = plan.steps.iter().position(|s| *s == Step::SetInFlight).unwrap();
    let moved = plan.steps.iter().position(|s| *s == transfer).unwrap();
    let cleared = plan.steps.iter().position(|s| *s == Step::ClearInFlight).unwrap();
    assert!(marked < moved && written < moved && moved < cleared);
    assert!(plan.steps.contains(&Step::Write { entry: Entry::Counter(5) }));
    let opened =
        EscrowOpened { id: 5, payer: contract(1), payee: contract(2), total: 1_000 };
    assert!(plan.steps.contains(&Step::Publish { event: Event::EscrowOpened(opened) }));
}

#[test]
fn a_claim_is_spent_before_it_is_paid() {
    let plan = PaymentRouter::claim(Some(sample(400, 100, 0, false)), false, contract(9), 5);
    assert_eq!(plan.end, Ok(300));
    let write = Step::Write { entry: Entry::Escrow(sample(400, 400, 0, false)) };
    let transfer =
        Step::Transfer { token: contract(3), from: contract(9), to: contract(2), amount: 300 };
    let written = plan.steps.iter().position(|s| *s == write).unwrap();
    let moved = plan.steps.iter().position(|s| *s == transfer).unwrap();
    assert!(written < moved);
    let claimed = Claimed { id: 5, payee: contract(2), amount: 300 };
    assert!(plan.steps.contains(&Step::Publish { event: Event::Claimed(claimed) }));
}

#[test]
fn every_value_moving_call_is_refused_while_one_is_in_flight() {
    let escrow = Some(sample(400, 100, 0, false));
    let failed = Settlement {
        failures: 3,
        failed: true,
        failed_at: 10,
        ..Settlement::healthy(5)
    };
    let open = PaymentRouter::open_escrow(
        None,
        true,
        contract(9),
        contract(1),
        contract(2),
        contract(3),
        1,
    );
    let claim = PaymentRouter::claim(escrow, true, contract(9), 5);
    let close = PaymentRouter::close_escrow(escrow, true, contract(9), 5);
    let sweep = PaymentRouter::dead_letter(
        Some(contract(4)),
        escrow,
        Some(failed),
        true,
        contract(9),
        5,
        1_000_000,
    );
    assert_eq!(open.end, Err(Error::ReentrantCall));
    assert_eq!(claim.end, Err(Error::ReentrantCall));
    assert_eq!(close.end, Err(Error::ReentrantCall));
    assert_eq!(sweep.end, Err(Error::ReentrantCall));
    let steps = [open.steps, claim.steps, close.steps, sweep.steps].concat();
    assert!(!steps.iter().any(|s| matches!(s, Step::Transfer { .. } | Step::Write { .. })));
}

#[test]
fn the_other_calls_ask_for_no_transfer_and_leave_the_marker_alone() {
    let escrow = Some(sample(400, 100, 0, false));
    let disputed = Some(sample(400, 100, 50, false));
    let failed =
        Settlement { failures: 3, failed: true, failed_at: 10, ..Settlement::healthy(5) };
    let arbiter = Some(contract(4));
    let steps = [
        PaymentRouter::initialize(None, contract(4)).steps,
        PaymentRouter::release_partial(escrow, 5, 100).steps,
        PaymentRouter::dispute(escrow, 5, 100).steps,
        PaymentRouter::resolve_dispute(arbiter, disputed, 5, true).steps,
        PaymentRouter::report_failure(escrow, None, 5, FailureReason::Other, 77).steps,
        PaymentRouter::clear_failure(escrow, Some(failed), 5).steps,
    ]
    .concat();
    assert_eq!(steps.iter().filter(|s| matches!(s, Step::Write { .. })).count(), 6);
    assert!(!steps.iter().any(|s| matches!(
        s,
        Step::Transfer { .. } | Step::SetInFlight | Step::ClearInFlight
    )));
}

#[test]
fn a_release_from_inside_a_pull_changes_nothing_that_is_owed() {
    let owed = |e: &Escrow| (e.released - e.claimed) + (e.total - e.released);
    let pull = PaymentRouter::claim(Some(sample(400, 100, 0, false)), false, contract(9), 5);
    let transfer = pull.steps.iter().position(|s| matches!(s, Step::Transfer { .. })).unwrap();
    let mut row = sample(400, 100, 0, false);
    for step in &pull.steps[..transfer] {
        if let Step::Write { entry: Entry::Escrow(written) } = step {
            row = *written;
        }
    }
    assert_eq!(owed(&row), 600);
    let callback = PaymentRouter::release_partial(Some(row), 5, 250);
    let released = Escrow { released: 650, release_count: 2, ..row };
    assert!(callback.steps.contains(&Step::Write { entry: Entry::Escrow(released) }));
    assert_eq!(owed(&released), 600);
    // A pull of what was just released is refused while the first is in flight.
    let second = PaymentRouter::claim(Some(released), true, contract(9), 5);
    assert_eq!(second.end, Err(Error::ReentrantCall));
}

#[test]
fn an_early_sweep_in_flight_is_told_that_it_is_re_entrant() {
    let failed =
        Settlement { failures: 3, failed: true, failed_at: 10, ..Settlement::healthy(5) };
    let plan = PaymentRouter::dead_letter(
        Some(contract(4)),
        Some(sample(400, 100, 0, false)),
        Some(failed),
        true,
        contract(9),
        5,
        11,
    );
    assert_eq!(plan.end, Err(Error::ReentrantCall));
}

#[test]
fn a_sweep_pays_the_payer_exactly_the_claim() {
    let failed = Settlement {
        failures: 3,
        failed: true,
        failed_at: 10,
        last_reason: FailureReason::AssetRestricted,
        ..Settlement::healthy(5)
    };
    let plan = PaymentRouter::dead_letter(
        Some(contract(4)),
        Some(sample(400, 100, 0, false)),
        Some(failed),
        false,
        contract(9),
        5,
        120_970,
    );
    assert_eq!(plan.end, Ok(300));
    assert_eq!(plan.steps[0], Step::RequireAuth { who: contract(4) });
    assert!(plan.steps.contains(&Step::Transfer {
        token: contract(3),
        from: contract(9),
        to: contract(1),
        amount: 300,
    }));
    assert!(plan.steps.contains(&Step::Write {
        entry: Entry::Settlement(Settlement { dead_lettered: true, ..failed }),
    }));
    let swept = DeadLettered {
        id: 5,
        payer: contract(1),
        amount: 300,
        reason: FailureReason::AssetRestricted,
    };
    assert!(plan.steps.contains(&Step::Publish { event: Event::DeadLettered(swept) }));
}

#[test]
fn the_third_report_is_the_exhausting_one() {
    let two = Settlement { failures: 2, ..Settlement::healthy(5) };
    let plan = PaymentRouter::report_failure(
        Some(sample(400, 100, 0, false)),
        Some(two),
        5,
        FailureReason::NoTrustline,
        77,
    );
    assert_eq!(plan.end, Ok(3));
    let three = Settlement {
        id: 5,
        failures: 3,
        last_reason: FailureReason::NoTrustline,
        failed_at: 77,
        failed: true,
        dead_lettered: false,
    };
    assert!(plan.steps.contains(&Step::Write { entry: Entry::Settlement(three) }));
    let event = SettlementFailed {
        id: 5,
        payee: contract(2),
        reason: FailureReason::NoTrustline,
        failures: 3,
        exhausted: true,
    };
    assert!(plan.steps.contains(&Step::Publish { event: Event::SettlementFailed(event) }));
}

#[test]
fn a_written_row_is_renewed_and_the_change_announced() {
    let escrow = Some(sample(400, 100, 0, false));
    let plan = PaymentRouter::release_partial(escrow, 5, 100);
    let row = Escrow { released: 500, release_count: 2, ..sample(400, 100, 0, false) };
    let released =
        PartialReleased { id: 5, amount: 100, released_total: 500, release_count: 2 };
    assert_eq!(
        plan.steps,
        vec![
            Step::RequireAuthForArgs {
                who: contract(1),
                args: AuthArgs::Amount { id: 5, amount: 100 },
            },
            Step::Write { entry: Entry::Escrow(row) },
            Step::ExtendTtl { key: DataKey::Escrow(5), threshold: 259_200, extend_to: 518_400 },
            Step::Publish { event: Event::PartialReleased(released) },
        ]
    );
    let frozen = PaymentRouter::dispute(escrow, 5, 600);
    let event = Event::Disputed(Disputed { id: 5, amount: 600 });
    assert_eq!(frozen.steps.last(), Some(&Step::Publish { event }));
    let closed = PaymentRouter::close_escrow(escrow, false, contract(9), 5);
    let event = Event::EscrowClosed(EscrowClosed { id: 5, refunded: 600 });
    assert_eq!(closed.steps.last(), Some(&Step::Publish { event }));
    let resolved = PaymentRouter::resolve_dispute(
        Some(contract(4)),
        Some(sample(400, 100, 50, false)),
        5,
        true,
    );
    let event =
        Event::DisputeResolved(DisputeResolved { id: 5, amount: 50, to_payee: true });
    assert_eq!(resolved.steps.last(), Some(&Step::Publish { event }));
    let failed =
        Settlement { failures: 3, failed: true, failed_at: 10, ..Settlement::healthy(5) };
    let cleared = PaymentRouter::clear_failure(escrow, Some(failed), 5);
    let event = Event::SettlementRecovered(SettlementRecovered {
        id: 5,
        payee: contract(2),
        amount: 300,
    });
    assert_eq!(cleared.steps.last(), Some(&Step::Publish { event }));
}

#[test]
fn a_full_deposit_closes_without_a_refund() {
    let plan =
        PaymentRouter::close_escrow(Some(sample(1_000, 0, 0, false)), false, contract(9), 5);
    assert_eq!(plan.end, Ok(()));
    assert!(!plan.steps.iter().any(|s| matches!(s, Step::Transfer { .. })));
    let event = Event::EscrowClosed(EscrowClosed { id: 5, refunded: 0 });
    assert_eq!(plan.steps.last(), Some(&Step::Publish { event }));
}

#[test]
fn rows_are_sound_or_not() {
    assert!(sample(400, 100, 600, false).is_wf());
    assert!(!sample(400, 401, 0, false).is_wf());
    assert!(!sample(400, 100, 601, false).is_wf());
    assert!(!sample(400, 100, 1, true).is_wf());
    assert_eq!(sample(400, 100, 250, false).releasable(), 350);
    assert_eq!(sample(400, 100, 250, false).claimable(), 300);
    assert_eq!(PaymentRouter::releasable(Some(sample(400, 100, 250, false))), Ok(350));
    assert_eq!(PaymentRouter::releasable(Some(sample(400, 100, 0, true))), Ok(0));
    assert_eq!(PaymentRouter::releasable(None), Err(Error::EscrowNotFound));
    assert!(Settlement::healthy(5).is_wf());
    assert!(!Settlement { failed: true, ..Settlement::healthy(5) }.is_wf());
}

#[test]
fn router_errors_keep_their_codes() {
    let errors = [
        (Error::AlreadyInitialized, 1),
        (Error::NotInitialized, 2),
        (Error::EscrowNotFound, 3),
        (Error::EscrowClosed, 4),
        (Error::InvalidAmount, 5),
        (Error::InsufficientEscrow, 6),
        (Error::ReleaseCapReached, 7),
        (Error::NothingToClaim, 8),
        (Error::NoDisputeOpen, 9),
        (Error::DisputeAlreadyOpen, 10),
        (Error::NotTheArbiter, 11),
        (Error::SamePayerAndPayee, 12),
        (Error::AlreadySettled, 13),
        (Error::ReentrantCall, 14),
        (Error::SettlementNotFailed, 20),
        (Error::DeadLetterNotReady, 21),
        (Error::AlreadyDeadLettered, 22),
    ];
    for (error, code) in errors {
        assert_eq!(error.code(), code);
    }
}
