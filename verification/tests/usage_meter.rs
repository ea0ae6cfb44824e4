//! The usage meter on a ledger, next to a registry that it asks.

use modeltrace::audit_registry::registry::AuditRegistry;
use modeltrace::audit_registry::types::Attestation;
use modeltrace::host::{self, Address, Bytes32, Plan};
use modeltrace::usage_meter::meter::UsageMeter;
use modeltrace::usage_meter::types::{
    AuthArgs, DataKey, Entry, Error, Event, PendingUsage, PolicySet, RegistrySet, Step,
    UnattestedPolicy, UsageRecord, UsageRecorded, Verification,
};
use soroban_sdk::address_payload::AddressPayload;
use soroban_sdk::testutils::{
    Address as _, ContractFunctionSet, EnvTestConfig, Ledger as _, MockAuth, MockAuthInvoke,
};
use soroban_sdk::{BytesN, Env, IntoVal, Symbol, TryFromVal, Val};

// ---------------------------------------------------------------------------
// The meter as a contract
// ---------------------------------------------------------------------------

type Party = soroban_sdk::Address;
type RecordRow = (u64, Party, Option<BytesN<32>>, u64, bool, u32);

fn bytes_in(bytes: &BytesN<32>) -> Bytes32 {
    let raw: [u8; 32] = bytes.to_array();
    Bytes32 {
        hi: u128::from_be_bytes(raw[..16].try_into().unwrap()),
        lo: u128::from_be_bytes(raw[16..].try_into().unwrap()),
    }
}

fn bytes_out(env: &Env, bytes: Bytes32) -> BytesN<32> {
    let mut raw = [0u8; 32];
    raw[..16].copy_from_slice(&bytes.hi.to_be_bytes());
    raw[16..].copy_from_slice(&bytes.lo.to_be_bytes());
    BytesN::from_array(env, &raw)
}

fn party_in(party: &Party) -> Address {
    match party.to_payload().unwrap() {
        AddressPayload::AccountIdPublicKeyEd25519(key) => Address::Account(bytes_in(&key)),
        AddressPayload::ContractIdHash(hash) => Address::Contract(bytes_in(&hash)),
    }
}

fn party_out(env: &Env, address: Address) -> Party {
    let payload = match address {
        Address::Account(key) => AddressPayload::AccountIdPublicKeyEd25519(bytes_out(env, key)),
        Address::Contract(hash) => AddressPayload::ContractIdHash(bytes_out(env, hash)),
    };
    Party::from_payload(env, payload)
}

fn policy_in(policy: u32) -> UnattestedPolicy {
    match policy {
        0 => UnattestedPolicy::Reject,
        _ => UnattestedPolicy::RecordUnattested,
    }
}

fn policy_out(policy: UnattestedPolicy) -> u32 {
    match policy {
        UnattestedPolicy::Reject => 0,
        UnattestedPolicy::RecordUnattested => 1,
    }
}

fn row_in(row: RecordRow) -> UsageRecord {
    UsageRecord {
        id: row.0,
        payer: party_in(&row.1),
        attestation_id: row.2.map(|id| bytes_in(&id)),
        units: row.3,
        attested: row.4,
        ledger: row.5,
    }
}

fn row_out(env: &Env, r: UsageRecord) -> RecordRow {
    let attestation_id = r.attestation_id.map(|id| bytes_out(env, id));
    (r.id, party_out(env, r.payer), attestation_id, r.units, r.attested, r.ledger)
}

fn key_out(env: &Env, key: DataKey) -> Val {
    match key {
        DataKey::Admin => (Symbol::new(env, "Admin"),).into_val(env),
        DataKey::Registry => (Symbol::new(env, "Registry"),).into_val(env),
        DataKey::Counter => (Symbol::new(env, "Counter"),).into_val(env),
        DataKey::Policy(payer) => {
            (Symbol::new(env, "Policy"), party_out(env, payer)).into_val(env)
        }
        DataKey::Record(id) => (Symbol::new(env, "Record"), id).into_val(env),
        DataKey::Metered(id) => (Symbol::new(env, "Metered"), bytes_out(env, id)).into_val(env),
        DataKey::AttestedUnits(payer) => {
            (Symbol::new(env, "AttestedUnits"), party_out(env, payer)).into_val(env)
        }
        DataKey::UnattestedUnits(payer) => {
            (Symbol::new(env, "UnattestedUnits"), party_out(env, payer)).into_val(env)
        }
    }
}

/// A ledger of its own, of which nothing is kept on disk.
fn fresh_env() -> Env {
    Env::new_with_config(EnvTestConfig { capture_snapshot_at_drop: false })
}

fn arg<T: TryFromVal<Env, Val>>(env: &Env, args: &[Val], i: usize) -> T {
    T::try_from_val(env, &args[i]).ok().unwrap()
}

fn party_arg(env: &Env, args: &[Val], i: usize) -> Address {
    party_in(&arg::<Party>(env, args, i))
}

fn read_instance_party(env: &Env, key: DataKey) -> Option<Address> {
    env.storage().instance().get::<Val, Party>(&key_out(env, key)).map(|p| party_in(&p))
}

fn read_policy(env: &Env, payer: Address) -> Option<UnattestedPolicy> {
    let key = key_out(env, DataKey::Policy(payer));
    env.storage().persistent().get::<Val, u32>(&key).map(policy_in)
}

fn read_mark(env: &Env, id: Bytes32) -> Option<()> {
    env.storage().persistent().get::<Val, ()>(&key_out(env, DataKey::Metered(id)))
}

fn read_total(env: &Env, key: DataKey) -> Option<u64> {
    env.storage().persistent().get::<Val, u64>(&key_out(env, key))
}

fn ask(env: &Env, question: &Verification) -> bool {
    let args = (bytes_out(env, question.id), party_out(env, question.subject)).into_val(env);
    let verify = Symbol::new(env, "verify_attestation");
    env.invoke_contract::<bool>(&party_out(env, question.registry), &verify, args)
}

#[allow(deprecated)]
fn take(env: &Env, step: &Step) {
    match step {
        Step::RequireAuth { who } => party_out(env, *who).require_auth(),
        Step::RequireAuthForArgs { who, args } => {
            let bound = match args {
                AuthArgs::Policy { policy } => (policy_out(*policy),).into_val(env),
                AuthArgs::Usage { attestation_id, units } => {
                    (attestation_id.map(|id| bytes_out(env, id)), *units).into_val(env)
                }
            };
            party_out(env, *who).require_auth_for_args(bound)
        }
        Step::Write { entry } => {
            let key = key_out(env, entry.key());
            let instance = env.storage().instance();
            let persistent = env.storage().persistent();
            match entry {
                Entry::Admin(who) => instance.set(&key, &party_out(env, *who)),
                Entry::Registry(who) => instance.set(&key, &party_out(env, *who)),
                Entry::Counter(id) => instance.set(&key, id),
                Entry::Policy(_, policy) => persistent.set(&key, &policy_out(*policy)),
                Entry::Record(record) => persistent.set(&key, &row_out(env, *record)),
                Entry::Metered(_) => persistent.set(&key, &()),
                Entry::AttestedUnits(_, total) => persistent.set(&key, total),
                Entry::UnattestedUnits(_, total) => persistent.set(&key, total),
            }
        }
        Step::ExtendTtl { key, threshold, extend_to } => {
            env.storage().persistent().extend_ttl(&key_out(env, *key), *threshold, *extend_to)
        }
        Step::ExtendInstanceTtl { threshold, extend_to } => {
            env.storage().instance().extend_ttl(*threshold, *extend_to)
        }
        Step::Publish { event } => {
            let text = format!("{event:?}");
            env.events().publish(
                (Symbol::new(env, "meter"),),
                soroban_sdk::String::from_str(env, &text),
            )
        }
    }
}

fn ended<T>(env: &Env, end: Result<T, Error>) -> T {
    match end {
        Ok(value) => value,
        Err(error) => {
            env.panic_with_error(soroban_sdk::Error::from_contract_error(error.code()))
        }
    }
}

fn perform<T>(env: &Env, plan: Plan<Step, T, Error>) -> T {
    for step in plan.steps.iter() {
        take(env, step);
    }
    ended(env, plan.end)
}

/// The meter, as the host calls it.
struct Meter;

impl ContractFunctionSet for Meter {
    fn call(&self, func: &str, env: Env, args: &[Val]) -> Option<Val> {
        let e = &env;
        Some(match func {
            "initialize" => {
                let held = read_instance_party(e, DataKey::Admin);
                perform(e, UsageMeter::initialize(held, party_arg(e, args, 0))).into_val(e)
            }
            "set_registry" => {
                let admin = read_instance_party(e, DataKey::Admin);
                perform(e, UsageMeter::set_registry(admin, party_arg(e, args, 0))).into_val(e)
            }
            "set_unattested_policy" => {
                let policy = policy_in(arg(e, args, 1));
                let plan = UsageMeter::set_unattested_policy(party_arg(e, args, 0), policy);
                perform(e, plan).into_val(e)
            }
            "unattested_policy" => {
                let held = read_policy(e, party_arg(e, args, 0));
                policy_out(UsageMeter::unattested_policy(held)).into_val(e)
            }
            "record_usage" => {
                let payer = party_arg(e, args, 0);
                let attestation_id: Option<BytesN<32>> = arg(e, args, 1);
                let attestation_id = attestation_id.map(|id| bytes_in(&id));
                let pending = perform(
                    e,
                    UsageMeter::record_usage(
                        attestation_id.and_then(|id| read_mark(e, id)),
                        read_instance_party(e, DataKey::Registry),
                        payer,
                        attestation_id,
                        arg(e, args, 2),
                    ),
                );
                let verified = pending.question.map_or(false, |q| ask(e, &q));
                let counter = e.storage().instance().get(&key_out(e, DataKey::Counter));
                assert!(counter != Some(u64::MAX));
                let plan = UsageMeter::conclude_usage(
                    read_policy(e, payer),
                    counter,
                    read_total(e, UsageMeter::units_key(&pending, verified)),
                    e.ledger().sequence(),
                    pending,
                    verified,
                );
                perform(e, plan).into_val(e)
            }
            "get_usage" => {
                let id: u64 = arg(e, args, 0);
                let key = key_out(e, DataKey::Record(id));
                let held = e.storage().persistent().get::<Val, RecordRow>(&key).map(row_in);
                row_out(e, ended(e, UsageMeter::get_usage(held))).into_val(e)
            }
            "is_metered" => {
                let id = bytes_in(&arg::<BytesN<32>>(e, args, 0));
                UsageMeter::is_metered(read_mark(e, id)).into_val(e)
            }
            "attested_units" => {
                let held = read_total(e, DataKey::AttestedUnits(party_arg(e, args, 0)));
                UsageMeter::attested_units(held).into_val(e)
            }
            "unattested_units" => {
                let held = read_total(e, DataKey::UnattestedUnits(party_arg(e, args, 0)));
                UsageMeter::unattested_units(held).into_val(e)
            }
            "version" => UsageMeter::version().into_val(e),
            _ => return None,
        })
    }
}

/// Stands in for a registry: it remembers who an id was attested for.
struct StubRegistry;

impl ContractFunctionSet for StubRegistry {
    fn call(&self, func: &str, env: Env, args: &[Val]) -> Option<Val> {
        Some(match func {
            "attest" => {
                let id: BytesN<32> = arg(&env, args, 0);
                env.storage().persistent().set(&id, &arg::<Party>(&env, args, 1));
                ().into_val(&env)
            }
            "verify_attestation" => {
                let id: BytesN<32> = arg(&env, args, 0);
                let held = env.storage().persistent().get::<BytesN<32>, Party>(&id);
                (held == Some(arg(&env, args, 1))).into_val(&env)
            }
            _ => return None,
        })
    }
}

/// A caller's side of the meter.
struct MeterClient<'a> {
    env: &'a Env,
    id: &'a Party,
}

impl<'a> MeterClient<'a> {
    fn new(env: &'a Env, id: &'a Party) -> Self {
        MeterClient { env, id }
    }

    fn call<T: TryFromVal<Env, Val>>(
        &self,
        func: &str,
        args: soroban_sdk::Vec<Val>,
    ) -> Result<T, soroban_sdk::Error> {
        let func = Symbol::new(self.env, func);
        match self.env.try_invoke_contract::<T, soroban_sdk::Error>(self.id, &func, args) {
            Ok(value) => Ok(value.ok().unwrap()),
            Err(error) => Err(error.unwrap()),
        }
    }

    fn initialize(&self, admin: &Party) {
        self.try_initialize(admin).unwrap()
    }

    fn try_initialize(&self, admin: &Party) -> Result<(), soroban_sdk::Error> {
        self.call("initialize", (admin.clone(),).into_val(self.env))
    }

    fn set_registry(&self, registry: &Party) {
        self.try_set_registry(registry).unwrap()
    }

    fn try_set_registry(&self, registry: &Party) -> Result<(), soroban_sdk::Error> {
        self.call("set_registry", (registry.clone(),).into_val(self.env))
    }

    fn set_unattested_policy(&self, payer: &Party, policy: &UnattestedPolicy) {
        self.try_set_unattested_policy(payer, policy).unwrap()
    }

    fn try_set_unattested_policy(
        &self,
        payer: &Party,
        policy: &UnattestedPolicy,
    ) -> Result<(), soroban_sdk::Error> {
        let args = (payer.clone(), policy_out(*policy)).into_val(self.env);
        self.call("set_unattested_policy", args)
    }

    fn unattested_policy(&self, payer: &Party) -> UnattestedPolicy {
        policy_in(self.call("unattested_policy", (payer.clone(),).into_val(self.env)).unwrap())
    }

    fn record_usage(&self, payer: &Party, attestation_id: &Option<BytesN<32>>, units: &u64) -> u64 {
        self.try_record_usage(payer, attestation_id, units).unwrap()
    }

    fn try_record_usage(
        &self,
        payer: &Party,
        attestation_id: &Option<BytesN<32>>,
        units: &u64,
    ) -> Result<u64, soroban_sdk::Error> {
        let args = (payer.clone(), attestation_id.clone(), *units).into_val(self.env);
        self.call("record_usage", args)
    }

    fn get_usage(&self, id: &u64) -> UsageRecord {
        row_in(self.try_get_usage(id).unwrap())
    }

    fn try_get_usage(&self, id: &u64) -> Result<RecordRow, soroban_sdk::Error> {
        self.call("get_usage", (*id,).into_val(self.env))
    }

    fn is_metered(&self, id: &BytesN<32>) -> bool {
        self.call("is_metered", (id.clone(),).into_val(self.env)).unwrap()
    }

    fn attested_units(&self, payer: &Party) -> u64 {
        self.call("attested_units", (payer.clone(),).into_val(self.env)).unwrap()
    }

    fn unattested_units(&self, payer: &Party) -> u64 {
        self.call("unattested_units", (payer.clone(),).into_val(self.env)).unwrap()
    }
}

// ---------------------------------------------------------------------------
// Fixture
// ---------------------------------------------------------------------------

struct Fixture {
    env: Env,
    meter: Party,
    registry: Party,
}

fn setup() -> Fixture {
    let env = fresh_env();
    env.mock_all_auths();

    let admin = Party::generate(&env);
    let meter = env.register(Meter, ());
    let registry = env.register(StubRegistry, ());

    let client = MeterClient::new(&env, &meter);
    client.initialize(&admin);
    client.set_registry(&registry);

    Fixture { env, meter, registry }
}

impl Fixture {
    fn client(&self) -> MeterClient<'_> {
        MeterClient::new(&self.env, &self.meter)
    }

    /// Register an attestation for `payer`.
    fn attest(&self, id: &BytesN<32>, payer: &Party) {
        attest(&self.env, &self.registry, id, payer);
    }
}

fn attest(env: &Env, registry: &Party, id: &BytesN<32>, payer: &Party) {
    let args = (id.clone(), payer.clone()).into_val(env);
    env.invoke_contract::<()>(registry, &Symbol::new(env, "attest"), args);
}

/// One signature, for one call with these arguments.
fn sign(env: &Env, contract: &Party, who: &Party, fn_name: &str, args: soroban_sdk::Vec<Val>) {
    env.mock_auths(&[MockAuth {
        address: who,
        invoke: &MockAuthInvoke { contract, fn_name, args, sub_invokes: &[] },
    }]);
}

/// A refusal carries the code of the contract's error.
fn raised(e: Error) -> soroban_sdk::Error {
    soroban_sdk::Error::from_contract_error(e.code())
}

fn bytes(env: &Env, b: u8) -> BytesN<32> {
    BytesN::from_array(env, &[b; 32])
}

// ---------------------------------------------------------------------------
// The link to the registry
// ---------------------------------------------------------------------------

#[test]
fn test_usage_backed_by_a_verified_attestation_is_recorded_as_attested() {
    let f = setup();
    let payer = Party::generate(&f.env);
    let id = bytes(&f.env, 1);
    f.attest(&id, &payer);

    let record_id = f.client().record_usage(&payer, &Some(id.clone()), &1_000);
    let record = f.client().get_usage(&record_id);

    assert!(record.attested);
    assert_eq!(record.attestation_id, Some(bytes_in(&id)));
    assert_eq!(record.units, 1_000);
    assert_eq!(f.client().attested_units(&payer), 1_000);
    assert_eq!(f.client().unattested_units(&payer), 0);
    assert!(f.client().is_metered(&id));
}

#[test]
fn test_the_same_attestation_cannot_be_metered_twice() {
    let f = setup();
    let payer = Party::generate(&f.env);
    let id = bytes(&f.env, 2);
    f.attest(&id, &payer);

    f.client().record_usage(&payer, &Some(id.clone()), &500);
    let result = f.client().try_record_usage(&payer, &Some(id.clone()), &500);

    assert_eq!(result, Err(raised(Error::AlreadyMetered)));
    // The first record stands; the replay added nothing.
    assert_eq!(f.client().attested_units(&payer), 500);
}

#[test]
fn test_an_attestation_belonging_to_someone_else_does_not_verify() {
    let f = setup();
    let payer = Party::generate(&f.env);
    let other = Party::generate(&f.env);
    let id = bytes(&f.env, 3);
    f.attest(&id, &other);

    // An attestation that belongs elsewhere is no better than none.
    let result = f.client().try_record_usage(&payer, &Some(id.clone()), &10);

    assert_eq!(result, Err(raised(Error::AttestationRequired)));
    assert!(!f.client().is_metered(&id));
}

#[test]
fn test_an_unknown_attestation_id_is_not_burned_by_the_failed_attempt() {
    let f = setup();
    let payer = Party::generate(&f.env);
    let id = bytes(&f.env, 4);

    assert!(f.client().try_record_usage(&payer, &Some(id.clone()), &10).is_err());
    assert!(!f.client().is_metered(&id));

    f.attest(&id, &payer);
    let record_id = f.client().record_usage(&payer, &Some(id.clone()), &10);
    assert!(f.client().get_usage(&record_id).attested);
}

// ---------------------------------------------------------------------------
// Unattested policy
// ---------------------------------------------------------------------------

#[test]
fn test_unattested_usage_is_rejected_by_default() {
    let f = setup();
    let payer = Party::generate(&f.env);

    assert_eq!(f.client().unattested_policy(&payer), UnattestedPolicy::Reject);
    assert_eq!(
        f.client().try_record_usage(&payer, &None, &10),
        Err(raised(Error::AttestationRequired))
    );
}

#[test]
fn test_opting_in_records_unattested_usage_against_a_separate_total() {
    let f = setup();
    let payer = Party::generate(&f.env);
    let id = bytes(&f.env, 5);
    f.attest(&id, &payer);

    f.client().set_unattested_policy(&payer, &UnattestedPolicy::RecordUnattested);

    f.client().record_usage(&payer, &Some(id), &700);
    let unattested_id = f.client().record_usage(&payer, &None, &300);
    let record = f.client().get_usage(&unattested_id);

    assert!(!record.attested);
    assert_eq!(record.attestation_id, None);
    assert_eq!(f.client().attested_units(&payer), 700);
    assert_eq!(f.client().unattested_units(&payer), 300);
}

#[test]
fn test_a_failed_verification_under_the_lenient_policy_drops_the_reference() {
    let f = setup();
    let payer = Party::generate(&f.env);
    let id = bytes(&f.env, 6);

    f.client().set_unattested_policy(&payer, &UnattestedPolicy::RecordUnattested);
    let record_id = f.client().record_usage(&payer, &Some(id.clone()), &42);
    let record = f.client().get_usage(&record_id);

    // A record that carried the reference would read as sourced.
    assert!(!record.attested);
    assert_eq!(record.attestation_id, None);
    assert_eq!(f.client().unattested_units(&payer), 42);
    assert!(!f.client().is_metered(&id));
}

#[test]
fn test_policy_is_per_payer_and_does_not_leak_across_payers() {
    let f = setup();
    let lenient = Party::generate(&f.env);
    let strict = Party::generate(&f.env);

    f.client().set_unattested_policy(&lenient, &UnattestedPolicy::RecordUnattested);

    assert_eq!(f.client().unattested_policy(&strict), UnattestedPolicy::Reject);
    f.client().record_usage(&lenient, &None, &5);
    assert_eq!(
        f.client().try_record_usage(&strict, &None, &5),
        Err(raised(Error::AttestationRequired))
    );
}

// ---------------------------------------------------------------------------
// Authorization
// ---------------------------------------------------------------------------

#[test]
fn test_the_payer_signature_is_bound_to_the_unit_count() {
    let env = fresh_env();
    let admin = Party::generate(&env);
    let meter = env.register(Meter, ());
    let registry = env.register(StubRegistry, ());
    let payer = Party::generate(&env);
    let id = bytes(&env, 7);

    env.mock_all_auths();
    let client = MeterClient::new(&env, &meter);
    client.initialize(&admin);
    client.set_registry(&registry);
    attest(&env, &registry, &id, &payer);

    // Signed for 100 units, submitted for 10_000.
    let signed: (Option<BytesN<32>>, u64) = (Some(id.clone()), 100);
    sign(&env, &meter, &payer, "record_usage", signed.clone().into_val(&env));
    assert!(client.try_record_usage(&payer, &Some(id.clone()), &10_000).is_err());

    sign(&env, &meter, &payer, "record_usage", signed.into_val(&env));
    client.record_usage(&payer, &Some(id), &100);
    assert_eq!(client.attested_units(&payer), 100);
}

#[test]
fn test_only_the_payer_can_relax_their_own_policy() {
    let env = fresh_env();
    let admin = Party::generate(&env);
    let meter = env.register(Meter, ());
    let payer = Party::generate(&env);

    sign(&env, &meter, &admin, "initialize", (admin.clone(),).into_val(&env));
    let client = MeterClient::new(&env, &meter);
    client.initialize(&admin);

    // The admin signs. That must not be enough.
    let relaxed = UnattestedPolicy::RecordUnattested;
    let args = (policy_out(relaxed),).into_val(&env);
    sign(&env, &meter, &admin, "set_unattested_policy", args);
    assert!(client.try_set_unattested_policy(&payer, &relaxed).is_err());
    assert_eq!(client.unattested_policy(&payer), UnattestedPolicy::Reject);
}

// ---------------------------------------------------------------------------
// Guards and cost
// ---------------------------------------------------------------------------

#[test]
fn test_zero_units_is_rejected() {
    let f = setup();
    let payer = Party::generate(&f.env);
    let id = bytes(&f.env, 8);
    f.attest(&id, &payer);

    assert_eq!(
        f.client().try_record_usage(&payer, &Some(id), &0),
        Err(raised(Error::ZeroUnits))
    );
}

#[test]
fn test_recording_without_a_registry_configured_is_rejected() {
    let env = fresh_env();
    env.mock_all_auths();
    let admin = Party::generate(&env);
    let meter = env.register(Meter, ());
    let client = MeterClient::new(&env, &meter);
    client.initialize(&admin);

    let payer = Party::generate(&env);
    assert_eq!(
        client.try_record_usage(&payer, &Some(bytes(&env, 9)), &10),
        Err(raised(Error::RegistryNotSet))
    );
}

/// What asking the registry costs, against a write that does not ask it.
#[test]
fn test_cross_contract_verification_cost_is_measured() {
    let f = setup();
    let payer = Party::generate(&f.env);
    let id = bytes(&f.env, 10);
    f.attest(&id, &payer);
    f.client().set_unattested_policy(&payer, &UnattestedPolicy::RecordUnattested);

    let mut budget = f.env.cost_estimate().budget();

    budget.reset_default();
    f.client().record_usage(&payer, &None, &1);
    let without_cpu = budget.cpu_instruction_cost();
    let without_mem = budget.memory_bytes_cost();

    budget.reset_default();
    f.client().record_usage(&payer, &Some(id), &1);
    let with_cpu = budget.cpu_instruction_cost();
    let with_mem = budget.memory_bytes_cost();

    println!("unattested write:  cpu={without_cpu} mem={without_mem}");
    println!("attested write:    cpu={with_cpu} mem={with_mem}");
    println!(
        "verification cost: cpu={} mem={}",
        with_cpu - without_cpu,
        with_mem - without_mem
    );

    // The call is not free, and it does not crowd out the rest of a call's
    // budget.
    assert!(with_cpu > without_cpu);
    assert!(with_cpu - without_cpu < 10_000_000);
}

#[test]
fn totals_do_not_wrap() {
    let f = setup();
    let payer = Party::generate(&f.env);
    f.client().set_unattested_policy(&payer, &UnattestedPolicy::RecordUnattested);
    assert_eq!(f.client().record_usage(&payer, &None, &u64::MAX), 1);
    assert_eq!(
        f.client().try_record_usage(&payer, &None, &1),
        Err(raised(Error::UnitsOverflow))
    );
    assert_eq!(f.client().unattested_units(&payer), u64::MAX);
    // The refused call took no id.
    let other = Party::generate(&f.env);
    f.client().set_unattested_policy(&other, &UnattestedPolicy::RecordUnattested);
    assert_eq!(f.client().record_usage(&other, &None, &1), 2);
}

#[test]
fn a_usage_record_reads_back_in_full() {
    let f = setup();
    let payer = Party::generate(&f.env);
    let id = bytes(&f.env, 11);
    f.attest(&id, &payer);
    f.env.ledger().set_sequence_number(42);
    let record_id = f.client().record_usage(&payer, &Some(id.clone()), &7);
    assert_eq!(
        f.client().get_usage(&record_id),
        UsageRecord {
            id: 1,
            payer: party_in(&payer),
            attestation_id: Some(bytes_in(&id)),
            units: 7,
            attested: true,
            ledger: 42,
        }
    );
    assert!(f.client().try_get_usage(&2) == Err(raised(Error::RecordNotFound)));
}

#[test]
fn the_meter_is_initialized_once_and_then_pointed_by_its_admin() {
    let env = fresh_env();
    env.mock_all_auths();
    let meter = env.register(Meter, ());
    let registry = Party::generate(&env);
    let admin = Party::generate(&env);
    let client = MeterClient::new(&env, &meter);
    assert_eq!(client.try_set_registry(&registry), Err(raised(Error::NotInitialized)));
    client.initialize(&admin);
    assert_eq!(client.try_initialize(&registry), Err(raised(Error::AlreadyInitialized)));

    sign(&env, &meter, &registry, "set_registry", (registry.clone(),).into_val(&env));
    assert!(client.try_set_registry(&registry).is_err());
    sign(&env, &meter, &admin, "set_registry", (registry.clone(),).into_val(&env));
    assert_eq!(client.try_set_registry(&registry), Ok(()));
}

// ---------------------------------------------------------------------------
// Plans
// ---------------------------------------------------------------------------

fn contract(n: u128) -> Address {
    Address::Contract(Bytes32 { hi: 0, lo: n })
}

fn id(n: u128) -> Bytes32 {
    Bytes32 { hi: n, lo: 0 }
}

fn pending(question: Option<Verification>) -> PendingUsage {
    PendingUsage { payer: contract(1), units: 30, question }
}

#[test]
fn a_request_names_what_is_to_be_verified() {
    let plan = UsageMeter::record_usage(None, Some(contract(7)), contract(1), Some(id(5)), 30);
    let question = Verification { registry: contract(7), id: id(5), subject: contract(1) };
    assert_eq!(plan.end, Ok(pending(Some(question))));
    assert_eq!(
        plan.steps,
        vec![Step::RequireAuthForArgs {
            who: contract(1),
            args: AuthArgs::Usage { attestation_id: Some(id(5)), units: 30 },
        }]
    );
    let plain = UsageMeter::record_usage(None, None, contract(1), None, 30);
    assert_eq!(plain.end, Ok(pending(None)));
}

#[test]
fn verified_usage_burns_its_attestation_and_counts_as_attested() {
    let question = Verification { registry: contract(7), id: id(5), subject: contract(1) };
    let usage = pending(Some(question));
    assert_eq!(UsageMeter::units_key(&usage, true), DataKey::AttestedUnits(contract(1)));
    assert_eq!(UsageMeter::units_key(&usage, false), DataKey::UnattestedUnits(contract(1)));
    let plan = UsageMeter::conclude_usage(None, Some(3), Some(12), 77, usage, true);
    assert_eq!(plan.end, Ok(4));
    let record = UsageRecord {
        id: 4,
        payer: contract(1),
        attestation_id: Some(id(5)),
        units: 30,
        attested: true,
        ledger: 77,
    };
    let renewed = |key: DataKey| Step::ExtendTtl { key, threshold: 259_200, extend_to: 518_400 };
    assert_eq!(
        plan.steps,
        vec![
            Step::Write { entry: Entry::Metered(id(5)) },
            renewed(DataKey::Metered(id(5))),
            Step::Write { entry: Entry::Counter(4) },
            Step::Write { entry: Entry::Record(record) },
            renewed(DataKey::Record(4)),
            Step::Write { entry: Entry::AttestedUnits(contract(1), 42) },
            renewed(DataKey::AttestedUnits(contract(1))),
            Step::ExtendInstanceTtl { threshold: 259_200, extend_to: 518_400 },
            Step::Publish {
                event: Event::UsageRecorded(UsageRecorded {
                    payer: contract(1),
                    attested: true,
                    id: 4,
                    units: 30,
                    attestation_id: Some(id(5)),
                }),
            },
        ]
    );
}

#[test]
fn attested_usage_traces_to_a_record_of_the_registry() {
    let evidence = Attestation {
        id: id(5),
        subject: contract(1),
        submitter: contract(2),
        model_version: host::Symbol { text: "gpt_4o".to_string() },
        policy_ref: id(9),
        ledger: 70,
        superseded_by: None,
    };
    let replaced = Attestation { superseded_by: Some(id(6)), ..evidence.clone() };
    let foreign = Attestation { subject: contract(3), ..evidence.clone() };
    let question = Verification { registry: contract(7), id: id(5), subject: contract(1) };
    let lenient = Some(UnattestedPolicy::RecordUnattested);
    let cases =
        [(Some(evidence), true), (Some(replaced), false), (Some(foreign), false), (None, false)];
    for (held, attested) in cases {
        let answer = AuditRegistry::verify_attestation(&held, question.subject);
        assert_eq!(answer, attested);
        let usage = pending(Some(question));
        let plan = UsageMeter::conclude_usage(lenient, None, None, 77, usage, answer);
        let record = UsageRecord {
            id: 1,
            payer: contract(1),
            attestation_id: if attested { Some(id(5)) } else { None },
            units: 30,
            attested,
            ledger: 77,
        };
        assert_eq!(plan.end, Ok(1));
        assert!(plan.steps.contains(&Step::Write { entry: Entry::Record(record) }));
        let burned = Step::Write { entry: Entry::Metered(id(5)) };
        assert_eq!(plan.steps.contains(&burned), attested);
    }
}

#[test]
fn usage_of_one_payer_leaves_the_others_alone() {
    let f = setup();
    let one = Party::generate(&f.env);
    let two = Party::generate(&f.env);
    f.client().set_unattested_policy(&one, &UnattestedPolicy::RecordUnattested);
    f.client().set_unattested_policy(&two, &UnattestedPolicy::RecordUnattested);
    let first = f.client().record_usage(&one, &None, &3);
    let second = f.client().record_usage(&two, &None, &4);
    let third = f.client().record_usage(&one, &None, &5);
    assert_eq!((first, second, third), (1, 2, 3));
    assert_eq!(f.client().unattested_units(&one), 8);
    assert_eq!(f.client().unattested_units(&two), 4);
    assert_eq!(f.client().attested_units(&one), 0);
    assert_eq!(f.client().get_usage(&first).units, 3);
}

#[test]
fn a_metered_attestation_stays_metered() {
    let f = setup();
    let payer = Party::generate(&f.env);
    let id = bytes(&f.env, 12);
    f.attest(&id, &payer);
    f.client().record_usage(&payer, &Some(id.clone()), &1);
    f.client().set_unattested_policy(&payer, &UnattestedPolicy::RecordUnattested);
    f.client().record_usage(&payer, &None, &1);
    f.client().set_registry(&f.registry);
    assert!(f.client().is_metered(&id));
    assert_eq!(
        f.client().try_record_usage(&payer, &Some(id), &1),
        Err(raised(Error::AlreadyMetered))
    );
}

#[test]
fn an_answer_without_a_question_vouches_for_nothing() {
    let plan = UsageMeter::conclude_usage(None, None, None, 77, pending(None), true);
    assert_eq!(plan.end, Err(Error::AttestationRequired));
    assert!(plan.steps.is_empty());
}

#[test]
fn settings_are_announced() {
    let set = UsageMeter::set_registry(Some(contract(1)), contract(7));
    let event = Event::RegistrySet(RegistrySet { registry: contract(7) });
    assert!(set.steps.contains(&Step::Publish { event }));
    let policy = UnattestedPolicy::RecordUnattested;
    let set = UsageMeter::set_unattested_policy(contract(1), policy);
    let event = Event::PolicySet(PolicySet { payer: contract(1), policy });
    assert!(set.steps.contains(&Step::Publish { event }));
    assert!(set.steps.contains(&Step::Write { entry: Entry::Policy(contract(1), policy) }));
}

#[test]
fn meter_errors_keep_their_codes() {
    let errors = [
        (Error::AlreadyInitialized, 1),
        (Error::NotInitialized, 2),
        (Error::RegistryNotSet, 3),
        (Error::AlreadyMetered, 4),
        (Error::AttestationRequired, 5),
        (Error::ZeroUnits, 6),
        (Error::RecordNotFound, 7),
        (Error::UnitsOverflow, 8),
    ];
    for (error, code) in errors {
        assert_eq!(error.code(), code);
    }
    assert_eq!(UsageMeter::version(), 2);
}
