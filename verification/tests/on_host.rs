//! The contract on a real ledger host, with a real token contract.

use escrow::contract::{EscrowContract, Output, Progress};
use escrow::host::{Call, Datum, Event, Key, Party, Record, Reply};
use escrow::types::{Address as Account, Escrow, EscrowStatus};
use soroban_sdk::testutils::{
    Address as _, ContractFunctionSet, EnvTestConfig, Events as _, Ledger as _,
};
use soroban_sdk::token::{StellarAssetClient, TokenClient};
use soroban_sdk::{Address, Env, IntoVal, Symbol, TryFromVal, TryIntoVal, Val, Vec as HostVec};

// Values of the library and of the host.

fn to_account(address: &Address) -> Account {
    let mut text = [0u8; 56];
    address.to_string().copy_into_slice(&mut text);
    Account { strkey: std::str::from_utf8(&text).unwrap().to_string() }
}

fn to_address(env: &Env, account: &Account) -> Address {
    Address::from_str(env, &account.strkey)
}

fn to_accounts(list: &HostVec<Address>) -> Vec<Account> {
    list.iter().map(|a| to_account(&a)).collect()
}

fn to_addresses(env: &Env, list: &[Account]) -> HostVec<Address> {
    let mut res = HostVec::new(env);
    for account in list {
        res.push_back(to_address(env, account));
    }
    res
}

type EscrowTuple = (u64, Address, Address, i128, Symbol, u32, u64, Address);

fn to_tuple(env: &Env, escrow: &Escrow) -> EscrowTuple {
    let status = match escrow.status {
        EscrowStatus::Active => 0,
        EscrowStatus::Released => 1,
        EscrowStatus::Disputed => 2,
        EscrowStatus::Refunded => 3,
    };
    (
        escrow.id,
        to_address(env, &escrow.mentor),
        to_address(env, &escrow.learner),
        escrow.amount,
        Symbol::new(env, &escrow.session_id),
        status,
        escrow.created_at,
        to_address(env, &escrow.token_address),
    )
}

fn to_escrow(tuple: EscrowTuple) -> Escrow {
    let status = match tuple.5 {
        0 => EscrowStatus::Active,
        1 => EscrowStatus::Released,
        2 => EscrowStatus::Disputed,
        _ => EscrowStatus::Refunded,
    };
    Escrow {
        id: tuple.0,
        mentor: to_account(&tuple.1),
        learner: to_account(&tuple.2),
        amount: tuple.3,
        session_id: tuple.4.to_string(),
        status,
        created_at: tuple.6,
        token_address: to_account(&tuple.7),
    }
}

// The host side of the contract.

fn host_key(env: &Env, key: &Key) -> Val {
    let symbol = Symbol::new(env, key.symbol());
    match key {
        Key::Escrow(id) => (symbol, *id).into_val(env),
        _ => symbol.into_val(env),
    }
}

fn host_party(env: &Env, party: &Party) -> Address {
    match party {
        Party::ThisContract => env.current_contract_address(),
        Party::Holder(account) => to_address(env, account),
    }
}

fn perform(env: &Env, call: &Call) -> Reply {
    let storage = env.storage().persistent();
    match call {
        Call::Has(key) => Reply::Flag(storage.has(&host_key(env, key))),
        Call::Load(key) => {
            let at = host_key(env, key);
            Reply::Loaded(match key {
                Key::Admin => storage
                    .get::<Val, Address>(&at)
                    .map(|a| Record::Address(to_account(&a))),
                Key::ApprovedTokens => storage
                    .get::<Val, HostVec<Address>>(&at)
                    .map(|t| Record::Tokens(to_accounts(&t))),
                Key::EscrowCount => storage.get::<Val, u64>(&at).map(Record::Count),
                Key::Escrow(_) => storage
                    .get::<Val, EscrowTuple>(&at)
                    .map(|e| Record::Escrow(to_escrow(e))),
            })
        }
        Call::Store(key, record) => {
            let at = host_key(env, key);
            match record {
                Record::Address(a) => storage.set(&at, &to_address(env, a)),
                Record::Tokens(t) => storage.set(&at, &to_addresses(env, t)),
                Record::Count(n) => storage.set(&at, n),
                Record::Escrow(e) => storage.set(&at, &to_tuple(env, e)),
            }
            Reply::Done
        }
        Call::ExtendTtl { key, threshold, extend_to } => {
            storage.extend_ttl(&host_key(env, key), *threshold, *extend_to);
            Reply::Done
        }
        Call::RequireAuth(who) => {
            to_address(env, who).require_auth();
            Reply::Done
        }
        Call::Balance { token, holder } => {
            let client = TokenClient::new(env, &to_address(env, token));
            Reply::Amount(client.balance(&to_address(env, holder)))
        }
        Call::Transfer { token, from, to, amount } => {
            let client = TokenClient::new(env, &to_address(env, token));
            client.transfer(&host_party(env, from), &host_party(env, to), amount);
            Reply::Done
        }
        Call::Timestamp => Reply::Time(env.ledger().timestamp()),
        Call::Publish(event) => {
            publish(env, event);
            Reply::Done
        }
    }
}

#[allow(deprecated)]
fn publish(env: &Env, event: &Event) {
    let mut data: HostVec<Val> = HostVec::new(env);
    for datum in event.data() {
        data.push_back(match datum {
            Datum::Address(account) => to_address(env, &account).into_val(env),
            Datum::Amount(amount) => amount.into_val(env),
            Datum::Session(session) => Symbol::new(env, &session).into_val(env),
            Datum::EscrowId(id) => id.into_val(env),
        });
    }
    env.events().publish((Symbol::new(env, event.topic()), event.escrow_id()), data);
}

fn drive(env: &Env, start: Progress) -> Output {
    let mut progress = start;
    loop {
        match progress {
            Progress::Waiting(invocation) => {
                let call = invocation.call();
                let reply = perform(env, &call);
                assert!(call.admits(&reply));
                progress = invocation.resume(reply);
            }
            Progress::Finished(Ok(output)) => return output,
            Progress::Finished(Err(error)) => panic!("{}", error.message()),
        }
    }
}

struct Deployed;

fn argument<T: TryFromVal<Env, Val>>(env: &Env, args: &[Val], k: usize) -> T {
    match T::try_from_val(env, &args[k]) {
        Ok(value) => value,
        Err(_) => panic!("argument {} is of another type", k),
    }
}

impl ContractFunctionSet for Deployed {
    fn call(&self, func: &str, env: Env, args: &[Val]) -> Option<Val> {
        let account = |k: usize| to_account(&argument::<Address>(&env, args, k));
        let start = match func {
            "initialize" => EscrowContract::initialize(
                account(0),
                to_accounts(&argument::<HostVec<Address>>(&env, args, 1)),
            ),
            "create_escrow" => EscrowContract::create_escrow(
                account(0),
                account(1),
                argument(&env, args, 2),
                argument::<Symbol>(&env, args, 3).to_string(),
                account(4),
            ),
            "release_funds" => {
                EscrowContract::release_funds(account(0), argument(&env, args, 1))
            }
            "dispute" => EscrowContract::dispute(account(0), argument(&env, args, 1)),
            "refund" => EscrowContract::refund(argument(&env, args, 0)),
            "get_escrow" => EscrowContract::get_escrow(argument(&env, args, 0)),
            "get_escrow_count" => EscrowContract::get_escrow_count(),
            _ => return None,
        };
        Some(match drive(&env, start) {
            Output::Nothing => ().into_val(&env),
            Output::EscrowId(id) => id.into_val(&env),
            Output::Escrow(escrow) => to_tuple(&env, &escrow).into_val(&env),
            Output::Count(count) => count.into_val(&env),
        })
    }
}

// The client side.

struct Client {
    env: Env,
    id: Address,
}

impl Client {
    fn invoke<T: TryFromVal<Env, Val>>(&self, name: &str, args: &[Val]) -> T {
        self.env.invoke_contract(
            &self.id,
            &Symbol::new(&self.env, name),
            HostVec::from_slice(&self.env, args),
        )
    }

    fn initialize(&self, admin: &Address, tokens: &HostVec<Address>) {
        self.invoke("initialize", &[admin.into_val(&self.env), tokens.into_val(&self.env)])
    }

    fn create_escrow(
        &self,
        mentor: &Address,
        learner: &Address,
        amount: i128,
        session_id: &str,
        token: &Address,
    ) -> u64 {
        let env = &self.env;
        self.invoke(
            "create_escrow",
            &[
                mentor.into_val(env),
                learner.into_val(env),
                amount.into_val(env),
                Symbol::new(env, session_id).into_val(env),
                token.into_val(env),
            ],
        )
    }

    fn release_funds(&self, caller: &Address, id: u64) {
        self.invoke("release_funds", &[caller.into_val(&self.env), id.into_val(&self.env)])
    }

    fn dispute(&self, caller: &Address, id: u64) {
        self.invoke("dispute", &[caller.into_val(&self.env), id.into_val(&self.env)])
    }

    fn refund(&self, id: u64) {
        self.invoke("refund", &[id.into_val(&self.env)])
    }

    fn get_escrow(&self, id: u64) -> Escrow {
        to_escrow(self.invoke("get_escrow", &[id.into_val(&self.env)]))
    }

    fn get_escrow_count(&self) -> u64 {
        self.invoke("get_escrow_count", &[])
    }
}

fn new_env() -> Env {
    Env::new_with_config(EnvTestConfig { capture_snapshot_at_drop: false })
}

/// A token of which the learner has 10_000.
fn setup_token(env: &Env, learner: &Address) -> Address {
    let token_admin = Address::generate(env);
    let token = env.register_stellar_asset_contract_v2(token_admin).address();
    env.mock_all_auths();
    StellarAssetClient::new(env, &token).mint(learner, &10_000);
    token
}

fn setup_client(env: &Env) -> (Client, Address, Address, Address) {
    let id = env.register(Deployed, ());
    let client = Client { env: env.clone(), id };
    (client, Address::generate(env), Address::generate(env), Address::generate(env))
}

fn token_vec(env: &Env, token: &Address) -> HostVec<Address> {
    HostVec::from_array(env, [token.clone()])
}

// initialize

#[test]
fn test_initialize_succeeds() {
    let env = new_env();
    let (client, admin, _, learner) = setup_client(&env);
    let token = setup_token(&env, &learner);
    client.initialize(&admin, &token_vec(&env, &token));
    assert_eq!(client.get_escrow_count(), 0);
}

#[test]
#[should_panic(expected = "Already initialized")]
fn test_initialize_reinit_rejected() {
    let env = new_env();
    let (client, admin, _, learner) = setup_client(&env);
    let token = setup_token(&env, &learner);
    let tokens = token_vec(&env, &token);
    client.initialize(&admin, &tokens);
    let other = Address::generate(&env);
    client.initialize(&other, &tokens);
}

// create_escrow

#[test]
fn test_create_escrow_valid() {
    let env = new_env();
    let (client, admin, mentor, learner) = setup_client(&env);
    let token = setup_token(&env, &learner);
    client.initialize(&admin, &token_vec(&env, &token));
    env.mock_all_auths();

    let id = client.create_escrow(&mentor, &learner, 1000, "S1", &token);
    assert_eq!(id, 1);

    let escrow = client.get_escrow(id);
    assert_eq!(escrow.amount, 1000);
    assert_eq!(escrow.status, EscrowStatus::Active);
    assert_eq!(escrow.token_address, to_account(&token));
}

#[test]
#[should_panic(expected = "Amount must be greater than zero")]
fn test_create_escrow_zero_amount_rejected() {
    let env = new_env();
    let (client, admin, mentor, learner) = setup_client(&env);
    let token = setup_token(&env, &learner);
    client.initialize(&admin, &token_vec(&env, &token));
    env.mock_all_auths();
    client.create_escrow(&mentor, &learner, 0, "S1", &token);
}

#[test]
#[should_panic(expected = "Token not approved")]
fn test_create_escrow_unapproved_token_rejected() {
    let env = new_env();
    let (client, admin, mentor, learner) = setup_client(&env);
    let token = setup_token(&env, &learner);
    client.initialize(&admin, &token_vec(&env, &token));
    env.mock_all_auths();
    let other_admin = Address::generate(&env);
    let bad_token = env.register_stellar_asset_contract_v2(other_admin).address();
    client.create_escrow(&mentor, &learner, 1000, "S1", &bad_token);
}

#[test]
#[should_panic(expected = "Insufficient token balance")]
fn test_create_escrow_insufficient_balance_rejected() {
    let env = new_env();
    let (client, admin, mentor, learner) = setup_client(&env);
    let token = setup_token(&env, &learner);
    client.initialize(&admin, &token_vec(&env, &token));
    env.mock_all_auths();
    client.create_escrow(&mentor, &learner, 99_999, "S1", &token);
}

// escrow count

#[test]
fn test_escrow_count_increments_correctly() {
    let env = new_env();
    let (client, admin, mentor, learner) = setup_client(&env);
    let token = setup_token(&env, &learner);
    client.initialize(&admin, &token_vec(&env, &token));
    env.mock_all_auths();

    let id1 = client.create_escrow(&mentor, &learner, 100, "S1", &token);
    let id2 = client.create_escrow(&mentor, &learner, 200, "S2", &token);
    let id3 = client.create_escrow(&mentor, &learner, 300, "S3", &token);

    assert_eq!(id1, 1);
    assert_eq!(id2, 2);
    assert_eq!(id3, 3);
    assert_eq!(client.get_escrow_count(), 3);
}

// release_funds

#[test]
fn test_release_funds_by_learner() {
    let env = new_env();
    let (client, admin, mentor, learner) = setup_client(&env);
    let token = setup_token(&env, &learner);
    client.initialize(&admin, &token_vec(&env, &token));
    env.mock_all_auths();

    let id = client.create_escrow(&mentor, &learner, 1000, "S1", &token);
    client.release_funds(&learner, id);

    assert_eq!(client.get_escrow(id).status, EscrowStatus::Released);
}

#[test]
#[should_panic(expected = "Caller not authorized")]
fn test_release_funds_unauthorized_caller_rejected() {
    let env = new_env();
    let (client, admin, mentor, learner) = setup_client(&env);
    let token = setup_token(&env, &learner);
    client.initialize(&admin, &token_vec(&env, &token));
    env.mock_all_auths();

    let id = client.create_escrow(&mentor, &learner, 1000, "S1", &token);
    let unauthorized = Address::generate(&env);
    client.release_funds(&unauthorized, id);
}

// dispute

#[test]
fn test_dispute_by_mentor_and_learner() {
    let env = new_env();
    let (client, admin, mentor, learner) = setup_client(&env);
    let token = setup_token(&env, &learner);
    client.initialize(&admin, &token_vec(&env, &token));
    env.mock_all_auths();

    let id1 = client.create_escrow(&mentor, &learner, 1000, "S1", &token);
    client.dispute(&mentor, id1);
    assert_eq!(client.get_escrow(id1).status, EscrowStatus::Disputed);

    let id2 = client.create_escrow(&mentor, &learner, 2000, "S2", &token);
    client.dispute(&learner, id2);
    assert_eq!(client.get_escrow(id2).status, EscrowStatus::Disputed);
}

#[test]
#[should_panic(expected = "Caller not authorized to dispute")]
fn test_dispute_unauthorized_caller_rejected() {
    let env = new_env();
    let (client, admin, mentor, learner) = setup_client(&env);
    let token = setup_token(&env, &learner);
    client.initialize(&admin, &token_vec(&env, &token));
    env.mock_all_auths();

    let id = client.create_escrow(&mentor, &learner, 1000, "S1", &token);
    let random = Address::generate(&env);
    client.dispute(&random, id);
}

// The whole of an escrow's life, with the tokens that move.

#[test]
fn tokens_follow_the_escrow() {
    let env = new_env();
    let (client, admin, mentor, learner) = setup_client(&env);
    let token = setup_token(&env, &learner);
    let balances = TokenClient::new(&env, &token);
    client.initialize(&admin, &token_vec(&env, &token));
    env.ledger().set_timestamp(1_700_000_000);

    let paid = client.create_escrow(&mentor, &learner, 1000, "S1", &token);
    let contested = client.create_escrow(&mentor, &learner, 2500, "a_longer_session_name", &token);
    assert_eq!(balances.balance(&learner), 6500);
    assert_eq!(balances.balance(&client.id), 3500);
    assert_eq!(balances.balance(&mentor), 0);

    client.release_funds(&admin, paid);
    assert_eq!(balances.balance(&mentor), 1000);
    assert_eq!(balances.balance(&client.id), 2500);

    client.dispute(&mentor, contested);
    client.refund(contested);
    assert_eq!(balances.balance(&learner), 9000);
    assert_eq!(balances.balance(&client.id), 0);

    let escrow = client.get_escrow(contested);
    assert_eq!(escrow.id, 2);
    assert_eq!(escrow.mentor, to_account(&mentor));
    assert_eq!(escrow.learner, to_account(&learner));
    assert_eq!(escrow.amount, 2500);
    assert_eq!(escrow.session_id, "a_longer_session_name");
    assert_eq!(escrow.status, EscrowStatus::Refunded);
    assert_eq!(escrow.created_at, 1_700_000_000);
    assert_eq!(escrow.token_address, to_account(&token));
}

fn assert_announced(client: &Client, topic: &str, id: u64, data: Val) {
    let env = &client.env;
    let published = env.events().all().filter_by_contract(&client.id);
    let topics: HostVec<Val> = (Symbol::new(env, topic), id).into_val(env);
    assert_eq!(published, HostVec::from_array(env, [(client.id.clone(), topics, data)]));
}

#[test]
fn changes_are_announced_in_order() {
    let env = new_env();
    let (client, admin, mentor, learner) = setup_client(&env);
    let token = setup_token(&env, &learner);
    client.initialize(&admin, &token_vec(&env, &token));

    let id = client.create_escrow(&mentor, &learner, 1000, "S1", &token);
    let session = Symbol::new(&env, "S1");
    let created = (mentor.clone(), learner.clone(), 1000i128, session, token.clone());
    assert_announced(&client, "created", id, created.into_val(&env));
    client.release_funds(&learner, id);
    let released = (mentor.clone(), 1000i128, token.clone());
    assert_announced(&client, "released", id, released.into_val(&env));

    let id = client.create_escrow(&mentor, &learner, 70, "S2", &token);
    client.dispute(&mentor, id);
    assert_announced(&client, "disputed", id, (id, token.clone()).into_val(&env));
    client.refund(id);
    let refunded = (learner.clone(), 70i128, token.clone());
    assert_announced(&client, "refunded", id, refunded.into_val(&env));
}

// Operations that the host or the contract turns down leave no trace.

fn is_turned_down(client: &Client, name: &str, args: &[Val]) -> bool {
    let env = &client.env;
    env.try_invoke_contract::<Val, soroban_sdk::Error>(
        &client.id,
        &Symbol::new(env, name),
        HostVec::from_slice(env, args),
    )
    .is_err()
}

#[test]
fn unsigned_creation_is_turned_down() {
    let env = new_env();
    let (client, admin, mentor, learner) = setup_client(&env);
    let token = setup_token(&env, &learner);
    let balances = TokenClient::new(&env, &token);
    client.initialize(&admin, &token_vec(&env, &token));
    env.set_auths(&[]);
    let args: [Val; 5] = [
        mentor.into_val(&env),
        learner.into_val(&env),
        1000i128.into_val(&env),
        Symbol::new(&env, "S1").into_val(&env),
        token.into_val(&env),
    ];
    assert!(is_turned_down(&client, "create_escrow", &args));
    assert_eq!(client.get_escrow_count(), 0);
    assert_eq!(balances.balance(&learner), 10_000);
}

#[test]
fn paid_escrow_is_final() {
    let env = new_env();
    let (client, admin, mentor, learner) = setup_client(&env);
    let token = setup_token(&env, &learner);
    let balances = TokenClient::new(&env, &token);
    client.initialize(&admin, &token_vec(&env, &token));
    let paid = client.create_escrow(&mentor, &learner, 1000, "S1", &token);
    let held = client.create_escrow(&mentor, &learner, 500, "S2", &token);
    client.release_funds(&learner, paid);

    let id: Val = paid.into_val(&env);
    assert!(is_turned_down(&client, "refund", &[id]));
    assert!(is_turned_down(&client, "dispute", &[mentor.into_val(&env), id]));
    assert!(is_turned_down(&client, "release_funds", &[admin.into_val(&env), id]));
    assert_eq!(client.get_escrow(paid).status, EscrowStatus::Released);
    assert_eq!(client.get_escrow(held).status, EscrowStatus::Active);
    assert_eq!(balances.balance(&client.id), 500);
    assert_eq!(balances.balance(&mentor), 1000);
}

#[test]
fn disputed_escrow_cannot_be_released() {
    let env = new_env();
    let (client, admin, mentor, learner) = setup_client(&env);
    let token = setup_token(&env, &learner);
    client.initialize(&admin, &token_vec(&env, &token));
    let id = client.create_escrow(&mentor, &learner, 1000, "S1", &token);
    client.dispute(&learner, id);
    let args: [Val; 2] = [learner.into_val(&env), id.into_val(&env)];
    assert!(is_turned_down(&client, "release_funds", &args));
    assert_eq!(client.get_escrow(id).status, EscrowStatus::Disputed);
}

#[test]
fn missing_escrow_is_turned_down() {
    let env = new_env();
    let (client, admin, _, learner) = setup_client(&env);
    let token = setup_token(&env, &learner);
    assert!(is_turned_down(&client, "get_escrow_count", &[]));
    client.initialize(&admin, &token_vec(&env, &token));
    assert!(is_turned_down(&client, "get_escrow", &[1u64.into_val(&env)]));
    assert!(is_turned_down(&client, "refund", &[1u64.into_val(&env)]));
    assert_eq!(client.get_escrow_count(), 0);
}
