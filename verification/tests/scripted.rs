//! The operations, answered reply by reply.

use escrow::contract::{EscrowContract, Output, Progress};
use escrow::host::{Call, Datum, Event, Key, Party, Record, Reply};
use escrow::types::{
    contains_address, Address, Escrow, EscrowError, EscrowStatus, ESCROW_TTL_BUMP,
    ESCROW_TTL_THRESHOLD,
};

fn account(name: &str) -> Address {
    Address { strkey: name.to_string() }
}

fn sample(status: EscrowStatus) -> Escrow {
    Escrow {
        id: 4,
        mentor: account("MENTOR"),
        learner: account("LEARNER"),
        amount: 1000,
        session_id: "S1".to_string(),
        status,
        created_at: 77,
        token_address: account("TOKEN"),
    }
}

fn loaded(record: Record) -> Reply {
    Reply::Loaded(Some(record))
}

/// Answers the calls one after the other. Gives back the calls that were made,
/// and the end if it was reached.
fn play(start: Progress, replies: Vec<Reply>) -> (Vec<Call>, Option<Result<Output, EscrowError>>) {
    let mut calls = Vec::new();
    let mut progress = start;
    for reply in replies {
        match progress {
            Progress::Waiting(invocation) => {
                let call = invocation.call();
                assert!(call.admits(&reply), "{:?} is no answer to {:?}", reply, call);
                calls.push(call);
                progress = invocation.resume(reply);
            }
            Progress::Finished(_) => panic!("the operation ended early"),
        }
    }
    match progress {
        Progress::Waiting(_) => (calls, None),
        Progress::Finished(end) => (calls, Some(end)),
    }
}

fn refusal(start: Progress, replies: Vec<Reply>) -> EscrowError {
    match play(start, replies) {
        (_, Some(Err(error))) => error,
        (_, other) => panic!("not refused: {:?}", other),
    }
}

fn show(calls: &[Call]) -> Vec<String> {
    calls.iter().map(|call| format!("{:?}", call)).collect()
}

fn keep(key: Key) -> Call {
    Call::ExtendTtl { key, threshold: 500_000, extend_to: 1_000_000 }
}

fn create(amount: i128) -> Progress {
    EscrowContract::create_escrow(
        account("MENTOR"),
        account("LEARNER"),
        amount,
        "S1".to_string(),
        account("TOKEN"),
    )
}

#[test]
fn lifetimes() {
    assert_eq!(ESCROW_TTL_THRESHOLD, 500_000);
    assert_eq!(ESCROW_TTL_BUMP, 1_000_000);
}

#[test]
fn initialize_calls() {
    let tokens = vec![account("XLM"), account("USDC"), account("PYUSD")];
    let start = EscrowContract::initialize(account("ADMIN"), tokens.clone());
    let (calls, end) = play(
        start,
        vec![
            Reply::Flag(false),
            Reply::Done,
            Reply::Done,
            Reply::Done,
            Reply::Done,
            Reply::Done,
            Reply::Done,
        ],
    );
    assert!(matches!(end, Some(Ok(Output::Nothing))));
    assert_eq!(
        show(&calls),
        show(&[
            Call::Has(Key::Admin),
            Call::Store(Key::Admin, Record::Address(account("ADMIN"))),
            keep(Key::Admin),
            Call::Store(Key::ApprovedTokens, Record::Tokens(tokens)),
            keep(Key::ApprovedTokens),
            Call::Store(Key::EscrowCount, Record::Count(0)),
            keep(Key::EscrowCount),
        ])
    );
}

#[test]
fn initialize_refused_when_there_is_an_admin() {
    let start = EscrowContract::initialize(account("OTHER"), vec![]);
    let (calls, end) = play(start, vec![Reply::Flag(true)]);
    assert!(matches!(end, Some(Err(EscrowError::AlreadyInitialized))));
    assert_eq!(show(&calls), show(&[Call::Has(Key::Admin)]));
}

#[test]
fn create_escrow_calls() {
    let (calls, end) = play(
        create(1000),
        vec![
            Reply::Done,
            Reply::Done,
            loaded(Record::Tokens(vec![account("XLM"), account("TOKEN")])),
            Reply::Amount(1000),
            loaded(Record::Count(3)),
            Reply::Done,
            Reply::Done,
            Reply::Done,
            Reply::Time(77),
            Reply::Done,
            Reply::Done,
            Reply::Done,
        ],
    );
    assert!(matches!(end, Some(Ok(Output::EscrowId(4)))));
    assert_eq!(
        show(&calls),
        show(&[
            Call::RequireAuth(account("LEARNER")),
            keep(Key::ApprovedTokens),
            Call::Load(Key::ApprovedTokens),
            Call::Balance { token: account("TOKEN"), holder: account("LEARNER") },
            Call::Load(Key::EscrowCount),
            Call::Store(Key::EscrowCount, Record::Count(4)),
            keep(Key::EscrowCount),
            Call::Transfer {
                token: account("TOKEN"),
                from: Party::Holder(account("LEARNER")),
                to: Party::ThisContract,
                amount: 1000,
            },
            Call::Timestamp,
            Call::Store(Key::Escrow(4), Record::Escrow(sample(EscrowStatus::Active))),
            keep(Key::Escrow(4)),
            Call::Publish(Event::Created {
                id: 4,
                mentor: account("MENTOR"),
                learner: account("LEARNER"),
                amount: 1000,
                session_id: "S1".to_string(),
                token_address: account("TOKEN"),
            }),
        ])
    );
}

#[test]
fn create_escrow_starts_counting_at_one() {
    let (calls, end) = play(
        create(1),
        vec![
            Reply::Done,
            Reply::Done,
            loaded(Record::Tokens(vec![account("TOKEN")])),
            Reply::Amount(1),
            Reply::Loaded(None),
            Reply::Done,
        ],
    );
    assert!(end.is_none());
    assert!(matches!(calls[5], Call::Store(Key::EscrowCount, Record::Count(1))));
}

#[test]
fn create_escrow_refusals() {
    assert_eq!(refusal(create(0), vec![]), EscrowError::AmountNotPositive);
    assert_eq!(refusal(create(-5), vec![]), EscrowError::AmountNotPositive);
    assert_eq!(refusal(create(i128::MIN), vec![]), EscrowError::AmountNotPositive);
    assert_eq!(
        refusal(create(10), vec![Reply::Done, Reply::Done, Reply::Loaded(None)]),
        EscrowError::ApprovedTokensNotSet
    );
    assert_eq!(
        refusal(
            create(10),
            vec![Reply::Done, Reply::Done, loaded(Record::Tokens(vec![account("XLM")]))]
        ),
        EscrowError::TokenNotApproved
    );
    assert_eq!(
        refusal(create(10), vec![Reply::Done, Reply::Done, loaded(Record::Tokens(vec![]))]),
        EscrowError::TokenNotApproved
    );
    let approved = || loaded(Record::Tokens(vec![account("TOKEN")]));
    assert_eq!(
        refusal(create(10), vec![Reply::Done, Reply::Done, approved(), Reply::Amount(9)]),
        EscrowError::InsufficientBalance
    );
    assert_eq!(
        refusal(
            create(10),
            vec![
                Reply::Done,
                Reply::Done,
                approved(),
                Reply::Amount(10),
                loaded(Record::Count(u64::MAX)),
            ]
        ),
        EscrowError::CountOverflow
    );
}

#[test]
fn release_funds_calls() {
    for caller in ["LEARNER", "ADMIN"] {
        let (calls, end) = play(
            EscrowContract::release_funds(account(caller), 4),
            vec![
                Reply::Done,
                loaded(Record::Escrow(sample(EscrowStatus::Active))),
                loaded(Record::Address(account("ADMIN"))),
                Reply::Done,
                Reply::Done,
                Reply::Done,
                Reply::Done,
                Reply::Done,
            ],
        );
        assert!(matches!(end, Some(Ok(Output::Nothing))));
        assert_eq!(
            show(&calls),
            show(&[
                keep(Key::Escrow(4)),
                Call::Load(Key::Escrow(4)),
                Call::Load(Key::Admin),
                keep(Key::Admin),
                Call::RequireAuth(account(caller)),
                Call::Transfer {
                    token: account("TOKEN"),
                    from: Party::ThisContract,
                    to: Party::Holder(account("MENTOR")),
                    amount: 1000,
                },
                Call::Store(Key::Escrow(4), Record::Escrow(sample(EscrowStatus::Released))),
                Call::Publish(Event::Released {
                    id: 4,
                    mentor: account("MENTOR"),
                    amount: 1000,
                    token_address: account("TOKEN"),
                }),
            ])
        );
    }
}

#[test]
fn release_funds_refusals() {
    let release = |caller: &str| EscrowContract::release_funds(account(caller), 4);
    let active = || loaded(Record::Escrow(sample(EscrowStatus::Active)));
    assert_eq!(
        refusal(release("LEARNER"), vec![Reply::Done, Reply::Loaded(None)]),
        EscrowError::EscrowNotFound
    );
    for status in [EscrowStatus::Released, EscrowStatus::Disputed, EscrowStatus::Refunded] {
        assert_eq!(
            refusal(
                release("LEARNER"),
                vec![Reply::Done, loaded(Record::Escrow(sample(status)))]
            ),
            EscrowError::EscrowNotActive
        );
    }
    assert_eq!(
        refusal(release("LEARNER"), vec![Reply::Done, active(), Reply::Loaded(None)]),
        EscrowError::AdminNotFound
    );
    for stranger in ["MENTOR", "STRANGER"] {
        assert_eq!(
            refusal(
                release(stranger),
                vec![
                    Reply::Done,
                    active(),
                    loaded(Record::Address(account("ADMIN"))),
                    Reply::Done,
                    Reply::Done,
                ]
            ),
            EscrowError::CallerNotAuthorized
        );
    }
}

#[test]
fn dispute_calls() {
    for caller in ["LEARNER", "MENTOR"] {
        let (calls, end) = play(
            EscrowContract::dispute(account(caller), 4),
            vec![
                Reply::Done,
                loaded(Record::Escrow(sample(EscrowStatus::Active))),
                Reply::Done,
                Reply::Done,
                Reply::Done,
            ],
        );
        assert!(matches!(end, Some(Ok(Output::Nothing))));
        assert_eq!(
            show(&calls),
            show(&[
                keep(Key::Escrow(4)),
                Call::Load(Key::Escrow(4)),
                Call::RequireAuth(account(caller)),
                Call::Store(Key::Escrow(4), Record::Escrow(sample(EscrowStatus::Disputed))),
                Call::Publish(Event::Disputed { id: 4, token_address: account("TOKEN") }),
            ])
        );
    }
}

#[test]
fn dispute_refusals() {
    let dispute = |caller: &str| EscrowContract::dispute(account(caller), 4);
    assert_eq!(
        refusal(dispute("LEARNER"), vec![Reply::Done, Reply::Loaded(None)]),
        EscrowError::EscrowNotFound
    );
    for status in [EscrowStatus::Released, EscrowStatus::Disputed, EscrowStatus::Refunded] {
        assert_eq!(
            refusal(
                dispute("LEARNER"),
                vec![Reply::Done, loaded(Record::Escrow(sample(status)))]
            ),
            EscrowError::EscrowNotActive
        );
    }
    assert_eq!(
        refusal(
            dispute("ADMIN"),
            vec![Reply::Done, loaded(Record::Escrow(sample(EscrowStatus::Active))), Reply::Done]
        ),
        EscrowError::CallerNotAuthorizedToDispute
    );
}

#[test]
fn refund_calls() {
    for status in [EscrowStatus::Active, EscrowStatus::Disputed] {
        let (calls, end) = play(
            EscrowContract::refund(4),
            vec![
                loaded(Record::Address(account("ADMIN"))),
                Reply::Done,
                Reply::Done,
                Reply::Done,
                loaded(Record::Escrow(sample(status))),
                Reply::Done,
                Reply::Done,
                Reply::Done,
            ],
        );
        assert!(matches!(end, Some(Ok(Output::Nothing))));
        assert_eq!(
            show(&calls),
            show(&[
                Call::Load(Key::Admin),
                keep(Key::Admin),
                Call::RequireAuth(account("ADMIN")),
                keep(Key::Escrow(4)),
                Call::Load(Key::Escrow(4)),
                Call::Transfer {
                    token: account("TOKEN"),
                    from: Party::ThisContract,
                    to: Party::Holder(account("LEARNER")),
                    amount: 1000,
                },
                Call::Store(Key::Escrow(4), Record::Escrow(sample(EscrowStatus::Refunded))),
                Call::Publish(Event::Refunded {
                    id: 4,
                    learner: account("LEARNER"),
                    amount: 1000,
                    token_address: account("TOKEN"),
                }),
            ])
        );
    }
}

#[test]
fn refund_refusals() {
    let admin = || loaded(Record::Address(account("ADMIN")));
    assert_eq!(
        refusal(EscrowContract::refund(4), vec![Reply::Loaded(None)]),
        EscrowError::AdminNotFound
    );
    assert_eq!(
        refusal(
            EscrowContract::refund(4),
            vec![admin(), Reply::Done, Reply::Done, Reply::Done, Reply::Loaded(None)]
        ),
        EscrowError::EscrowNotFound
    );
    for status in [EscrowStatus::Released, EscrowStatus::Refunded] {
        assert_eq!(
            refusal(
                EscrowContract::refund(4),
                vec![
                    admin(),
                    Reply::Done,
                    Reply::Done,
                    Reply::Done,
                    loaded(Record::Escrow(sample(status))),
                ]
            ),
            EscrowError::CannotRefund
        );
    }
}

#[test]
fn get_escrow_calls() {
    let (calls, end) = play(
        EscrowContract::get_escrow(4),
        vec![Reply::Done, loaded(Record::Escrow(sample(EscrowStatus::Disputed)))],
    );
    assert_eq!(show(&calls), show(&[keep(Key::Escrow(4)), Call::Load(Key::Escrow(4))]));
    match end {
        Some(Ok(Output::Escrow(escrow))) => {
            assert_eq!(format!("{:?}", escrow), format!("{:?}", sample(EscrowStatus::Disputed)))
        }
        other => panic!("no escrow: {:?}", other),
    }
    assert_eq!(
        refusal(EscrowContract::get_escrow(4), vec![Reply::Done, Reply::Loaded(None)]),
        EscrowError::EscrowNotFound
    );
}

#[test]
fn get_escrow_count_calls() {
    let (calls, end) = play(
        EscrowContract::get_escrow_count(),
        vec![Reply::Done, loaded(Record::Count(12))],
    );
    assert_eq!(show(&calls), show(&[keep(Key::EscrowCount), Call::Load(Key::EscrowCount)]));
    assert!(matches!(end, Some(Ok(Output::Count(12)))));
    let (_, end) =
        play(EscrowContract::get_escrow_count(), vec![Reply::Done, Reply::Loaded(None)]);
    assert!(matches!(end, Some(Ok(Output::Count(0)))));
}

#[test]
fn a_refused_operation_has_no_effects() {
    let (calls, end) = play(
        EscrowContract::release_funds(account("STRANGER"), 4),
        vec![
            Reply::Done,
            loaded(Record::Escrow(sample(EscrowStatus::Active))),
            loaded(Record::Address(account("ADMIN"))),
            Reply::Done,
            Reply::Done,
        ],
    );
    assert!(matches!(end, Some(Err(_))));
    for call in calls {
        assert!(!matches!(call, Call::Store(_, _) | Call::Transfer { .. } | Call::Publish(_)));
    }
}

#[test]
fn messages() {
    let expected = [
        (EscrowError::AlreadyInitialized, "Already initialized"),
        (EscrowError::AmountNotPositive, "Amount must be greater than zero"),
        (EscrowError::ApprovedTokensNotSet, "Approved tokens not set"),
        (EscrowError::TokenNotApproved, "Token not approved; must be XLM, USDC, or PYUSD"),
        (EscrowError::InsufficientBalance, "Insufficient token balance"),
        (EscrowError::CountOverflow, "attempt to add with overflow"),
        (EscrowError::EscrowNotFound, "Escrow not found"),
        (EscrowError::EscrowNotActive, "Escrow not active"),
        (EscrowError::AdminNotFound, "Admin not found"),
        (EscrowError::CallerNotAuthorized, "Caller not authorized"),
        (EscrowError::CallerNotAuthorizedToDispute, "Caller not authorized to dispute"),
        (EscrowError::CannotRefund, "Cannot refund"),
    ];
    for (error, message) in expected {
        assert_eq!(error.message(), message);
    }
}

#[test]
fn symbols_and_topics() {
    assert_eq!(Key::Admin.symbol(), "ADMIN");
    assert_eq!(Key::ApprovedTokens.symbol(), "APR_TOKS");
    assert_eq!(Key::EscrowCount.symbol(), "ESC_CNT");
    assert_eq!(Key::Escrow(9).symbol(), "ESCROW");

    let token_address = account("TOKEN");
    let disputed = Event::Disputed { id: 4, token_address: token_address.clone() };
    assert_eq!((disputed.topic(), disputed.escrow_id()), ("disputed", 4));
    let released = Event::Released {
        id: 5,
        mentor: account("MENTOR"),
        amount: 1,
        token_address: token_address.clone(),
    };
    assert_eq!((released.topic(), released.escrow_id()), ("released", 5));
    let refunded = Event::Refunded {
        id: 6,
        learner: account("LEARNER"),
        amount: 1,
        token_address: token_address.clone(),
    };
    assert_eq!((refunded.topic(), refunded.escrow_id()), ("refunded", 6));
    let created = Event::Created {
        id: 7,
        mentor: account("MENTOR"),
        learner: account("LEARNER"),
        amount: 1,
        session_id: "S1".to_string(),
        token_address,
    };
    assert_eq!((created.topic(), created.escrow_id()), ("created", 7));
}

#[test]
fn event_data_is_ordered() {
    let address = |name: &str| Datum::Address(account(name));
    let same = |event: Event, expected: Vec<Datum>| {
        assert_eq!(format!("{:?}", event.data()), format!("{:?}", expected));
    };
    same(
        Event::Created {
            id: 7,
            mentor: account("MENTOR"),
            learner: account("LEARNER"),
            amount: 9,
            session_id: "S1".to_string(),
            token_address: account("TOKEN"),
        },
        vec![
            address("MENTOR"),
            address("LEARNER"),
            Datum::Amount(9),
            Datum::Session("S1".to_string()),
            address("TOKEN"),
        ],
    );
    same(
        Event::Released {
            id: 7,
            mentor: account("MENTOR"),
            amount: 9,
            token_address: account("TOKEN"),
        },
        vec![address("MENTOR"), Datum::Amount(9), address("TOKEN")],
    );
    same(
        Event::Disputed { id: 7, token_address: account("TOKEN") },
        vec![Datum::EscrowId(7), address("TOKEN")],
    );
    same(
        Event::Refunded {
            id: 7,
            learner: account("LEARNER"),
            amount: 9,
            token_address: account("TOKEN"),
        },
        vec![address("LEARNER"), Datum::Amount(9), address("TOKEN")],
    );
}

#[test]
fn replies_have_to_fit_their_calls() {
    assert!(Call::Has(Key::Admin).admits(&Reply::Flag(true)));
    assert!(!Call::Has(Key::Admin).admits(&Reply::Done));
    assert!(Call::Load(Key::EscrowCount).admits(&Reply::Loaded(None)));
    assert!(Call::Load(Key::EscrowCount).admits(&loaded(Record::Count(1))));
    assert!(!Call::Load(Key::Admin).admits(&loaded(Record::Count(1))));
    assert!(!Call::Timestamp.admits(&Reply::Amount(3)));
    assert!(Call::Timestamp.admits(&Reply::Time(3)));
    assert!(!keep(Key::Admin).admits(&Reply::Time(3)));
}

#[test]
fn membership() {
    let list = vec![account("XLM"), account("USDC")];
    assert!(contains_address(&list, &account("USDC")));
    assert!(!contains_address(&list, &account("PYUSD")));
    assert!(!contains_address(&vec![], &account("XLM")));
}

#[test]
fn status_is_all_that_changes() {
    let escrow = sample(EscrowStatus::Active).with_status(EscrowStatus::Released);
    assert_eq!(format!("{:?}", escrow), format!("{:?}", sample(EscrowStatus::Released)));
    assert_eq!(format!("{:?}", escrow.clone()), format!("{:?}", escrow));
}
