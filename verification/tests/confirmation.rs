use aptos_client::client::{
    Client, Confirmation, Step, TransactionStatus, WaitState, DEFAULT_MAX_ATTEMPTS,
    DEFAULT_POLL_INTERVAL_SECS,
};
use aptos_client::json::Json;
use aptos_client::transport::{Method, Reply};
use aptos_client::types::ChainId;

fn node() -> Client {
    Client::new("http://node", ChainId(4))
}

fn record(kind: &str) -> Reply {
    Reply::Answer(Json::Object(vec![
        ("type".to_string(), Json::Text(kind.to_string())),
        ("sequence_number".to_string(), Json::Text("5".to_string())),
    ]))
}

/// Feeds `replies` to a wait, one for each poll that the wait asks for, and
/// tells how the wait ended, after how many polls, and after which pauses.
fn run(max_attempts: u64, interval: u64, replies: &[Reply]) -> (WaitState, u64, Vec<u64>) {
    let client = node();
    let (mut wait, mut step) = client.wait_for_transaction_with("0xh", max_attempts, interval);
    let mut polls = 0u64;
    let mut pauses = Vec::new();
    loop {
        match step {
            Step::Poll { request, pause_secs } => {
                assert_eq!(request.method, Method::Get);
                assert_eq!(request.url, "http://node/transactions/by_hash/0xh");
                pauses.push(pause_secs);
                let reply = &replies[polls as usize];
                polls += 1;
                let next = client.continue_wait("0xh", wait, reply);
                wait = next.0;
                step = next.1;
            }
            Step::Done(state) => {
                assert_eq!(state, wait.state);
                assert_eq!(wait.attempts, polls);
                return (state, polls, pauses);
            }
        }
    }
}

#[test]
fn replies_tell_the_status() {
    let client = node();
    assert_eq!(client.transaction_status(&record("pending_transaction")), TransactionStatus::Pending);
    assert_eq!(client.transaction_status(&record("user_transaction")), TransactionStatus::Committed);
    assert_eq!(
        client.transaction_status(&record("genesis_transaction")),
        TransactionStatus::Committed
    );
    assert_eq!(client.transaction_status(&Reply::Status(404)), TransactionStatus::NotFound);
    assert_eq!(client.transaction_status(&Reply::Status(500)), TransactionStatus::NotFound);
    assert_eq!(client.transaction_status(&Reply::Unreachable), TransactionStatus::NotFound);
    assert_eq!(client.transaction_status(&Reply::Unreadable), TransactionStatus::NotFound);
    assert_eq!(client.transaction_status(&Reply::Answer(Json::Null)), TransactionStatus::NotFound);
    assert!(client.transaction_pending(&record("pending_transaction")));
    assert!(client.transaction_pending(&Reply::Status(404)));
    assert!(client.transaction_pending(&Reply::Unreachable));
    assert!(!client.transaction_pending(&record("user_transaction")));
}

#[test]
fn three_pending_then_committed_is_confirmed_on_the_fourth_poll() {
    let replies = vec![
        record("pending_transaction"),
        record("pending_transaction"),
        record("pending_transaction"),
        record("user_transaction"),
        record("user_transaction"),
    ];
    let (state, polls, pauses) = run(10, 1, &replies);
    assert_eq!(state, WaitState::Confirmed);
    assert_eq!(polls, 4);
    assert_eq!(pauses, vec![0, 1, 1, 1]);
}

#[test]
fn never_resolved_is_exhausted_after_five_polls() {
    let replies = vec![
        record("pending_transaction"),
        Reply::Status(404),
        Reply::Unreachable,
        Reply::Unreadable,
        record("pending_transaction"),
        record("user_transaction"),
    ];
    let (state, polls, pauses) = run(5, 2, &replies);
    assert_eq!(state, WaitState::Exhausted);
    assert_ne!(state, WaitState::Confirmed);
    assert_eq!(polls, 5);
    assert_eq!(pauses, vec![0, 2, 2, 2, 2]);
}

#[test]
fn wait_never_polls_more_often_than_it_may() {
    for max_attempts in 0..6u64 {
        let replies: Vec<Reply> = (0..10).map(|_| Reply::Status(404)).collect();
        let (state, polls, _) = run(max_attempts, 1, &replies);
        assert_eq!(state, WaitState::Exhausted);
        assert_eq!(polls, max_attempts);
    }
}

#[test]
fn confirmed_on_the_last_attempt_is_confirmed() {
    let replies = vec![Reply::Status(404), Reply::Status(404), record("user_transaction")];
    let (state, polls, _) = run(3, 1, &replies);
    assert_eq!(state, WaitState::Confirmed);
    assert_eq!(polls, 3);
}

#[test]
fn confirmed_at_once() {
    let (state, polls, pauses) = run(10, 1, &[record("user_transaction")]);
    assert_eq!(state, WaitState::Confirmed);
    assert_eq!(polls, 1);
    assert_eq!(pauses, vec![0]);
}

#[test]
fn wait_without_attempts_is_exhausted_at_once() {
    let client = node();
    let (wait, step) = client.wait_for_transaction_with("0xh", 0, 1);
    assert_eq!(wait.state, WaitState::Exhausted);
    assert_eq!(wait.attempts, 0);
    assert!(matches!(step, Step::Done(WaitState::Exhausted)));
}

#[test]
fn usual_wait_starts_polling() {
    let client = node();
    let (wait, step) = client.wait_for_transaction("0xabc");
    assert_eq!(wait.state, WaitState::Polling);
    assert_eq!(wait.attempts, 0);
    assert_eq!(wait.max_attempts, DEFAULT_MAX_ATTEMPTS);
    assert_eq!(wait.poll_interval_secs, DEFAULT_POLL_INTERVAL_SECS);
    assert_eq!(DEFAULT_MAX_ATTEMPTS, 10);
    assert_eq!(DEFAULT_POLL_INTERVAL_SECS, 1);
    match step {
        Step::Poll { request, pause_secs } => {
            assert_eq!(request.url, "http://node/transactions/by_hash/0xabc");
            assert_eq!(pause_secs, 0);
        }
        Step::Done(_) => panic!("the wait is not over"),
    }
}

#[test]
fn states_follow_one_another() {
    let fresh = Confirmation::new(2, 1);
    assert_eq!(fresh.state, WaitState::Unknown);
    assert!(!fresh.is_done());
    assert_eq!(fresh.observe(TransactionStatus::Committed), fresh);
    let polling = fresh.begin();
    assert_eq!(polling.state, WaitState::Polling);
    assert_eq!(polling.begin(), polling);
    let once = polling.observe(TransactionStatus::Pending);
    assert_eq!((once.state, once.attempts), (WaitState::Polling, 1));
    let twice = once.observe(TransactionStatus::NotFound);
    assert_eq!((twice.state, twice.attempts), (WaitState::Exhausted, 2));
    assert!(twice.is_done());
    assert_eq!(twice.observe(TransactionStatus::Committed), twice);
    let confirmed = once.observe(TransactionStatus::Committed);
    assert_eq!((confirmed.state, confirmed.attempts), (WaitState::Confirmed, 2));
    assert!(confirmed.is_done());
    assert_eq!(confirmed.observe(TransactionStatus::Pending), confirmed);
    assert_eq!(confirmed.begin(), confirmed);
}

#[test]
fn wait_with_numbers_out_of_step_ends() {
    let odd = Confirmation {
        state: WaitState::Polling,
        attempts: 7,
        max_attempts: 3,
        poll_interval_secs: 1,
    };
    let next = odd.observe(TransactionStatus::Pending);
    assert_eq!(next.state, WaitState::Exhausted);
    assert_eq!(next.attempts, 7);
    let full = Confirmation {
        state: WaitState::Polling,
        attempts: u64::MAX,
        max_attempts: u64::MAX,
        poll_interval_secs: 1,
    };
    assert_eq!(full.observe(TransactionStatus::Committed).state, WaitState::Exhausted);
}
