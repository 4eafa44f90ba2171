use deployment::config::Deployment;
use deployment::error::DeployError;
use deployment::executor::{ExecAction, ExecEvent, Executor, ResumePolicy};
use deployment::process::DeploymentProcess;
use deployment::recipe::{CellRecipe, DepGroupRecipe, DeploymentRecipe};
use deployment::types::{Script, H256};

fn h(byte: u8) -> H256 {
    H256::new([byte; 32])
}

fn cell(name: &str, tx: u8) -> CellRecipe {
    CellRecipe {
        name: name.to_string(),
        tx_hash: h(tx),
        index: 0,
        occupied_capacity: 1,
        data_hash: h(0),
        type_id: None,
    }
}

fn group(name: &str, tx: u8) -> DepGroupRecipe {
    DepGroupRecipe { name: name.to_string(), tx_hash: h(tx), index: 0, occupied_capacity: 1 }
}

fn recipe() -> DeploymentRecipe {
    DeploymentRecipe {
        cell_recipes: vec![cell("a", 1), cell("b", 2)],
        dep_group_recipes: vec![group("g", 3), group("k", 4)],
    }
}

fn process() -> DeploymentProcess {
    let lock = Script { code_hash: h(9), hash_type: 1, args: vec![] };
    DeploymentProcess::new(
        Deployment { lock: lock.clone(), cells: vec![], dep_groups: vec![] },
        lock,
        0,
    )
}

/// Replays against a ledger that knows the transactions `known`; returns
/// what was asked, what was sent and how the replay ended.
fn replay(executor: &mut Executor, known: &[H256]) -> (Vec<H256>, Vec<(usize, usize, usize)>, ExecAction) {
    let mut asked = vec![];
    let mut sent = vec![];
    let mut event = ExecEvent::Start;
    loop {
        match executor.step(event) {
            ExecAction::Query(hash) => {
                asked.push(hash);
                event = ExecEvent::Known(known.contains(&hash));
            }
            ExecAction::Send { position, ordinal, total, tx_hash: _ } => {
                sent.push((position, ordinal, total));
                event = ExecEvent::Sent;
            }
            last => return (asked, sent, last),
        }
    }
}

#[test]
fn first_replay_sends_everything_in_order() {
    let mut executor = process().execute_recipe(&recipe(), vec![h(4), h(3), h(2), h(1)]);
    let (asked, sent, last) = replay(&mut executor, &[]);
    assert_eq!(last, ExecAction::Finished);
    assert_eq!(asked, vec![h(3), h(4)]);
    assert_eq!(sent, vec![(3, 1, 4), (2, 2, 4), (1, 3, 4), (0, 4, 4)]);
    assert_eq!(executor.sent(), &vec![h(1), h(2), h(3), h(4)]);
}

#[test]
fn confirmed_groups_are_not_sent_again() {
    let hashes = vec![h(1), h(2), h(3), h(4)];
    let mut first = process().execute_recipe(&recipe(), hashes.clone());
    replay(&mut first, &[]);
    let ledger = first.sent().clone();

    let mut second = process().execute_recipe(&recipe(), hashes);
    let (asked, sent, last) = replay(&mut second, &ledger);
    assert_eq!(last, ExecAction::Finished);
    assert_eq!(asked, vec![h(3), h(4)]);
    // the cells are sent again, the groups are not
    assert_eq!(sent, vec![(0, 1, 4), (1, 2, 4)]);
    assert_eq!(second.sent(), &vec![h(1), h(2)]);
}

#[test]
fn only_unconfirmed_groups_are_sent() {
    let mut executor = process().execute_recipe(&recipe(), vec![h(1), h(2), h(3), h(4)]);
    let (_, sent, last) = replay(&mut executor, &[h(3), h(1)]);
    assert_eq!(last, ExecAction::Finished);
    assert_eq!(sent, vec![(0, 1, 4), (1, 2, 4), (3, 3, 4)]);
    assert_eq!(executor.sent(), &vec![h(1), h(2), h(4)]);
}

#[test]
fn confirmed_group_needs_no_signed_transaction() {
    let mut executor = process().execute_recipe(&recipe(), vec![h(1), h(2)]);
    let (_, sent, last) = replay(&mut executor, &[h(3), h(4)]);
    assert_eq!(last, ExecAction::Finished);
    assert_eq!(sent.len(), 2);
}

#[test]
fn missing_transaction_ends_the_replay() {
    let mut executor = process().execute_recipe(&recipe(), vec![h(1), h(3), h(4)]);
    let (asked, sent, last) = replay(&mut executor, &[]);
    assert_eq!(last, ExecAction::Failed(DeployError::MissingTransaction { tx_hash: h(2) }));
    assert!(asked.is_empty());
    assert_eq!(sent, vec![(0, 1, 3)]);
    assert_eq!(executor.sent(), &vec![h(1)]);
    assert_eq!(
        executor.step(ExecEvent::Sent),
        ExecAction::Failed(DeployError::MissingTransaction { tx_hash: h(2) })
    );

    let mut groups = process().execute_recipe(&recipe(), vec![h(1), h(2), h(3)]);
    let (_, _, last) = replay(&mut groups, &[]);
    assert_eq!(last, ExecAction::Failed(DeployError::MissingTransaction { tx_hash: h(4) }));
    assert_eq!(groups.sent(), &vec![h(1), h(2), h(3)]);
}

#[test]
fn first_signed_transaction_with_the_hash_is_sent() {
    let recipe = DeploymentRecipe { cell_recipes: vec![cell("a", 1)], dep_group_recipes: vec![] };
    let mut executor = process().execute_recipe(&recipe, vec![h(5), h(1), h(1)]);
    assert_eq!(
        executor.step(ExecEvent::Start),
        ExecAction::Send { position: 1, ordinal: 1, total: 3, tx_hash: h(1) }
    );
    assert_eq!(executor.step(ExecEvent::Sent), ExecAction::Finished);
    assert_eq!(executor.step(ExecEvent::Sent), ExecAction::Finished);
}

#[test]
fn empty_manifest_sends_nothing() {
    let empty = DeploymentRecipe { cell_recipes: vec![], dep_group_recipes: vec![] };
    let mut executor = process().execute_recipe(&empty, vec![h(1)]);
    assert_eq!(executor.step(ExecEvent::Start), ExecAction::Finished);
    assert!(executor.sent().is_empty());
}

#[test]
fn policy_is_chosen_for_each_kind() {
    let hashes = vec![h(1), h(2), h(3), h(4)];
    let mut skip_all = Executor::new(
        &recipe(),
        hashes.clone(),
        ResumePolicy::SkipIfConfirmed,
        ResumePolicy::SkipIfConfirmed,
    );
    let (asked, sent, last) = replay(&mut skip_all, &[h(1), h(2), h(3), h(4)]);
    assert_eq!(last, ExecAction::Finished);
    assert_eq!(asked, hashes);
    assert!(sent.is_empty());

    let mut send_all =
        Executor::new(&recipe(), hashes.clone(), ResumePolicy::Always, ResumePolicy::Always);
    let (asked, sent, last) = replay(&mut send_all, &[h(1), h(2), h(3), h(4)]);
    assert_eq!(last, ExecAction::Finished);
    assert!(asked.is_empty());
    assert_eq!(sent.len(), 4);
    assert_eq!(send_all.sent(), &hashes);
}

#[test]
fn answer_that_was_not_asked_for_ends_the_replay() {
    let unexpected = ExecAction::Failed(DeployError::UnexpectedEvent);
    let mut idle = process().execute_recipe(&recipe(), vec![h(1)]);
    assert_eq!(idle.step(ExecEvent::Sent), unexpected);
    assert_eq!(idle.step(ExecEvent::Start), unexpected);

    let mut sending = process().execute_recipe(&recipe(), vec![h(1)]);
    assert!(matches!(sending.step(ExecEvent::Start), ExecAction::Send { .. }));
    assert_eq!(sending.step(ExecEvent::Known(true)), unexpected);

    let groups = DeploymentRecipe { cell_recipes: vec![], dep_group_recipes: vec![group("g", 3)] };
    let mut querying = process().execute_recipe(&groups, vec![h(3)]);
    assert_eq!(querying.step(ExecEvent::Start), ExecAction::Query(h(3)));
    assert_eq!(querying.step(ExecEvent::Sent), unexpected);
    assert!(querying.sent().is_empty());
}

#[test]
fn ledger_failure_ends_the_replay() {
    let failed = ExecAction::Failed(DeployError::LedgerFailed);
    let hashes = vec![h(1), h(2), h(3), h(4)];

    // the second send is refused: the first stays sent, nothing follows
    let mut executor = process().execute_recipe(&recipe(), hashes.clone());
    assert!(matches!(executor.step(ExecEvent::Start), ExecAction::Send { position: 0, .. }));
    assert!(matches!(executor.step(ExecEvent::Sent), ExecAction::Send { position: 1, .. }));
    assert_eq!(executor.sent(), &vec![h(1), h(2)]);
    assert_eq!(executor.step(ExecEvent::Failed), failed);
    assert_eq!(executor.sent(), &vec![h(1)]);
    assert_eq!(executor.step(ExecEvent::Sent), failed);
    assert_eq!(executor.step(ExecEvent::Start), failed);
    assert_eq!(executor.step(ExecEvent::Known(false)), failed);
    assert_eq!(executor.sent(), &vec![h(1)]);

    // a query fails: what was sent stays sent, the group is not sent
    let mut executor = process().execute_recipe(&recipe(), hashes);
    assert!(matches!(executor.step(ExecEvent::Start), ExecAction::Send { .. }));
    assert!(matches!(executor.step(ExecEvent::Sent), ExecAction::Send { .. }));
    assert_eq!(executor.step(ExecEvent::Sent), ExecAction::Query(h(3)));
    assert_eq!(executor.step(ExecEvent::Failed), failed);
    assert_eq!(executor.sent(), &vec![h(1), h(2)]);
    assert_eq!(executor.step(ExecEvent::Known(false)), failed);
    assert_eq!(executor.sent(), &vec![h(1), h(2)]);

    // nothing was asked yet: a failure is not an answer to anything
    let mut idle = process().execute_recipe(&recipe(), vec![]);
    assert_eq!(idle.step(ExecEvent::Failed), ExecAction::Failed(DeployError::UnexpectedEvent));
}
