use ckb_testtool::ckb_types::packed;
use ckb_testtool::ckb_types::prelude::{Builder, Entity, Unpack};
use deployment::builder::{BuildAction, BuildEvent, Prepared, RecipeBuilder};
use deployment::config::{Cell, CellLocation, CellPayload, DepGroup, Deployment, PreInput};
use deployment::dep_group::read_out_points;
use deployment::error::DeployError;
use deployment::process::DeploymentProcess;
use deployment::transaction::FundingRequest;
use deployment::type_id::{build_type_id_script, is_type_id_script};
use deployment::types::{
    CellInput, CellOutput, LiveCell, OutPoint, Script, TransactionRecord, H256,
};

fn script(code: u8, args: Vec<u8>) -> Script {
    Script { code_hash: H256::new([code; 32]), hash_type: 1, args }
}

fn deployer_lock() -> Script {
    script(0xd0, vec![1; 20])
}

fn wallet_lock() -> Script {
    script(0xa0, vec![2; 20])
}

fn pack_script(s: &Script) -> packed::Script {
    packed::Script::new_builder()
        .code_hash(packed::Byte32::new(s.code_hash.bytes))
        .hash_type(s.hash_type)
        .args(&s.args[..])
        .build()
}

fn pack_input(i: &CellInput) -> packed::CellInput {
    packed::CellInput::new(
        packed::OutPoint::new(
            packed::Byte32::new(i.previous_output.tx_hash.bytes),
            i.previous_output.index,
        ),
        i.since,
    )
}

fn pack_output(o: &CellOutput) -> packed::CellOutput {
    packed::CellOutput::new_builder()
        .capacity(o.capacity)
        .lock(pack_script(&o.lock))
        .type_(o.type_.as_ref().map(pack_script))
        .build()
}

fn real_hash(inputs: &[CellInput], outputs: &[CellOutput], data: &[Vec<u8>]) -> H256 {
    let tx = ckb_testtool::ckb_types::core::TransactionBuilder::default()
        .inputs(inputs.iter().map(pack_input).collect::<Vec<_>>())
        .outputs(outputs.iter().map(pack_output).collect::<Vec<_>>())
        .outputs_data(data.iter().map(|d| packed::Bytes::from(&d[..])).collect::<Vec<_>>())
        .build();
    H256::new(tx.hash().unpack())
}

fn file_cell(name: &str, enable_type_id: bool) -> Cell {
    Cell {
        name: name.to_string(),
        location: CellLocation::File { file: format!("build/release/{}", name) },
        enable_type_id,
    }
}

fn payload(name: &str, enable_type_id: bool, data: Vec<u8>) -> CellPayload {
    CellPayload { cell: file_cell(name, enable_type_id), data }
}

fn group(name: &str, cells: &[&str]) -> DepGroup {
    DepGroup { name: name.to_string(), cells: cells.iter().map(|c| c.to_string()).collect() }
}

fn live(byte: u8, index: u32, capacity: u64) -> LiveCell {
    LiveCell { tx_hash: H256::new([byte; 32]), index, capacity, mature: true }
}

/// A wallet that answers from memory. Its ledger holds only what a test
/// puts there: nothing is sent while a batch is built, so the ledger never
/// learns of a transaction of the batch.
struct Wallet {
    lock: Script,
    collectible: Vec<LiveCell>,
    ledger: Vec<(OutPoint, CellOutput)>,
    reserved: Vec<OutPoint>,
    change_capacity: Option<u64>,
    log: Vec<String>,
    requests: Vec<FundingRequest>,
    fees: Vec<u64>,
}

impl Wallet {
    fn new() -> Wallet {
        Wallet {
            lock: wallet_lock(),
            collectible: vec![],
            ledger: vec![],
            reserved: vec![],
            change_capacity: Some(77),
            log: vec![],
            requests: vec![],
            fees: vec![],
        }
    }

    fn complete(&mut self, request: &FundingRequest) -> TransactionRecord {
        let mut outputs = vec![request.draft.output.clone()];
        let mut data = vec![request.draft.output_data.clone()];
        if let Some(capacity) = self.change_capacity {
            outputs.push(CellOutput { capacity, lock: self.lock.clone(), type_: None });
            data.push(vec![]);
        }
        let mut inputs = request.draft.inputs.clone();
        inputs.push(live(0xf0, self.requests.len() as u32, 1_000_000).input());
        let hash = real_hash(&inputs, &outputs, &data);
        TransactionRecord { hash, inputs, outputs, outputs_data: data }
    }

    fn answer(&mut self, action: &BuildAction) -> Option<BuildEvent> {
        match action {
            BuildAction::Reserve(points) => {
                self.log.push(format!("reserve {}", points.len()));
                self.reserved.extend(points.iter().cloned());
                Some(BuildEvent::Reserved)
            }
            BuildAction::Collect { min_capacity } => {
                self.log.push(format!("collect {}", min_capacity));
                Some(BuildEvent::Collected(self.collectible.clone()))
            }
            BuildAction::QueryFunding(point) => {
                self.log.push("query".to_string());
                let found = self.ledger.iter().find(|(p, _)| p == point).map(|(_, o)| o.clone());
                Some(BuildEvent::FundingOutput(found))
            }
            BuildAction::Complete { request, tx_fee } => {
                self.log.push("complete".to_string());
                self.fees.push(*tx_fee);
                let tx = self.complete(request);
                self.requests.push(request.clone());
                Some(BuildEvent::Completed(tx))
            }
            BuildAction::Finished | BuildAction::Failed(_) => None,
        }
    }
}

fn run(builder: &mut RecipeBuilder, wallet: &mut Wallet) -> BuildAction {
    let mut event = BuildEvent::Start;
    loop {
        let action = builder.step(event);
        match wallet.answer(&action) {
            Some(next) => event = next,
            None => return action,
        }
    }
}

fn builder_for(
    cells: Vec<CellPayload>,
    dep_groups: Vec<DepGroup>,
    pre_inputs: Vec<PreInput>,
) -> RecipeBuilder {
    let declared: Vec<Cell> = cells.iter().map(|p| p.cell.clone()).collect();
    RecipeBuilder::new(deployer_lock(), declared, cells, dep_groups, pre_inputs, wallet_lock(), 1000)
}

fn sudt_batch(wallet: &mut Wallet) -> Prepared {
    let mut builder = builder_for(
        vec![payload("sudt", true, vec![0x5a; 500])],
        vec![group("sudt-group", &["sudt"])],
        vec![],
    );
    assert_eq!(run(&mut builder, wallet), BuildAction::Finished);
    assert!(builder.is_finished());
    builder.finish().unwrap()
}

fn fresh_wallet() -> Wallet {
    let mut wallet = Wallet::new();
    let seed = live(0x01, 0, 10_000_000);
    wallet.collectible = vec![seed];
    wallet.ledger = vec![(
        seed.out_point(),
        CellOutput { capacity: 10_000_000, lock: wallet_lock(), type_: None },
    )];
    wallet
}

#[test]
fn one_cell_and_its_group_make_two_transactions() {
    let mut wallet = fresh_wallet();
    let prepared = sudt_batch(&mut wallet);
    assert_eq!(
        wallet.log,
        vec!["collect 1", "reserve 1", "query", "complete", "reserve 1", "complete"]
    );
    assert_eq!(wallet.fees, vec![1000, 1000]);
    assert_eq!(prepared.txs.len(), 2);
    assert_eq!(prepared.recipe.cell_recipes.len(), 1);
    assert_eq!(prepared.recipe.dep_group_recipes.len(), 1);

    let cell = &prepared.recipe.cell_recipes[0];
    assert_eq!(cell.name, "sudt");
    assert_eq!(cell.index, 0);
    assert_eq!(cell.tx_hash, prepared.txs[0].hash);
    // 8 + 500 + (33 + 20) + (33 + 32)
    assert_eq!(cell.occupied_capacity, 62_600_000_000);
    assert_eq!(prepared.txs[0].outputs[0].capacity, 62_600_000_000);
    assert_eq!(prepared.txs[0].outputs_data[0], vec![0x5a; 500]);
    assert_eq!(prepared.txs[0].outputs[0].lock, deployer_lock());

    let type_script = prepared.txs[0].outputs[0].type_.clone().unwrap();
    assert!(is_type_id_script(&type_script));
    let seed_input = live(0x01, 0, 10_000_000).input();
    assert_eq!(prepared.txs[0].inputs[0], seed_input);
    assert_eq!(type_script, build_type_id_script(&seed_input, 0));
    let want_type_id: [u8; 32] = pack_script(&type_script).calc_script_hash().unpack();
    assert_eq!(cell.type_id, Some(H256::new(want_type_id)));
    assert_ne!(cell.type_id, Some(H256::zero()));

    let group = &prepared.recipe.dep_group_recipes[0];
    assert_eq!(group.name, "sudt-group");
    assert_eq!(group.index, 0);
    assert_eq!(group.tx_hash, prepared.txs[1].hash);
    // 8 + (4 + 36) + (33 + 20)
    assert_eq!(group.occupied_capacity, 10_100_000_000);
    assert_eq!(prepared.txs[1].outputs[0].type_, None);
    assert_eq!(
        read_out_points(&prepared.txs[1].outputs_data[0]),
        Some(vec![OutPoint { tx_hash: prepared.txs[0].hash, index: 0 }])
    );
    let decoded = packed::OutPointVec::from_slice(&prepared.txs[1].outputs_data[0]).unwrap();
    assert_eq!(decoded.len(), 1);
    let hash: [u8; 32] = decoded.get(0).unwrap().tx_hash().unpack();
    let index: u32 = decoded.get(0).unwrap().index().unpack();
    assert_eq!(hash, prepared.txs[0].hash.bytes);
    assert_eq!(index, 0);
}

#[test]
fn type_id_is_stable_over_a_rebuild() {
    let first = sudt_batch(&mut fresh_wallet());
    let second = sudt_batch(&mut fresh_wallet());
    assert!(first.recipe.cell_recipes[0].type_id.is_some());
    assert_eq!(first.recipe.cell_recipes[0].type_id, second.recipe.cell_recipes[0].type_id);
    assert_eq!(first.recipe, second.recipe);
    assert_eq!(first.txs, second.txs);
}

#[test]
fn nothing_to_deploy_is_finished_at_once() {
    let mut wallet = Wallet::new();
    let mut builder = builder_for(vec![], vec![], vec![]);
    assert!(!builder.is_finished());
    assert_eq!(run(&mut builder, &mut wallet), BuildAction::Finished);
    assert!(wallet.log.is_empty());
    let prepared = builder.finish().unwrap();
    assert!(prepared.recipe.cell_recipes.is_empty());
    assert!(prepared.recipe.dep_group_recipes.is_empty());
    assert!(prepared.txs.is_empty());
}

#[test]
fn no_manifest_before_the_end() {
    let builder = builder_for(vec![], vec![], vec![]);
    assert_eq!(builder.finish(), None);
    let mut started = builder_for(vec![payload("a", false, vec![1])], vec![], vec![]);
    assert!(matches!(started.step(BuildEvent::Start), BuildAction::Complete { .. }));
    assert!(!started.is_finished());
    assert_eq!(started.finish(), None);
}

#[test]
fn cell_without_type_id_has_none() {
    let mut wallet = Wallet::new();
    let mut builder = builder_for(vec![payload("plain", false, vec![1, 2, 3])], vec![], vec![]);
    assert_eq!(run(&mut builder, &mut wallet), BuildAction::Finished);
    assert_eq!(wallet.log, vec!["complete"]);
    let prepared = builder.finish().unwrap();
    assert_eq!(prepared.recipe.cell_recipes[0].type_id, None);
    assert_eq!(prepared.txs[0].outputs[0].type_, None);
    assert!(wallet.requests[0].draft.inputs.is_empty());
    assert_eq!(wallet.requests[0].inputs_capacity, 0);
    // 8 + 3 + 53
    assert_eq!(prepared.recipe.cell_recipes[0].occupied_capacity, 6_400_000_000);
}

#[test]
fn change_of_one_transaction_funds_the_next() {
    let mut wallet = Wallet::new();
    let mut builder = builder_for(
        vec![payload("a", false, vec![1]), payload("b", false, vec![2])],
        vec![group("g", &["b", "a"])],
        vec![],
    );
    assert_eq!(run(&mut builder, &mut wallet), BuildAction::Finished);
    assert_eq!(
        wallet.log,
        vec!["complete", "reserve 1", "complete", "reserve 1", "complete"]
    );
    let prepared = builder.finish().unwrap();
    assert_eq!(prepared.txs.len(), 3);
    let change_of = |tx: &TransactionRecord| LiveCell {
        tx_hash: tx.hash,
        index: 1,
        capacity: 77,
        mature: true,
    };
    assert_eq!(wallet.requests[1].draft.inputs, vec![change_of(&prepared.txs[0]).input()]);
    assert_eq!(wallet.requests[1].inputs_capacity, 77);
    assert_eq!(wallet.requests[2].draft.inputs, vec![change_of(&prepared.txs[1]).input()]);
    assert_eq!(
        wallet.reserved,
        vec![change_of(&prepared.txs[0]).out_point(), change_of(&prepared.txs[1]).out_point()]
    );
    assert_eq!(prepared.txs[1].inputs[0].previous_output.tx_hash, prepared.txs[0].hash);
    assert_eq!(prepared.txs[2].inputs[0].previous_output.tx_hash, prepared.txs[1].hash);
    assert_eq!(
        read_out_points(&prepared.txs[2].outputs_data[0]),
        Some(vec![
            OutPoint { tx_hash: prepared.txs[1].hash, index: 0 },
            OutPoint { tx_hash: prepared.txs[0].hash, index: 0 },
        ])
    );
}

#[test]
fn transaction_without_change_offers_none() {
    let mut wallet = Wallet::new();
    wallet.change_capacity = None;
    let mut builder = builder_for(
        vec![payload("a", false, vec![1]), payload("b", false, vec![2])],
        vec![],
        vec![],
    );
    assert_eq!(run(&mut builder, &mut wallet), BuildAction::Finished);
    assert_eq!(wallet.log, vec!["complete", "complete"]);
    assert!(wallet.requests[1].draft.inputs.is_empty());
    assert!(wallet.reserved.is_empty());
}

#[test]
fn pre_selected_input_comes_before_the_change() {
    let mut wallet = Wallet::new();
    let chosen = live(0x33, 4, 500);
    let pre_inputs = vec![
        PreInput { name: "b".to_string(), cell: chosen, lock: wallet_lock() },
        PreInput { name: "b".to_string(), cell: live(0x44, 0, 1), lock: wallet_lock() },
    ];
    let mut builder = builder_for(
        vec![payload("a", false, vec![1]), payload("b", false, vec![2])],
        vec![],
        pre_inputs,
    );
    assert_eq!(run(&mut builder, &mut wallet), BuildAction::Finished);
    assert_eq!(wallet.log, vec!["complete", "reserve 2", "complete"]);
    let builder_reserved: Vec<OutPoint> = builder.reserved()[1..].to_vec();
    let prepared = builder.finish().unwrap();
    let change = OutPoint { tx_hash: prepared.txs[0].hash, index: 1 };
    assert_eq!(wallet.reserved, vec![chosen.out_point(), change]);
    assert_eq!(&builder_reserved[..2], &[chosen.out_point(), change][..]);
    assert_eq!(wallet.requests[1].inputs_capacity, 577);
    assert_eq!(wallet.requests[1].draft.inputs[0], chosen.input());
    assert_eq!(wallet.requests[1].draft.inputs[1].previous_output, change);
}

#[test]
fn redeployed_cell_keeps_its_type_id() {
    let mut wallet = Wallet::new();
    let old = live(0x55, 0, 9_000);
    let old_type = build_type_id_script(&live(0x99, 7, 1).input(), 0);
    wallet.ledger.push((
        old.out_point(),
        CellOutput { capacity: 9_000, lock: wallet_lock(), type_: Some(old_type.clone()) },
    ));
    let pre_inputs = vec![PreInput { name: "sudt".to_string(), cell: old, lock: wallet_lock() }];
    let mut builder = builder_for(vec![payload("sudt", true, vec![1; 64])], vec![], pre_inputs);
    assert_eq!(run(&mut builder, &mut wallet), BuildAction::Finished);
    assert_eq!(wallet.log, vec!["reserve 1", "query", "complete"]);
    let prepared = builder.finish().unwrap();
    assert_eq!(prepared.txs[0].outputs[0].type_, Some(old_type.clone()));
    let prior: [u8; 32] = pack_script(&old_type).calc_script_hash().unpack();
    assert_eq!(prepared.recipe.cell_recipes[0].type_id, Some(H256::new(prior)));
    assert_ne!(old_type, build_type_id_script(&old.input(), 0));
}

#[test]
fn other_type_script_on_the_input_is_not_inherited() {
    let mut wallet = Wallet::new();
    let old = live(0x55, 0, 9_000);
    wallet.ledger.push((
        old.out_point(),
        CellOutput { capacity: 9_000, lock: wallet_lock(), type_: Some(script(0x12, vec![])) },
    ));
    let pre_inputs = vec![PreInput { name: "sudt".to_string(), cell: old, lock: wallet_lock() }];
    let mut builder = builder_for(vec![payload("sudt", true, vec![1; 64])], vec![], pre_inputs);
    assert_eq!(run(&mut builder, &mut wallet), BuildAction::Finished);
    let prepared = builder.finish().unwrap();
    assert_eq!(
        prepared.txs[0].outputs[0].type_,
        Some(build_type_id_script(&old.input(), 0))
    );
}

#[test]
fn type_id_needs_an_input() {
    let mut wallet = Wallet::new();
    let mut builder = builder_for(vec![payload("sudt", true, vec![1])], vec![], vec![]);
    assert_eq!(run(&mut builder, &mut wallet), BuildAction::Failed(DeployError::NoFundingInput));
    assert_eq!(wallet.log, vec!["collect 1"]);
    assert_eq!(builder.finish(), None);
}

#[test]
fn unknown_funding_output_fails() {
    let mut wallet = Wallet::new();
    wallet.collectible = vec![live(0x01, 0, 5)];
    let mut builder = builder_for(vec![payload("sudt", true, vec![1])], vec![], vec![]);
    assert_eq!(
        run(&mut builder, &mut wallet),
        BuildAction::Failed(DeployError::FundingOutputNotFound)
    );
    assert_eq!(wallet.log, vec!["collect 1", "reserve 1", "query"]);
}

#[test]
fn overflowing_inputs_fail() {
    let pre_inputs = vec![PreInput {
        name: "b".to_string(),
        cell: live(0x33, 0, u64::MAX),
        lock: wallet_lock(),
    }];
    let mut wallet = Wallet::new();
    let mut builder = builder_for(
        vec![payload("a", false, vec![1]), payload("b", false, vec![2])],
        vec![],
        pre_inputs,
    );
    assert_eq!(run(&mut builder, &mut wallet), BuildAction::Failed(DeployError::CapacityOverflow));
    assert_eq!(wallet.log, vec!["complete", "reserve 2"]);
}

#[test]
fn group_of_an_unknown_cell_fails() {
    let mut wallet = Wallet::new();
    let mut builder = builder_for(
        vec![payload("a", false, vec![1])],
        vec![group("g", &["a", "missing", "also-missing"])],
        vec![],
    );
    assert_eq!(
        run(&mut builder, &mut wallet),
        BuildAction::Failed(DeployError::CellNotFound {
            name: "missing".to_string(),
            dep_group: "g".to_string(),
        })
    );
    assert_eq!(builder.finish(), None);
}

#[test]
fn group_may_name_a_cell_on_the_ledger() {
    let mut wallet = Wallet::new();
    let on_chain = Cell {
        name: "secp".to_string(),
        location: CellLocation::OutPoint { tx_hash: H256::new([0x77; 32]), index: 3 },
        enable_type_id: false,
    };
    let a = payload("a", false, vec![1]);
    let mut builder = RecipeBuilder::new(
        deployer_lock(),
        vec![on_chain, a.cell.clone()],
        vec![a],
        vec![group("g", &["secp", "a"])],
        vec![],
        wallet_lock(),
        5,
    );
    assert_eq!(run(&mut builder, &mut wallet), BuildAction::Finished);
    let prepared = builder.finish().unwrap();
    assert_eq!(prepared.txs.len(), 2);
    assert_eq!(
        read_out_points(&prepared.txs[1].outputs_data[0]),
        Some(vec![
            OutPoint { tx_hash: H256::new([0x77; 32]), index: 3 },
            OutPoint { tx_hash: prepared.txs[0].hash, index: 0 },
        ])
    );
}

#[test]
fn declared_file_cell_without_recipe_is_not_found() {
    let mut wallet = Wallet::new();
    let mut builder = RecipeBuilder::new(
        deployer_lock(),
        vec![file_cell("a", false)],
        vec![],
        vec![group("g", &["a"])],
        vec![],
        wallet_lock(),
        5,
    );
    assert_eq!(
        run(&mut builder, &mut wallet),
        BuildAction::Failed(DeployError::CellNotFound {
            name: "a".to_string(),
            dep_group: "g".to_string(),
        })
    );
}

fn completed_with(change: impl Fn(&mut TransactionRecord)) -> BuildAction {
    let mut wallet = Wallet::new();
    let pre_inputs = vec![PreInput { name: "a".to_string(), cell: live(3, 0, 9), lock: wallet_lock() }];
    let mut builder = builder_for(vec![payload("a", false, vec![1])], vec![], pre_inputs);
    assert!(matches!(builder.step(BuildEvent::Start), BuildAction::Reserve(_)));
    let action = builder.step(BuildEvent::Reserved);
    let request = match action {
        BuildAction::Complete { request, .. } => request,
        other => panic!("unexpected {:?}", other),
    };
    let mut tx = wallet.complete(&request);
    change(&mut tx);
    builder.step(BuildEvent::Completed(tx))
}

#[test]
fn completion_must_keep_the_draft() {
    let mismatch = BuildAction::Failed(DeployError::CompletionMismatch);
    assert_eq!(completed_with(|_| {}), BuildAction::Finished);
    assert_eq!(completed_with(|tx| tx.outputs[0].capacity += 1), mismatch);
    assert_eq!(completed_with(|tx| tx.outputs[0].lock = wallet_lock()), mismatch);
    assert_eq!(completed_with(|tx| tx.outputs[0].type_ = Some(script(1, vec![]))), mismatch);
    assert_eq!(completed_with(|tx| tx.outputs_data[0] = vec![2]), mismatch);
    assert_eq!(completed_with(|tx| tx.inputs.swap(0, 1)), mismatch);
    assert_eq!(completed_with(|tx| tx.inputs.clear()), mismatch);
    assert_eq!(completed_with(|tx| tx.inputs[0].since = 1), mismatch);
    assert_eq!(completed_with(|tx| tx.outputs_data.push(vec![])), mismatch);
    assert_eq!(
        completed_with(|tx| {
            tx.outputs.clear();
            tx.outputs_data.clear();
        }),
        mismatch
    );
    assert_eq!(completed_with(|tx| tx.outputs.swap(0, 1)), mismatch);
    assert_eq!(completed_with(|tx| tx.hash = H256::zero()), BuildAction::Finished);
}

#[test]
fn answer_that_was_not_asked_for_ends_the_run() {
    let unexpected = BuildAction::Failed(DeployError::UnexpectedEvent);
    let mut idle = builder_for(vec![payload("a", false, vec![1])], vec![], vec![]);
    assert_eq!(idle.step(BuildEvent::Reserved), unexpected);
    assert_eq!(idle.step(BuildEvent::Start), unexpected);
    assert_eq!(idle.finish(), None);

    let mut completing = builder_for(vec![payload("a", false, vec![1])], vec![], vec![]);
    assert!(matches!(completing.step(BuildEvent::Start), BuildAction::Complete { .. }));
    assert_eq!(completing.step(BuildEvent::Collected(vec![])), unexpected);

    let mut collecting = builder_for(vec![payload("a", true, vec![1])], vec![], vec![]);
    assert_eq!(collecting.step(BuildEvent::Start), BuildAction::Collect { min_capacity: 1 });
    assert_eq!(collecting.step(BuildEvent::FundingOutput(None)), unexpected);

    let mut querying = builder_for(vec![payload("a", true, vec![1])], vec![], vec![]);
    assert_eq!(querying.step(BuildEvent::Start), BuildAction::Collect { min_capacity: 1 });
    assert_eq!(
        querying.step(BuildEvent::Collected(vec![live(1, 2, 3)])),
        BuildAction::Reserve(vec![live(1, 2, 3).out_point()])
    );
    assert_eq!(
        querying.step(BuildEvent::Reserved),
        BuildAction::QueryFunding(live(1, 2, 3).out_point())
    );
    assert_eq!(querying.step(BuildEvent::Reserved), unexpected);
}

#[test]
fn finished_run_stays_finished() {
    let mut builder = builder_for(vec![], vec![], vec![]);
    assert_eq!(builder.step(BuildEvent::Start), BuildAction::Finished);
    assert_eq!(builder.step(BuildEvent::Start), BuildAction::Finished);
    assert_eq!(builder.step(BuildEvent::Reserved), BuildAction::Finished);
    assert!(builder.finish().is_some());
}

#[test]
fn failed_run_repeats_its_error() {
    let mut builder = builder_for(vec![payload("a", true, vec![1])], vec![], vec![]);
    assert_eq!(builder.step(BuildEvent::Start), BuildAction::Collect { min_capacity: 1 });
    let failed = BuildAction::Failed(DeployError::NoFundingInput);
    assert_eq!(builder.step(BuildEvent::Collected(vec![])), failed);
    assert_eq!(builder.step(BuildEvent::Start), failed);
    assert_eq!(builder.step(BuildEvent::Collected(vec![live(1, 1, 1)])), failed);
}

#[test]
fn process_checks_pre_inputs_before_it_builds() {
    let config = Deployment {
        lock: deployer_lock(),
        cells: vec![file_cell("a", false)],
        dep_groups: vec![group("g", &["a"])],
    };
    let process = DeploymentProcess::new(config, wallet_lock(), 1000);
    let bad = vec![
        PreInput { name: "a".to_string(), cell: live(1, 0, 5), lock: wallet_lock() },
        PreInput { name: "g".to_string(), cell: live(2, 0, 5), lock: deployer_lock() },
        PreInput { name: "h".to_string(), cell: live(3, 0, 5), lock: deployer_lock() },
    ];
    let refused = process.prepare_recipe(bad.clone(), vec![vec![1]]);
    assert_eq!(
        refused.err(),
        Some(DeployError::LockMismatch { name: "g".to_string(), lock: deployer_lock() })
    );
    // the locks are checked before the payloads are counted
    assert_eq!(
        process.prepare_recipe(bad, vec![]).err(),
        Some(DeployError::LockMismatch { name: "g".to_string(), lock: deployer_lock() })
    );

    let good = vec![PreInput { name: "a".to_string(), cell: live(1, 0, 5), lock: wallet_lock() }];
    let mut builder = process.prepare_recipe(good, vec![vec![1]]).unwrap();
    let mut wallet = Wallet::new();
    assert_eq!(run(&mut builder, &mut wallet), BuildAction::Finished);
    assert_eq!(wallet.fees, vec![1000, 1000]);
    let prepared = builder.finish().unwrap();
    assert_eq!(prepared.txs[0].outputs_data[0], vec![1]);
    assert_eq!(prepared.txs[1].outputs[0].lock, deployer_lock());
    assert_eq!(prepared.recipe.dep_group_recipes[0].name, "g");
}

#[test]
fn process_pairs_each_file_cell_with_its_payload() {
    let on_ledger = Cell {
        name: "secp".to_string(),
        location: CellLocation::OutPoint { tx_hash: H256::new([0x77; 32]), index: 3 },
        enable_type_id: false,
    };
    let b = file_cell("b", false);
    let config = Deployment {
        lock: deployer_lock(),
        cells: vec![file_cell("a", false), on_ledger, b.clone()],
        dep_groups: vec![group("g", &["b", "secp", "a"])],
    };
    let process = DeploymentProcess::new(config, wallet_lock(), 9);
    assert_eq!(process.deployable_cells(), vec![file_cell("a", false), b]);

    assert_eq!(
        process.prepare_recipe(vec![], vec![vec![1]]).err(),
        Some(DeployError::PayloadMismatch)
    );
    assert_eq!(
        process.prepare_recipe(vec![], vec![vec![1], vec![2], vec![3]]).err(),
        Some(DeployError::PayloadMismatch)
    );
    assert_eq!(process.prepare_recipe(vec![], vec![]).err(), Some(DeployError::PayloadMismatch));

    let mut builder = process.prepare_recipe(vec![], vec![vec![0xa], vec![0xb, 0xb]]).unwrap();
    let mut wallet = Wallet::new();
    assert_eq!(run(&mut builder, &mut wallet), BuildAction::Finished);
    let prepared = builder.finish().unwrap();
    assert_eq!(prepared.recipe.cell_recipes[0].name, "a");
    assert_eq!(prepared.txs[0].outputs_data[0], vec![0xa]);
    assert_eq!(prepared.recipe.cell_recipes[1].name, "b");
    assert_eq!(prepared.txs[1].outputs_data[0], vec![0xb, 0xb]);
    // the deployment's lock guards cells and groups, the wallet's the change
    for tx in &prepared.txs {
        assert_eq!(tx.outputs[0].lock, deployer_lock());
        assert_ne!(tx.outputs[0].lock, wallet_lock());
        assert_eq!(tx.outputs[1].lock, wallet_lock());
    }
    assert_eq!(
        read_out_points(&prepared.txs[2].outputs_data[0]),
        Some(vec![
            OutPoint { tx_hash: prepared.txs[1].hash, index: 0 },
            OutPoint { tx_hash: H256::new([0x77; 32]), index: 3 },
            OutPoint { tx_hash: prepared.txs[0].hash, index: 0 },
        ])
    );
}

#[test]
fn second_cell_with_type_id_is_seeded_by_unconfirmed_change() {
    let mut wallet = fresh_wallet();
    let mut builder = builder_for(
        vec![payload("a", true, vec![1; 10]), payload("b", true, vec![2; 20])],
        vec![group("g", &["a", "b"])],
        vec![],
    );
    assert_eq!(run(&mut builder, &mut wallet), BuildAction::Finished);
    // the ledger is asked about the collected seed only, never about the
    // change of a transaction that was not sent
    assert_eq!(
        wallet.log,
        vec![
            "collect 1", "reserve 1", "query", "complete", "reserve 1", "complete", "reserve 1",
            "complete"
        ]
    );
    assert_eq!(wallet.ledger.len(), 1);
    let prepared = builder.finish().unwrap();
    assert_eq!(prepared.txs.len(), 3);

    let change = LiveCell { tx_hash: prepared.txs[0].hash, index: 1, capacity: 77, mature: true };
    assert_eq!(prepared.txs[1].inputs[0], change.input());
    let fresh = build_type_id_script(&change.input(), 0);
    assert_eq!(prepared.txs[1].outputs[0].type_, Some(fresh.clone()));
    assert_eq!(wallet.requests[1].draft.output.type_, Some(fresh.clone()));
    assert_eq!(wallet.requests[1].draft.inputs, vec![change.input()]);
    let want: [u8; 32] = pack_script(&fresh).calc_script_hash().unpack();
    assert_eq!(prepared.recipe.cell_recipes[1].type_id, Some(H256::new(want)));
    assert_ne!(prepared.recipe.cell_recipes[0].type_id, prepared.recipe.cell_recipes[1].type_id);
    // 8 + 20 + (33 + 20) + (33 + 32)
    assert_eq!(prepared.recipe.cell_recipes[1].occupied_capacity, 14_600_000_000);
}

#[test]
fn lowest_change_seeds_the_type_id() {
    let mut builder = builder_for(
        vec![payload("a", false, vec![1]), payload("b", true, vec![2])],
        vec![],
        vec![],
    );
    let request = match builder.step(BuildEvent::Start) {
        BuildAction::Complete { request, .. } => request,
        other => panic!("unexpected {:?}", other),
    };
    let other_lock = script(0x31, vec![]);
    let tx = TransactionRecord {
        hash: H256::new([0xcc; 32]),
        inputs: vec![live(9, 9, 9).input()],
        outputs: vec![
            request.draft.output.clone(),
            CellOutput { capacity: 10, lock: other_lock, type_: None },
            CellOutput { capacity: 20, lock: wallet_lock(), type_: Some(script(1, vec![])) },
            CellOutput { capacity: 30, lock: wallet_lock(), type_: None },
            CellOutput { capacity: 40, lock: wallet_lock(), type_: None },
        ],
        outputs_data: vec![request.draft.output_data.clone(), vec![], vec![], vec![], vec![]],
    };
    let lowest = LiveCell { tx_hash: H256::new([0xcc; 32]), index: 3, capacity: 30, mature: true };
    let next = LiveCell { tx_hash: H256::new([0xcc; 32]), index: 4, capacity: 40, mature: true };
    assert_eq!(
        builder.step(BuildEvent::Completed(tx)),
        BuildAction::Reserve(vec![lowest.out_point(), next.out_point()])
    );
    match builder.step(BuildEvent::Reserved) {
        BuildAction::Complete { request, tx_fee } => {
            assert_eq!(tx_fee, 1000);
            assert_eq!(request.inputs_capacity, 70);
            assert_eq!(request.draft.inputs, vec![lowest.input(), next.input()]);
            assert_eq!(
                request.draft.output.type_,
                Some(build_type_id_script(&lowest.input(), 0))
            );
        }
        other => panic!("unexpected {:?}", other),
    }
}

#[test]
fn pre_selected_input_is_asked_about_even_with_change() {
    let mut wallet = Wallet::new();
    let old = live(0x55, 0, 9_000);
    let old_type = build_type_id_script(&live(0x99, 7, 1).input(), 0);
    wallet.ledger.push((
        old.out_point(),
        CellOutput { capacity: 9_000, lock: wallet_lock(), type_: Some(old_type.clone()) },
    ));
    let pre_inputs = vec![PreInput { name: "b".to_string(), cell: old, lock: wallet_lock() }];
    let mut builder = builder_for(
        vec![payload("a", false, vec![1]), payload("b", true, vec![2])],
        vec![],
        pre_inputs,
    );
    assert_eq!(run(&mut builder, &mut wallet), BuildAction::Finished);
    assert_eq!(wallet.log, vec!["complete", "reserve 2", "query", "complete"]);
    let prepared = builder.finish().unwrap();
    assert_eq!(prepared.txs[1].outputs[0].type_, Some(old_type));
    assert_eq!(prepared.txs[1].inputs[0], old.input());
}

#[test]
fn overflowing_change_fails_the_seeded_cell() {
    let mut wallet = Wallet::new();
    wallet.change_capacity = Some(u64::MAX);
    let mut builder = builder_for(
        vec![payload("a", false, vec![1]), payload("b", true, vec![2])],
        vec![],
        vec![],
    );
    let request = match builder.step(BuildEvent::Start) {
        BuildAction::Complete { request, .. } => request,
        other => panic!("unexpected {:?}", other),
    };
    // two change outputs whose capacities do not fit in 64 bits together
    let mut tx = wallet.complete(&request);
    tx.outputs.push(CellOutput { capacity: 1, lock: wallet_lock(), type_: None });
    tx.outputs_data.push(vec![]);
    assert!(matches!(builder.step(BuildEvent::Completed(tx)), BuildAction::Reserve(_)));
    assert_eq!(
        builder.step(BuildEvent::Reserved),
        BuildAction::Failed(DeployError::CapacityOverflow)
    );
    assert_eq!(builder.finish(), None);
}

#[test]
fn every_input_of_the_batch_is_reserved() {
    let mut wallet = fresh_wallet();
    let mut builder = builder_for(
        vec![payload("sudt", true, vec![0x5a; 500])],
        vec![group("sudt-group", &["sudt"])],
        vec![],
    );
    assert!(builder.reserved().is_empty());
    assert_eq!(run(&mut builder, &mut wallet), BuildAction::Finished);
    let reserved = builder.reserved().clone();
    let prepared = builder.finish().unwrap();
    for tx in &prepared.txs {
        for input in &tx.inputs {
            assert!(reserved.contains(&input.previous_output));
        }
    }
    let seed = live(0x01, 0, 10_000_000).out_point();
    assert_eq!(reserved[0], seed);
    for point in &wallet.reserved {
        assert!(reserved.contains(point));
    }
    // asked for the seed, spent by the first transaction with one more
    // input, then the change, spent by the second with one more input
    assert_eq!(reserved.len(), 6);
}

#[test]
fn unresolved_group_fails_before_anything_is_asked() {
    let mut wallet = Wallet::new();
    let pre_inputs = vec![PreInput { name: "g".to_string(), cell: live(3, 0, 9), lock: wallet_lock() }];
    let mut builder = builder_for(vec![], vec![group("g", &["nowhere"])], pre_inputs.clone());
    assert_eq!(
        run(&mut builder, &mut wallet),
        BuildAction::Failed(DeployError::CellNotFound {
            name: "nowhere".to_string(),
            dep_group: "g".to_string(),
        })
    );
    assert!(wallet.log.is_empty());
    assert!(builder.reserved().is_empty());

    // after a cell: the cell's transaction is built, the group asks nothing
    let mut wallet = Wallet::new();
    let mut builder = builder_for(
        vec![payload("a", false, vec![1])],
        vec![group("g", &["a", "nowhere"])],
        pre_inputs.clone(),
    );
    assert_eq!(
        run(&mut builder, &mut wallet),
        BuildAction::Failed(DeployError::CellNotFound {
            name: "nowhere".to_string(),
            dep_group: "g".to_string(),
        })
    );
    assert_eq!(wallet.log, vec!["complete"]);
    assert!(wallet.reserved.is_empty());

    // a group whose names resolve reserves its inputs and is built
    let mut wallet = Wallet::new();
    let mut builder =
        builder_for(vec![payload("a", false, vec![1])], vec![group("g", &["a"])], pre_inputs);
    assert_eq!(run(&mut builder, &mut wallet), BuildAction::Finished);
    assert_eq!(wallet.log, vec!["complete", "reserve 2", "complete"]);
}

#[test]
fn wallet_failure_ends_the_run() {
    let failed = BuildAction::Failed(DeployError::WalletFailed);

    let mut completing = builder_for(vec![payload("a", false, vec![1])], vec![], vec![]);
    assert!(matches!(completing.step(BuildEvent::Start), BuildAction::Complete { .. }));
    assert_eq!(completing.step(BuildEvent::Failed), failed);
    assert_eq!(completing.step(BuildEvent::Start), failed);
    assert_eq!(completing.step(BuildEvent::Reserved), failed);
    assert!(!completing.is_finished());
    assert_eq!(completing.finish(), None);

    let mut collecting = builder_for(vec![payload("a", true, vec![1])], vec![], vec![]);
    assert_eq!(collecting.step(BuildEvent::Start), BuildAction::Collect { min_capacity: 1 });
    assert_eq!(collecting.step(BuildEvent::Failed), failed);
    assert_eq!(collecting.step(BuildEvent::Collected(vec![live(1, 1, 1)])), failed);

    let mut querying = builder_for(vec![payload("a", true, vec![1])], vec![], vec![]);
    assert_eq!(querying.step(BuildEvent::Start), BuildAction::Collect { min_capacity: 1 });
    assert!(matches!(
        querying.step(BuildEvent::Collected(vec![live(1, 2, 3)])),
        BuildAction::Reserve(_)
    ));
    assert!(matches!(querying.step(BuildEvent::Reserved), BuildAction::QueryFunding(_)));
    assert_eq!(querying.step(BuildEvent::Failed), failed);
    assert_eq!(querying.step(BuildEvent::FundingOutput(None)), failed);

    let pre_inputs = vec![PreInput { name: "a".to_string(), cell: live(3, 0, 9), lock: wallet_lock() }];
    let mut reserving = builder_for(vec![payload("a", false, vec![1])], vec![], pre_inputs);
    assert!(matches!(reserving.step(BuildEvent::Start), BuildAction::Reserve(_)));
    assert_eq!(reserving.step(BuildEvent::Failed), failed);
    assert_eq!(reserving.step(BuildEvent::Reserved), failed);

    // nothing was asked yet: a failure is not an answer to anything
    let mut idle = builder_for(vec![payload("a", false, vec![1])], vec![], vec![]);
    assert_eq!(idle.step(BuildEvent::Failed), BuildAction::Failed(DeployError::UnexpectedEvent));
}
