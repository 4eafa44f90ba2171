use deployment::change::search_changes;
use deployment::config::{
    deployable_cells, pair_payloads, Cell, CellLocation, CellPayload, DepGroup, PreInput,
};
use deployment::dep_group::{resolve_out_point, resolve_out_points};
use deployment::error::DeployError;
use deployment::lookup::{find_cell, find_pre_input, find_recipe};
use deployment::process::check_pre_inputs_unlockable;
use deployment::recipe::CellRecipe;
use deployment::transaction::{check_completion, gather_inputs, sum_capacity};
use deployment::types::{
    bytes_eq, CellInput, CellOutput, LiveCell, OutPoint, Script, TransactionDraft,
    TransactionRecord, H256,
};

fn script(code: u8, args: Vec<u8>) -> Script {
    Script { code_hash: H256::new([code; 32]), hash_type: 1, args }
}

fn out(capacity: u64, lock: &Script, type_: Option<Script>) -> CellOutput {
    CellOutput { capacity, lock: lock.clone(), type_ }
}

fn live(byte: u8, index: u32, capacity: u64) -> LiveCell {
    LiveCell { tx_hash: H256::new([byte; 32]), index, capacity, mature: true }
}

fn cell(name: &str, location: CellLocation) -> Cell {
    Cell { name: name.to_string(), location, enable_type_id: false }
}

fn file(name: &str) -> CellLocation {
    CellLocation::File { file: name.to_string() }
}

fn recipe(name: &str, tx: u8) -> CellRecipe {
    CellRecipe {
        name: name.to_string(),
        tx_hash: H256::new([tx; 32]),
        index: 0,
        occupied_capacity: 0,
        data_hash: H256::zero(),
        type_id: None,
    }
}

#[test]
fn change_is_wallet_locked_without_data_or_type() {
    let wallet = script(0xa0, vec![1]);
    let other = script(0xb0, vec![1]);
    let tx = TransactionRecord {
        hash: H256::new([0x42; 32]),
        inputs: vec![],
        outputs: vec![
            out(10, &other, None),
            out(20, &wallet, None),
            out(30, &wallet, None),
            out(40, &wallet, Some(script(3, vec![]))),
            out(50, &wallet, None),
            out(60, &script(0xa0, vec![2]), None),
        ],
        outputs_data: vec![vec![], vec![], vec![0], vec![], vec![], vec![]],
    };
    assert_eq!(
        search_changes(&tx, &wallet),
        vec![
            LiveCell { tx_hash: H256::new([0x42; 32]), index: 1, capacity: 20, mature: true },
            LiveCell { tx_hash: H256::new([0x42; 32]), index: 4, capacity: 50, mature: true },
        ]
    );
    assert_eq!(search_changes(&tx, &script(0xc0, vec![])), vec![]);
}

#[test]
fn output_without_its_data_is_not_read() {
    let wallet = script(0xa0, vec![]);
    let tx = TransactionRecord {
        hash: H256::new([1; 32]),
        inputs: vec![],
        outputs: vec![out(1, &wallet, None), out(2, &wallet, None)],
        outputs_data: vec![vec![]],
    };
    assert_eq!(search_changes(&tx, &wallet).len(), 1);
    let no_outputs = TransactionRecord {
        hash: H256::new([1; 32]),
        inputs: vec![],
        outputs: vec![],
        outputs_data: vec![vec![]],
    };
    assert!(search_changes(&no_outputs, &wallet).is_empty());
}

#[test]
fn principal_output_under_the_wallet_lock_counts_as_change() {
    let wallet = script(0xa0, vec![]);
    let tx = TransactionRecord {
        hash: H256::new([1; 32]),
        inputs: vec![],
        outputs: vec![out(7, &wallet, None)],
        outputs_data: vec![vec![]],
    };
    assert_eq!(search_changes(&tx, &wallet), vec![live(1, 0, 7)]);
}

#[test]
fn inputs_are_the_pre_selected_one_and_the_change() {
    let lock = script(1, vec![]);
    let pre = vec![
        PreInput { name: "x".to_string(), cell: live(1, 0, 1), lock: lock.clone() },
        PreInput { name: "y".to_string(), cell: live(2, 0, 2), lock: lock.clone() },
        PreInput { name: "x".to_string(), cell: live(3, 0, 3), lock },
    ];
    let change = vec![live(8, 1, 80), live(8, 2, 90)];
    assert_eq!(
        gather_inputs(&pre, &"x".to_string(), &change),
        vec![live(1, 0, 1), live(8, 1, 80), live(8, 2, 90)]
    );
    assert_eq!(gather_inputs(&pre, &"z".to_string(), &change), change);
    assert_eq!(gather_inputs(&pre, &"y".to_string(), &vec![]), vec![live(2, 0, 2)]);
    assert_eq!(gather_inputs(&vec![], &"y".to_string(), &vec![]), vec![]);
    assert_eq!(find_pre_input(&pre, &"x".to_string()), Some(0));
    assert_eq!(find_pre_input(&pre, &"y".to_string()), Some(1));
    assert_eq!(find_pre_input(&pre, &"".to_string()), None);
}

#[test]
fn capacity_is_summed_with_care() {
    assert_eq!(sum_capacity(&vec![]), Some(0));
    assert_eq!(sum_capacity(&vec![live(1, 0, 5), live(1, 1, 7)]), Some(12));
    assert_eq!(sum_capacity(&vec![live(1, 0, u64::MAX)]), Some(u64::MAX));
    assert_eq!(sum_capacity(&vec![live(1, 0, u64::MAX), live(1, 1, 0)]), Some(u64::MAX));
    assert_eq!(sum_capacity(&vec![live(1, 0, 1), live(1, 1, u64::MAX), live(1, 2, 0)]), None);
}

#[test]
fn only_file_cells_are_deployed() {
    let cells = vec![
        cell("a", file("a.bin")),
        cell("b", CellLocation::OutPoint { tx_hash: H256::new([1; 32]), index: 0 }),
        cell("c", file("c.bin")),
    ];
    let picked = deployable_cells(&cells);
    assert_eq!(picked, vec![cells[0].clone(), cells[2].clone()]);
    assert_eq!(deployable_cells(&vec![]), vec![]);
    assert_eq!(deployable_cells(&vec![cells[1].clone()]), vec![]);

    assert_eq!(
        pair_payloads(&cells, &vec![vec![1], vec![2, 2]]),
        Some(vec![
            CellPayload { cell: cells[0].clone(), data: vec![1] },
            CellPayload { cell: cells[2].clone(), data: vec![2, 2] },
        ])
    );
    assert_eq!(pair_payloads(&cells, &vec![vec![1]]), None);
    assert_eq!(pair_payloads(&cells, &vec![vec![1], vec![2], vec![3]]), None);
    assert_eq!(pair_payloads(&vec![], &vec![]), Some(vec![]));
    assert_eq!(pair_payloads(&vec![cells[1].clone()], &vec![vec![1]]), None);
}

#[test]
fn names_resolve_to_recipes_or_declared_out_points() {
    let cells = vec![
        cell("a", file("a.bin")),
        cell("b", CellLocation::OutPoint { tx_hash: H256::new([0xb0; 32]), index: 9 }),
        cell("c", file("c.bin")),
        cell("a", CellLocation::OutPoint { tx_hash: H256::new([0xee; 32]), index: 1 }),
    ];
    let recipes = vec![recipe("a", 0xa1), recipe("a", 0xa2), recipe("b", 0xbb)];
    let a = OutPoint { tx_hash: H256::new([0xa1; 32]), index: 0 };
    let b = OutPoint { tx_hash: H256::new([0xb0; 32]), index: 9 };
    assert_eq!(resolve_out_point(&cells, &recipes, &"a".to_string()), Some(a));
    assert_eq!(resolve_out_point(&cells, &recipes, &"b".to_string()), Some(b));
    assert_eq!(resolve_out_point(&cells, &recipes, &"c".to_string()), None);
    assert_eq!(resolve_out_point(&cells, &recipes, &"d".to_string()), None);
    assert_eq!(find_cell(&cells, &"a".to_string()), Some(0));
    assert_eq!(find_cell(&cells, &"c".to_string()), Some(2));
    assert_eq!(find_cell(&cells, &"d".to_string()), None);
    assert_eq!(find_recipe(&recipes, &"a".to_string()), Some(0));
    assert_eq!(find_recipe(&recipes, &"b".to_string()), Some(2));
    assert_eq!(find_recipe(&recipes, &"c".to_string()), None);

    let group = |names: &[&str]| DepGroup {
        name: "g".to_string(),
        cells: names.iter().map(|n| n.to_string()).collect(),
    };
    assert_eq!(resolve_out_points(&group(&["b", "a", "b"]), &cells, &recipes), Ok(vec![b, a, b]));
    assert_eq!(resolve_out_points(&group(&[]), &cells, &recipes), Ok(vec![]));
    assert_eq!(
        resolve_out_points(&group(&["a", "d", "c"]), &cells, &recipes),
        Err(DeployError::CellNotFound { name: "d".to_string(), dep_group: "g".to_string() })
    );
    assert_eq!(
        resolve_out_points(&group(&["c"]), &cells, &recipes),
        Err(DeployError::CellNotFound { name: "c".to_string(), dep_group: "g".to_string() })
    );
}

#[test]
fn pre_inputs_must_be_under_the_wallet_lock() {
    let wallet = script(0xa0, vec![1]);
    let ok = PreInput { name: "a".to_string(), cell: live(1, 0, 1), lock: wallet.clone() };
    let bad = PreInput { name: "b".to_string(), cell: live(2, 0, 1), lock: script(0xa0, vec![2]) };
    let worse = PreInput { name: "c".to_string(), cell: live(3, 0, 1), lock: script(0xa1, vec![1]) };
    assert_eq!(check_pre_inputs_unlockable(&vec![], &wallet), Ok(()));
    assert_eq!(check_pre_inputs_unlockable(&vec![ok.clone(), ok.clone()], &wallet), Ok(()));
    assert_eq!(
        check_pre_inputs_unlockable(&vec![ok.clone(), bad.clone(), worse.clone()], &wallet),
        Err(DeployError::LockMismatch { name: "b".to_string(), lock: script(0xa0, vec![2]) })
    );
    assert_eq!(
        check_pre_inputs_unlockable(&vec![worse, bad, ok], &wallet),
        Err(DeployError::LockMismatch { name: "c".to_string(), lock: script(0xa1, vec![1]) })
    );
    let by_type = PreInput {
        name: "t".to_string(),
        cell: live(1, 0, 1),
        lock: Script { code_hash: H256::new([0xa0; 32]), hash_type: 0, args: vec![1] },
    };
    assert_eq!(
        check_pre_inputs_unlockable(&vec![by_type.clone()], &wallet),
        Err(DeployError::LockMismatch { name: "t".to_string(), lock: by_type.lock })
    );
}

#[test]
fn completion_keeps_inputs_first_and_the_artifact_at_index_zero() {
    let lock = script(1, vec![]);
    let input = |b: u8| CellInput {
        previous_output: OutPoint { tx_hash: H256::new([b; 32]), index: 0 },
        since: 0,
    };
    let draft = TransactionDraft {
        inputs: vec![input(1), input(2)],
        output: out(5, &lock, None),
        output_data: vec![9],
    };
    let tx = TransactionRecord {
        hash: H256::zero(),
        inputs: vec![input(1), input(2), input(3)],
        outputs: vec![out(5, &lock, None), out(6, &lock, None)],
        outputs_data: vec![vec![9], vec![]],
    };
    assert!(check_completion(&draft, &tx));
    let mut same = tx.clone();
    same.inputs.pop();
    same.outputs.pop();
    same.outputs_data.pop();
    assert!(check_completion(&draft, &same));
    let mut short = tx.clone();
    short.inputs.truncate(1);
    assert!(!check_completion(&draft, &short));
    let mut reordered = tx.clone();
    reordered.inputs.swap(0, 1);
    assert!(!check_completion(&draft, &reordered));
    let mut moved = tx.clone();
    moved.outputs.swap(0, 1);
    assert!(!check_completion(&draft, &moved));
    let mut unpaired = tx.clone();
    unpaired.outputs_data.pop();
    assert!(!check_completion(&draft, &unpaired));
    let no_inputs = TransactionDraft { inputs: vec![], ..draft.clone() };
    assert!(check_completion(&no_inputs, &tx));
}

#[test]
fn bytes_are_compared_by_content() {
    assert!(bytes_eq(&vec![], &vec![]));
    assert!(bytes_eq(&vec![1, 2], &vec![1, 2]));
    assert!(!bytes_eq(&vec![1, 2], &vec![1, 3]));
    assert!(!bytes_eq(&vec![1, 2], &vec![1]));
    assert!(H256::new([3; 32]).equals(&H256::new([3; 32])));
    let mut other = [3u8; 32];
    other[31] = 4;
    assert!(!H256::new([3; 32]).equals(&H256::new(other)));
    assert_eq!(H256::new(other).to_vec(), other.to_vec());
    let s = script(1, vec![1, 2, 3]);
    assert_eq!(s.copy(), s);
    assert!(s.equals(&s.copy()));
    assert!(!s.equals(&script(1, vec![1, 2])));
}
