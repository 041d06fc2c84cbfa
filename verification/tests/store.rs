use exo::cell::{Cell, CellStatus, ResultSet};
use exo::cells::Cells;

fn store_of(ids: &[u128]) -> Cells {
    let mut cells = Cells::new();
    for id in ids {
        assert!(cells.add(Cell::with_id(*id, None)));
    }
    cells
}

fn one_row() -> ResultSet {
    ResultSet { columns: vec!["Int64(1)".to_string()], rows: vec![vec!["1".to_string()]] }
}

fn assert_consistent(cells: &Cells) {
    let mut listed: Vec<u128> = cells.order.clone();
    listed.sort();
    let mut filed: Vec<u128> = cells.all.keys().copied().collect();
    filed.sort();
    assert_eq!(listed, filed);
    let mut unique = listed.clone();
    unique.dedup();
    assert_eq!(unique, listed);
    for (id, cell) in cells.all.iter() {
        assert_eq!(*id, cell.id);
    }
    if let Some(id) = cells.current_cell_id {
        assert!(cells.order.contains(&id));
    }
}

#[test]
fn a_new_store_is_empty() {
    let cells = Cells::new();
    assert!(cells.all.is_empty());
    assert!(cells.order.is_empty());
    assert_eq!(cells.get_current_cell_id(), None);
    assert!(cells.current().is_none());
    assert_eq!(cells.current_cell_index(), None);
    assert_eq!(cells.editor.text(), "");
    assert_consistent(&cells);
}

#[test]
fn the_default_store_is_empty() {
    let cells = Cells::default();
    assert!(cells.order.is_empty());
    assert_eq!(cells.current_cell_id, None);
}

#[test]
fn a_new_cell_is_clean_and_empty() {
    let cell = Cell::new();
    assert_eq!(cell.code, None);
    assert_eq!(cell.result, None);
    assert_eq!(cell.error, None);
    assert_eq!(cell.status, CellStatus::Clean);
}

#[test]
fn new_cells_get_random_identifiers() {
    let mut seen = std::collections::HashSet::new();
    for _ in 0..1000 {
        let id = Cell::new().id;
        assert_eq!(
            id & 0x0000_0000_0000_f000_c000_0000_0000_0000,
            0x0000_0000_0000_4000_8000_0000_0000_0000
        );
        assert_eq!(uuid::Uuid::from_u128(id).get_version_num(), 4);
        assert!(seen.insert(id));
    }
}

#[test]
fn the_default_cell_is_clean_and_empty() {
    let cell = Cell::default();
    assert_eq!(cell.code, None);
    assert_eq!(cell.status, CellStatus::Clean);
}

#[test]
fn a_cell_with_given_identifier_and_code() {
    let cell = Cell::with_id(7, Some("select 1;".to_string()));
    assert_eq!(cell.id, 7);
    assert_eq!(cell.code.as_deref(), Some("select 1;"));
    assert_eq!(cell.status, CellStatus::Clean);
    assert_eq!(cell.result, None);
    assert_eq!(cell.error, None);
}

#[test]
fn the_first_cell_goes_on_top_and_is_selected() {
    let cells = store_of(&[10]);
    assert_eq!(cells.order, vec![10]);
    assert_eq!(cells.get_current_cell_id(), Some(10));
    assert_eq!(cells.current_cell_index(), Some(0));
    assert_eq!(cells.current().map(|c| c.id), Some(10));
    assert_consistent(&cells);
}

#[test]
fn a_cell_is_added_right_below_the_selected_one() {
    let mut cells = store_of(&[10, 20, 30]);
    assert_eq!(cells.order, vec![10, 20, 30]);
    cells.switch_cell(10);
    assert!(cells.add(Cell::with_id(40, None)));
    assert_eq!(cells.order, vec![10, 40, 20, 30]);
    assert_eq!(cells.get_current_cell_id(), Some(40));
    assert_eq!(cells.current_cell_index(), Some(1));
    assert_consistent(&cells);
}

#[test]
fn adding_shows_the_new_cells_code() {
    let mut cells = store_of(&[10]);
    cells.set_code(10, "old".to_string());
    cells.switch_cell(10);
    assert_eq!(cells.editor.text(), "old");
    assert!(cells.add(Cell::with_id(20, Some("new\ncode".to_string()))));
    assert_eq!(cells.editor.text(), "new\ncode");
    assert!(cells.add(Cell::with_id(30, None)));
    assert_eq!(cells.editor.text(), "");
}

#[test]
fn a_taken_identifier_is_not_added_again() {
    let mut cells = store_of(&[10, 20]);
    cells.set_code(10, "kept".to_string());
    assert!(!cells.add(Cell::with_id(10, Some("other".to_string()))));
    assert_eq!(cells.order, vec![10, 20]);
    assert_eq!(cells.get_current_cell_id(), Some(20));
    assert_eq!(cells.get_code(&10).as_deref(), Some("kept"));
    assert_consistent(&cells);
}

#[test]
fn create_adds_a_clean_cell_and_selects_it() {
    let mut cells = store_of(&[10]);
    let id = cells.create().expect("a random identifier is not taken");
    assert_eq!(cells.order, vec![10, id]);
    assert_eq!(cells.get_current_cell_id(), Some(id));
    let cell = cells.get_cell(&id).unwrap();
    assert_eq!(cell.status, CellStatus::Clean);
    assert_eq!(cell.code, None);
    assert_consistent(&cells);
}

#[test]
fn switching_selects_and_replaces_the_buffer() {
    let mut cells = store_of(&[10, 20]);
    cells.set_code(10, "select 1;".to_string());
    cells.set_code(20, "select 2;\n".to_string());
    cells.switch_cell(10);
    assert_eq!(cells.get_current_cell_id(), Some(10));
    assert_eq!(cells.editor.text(), "select 1;");
    cells.switch_cell(20);
    assert_eq!(cells.get_current_cell_id(), Some(20));
    assert_eq!(cells.editor.text(), "select 2;\n");
}

#[test]
fn switching_to_a_cell_without_code_empties_the_buffer() {
    let mut cells = store_of(&[10, 20]);
    cells.set_code(10, "select 1;".to_string());
    cells.switch_cell(10);
    cells.switch_cell(20);
    assert_eq!(cells.editor.text(), "");
    assert_eq!(cells.editor.lines(), vec![String::new()]);
}

#[test]
fn switching_to_a_missing_cell_does_nothing() {
    let mut cells = store_of(&[10, 20]);
    cells.set_code(20, "kept".to_string());
    cells.switch_cell(20);
    cells.switch_cell(99);
    assert_eq!(cells.get_current_cell_id(), Some(20));
    assert_eq!(cells.editor.text(), "kept");
    assert_consistent(&cells);
}

#[test]
fn edits_are_invisible_until_saved() {
    let mut cells = store_of(&[10]);
    cells.editor = exo::editor::Editor::from_text("draft");
    assert_eq!(cells.get_code(&10), None);
    cells.save_current();
    assert_eq!(cells.get_code(&10).as_deref(), Some("draft"));
}

#[test]
fn saving_without_a_selected_cell_does_nothing() {
    let mut cells = Cells::new();
    cells.editor = exo::editor::Editor::from_text("draft");
    cells.save_current();
    assert!(cells.all.is_empty());
    assert_eq!(cells.editor.text(), "draft");
}

#[test]
fn saving_then_switching_back_reproduces_the_saved_text() {
    for text in ["", "select 1;", "select 1;\n", "a\n\nb\n", "x\r\ny"] {
        let mut cells = store_of(&[10, 20]);
        cells.switch_cell(10);
        cells.editor = exo::editor::Editor::from_text(text);
        cells.save_current();
        cells.switch_cell(10);
        assert_eq!(cells.editor.text(), text);
        assert_eq!(cells.get_code(&10).as_deref(), Some(text));
        cells.switch_cell(20);
        cells.switch_cell(10);
        assert_eq!(cells.editor.text(), text);
    }
}

#[test]
fn deleting_the_only_cell_leaves_none_selected() {
    let mut cells = store_of(&[10]);
    cells.remove(10);
    assert!(cells.order.is_empty());
    assert!(cells.all.is_empty());
    assert_eq!(cells.get_current_cell_id(), None);
    assert_consistent(&cells);
}

#[test]
fn deleting_a_cell_that_is_not_last_selects_the_cell_at_the_same_index() {
    let mut cells = store_of(&[10, 20, 30]);
    cells.set_code(30, "third".to_string());
    cells.switch_cell(20);
    cells.remove(20);
    assert_eq!(cells.order, vec![10, 30]);
    assert_eq!(cells.get_current_cell_id(), Some(30));
    assert_eq!(cells.current_cell_index(), Some(1));
    assert_eq!(cells.editor.text(), "third");
    assert_consistent(&cells);
}

#[test]
fn deleting_the_last_cell_selects_the_new_last_cell() {
    let mut cells = store_of(&[10, 20, 30]);
    cells.set_code(20, "second".to_string());
    cells.switch_cell(30);
    cells.remove(30);
    assert_eq!(cells.order, vec![10, 20]);
    assert_eq!(cells.get_current_cell_id(), Some(20));
    assert_eq!(cells.current_cell_index(), Some(1));
    assert_eq!(cells.editor.text(), "second");
    assert_consistent(&cells);
}

#[test]
fn deleting_the_first_of_two_selects_the_former_second() {
    let mut cells = store_of(&[10, 20]);
    cells.switch_cell(10);
    cells.remove(10);
    assert_eq!(cells.order, vec![20]);
    assert_eq!(cells.get_current_cell_id(), Some(20));
    assert_eq!(cells.current_cell_index(), Some(0));
}

#[test]
fn deleting_repeatedly_collapses_towards_the_top() {
    let mut cells = store_of(&[10, 20, 30]);
    cells.remove(30);
    assert_eq!(cells.get_current_cell_id(), Some(20));
    cells.remove(20);
    assert_eq!(cells.get_current_cell_id(), Some(10));
    cells.remove(10);
    assert_eq!(cells.get_current_cell_id(), None);
    assert!(cells.order.is_empty());
}

#[test]
fn deleting_a_cell_that_is_not_selected_keeps_the_selection() {
    let mut cells = store_of(&[10, 20, 30]);
    cells.set_code(30, "third".to_string());
    cells.switch_cell(30);
    cells.remove(10);
    assert_eq!(cells.order, vec![20, 30]);
    assert_eq!(cells.get_current_cell_id(), Some(30));
    assert_eq!(cells.editor.text(), "third");
    assert_consistent(&cells);
}

#[test]
fn deleting_a_missing_cell_does_nothing() {
    let mut cells = store_of(&[10, 20]);
    cells.remove(99);
    assert_eq!(cells.order, vec![10, 20]);
    assert_eq!(cells.get_current_cell_id(), Some(20));
    assert_consistent(&cells);
}

#[test]
fn setters_change_the_cell_they_name() {
    let mut cells = store_of(&[10, 20]);
    cells.set_code(10, "select 1;".to_string());
    assert_eq!(cells.get_code(&10).as_deref(), Some("select 1;"));
    assert_eq!(cells.get_code(&20), None);

    cells.set_status(10, CellStatus::Running);
    assert_eq!(cells.get_cell(&10).unwrap().status, CellStatus::Running);
    assert_eq!(cells.get_cell(&20).unwrap().status, CellStatus::Clean);

    cells.set_result(10, one_row());
    let cell = cells.get_cell(&10).unwrap();
    assert_eq!(cell.status, CellStatus::Finished);
    assert_eq!(cell.result, Some(one_row()));
    assert_eq!(cell.error, None);
    assert_eq!(cell.code.as_deref(), Some("select 1;"));

    cells.set_failure(20, "no such table".to_string());
    let cell = cells.get_cell(&20).unwrap();
    assert_eq!(cell.status, CellStatus::Failed);
    assert_eq!(cell.error.as_deref(), Some("no such table"));
    assert_eq!(cell.result, None);
    assert_consistent(&cells);
}

#[test]
fn setters_keep_selection_order_and_buffer() {
    let mut cells = store_of(&[10, 20]);
    cells.editor = exo::editor::Editor::from_text("draft");
    cells.set_code(10, "a".to_string());
    cells.set_status(10, CellStatus::Running);
    cells.set_result(10, one_row());
    cells.set_failure(10, "e".to_string());
    assert_eq!(cells.order, vec![10, 20]);
    assert_eq!(cells.get_current_cell_id(), Some(20));
    assert_eq!(cells.editor.text(), "draft");
}

#[test]
fn setters_do_nothing_for_a_missing_cell() {
    let mut cells = store_of(&[10]);
    cells.set_code(99, "select 1;".to_string());
    cells.set_status(99, CellStatus::Running);
    cells.set_result(99, one_row());
    cells.set_failure(99, "late".to_string());
    assert_eq!(cells.order, vec![10]);
    assert_eq!(cells.all.len(), 1);
    let cell = cells.get_cell(&10).unwrap();
    assert_eq!(cell.status, CellStatus::Clean);
    assert_eq!(cell.code, None);
    assert!(cells.get_cell(&99).is_none());
    assert_eq!(cells.get_code(&99), None);
    assert_consistent(&cells);
}

#[test]
fn index_of_finds_each_cell() {
    let cells = store_of(&[10, 20, 30]);
    assert_eq!(cells.index_of(10), Some(0));
    assert_eq!(cells.index_of(20), Some(1));
    assert_eq!(cells.index_of(30), Some(2));
    assert_eq!(cells.index_of(40), None);
}

#[test]
fn stores_built_by_the_operations_are_well_formed() {
    let mut cells = Cells::new();
    assert!(cells.is_well_formed());
    for id in [10u128, 20, 30, 20] {
        cells.add(Cell::with_id(id, None));
        assert!(cells.is_well_formed());
        assert_consistent(&cells);
    }
    cells.switch_cell(10);
    assert!(cells.is_well_formed());
    cells.remove(10);
    assert!(cells.is_well_formed());
    cells.remove(30);
    cells.remove(20);
    assert!(cells.is_well_formed());
    assert!(cells.order.is_empty());
}

#[test]
fn a_store_that_was_tampered_with_is_not_well_formed() {
    let mut cells = store_of(&[10, 20]);
    cells.order.push(10);
    assert!(!cells.is_well_formed());

    let mut cells = store_of(&[10, 20]);
    cells.order.pop();
    assert!(!cells.is_well_formed());

    let mut cells = store_of(&[10, 20]);
    cells.order[1] = 30;
    assert!(!cells.is_well_formed());

    let mut cells = store_of(&[10, 20]);
    cells.current_cell_id = Some(30);
    assert!(!cells.is_well_formed());

    let mut cells = store_of(&[10, 20]);
    cells.all.insert(30, Cell::with_id(30, None));
    assert!(!cells.is_well_formed());

    let mut cells = store_of(&[10, 20]);
    cells.all.get_mut(&10).unwrap().id = 11;
    assert!(!cells.is_well_formed());

    let mut cells = store_of(&[10, 20]);
    cells.current_cell_id = None;
    assert!(cells.is_well_formed());
}

#[test]
fn the_selected_cell_can_be_changed_in_place() {
    let mut cells = store_of(&[10, 20]);
    cells.switch_cell(10);
    {
        let cell = cells.current_mut().expect("a cell is selected");
        assert_eq!(cell.id, 10);
        cell.status = CellStatus::Running;
        cell.code = Some("select 1;".to_string());
    }
    assert_eq!(cells.get_cell(&10).unwrap().status, CellStatus::Running);
    assert_eq!(cells.get_code(&10).as_deref(), Some("select 1;"));
    assert_eq!(cells.get_cell(&20).unwrap().status, CellStatus::Clean);
    assert_eq!(cells.order, vec![10, 20]);
    assert!(cells.is_well_formed());

    let mut empty = Cells::new();
    assert!(empty.current_mut().is_none());
}
