//! The cell store: the cells by identifier, their order on screen, which
//! one is selected, and the edit buffer that shows the selected cell's code.

use std::collections::hash_map::Entry;
use std::collections::HashMap;
use vstd::prelude::*;
use crate::cell::{is_random_id, text_view, Cell, CellStatus, CellView, ResultSet};
use crate::editor::{editor_lines, Editor};
use crate::text::{join_lines, split_lines};

verus! {

/// The cell store.
///
/// `all` holds the cells, `order` their identifiers from top to bottom,
/// `current_cell_id` the selected one, and `editor` a scratch copy of the
/// selected cell's code: edits reach the cell only when they are saved.
#[derive(Debug)]
pub struct Cells {
    pub editor: Editor,
    pub all: HashMap<u128, Cell>,
    pub order: Vec<u128>,
    pub current_cell_id: Option<u128>,
}

/// The store as mathematics.
pub struct CellsView {
    pub cells: Map<u128, CellView>,
    pub order: Seq<u128>,
    pub current: Option<u128>,
    /// The lines in the edit buffer.
    pub buffer: Seq<Seq<char>>,
}

/// The text that an optional code stands for: nothing is the empty text.
pub open spec fn code_text(code: Option<Seq<char>>) -> Seq<char> {
    match code {
        Some(text) => text,
        None => Seq::<char>::empty(),
    }
}

impl CellsView {
    /// What holds of every store: the order lists each cell once and lists
    /// nothing else, every cell is filed under its own identifier, and the
    /// selected cell, if there is one, exists.
    pub open spec fn wf(self) -> bool {
        &&& self.order.no_duplicates()
        &&& forall|id: u128| self.cells.contains_key(id) <==> self.order.contains(id)
        &&& forall|id: u128| self.cells.contains_key(id) ==> (#[trigger] self.cells[id]).id == id
        &&& self.current matches Some(id) ==> self.cells.contains_key(id)
    }

    /// The store with no cell in it.
    pub open spec fn empty() -> CellsView {
        CellsView {
            cells: Map::empty(),
            order: Seq::empty(),
            current: None,
            buffer: seq![Seq::<char>::empty()],
        }
    }

    /// Where the selected cell stands in the order.
    pub open spec fn current_index(self) -> Option<int> {
        match self.current {
            Some(id) => self.order.index_of_first(id),
            None => None,
        }
    }

    /// The text in the edit buffer.
    pub open spec fn buffer_text(self) -> Seq<char> {
        join_lines(self.buffer)
    }

    /// The store after selecting `id`: the buffer is replaced by that cell's
    /// code. Nothing happens if there is no such cell.
    pub open spec fn switched(self, id: u128) -> CellsView {
        if self.cells.contains_key(id) {
            CellsView {
                current: Some(id),
                buffer: split_lines(code_text(self.cells[id].code)),
                ..self
            }
        } else {
            self
        }
    }

    /// The store after adding `cell`: it stands right below the selected
    /// cell, or on top if none is selected, and is selected itself. Nothing
    /// happens if its identifier is taken.
    pub open spec fn added(self, cell: CellView) -> CellsView {
        if self.cells.contains_key(cell.id) {
            self
        } else {
            let at = match self.current_index() {
                Some(i) => i + 1,
                None => 0,
            };
            CellsView {
                cells: self.cells.insert(cell.id, cell),
                order: self.order.insert(at, cell.id),
                current: Some(cell.id),
                buffer: split_lines(code_text(cell.code)),
            }
        }
    }

    /// The store after removing `id`. If that cell was selected, the cell
    /// that now stands in its place is selected, else the one before it,
    /// else none. Nothing happens if there is no such cell.
    pub open spec fn removed(self, id: u128) -> CellsView {
        match self.order.index_of_first(id) {
            None => self,
            Some(i) => {
                let rest = CellsView {
                    cells: self.cells.remove(id),
                    order: self.order.remove(i),
                    ..self
                };
                if self.current != Some(id) {
                    rest
                } else if i < rest.order.len() {
                    rest.switched(rest.order[i])
                } else if i > 0 {
                    rest.switched(rest.order[i - 1])
                } else {
                    CellsView { current: None, ..rest }
                }
            },
        }
    }

    /// The store with one cell replaced by `f` of it, if there is such a cell.
    pub open spec fn updated(self, id: u128, f: spec_fn(CellView) -> CellView) -> CellsView {
        if self.cells.contains_key(id) {
            CellsView { cells: self.cells.insert(id, f(self.cells[id])), ..self }
        } else {
            self
        }
    }

    /// The store after giving cell `id` new code.
    pub open spec fn with_code(self, id: u128, code: Seq<char>) -> CellsView {
        self.updated(id, |c: CellView| CellView { code: Some(code), ..c })
    }

    /// The store after giving cell `id` a new status.
    pub open spec fn with_status(self, id: u128, status: CellStatus) -> CellsView {
        self.updated(id, |c: CellView| CellView { status, ..c })
    }

    /// The store after cell `id` finished with `result`.
    pub open spec fn with_result(self, id: u128, result: ResultSet) -> CellsView {
        self.updated(
            id,
            |c: CellView| CellView { result: Some(result), status: CellStatus::Finished, ..c },
        )
    }

    /// The store after cell `id` failed with `error`.
    pub open spec fn with_failure(self, id: u128, error: Seq<char>) -> CellsView {
        self.updated(
            id,
            |c: CellView| CellView { error: Some(error), status: CellStatus::Failed, ..c },
        )
    }

    /// The store after the buffer's text was saved as the selected cell's
    /// code. Nothing happens if no cell is selected.
    pub open spec fn saved(self) -> CellsView {
        match self.current {
            Some(id) => self.with_code(id, self.buffer_text()),
            None => self,
        }
    }
}

/// Selecting a cell keeps a store well formed.
pub proof fn lemma_switched_wf(s: CellsView, id: u128)
    requires
        s.wf(),
    ensures
        s.switched(id).wf(),
{
}

/// Changing one cell without touching its identifier keeps a store well
/// formed.
pub proof fn lemma_updated_wf(s: CellsView, id: u128, f: spec_fn(CellView) -> CellView)
    requires
        s.wf(),
        forall|c: CellView| (#[trigger] f(c)).id == c.id,
    ensures
        s.updated(id, f).wf(),
{
}

/// Adding a cell keeps a store well formed.
pub proof fn lemma_added_wf(s: CellsView, cell: CellView)
    requires
        s.wf(),
    ensures
        s.added(cell).wf(),
{
    let t = s.added(cell);
    if !s.cells.contains_key(cell.id) {
        let at = match s.current_index() {
            Some(i) => i + 1,
            None => 0,
        };
        if let Some(cur) = s.current {
            s.order.index_of_first_ensures(cur);
        }
        assert(0 <= at <= s.order.len());
        assert(!s.order.contains(cell.id));
        assert forall|i: int, j: int| 0 <= i < t.order.len() && 0 <= j < t.order.len() && i != j
            implies t.order[i] != t.order[j] by {
            let oi = if i < at { i } else { i - 1 };
            let oj = if j < at { j } else { j - 1 };
            if i != at && j != at {
                assert(t.order[i] == s.order[oi]);
                assert(t.order[j] == s.order[oj]);
            } else if i == at {
                assert(t.order[j] == s.order[oj]);
                assert(s.order.contains(s.order[oj]));
            } else {
                assert(t.order[i] == s.order[oi]);
                assert(s.order.contains(s.order[oi]));
            }
        }
        assert forall|k: u128| t.cells.contains_key(k) <==> t.order.contains(k) by {
            if t.order.contains(k) {
                let i = choose|i: int| 0 <= i < t.order.len() && t.order[i] == k;
                if i != at {
                    let oi = if i < at { i } else { i - 1 };
                    assert(s.order[oi] == k);
                    assert(s.order.contains(k));
                }
            }
            if t.cells.contains_key(k) {
                if k == cell.id {
                    assert(t.order[at] == k);
                } else {
                    assert(s.order.contains(k));
                    let i = choose|i: int| 0 <= i < s.order.len() && s.order[i] == k;
                    let ni = if i < at { i } else { i + 1 };
                    assert(t.order[ni] == k);
                }
            }
        }
    }
}

/// Removing a cell keeps a store well formed.
pub proof fn lemma_removed_wf(s: CellsView, id: u128)
    requires
        s.wf(),
    ensures
        s.removed(id).wf(),
{
    s.order.index_of_first_ensures(id);
    if let Some(i) = s.order.index_of_first(id) {
        let rest = CellsView { cells: s.cells.remove(id), order: s.order.remove(i), ..s };
        assert forall|a: int, b: int| 0 <= a < rest.order.len() && 0 <= b < rest.order.len() && a
            != b implies rest.order[a] != rest.order[b] by {
            let oa = if a < i { a } else { a + 1 };
            let ob = if b < i { b } else { b + 1 };
            assert(rest.order[a] == s.order[oa]);
            assert(rest.order[b] == s.order[ob]);
        }
        assert forall|k: u128| rest.cells.contains_key(k) <==> rest.order.contains(k) by {
            if rest.order.contains(k) {
                let a = choose|a: int| 0 <= a < rest.order.len() && rest.order[a] == k;
                let oa = if a < i { a } else { a + 1 };
                assert(s.order[oa] == k);
                assert(s.order.contains(k));
                assert(oa != i);
            }
            if rest.cells.contains_key(k) {
                assert(s.order.contains(k));
                let a = choose|a: int| 0 <= a < s.order.len() && s.order[a] == k;
                let na = if a < i { a } else { a - 1 };
                assert(rest.order[na] == k);
            }
        }
        let mid = CellsView { current: None, ..rest };
        assert(mid.wf());
        if s.current == Some(id) {
            if i < rest.order.len() {
                assert(rest.order.contains(rest.order[i]));
            } else if i > 0 {
                assert(rest.order.contains(rest.order[i - 1]));
            }
        } else {
            assert(rest.wf());
        }
    }
}

/// Saving the edit buffer keeps a store well formed.
pub proof fn lemma_saved_wf(s: CellsView)
    requires
        s.wf(),
    ensures
        s.saved().wf(),
{
    if let Some(id) = s.current {
        let text = s.buffer_text();
        lemma_updated_wf(s, id, |c: CellView| CellView { code: Some(text), ..c });
    }
}

impl View for Cells {
    type V = CellsView;

    open spec fn view(&self) -> CellsView {
        CellsView {
            cells: self.all@.map_values(|c: Cell| c@),
            order: self.order@,
            current: self.current_cell_id,
            buffer: editor_lines(self.editor),
        }
    }
}

impl Cells {
    /// An empty store with an empty edit buffer.
    pub fn new() -> (cells: Cells)
        ensures
            cells@ == CellsView::empty(),
            cells@.wf(),
    {
        let cells = Cells {
            editor: Editor::new(),
            all: HashMap::new(),
            order: Vec::new(),
            current_cell_id: None,
        };
        proof {
            assert(cells@.cells =~= Map::<u128, CellView>::empty());
            assert(cells@.order =~= Seq::<u128>::empty());
        }
        cells
    }

    /// The identifier of the selected cell.
    pub fn get_current_cell_id(&self) -> (id: Option<u128>)
        ensures
            id == self@.current,
    {
        self.current_cell_id
    }

    /// The cell filed under `cell_id`.
    pub fn get_cell(&self, cell_id: &u128) -> (cell: Option<&Cell>)
        ensures
            match cell {
                Some(c) => self.all@.contains_key(*cell_id) && *c == self.all@[*cell_id]
                    && c@ == self@.cells[*cell_id],
                None => !self@.cells.contains_key(*cell_id),
            },
    {
        broadcast use vstd::std_specs::hash::group_hash_axioms;

        self.all.get(cell_id)
    }

    /// A copy of the code of the cell filed under `cell_id`.
    pub fn get_code(&self, cell_id: &u128) -> (code: Option<String>)
        ensures
            text_view(code) == if self@.cells.contains_key(*cell_id) {
                self@.cells[*cell_id].code
            } else {
                None
            },
    {
        match self.get_cell(cell_id) {
            Some(cell) => cell.code.clone(),
            None => None,
        }
    }

    /// The selected cell.
    pub fn current(&self) -> (cell: Option<&Cell>)
        ensures
            match cell {
                Some(c) => self@.current matches Some(id) && self.all@.contains_key(id)
                    && *c == self.all@[id] && c@ == self@.cells[id],
                None => self@.current matches Some(id) ==> !self@.cells.contains_key(id),
            },
    {
        match self.current_cell_id {
            Some(id) => self.get_cell(&id),
            None => None,
        }
    }

    /// The selected cell, to be changed in place. What the caller leaves in
    /// it is what the store then holds under the selected identifier; the
    /// store stays well formed as long as the cell's own `id` is not
    /// changed.
    pub fn current_mut(&mut self) -> (cell: Option<&mut Cell>)
        ensures
            final(self)@.order == old(self)@.order,
            final(self)@.current == old(self)@.current,
            final(self)@.buffer == old(self)@.buffer,
            match cell {
                Some(c) => old(self)@.current matches Some(id) && old(self)@.cells.contains_key(id)
                    && c@ == old(self)@.cells[id] && final(self)@.cells == old(self)@.cells.insert(
                    id,
                    (*final(c))@,
                ),
                None => final(self)@.cells == old(self)@.cells && (old(self)@.current matches Some(
                    id,
                ) ==> !old(self)@.cells.contains_key(id)),
            },
    {
        broadcast use vstd::std_specs::hash::group_hash_axioms;

        match self.current_cell_id {
            Some(id) => match self.all.entry(id) {
                Entry::Occupied(entry) => Some(entry.into_mut()),
                Entry::Vacant(_) => None,
            },
            None => None,
        }
    }

    /// Where `cell_id` stands in the order.
    pub fn index_of(&self, cell_id: u128) -> (index: Option<usize>)
        ensures
            match index {
                Some(i) => i < self@.order.len() && self@.order[i as int] == cell_id
                    && self@.order.index_of_first(cell_id) == Some(i as int),
                None => self@.order.index_of_first(cell_id) is None,
            },
    {
        let mut i: usize = 0;
        while i < self.order.len()
            invariant
                i <= self.order.len(),
                forall|j: int| 0 <= j < i ==> self.order@[j] != cell_id,
            decreases self.order.len() - i,
        {
            if self.order[i] == cell_id {
                proof {
                    self.order@.index_of_first_ensures(cell_id);
                }
                return Some(i);
            }
            i = i + 1;
        }
        proof {
            self.order@.index_of_first_ensures(cell_id);
        }
        None
    }

    /// Where the selected cell stands in the order.
    pub fn current_cell_index(&self) -> (index: Option<usize>)
        ensures
            match index {
                Some(i) => i < self@.order.len() && self@.current_index() == Some(i as int),
                None => self@.current_index() is None,
            },
    {
        match self.current_cell_id {
            Some(id) => self.index_of(id),
            None => None,
        }
    }

    /// Whether the store is well formed, checked cell by cell.
    pub fn is_well_formed(&self) -> (ok: bool)
        ensures
            ok == self@.wf(),
    {
        broadcast use vstd::std_specs::hash::group_hash_axioms;

        proof {
            assert(self@.cells.dom() =~= self.all@.dom());
            vstd::seq_lib::seq_to_set_is_finite(self.order@);
        }
        if let Some(id) = self.current_cell_id {
            if !self.all.contains_key(&id) {
                return false;
            }
        }
        if self.all.len() != self.order.len() {
            proof {
                if self@.wf() {
                    self.order@.unique_seq_to_set();
                    assert(self.all@.dom() =~= self.order@.to_set());
                }
            }
            return false;
        }
        let mut i: usize = 0;
        while i < self.order.len()
            invariant
                i <= self.order.len(),
                forall|a: int, b: int| 0 <= a < b < i ==> self.order@[a] != self.order@[b],
                forall|a: int|
                    0 <= a < i ==> self.all@.contains_key(#[trigger] self.order@[a])
                        && self.all@[self.order@[a]].id == self.order@[a],
            decreases self.order.len() - i,
        {
            let id = self.order[i];
            match self.all.get(&id) {
                Some(cell) => {
                    if cell.id != id {
                        proof {
                            assert(self@.cells[id].id != id);
                        }
                        return false;
                    }
                },
                None => {
                    proof {
                        assert(self.order@.contains(id));
                    }
                    return false;
                },
            }
            let mut j: usize = 0;
            while j < i
                invariant
                    j <= i,
                    i < self.order.len(),
                    id == self.order@[i as int],
                    forall|a: int| 0 <= a < j ==> self.order@[a] != id,
                decreases i - j,
            {
                if self.order[j] == id {
                    return false;
                }
                j = j + 1;
            }
            i = i + 1;
        }
        proof {
            let order = self.order@;
            let dom = self.all@.dom();
            assert(order.no_duplicates());
            order.unique_seq_to_set();
            assert(order.to_set().subset_of(dom)) by {
                assert forall|id: u128| order.to_set().contains(id) implies dom.contains(id) by {
                    let a = choose|a: int| 0 <= a < order.len() && order[a] == id;
                    assert(self.all@.contains_key(order[a]));
                }
            }
            vstd::set_lib::lemma_subset_equality(order.to_set(), dom);
            assert forall|id: u128| self@.cells.contains_key(id) implies (
            #[trigger] self@.cells[id]).id == id by {
                assert(order.to_set().contains(id));
                let a = choose|a: int| 0 <= a < order.len() && order[a] == id;
                assert(self.all@[order[a]].id == order[a]);
            }
            assert forall|id: u128| self@.cells.contains_key(id) <==> order.contains(id) by {
                assert(order.to_set().contains(id) <==> order.contains(id));
            }
        }
        true
    }

    /// Selects the cell filed under `cell_id` and replaces the edit buffer
    /// by that cell's code. Nothing happens if there is no such cell.
    pub fn switch_cell(&mut self, cell_id: u128)
        ensures
            final(self)@ == old(self)@.switched(cell_id),
            old(self)@.wf() ==> final(self)@.wf(),
            final(self).all == old(self).all,
            final(self).order == old(self).order,
    {
        broadcast use vstd::std_specs::hash::group_hash_axioms;

        let editor = match self.all.get(&cell_id) {
            Some(cell) => match &cell.code {
                Some(code) => Some(Editor::from_text(code.as_str())),
                None => Some(Editor::from_text("")),
            },
            None => None,
        };
        proof {
            reveal_strlit("");
            assert(""@ =~= Seq::<char>::empty());
        }
        if let Some(editor) = editor {
            self.current_cell_id = Some(cell_id);
            self.editor = editor;
        }
    }

    /// Adds `cell` right below the selected cell, or on top if none is
    /// selected, selects it and shows its code in the edit buffer. Returns
    /// whether the cell was added: it is not if its identifier is taken.
    pub fn add(&mut self, cell: Cell) -> (added: bool)
        ensures
            final(self)@ == old(self)@.added(cell@),
            old(self)@.wf() ==> final(self)@.wf(),
            added == !old(self)@.cells.contains_key(cell.id),
    {
        broadcast use vstd::std_specs::hash::group_hash_axioms;

        let id = cell.id;
        if self.all.contains_key(&id) {
            return false;
        }
        let len = self.order.len();
        let at = match self.current_cell_index() {
            Some(i) => {
                assert(i < len);
                i + 1
            },
            None => 0,
        };
        let editor = match &cell.code {
            Some(code) => Editor::from_text(code.as_str()),
            None => Editor::from_text(""),
        };
        proof {
            reveal_strlit("");
            assert(""@ =~= Seq::<char>::empty());
            old(self).order@.index_of_first_ensures(id);
            if let Some(cur) = old(self).current_cell_id {
                old(self).order@.index_of_first_ensures(cur);
            }
        }
        self.all.insert(id, cell);
        self.order.insert(at, id);
        self.current_cell_id = Some(id);
        self.editor = editor;
        proof {
            assert(final(self)@.cells =~= old(self)@.cells.insert(id, cell@));
            if old(self)@.wf() {
                lemma_added_wf(old(self)@, cell@);
            }
        }
        true
    }

    /// Creates a clean cell without code under a newly drawn random
    /// identifier and adds it as `add` does. Returns the identifier. Nothing
    /// is returned, and the store is left as it was, only when the
    /// identifier drawn was taken: never by a store that holds no cell under
    /// a random identifier, such as an empty one.
    pub fn create(&mut self) -> (created: Option<u128>)
        ensures
            match created {
                Some(id) => is_random_id(id) && !old(self)@.cells.contains_key(id)
                    && final(self)@ == old(self)@.added(CellView::fresh(id, None)),
                None => final(self)@ == old(self)@ && exists|id: u128|
                    is_random_id(id) && #[trigger] old(self)@.cells.contains_key(id),
            },
            old(self)@.wf() ==> final(self)@.wf(),
    {
        let cell = Cell::new();
        let id = cell.id;
        if self.add(cell) {
            Some(id)
        } else {
            assert(is_random_id(id) && old(self)@.cells.contains_key(id));
            None
        }
    }

    /// Removes the cell filed under `cell_id`. If it was selected, the cell
    /// that takes its place in the order is selected, else the one before
    /// it, else none. Nothing happens if there is no such cell.
    pub fn remove(&mut self, cell_id: u128)
        ensures
            final(self)@ == old(self)@.removed(cell_id),
            old(self)@.wf() ==> final(self)@.wf(),
    {
        broadcast use vstd::std_specs::hash::group_hash_axioms;

        let index = match self.index_of(cell_id) {
            Some(index) => index,
            None => {
                return ;
            },
        };
        proof {
            self.order@.index_of_first_ensures(cell_id);
        }
        self.order.remove(index);
        self.all.remove(&cell_id);
        proof {
            assert(self@.cells =~= old(self)@.cells.remove(cell_id));
            if old(self)@.wf() {
                lemma_removed_wf(old(self)@, cell_id);
            }
        }
        if self.current_cell_id == Some(cell_id) {
            if index < self.order.len() {
                let next = self.order[index];
                self.switch_cell(next);
            } else if index > 0 {
                let next = self.order[index - 1];
                self.switch_cell(next);
            } else {
                self.current_cell_id = None;
            }
        }
    }

    /// Gives the cell filed under `cell_id` new code. Nothing happens if
    /// there is no such cell.
    pub fn set_code(&mut self, cell_id: u128, code: String)
        ensures
            final(self)@ == old(self)@.with_code(cell_id, code@),
            old(self)@.wf() ==> final(self)@.wf(),
    {
        broadcast use vstd::std_specs::hash::group_hash_axioms;

        if let Some(mut cell) = self.all.remove(&cell_id) {
            let ghost before = cell@;
            cell.code = Some(code);
            let ghost after = cell@;
            self.all.insert(cell_id, cell);
            proof {
                assert(after == (CellView { code: Some(code@), ..before }));
                assert(final(self)@.cells =~= old(self)@.cells.insert(cell_id, after));
            }
        } else {
            proof {
                assert(final(self).all@ =~= old(self).all@);
            }
        }
    }

    /// Gives the cell filed under `cell_id` a new status. Nothing happens
    /// if there is no such cell.
    pub fn set_status(&mut self, cell_id: u128, status: CellStatus)
        ensures
            final(self)@ == old(self)@.with_status(cell_id, status),
            old(self)@.wf() ==> final(self)@.wf(),
    {
        broadcast use vstd::std_specs::hash::group_hash_axioms;

        if let Some(mut cell) = self.all.remove(&cell_id) {
            let ghost before = cell@;
            cell.status = status;
            let ghost after = cell@;
            self.all.insert(cell_id, cell);
            proof {
                assert(after == (CellView { status, ..before }));
                assert(final(self)@.cells =~= old(self)@.cells.insert(cell_id, after));
            }
        } else {
            proof {
                assert(final(self).all@ =~= old(self).all@);
            }
        }
    }

    /// Stores `result` in the cell filed under `cell_id` and marks the cell
    /// finished. Nothing happens if there is no such cell.
    pub fn set_result(&mut self, cell_id: u128, result: ResultSet)
        ensures
            final(self)@ == old(self)@.with_result(cell_id, result),
            old(self)@.wf() ==> final(self)@.wf(),
    {
        broadcast use vstd::std_specs::hash::group_hash_axioms;

        if let Some(mut cell) = self.all.remove(&cell_id) {
            let ghost before = cell@;
            cell.result = Some(result);
            cell.status = CellStatus::Finished;
            let ghost after = cell@;
            self.all.insert(cell_id, cell);
            proof {
                assert(after == (CellView {
                    result: Some(result),
                    status: CellStatus::Finished,
                    ..before
                }));
                assert(final(self)@.cells =~= old(self)@.cells.insert(cell_id, after));
            }
        } else {
            proof {
                assert(final(self).all@ =~= old(self).all@);
            }
        }
    }

    /// Stores `error` in the cell filed under `cell_id` and marks the cell
    /// failed. Nothing happens if there is no such cell.
    pub fn set_failure(&mut self, cell_id: u128, error: String)
        ensures
            final(self)@ == old(self)@.with_failure(cell_id, error@),
            old(self)@.wf() ==> final(self)@.wf(),
    {
        broadcast use vstd::std_specs::hash::group_hash_axioms;

        if let Some(mut cell) = self.all.remove(&cell_id) {
            let ghost before = cell@;
            cell.error = Some(error);
            cell.status = CellStatus::Failed;
            let ghost after = cell@;
            self.all.insert(cell_id, cell);
            proof {
                assert(after == (CellView {
                    error: Some(error@),
                    status: CellStatus::Failed,
                    ..before
                }));
                assert(final(self)@.cells =~= old(self)@.cells.insert(cell_id, after));
            }
        } else {
            proof {
                assert(final(self).all@ =~= old(self).all@);
            }
        }
    }

    /// Saves the text of the edit buffer as the selected cell's code.
    /// Nothing happens if no cell is selected.
    pub fn save_current(&mut self)
        ensures
            final(self)@ == old(self)@.saved(),
            old(self)@.wf() ==> final(self)@.wf(),
    {
        if let Some(id) = self.current_cell_id {
            let text = self.editor.text();
            self.set_code(id, text);
        }
    }
}

impl Default for Cells {
    fn default() -> (cells: Cells)
        ensures
            cells@ == CellsView::empty(),
            cells@.wf(),
    {
        Cells::new()
    }
}

} // verus!
