//! The catalogue state: the record list, the selection, the filter, the
//! interaction mode and the optional modal editor, with the invariant that
//! ties them together.
//!
//! Two index spaces are kept apart: `selected_index` points into the
//! *displayed* list (the filtered list when a filter is active, the full
//! list otherwise), while `filtered_indices` holds absolute indices into
//! `fruits`. The invariant [`AppState::wf`] says that `filtered_indices`
//! always lists exactly the records whose lowercased name contains the
//! (lowercase) filter query, in original order, and that the selection is
//! in range whenever the displayed list is non-empty.

use vstd::prelude::*;
use crate::error::AppError;
use crate::modal::ModalState;
use crate::record::FruitDimensions;
use crate::text::{contains_seq, contains_str, lower_of, to_lower};

verus! {

/// The current interaction mode.
#[derive(Debug, Clone, Copy, PartialEq, Eq, Structural)]
pub enum AppMode {
    /// Normal browsing/navigation mode.
    Normal,
    /// Adding a new record.
    AddFruit,
    /// Editing an existing record.
    EditFruit,
    /// Typing a filter query.
    Filter,
    /// Confirming a delete action.
    ConfirmDelete,
    /// Showing the help overlay.
    Help,
}

/// The record's name, case-folded, contains the query `q` (which is kept
/// lowercase by the operations below).
pub open spec fn fruit_matches(f: FruitDimensions, q: Seq<char>) -> bool {
    contains_seq(lower_of(f.name@), q)
}

/// The absolute indices, in order, of the records among the first `n`
/// whose name matches `q`.
pub open spec fn matching_prefix(fruits: Seq<FruitDimensions>, q: Seq<char>, n: int) -> Seq<usize>
    decreases n,
{
    if n <= 0 {
        Seq::empty()
    } else {
        let rest = matching_prefix(fruits, q, n - 1);
        if fruit_matches(fruits[n - 1], q) {
            rest.push((n - 1) as usize)
        } else {
            rest
        }
    }
}

/// The absolute indices, in order, of all records whose name matches `q`.
pub open spec fn matching_indices(fruits: Seq<FruitDimensions>, q: Seq<char>) -> Seq<usize> {
    matching_prefix(fruits, q, fruits.len() as int)
}

/// What `matching_prefix` yields: ordered absolute indices below `n`, one
/// for each matching record among the first `n` and no others.
proof fn lemma_matching_prefix_props(fruits: Seq<FruitDimensions>, q: Seq<char>, n: int)
    requires
        fruits.len() <= usize::MAX,
        0 <= n <= fruits.len(),
    ensures
        matching_prefix(fruits, q, n).len() <= n,
        forall|j: int| 0 <= j < matching_prefix(fruits, q, n).len()
            ==> 0 <= #[trigger] matching_prefix(fruits, q, n)[j] < n,
        forall|j: int, k: int|
            0 <= j < k < matching_prefix(fruits, q, n).len()
                ==> matching_prefix(fruits, q, n)[j] < matching_prefix(fruits, q, n)[k],
        forall|j: int| 0 <= j < matching_prefix(fruits, q, n).len()
            ==> fruit_matches(fruits[#[trigger] matching_prefix(fruits, q, n)[j] as int], q),
        forall|i: int|
            0 <= i < n && fruit_matches(fruits[i], q)
                ==> exists|j: int|
                    0 <= j < matching_prefix(fruits, q, n).len()
                        && matching_prefix(fruits, q, n)[j] == i,
    decreases n,
{
    if n > 0 {
        lemma_matching_prefix_props(fruits, q, n - 1);
        let prev = matching_prefix(fruits, q, n - 1);
        let cur = matching_prefix(fruits, q, n);
        assert forall|i: int| 0 <= i < n && fruit_matches(fruits[i], q)
            implies exists|j: int| 0 <= j < cur.len() && cur[j] == i by {
            if i < n - 1 {
                let j = choose|j: int| 0 <= j < prev.len() && prev[j] == i;
                assert(cur[j] == i);
            } else {
                assert(cur == prev.push((n - 1) as usize));
                assert(cur[prev.len() as int] == i);
            }
        }
    }
}

/// The guarantees of `matching_indices`: each listed index is in range and
/// matches, every matching record is listed, and the listing keeps the
/// original order (it is strictly increasing).
pub proof fn lemma_matching_indices_props(fruits: Seq<FruitDimensions>, q: Seq<char>)
    requires
        fruits.len() <= usize::MAX,
    ensures
        matching_indices(fruits, q).len() <= fruits.len(),
        forall|j: int| 0 <= j < matching_indices(fruits, q).len()
            ==> 0 <= #[trigger] matching_indices(fruits, q)[j] < fruits.len(),
        forall|j: int, k: int|
            0 <= j < k < matching_indices(fruits, q).len()
                ==> matching_indices(fruits, q)[j] < matching_indices(fruits, q)[k],
        forall|j: int| 0 <= j < matching_indices(fruits, q).len()
            ==> fruit_matches(fruits[#[trigger] matching_indices(fruits, q)[j] as int], q),
        forall|i: int|
            0 <= i < fruits.len() && fruit_matches(fruits[i], q)
                ==> exists|j: int|
                    0 <= j < matching_indices(fruits, q).len()
                        && matching_indices(fruits, q)[j] == i,
{
    lemma_matching_prefix_props(fruits, q, fruits.len() as int);
    let m = matching_prefix(fruits, q, fruits.len() as int);
    assert(matching_indices(fruits, q) == m);
    assert forall|i: int| 0 <= i < fruits.len() && fruit_matches(fruits[i], q)
        implies exists|j: int|
            0 <= j < matching_indices(fruits, q).len() && matching_indices(fruits, q)[j] == i by {
        let j = choose|j: int| 0 <= j < m.len() && m[j] == i;
        assert(matching_indices(fruits, q)[j] == i);
    }
}

/// With an empty query every record matches, so the matching indices are
/// exactly `0, 1, ..., len - 1`: the full list in order.
pub proof fn lemma_matching_indices_of_empty_query(fruits: Seq<FruitDimensions>, q: Seq<char>)
    requires
        fruits.len() <= usize::MAX,
        q.len() == 0,
    ensures
        matching_indices(fruits, q).len() == fruits.len(),
        forall|j: int| 0 <= j < fruits.len()
            ==> #[trigger] matching_indices(fruits, q)[j] == j,
{
    lemma_matching_prefix_empty_query(fruits, q, fruits.len() as int);
}

proof fn lemma_matching_prefix_empty_query(fruits: Seq<FruitDimensions>, q: Seq<char>, n: int)
    requires
        fruits.len() <= usize::MAX,
        q.len() == 0,
        0 <= n <= fruits.len(),
    ensures
        matching_prefix(fruits, q, n).len() == n,
        forall|j: int| 0 <= j < n ==> #[trigger] matching_prefix(fruits, q, n)[j] == j,
    decreases n,
{
    if n > 0 {
        lemma_matching_prefix_empty_query(fruits, q, n - 1);
        assert(fruit_matches(fruits[n - 1], q)) by {
            assert(lower_of(fruits[n - 1].name@).subrange(0, 0 + q.len() as int) =~= q);
        }
        let prev = matching_prefix(fruits, q, n - 1);
        let cur = matching_prefix(fruits, q, n);
        assert(cur == prev.push((n - 1) as usize));
        assert forall|j: int| 0 <= j < n implies #[trigger] cur[j] == j by {
            if j < n - 1 {
                assert(cur[j] == prev[j]);
            }
        }
    }
}

/// `matching_prefix` reads only the first `n` records, so two lists that
/// agree there have the same matching prefix.
proof fn lemma_matching_prefix_agrees(
    f1: Seq<FruitDimensions>,
    f2: Seq<FruitDimensions>,
    q: Seq<char>,
    n: int,
)
    requires
        0 <= n <= f1.len(),
        n <= f2.len(),
        forall|k: int| 0 <= k < n ==> f1[k] == f2[k],
    ensures
        matching_prefix(f1, q, n) == matching_prefix(f2, q, n),
    decreases n,
{
    if n > 0 {
        lemma_matching_prefix_agrees(f1, f2, q, n - 1);
    }
}

/// Appending a record extends the matching indices by the new absolute
/// index exactly when the new record matches.
pub proof fn lemma_matching_indices_push(
    fruits: Seq<FruitDimensions>,
    q: Seq<char>,
    f: FruitDimensions,
)
    requires
        fruits.len() < usize::MAX,
    ensures
        matching_indices(fruits.push(f), q) == if fruit_matches(f, q) {
            matching_indices(fruits, q).push(fruits.len() as usize)
        } else {
            matching_indices(fruits, q)
        },
{
    let s2 = fruits.push(f);
    lemma_matching_prefix_agrees(fruits, s2, q, fruits.len() as int);
    assert(s2[s2.len() - 1] == f);
}

/// Appending a record and then removing it at its new index restores the
/// record list exactly.
pub proof fn lemma_add_then_delete(records: Seq<FruitDimensions>, f: FruitDimensions)
    ensures
        records.push(f).remove(records.len() as int) == records,
{
    assert(records.push(f).remove(records.len() as int) =~= records);
}

/// What any well-formed state displays: each position shows a record of
/// the list; when a filter is active it shows exactly the records whose
/// case-folded name contains the (case-folded) query, in original relative
/// order, and with no filter it shows the full list in order.
pub proof fn lemma_display_is_exactly_the_matches(s: AppState)
    requires
        s.wf(),
        s.fruits@.len() <= usize::MAX,
    ensures
        forall|j: int| 0 <= j < s.display_len()
            ==> 0 <= #[trigger] s.display_index(j) < s.fruits@.len(),
        forall|j: int, k: int|
            0 <= j < k < s.display_len() ==> s.display_index(j) < s.display_index(k),
        s.spec_is_filtering() ==> forall|j: int| 0 <= j < s.display_len()
            ==> fruit_matches(s.fruits@[#[trigger] s.display_index(j)], s.filter_query@),
        s.spec_is_filtering() ==> forall|i: int|
            0 <= i < s.fruits@.len() && fruit_matches(s.fruits@[i], s.filter_query@)
                ==> exists|j: int| 0 <= j < s.display_len() && s.display_index(j) == i,
        !s.spec_is_filtering() ==> s.display_len() == s.fruits@.len()
            && forall|j: int| 0 <= j < s.display_len() ==> #[trigger] s.display_index(j) == j,
{
    lemma_matching_indices_props(s.fruits@, s.filter_query@);
    if s.spec_is_filtering() {
        let m = matching_indices(s.fruits@, s.filter_query@);
        assert forall|i: int|
            0 <= i < s.fruits@.len() && fruit_matches(s.fruits@[i], s.filter_query@)
            implies exists|j: int| 0 <= j < s.display_len() && s.display_index(j) == i by {
            let j = choose|j: int| 0 <= j < m.len() && m[j] == i;
            assert(s.display_index(j) == i);
        }
    }
}

/// The selection after one step down in a displayed list of length `len`:
/// clamped at the end, a no-op on an empty list.
pub open spec fn next_index(sel: int, len: int) -> int {
    if len > 0 && sel + 1 < len {
        sel + 1
    } else {
        sel
    }
}

/// The selection after one step up: clamped at zero, a no-op on an empty
/// list.
pub open spec fn prev_index(sel: int, len: int) -> int {
    if len > 0 && sel > 0 {
        sel - 1
    } else {
        sel
    }
}

/// Stepping down and then up restores the selection whenever the step down
/// moved at all; at the boundaries each step clamps instead of wrapping
/// around.
pub proof fn lemma_next_then_previous(sel: int, len: int)
    requires
        0 <= sel < len,
    ensures
        sel + 1 < len ==> prev_index(next_index(sel, len), len) == sel,
        sel + 1 == len ==> next_index(sel, len) == sel,
        sel == 0 ==> prev_index(sel, len) == sel,
{
}

/// An index clamped into a displayed list of length `len`: unchanged while
/// in range, the last valid index when past the end, zero when the list is
/// empty.
pub open spec fn clamped_index(sel: int, len: int) -> int {
    if len == 0 {
        0
    } else if sel < len {
        sel
    } else {
        len - 1
    }
}

/// Main application state: the single source of truth for a session.
#[derive(Debug, Clone)]
pub struct AppState {
    /// All records of the catalogue, insertion order = display order.
    pub fruits: Vec<FruitDimensions>,
    /// Index of the selected entry in the *displayed* list.
    pub selected_index: usize,
    /// Current interaction mode.
    pub mode: AppMode,
    /// Have the records changed since the last successful save?
    pub dirty: bool,
    /// The lowercase filter query; empty means no filter is active.
    pub filter_query: String,
    /// Absolute indices of the records the filter shows.
    pub filtered_indices: Vec<usize>,
    /// User-visible status or error text.
    pub error_message: Option<String>,
    /// The modal editor, present exactly in the add/edit modes.
    pub modal: Option<ModalState>,
}

impl AppState {
    /// A filter is active.
    pub open spec fn spec_is_filtering(self) -> bool {
        self.filter_query@.len() > 0
    }

    /// How many records the display shows: the filtered list when a filter
    /// is active, the full list otherwise.
    pub open spec fn display_len(self) -> nat {
        if self.spec_is_filtering() {
            self.filtered_indices@.len()
        } else {
            self.fruits@.len()
        }
    }

    /// The absolute index (into `fruits`) shown at display position `j`.
    pub open spec fn display_index(self, j: int) -> int {
        if self.spec_is_filtering() {
            self.filtered_indices@[j] as int
        } else {
            j
        }
    }

    /// The absolute index of the current selection, if the displayed list
    /// is non-empty.
    pub open spec fn spec_selected_abs(self) -> Option<usize> {
        if self.display_len() == 0 {
            None
        } else if self.spec_is_filtering() {
            Some(self.filtered_indices@[self.selected_index as int])
        } else {
            Some(self.selected_index)
        }
    }

    /// The state invariant: the filtered indices are exactly the matching
    /// ones, the selection is in range whenever something is displayed (and
    /// pinned to zero otherwise), and the modal editor is present exactly
    /// in the add/edit modes.
    pub open spec fn wf(self) -> bool {
        &&& self.filtered_indices@ == matching_indices(self.fruits@, self.filter_query@)
        &&& self.display_len() == 0 ==> self.selected_index == 0
        &&& self.display_len() > 0 ==> (self.selected_index as int) < self.display_len()
        &&& (self.modal is Some) <==> (self.mode is AddFruit || self.mode is EditFruit)
    }

    /// Everything but the selection agrees between `self` and `other`.
    pub open spec fn same_except_selection(self, other: AppState) -> bool {
        &&& self.fruits@ == other.fruits@
        &&& self.mode == other.mode
        &&& self.dirty == other.dirty
        &&& self.filter_query@ == other.filter_query@
        &&& self.filtered_indices@ == other.filtered_indices@
        &&& self.error_message == other.error_message
        &&& self.modal == other.modal
    }

    /// Everything but the status message agrees between `self` and `other`.
    pub open spec fn same_except_error(self, other: AppState) -> bool {
        &&& self.fruits@ == other.fruits@
        &&& self.selected_index == other.selected_index
        &&& self.mode == other.mode
        &&& self.dirty == other.dirty
        &&& self.filter_query@ == other.filter_query@
        &&& self.filtered_indices@ == other.filtered_indices@
        &&& self.modal == other.modal
    }

    /// The mode, modal, status message and filter query agree; the records,
    /// filtered indices, selection and dirty flag may differ.
    pub open spec fn same_surroundings(self, other: AppState) -> bool {
        &&& self.mode == other.mode
        &&& self.filter_query@ == other.filter_query@
        &&& self.error_message == other.error_message
        &&& self.modal == other.modal
    }

    /// Create the state for a freshly loaded record list: nothing selected
    /// yet beyond the first entry, normal mode, no filter, clean.
    pub fn new(fruits: Vec<FruitDimensions>) -> (s: Self)
        ensures
            s.fruits@ == fruits@,
            s.selected_index == 0,
            s.mode is Normal,
            !s.dirty,
            s.filter_query@.len() == 0,
            s.error_message is None,
            s.modal is None,
            s.wf(),
    {
        let filtered_indices = compute_matching(&fruits, "");
        proof {
            reveal_strlit("");
            assert(""@ =~= Seq::<char>::empty());
        }
        AppState {
            fruits,
            selected_index: 0,
            mode: AppMode::Normal,
            dirty: false,
            filter_query: String::new(),
            filtered_indices,
            error_message: None,
            modal: None,
        }
    }

    /// A filter is active.
    pub fn is_filtering(&self) -> (r: bool)
        ensures
            r == self.spec_is_filtering(),
    {
        !self.filter_query.as_str().is_empty()
    }

    /// The length of the displayed list.
    fn display_length(&self) -> (r: usize)
        ensures
            r == self.display_len(),
    {
        if self.is_filtering() {
            self.filtered_indices.len()
        } else {
            self.fruits.len()
        }
    }

    /// The absolute index of the selected record, or `None` when the
    /// displayed list is empty.
    pub fn selected_fruit_index(&self) -> (r: Option<usize>)
        requires
            self.wf(),
        ensures
            r == self.spec_selected_abs(),
    {
        if self.display_length() == 0 {
            None
        } else if self.is_filtering() {
            Some(self.filtered_indices[self.selected_index])
        } else {
            Some(self.selected_index)
        }
    }

    /// The selected record, or `None` when the displayed list is empty.
    pub fn selected_fruit(&self) -> (r: Option<&FruitDimensions>)
        requires
            self.wf(),
        ensures
            match self.spec_selected_abs() {
                None => r is None,
                Some(i) => {
                    &&& r matches Some(f)
                    &&& 0 <= i < self.fruits@.len()
                    &&& *f == self.fruits@[i as int]
                },
            },
    {
        proof {
            assert(self.fruits.len() == self.fruits@.len());
            lemma_matching_indices_props(self.fruits@, self.filter_query@);
        }
        match self.selected_fruit_index() {
            None => None,
            Some(i) => Some(&self.fruits[i]),
        }
    }

    /// The ordered view of the records currently shown: all of them, or
    /// exactly those at the filtered indices.
    pub fn display_fruits(&self) -> (r: Vec<&FruitDimensions>)
        requires
            self.wf(),
        ensures
            r@.len() == self.display_len(),
            forall|j: int| 0 <= j < r@.len()
                ==> 0 <= self.display_index(j) < self.fruits@.len()
                    && *#[trigger] r@[j] == self.fruits@[self.display_index(j)],
    {
        proof {
            assert(self.fruits.len() == self.fruits@.len());
            lemma_matching_indices_props(self.fruits@, self.filter_query@);
        }
        let mut r: Vec<&FruitDimensions> = Vec::new();
        if self.is_filtering() {
            let n = self.filtered_indices.len();
            let mut j: usize = 0;
            while j < n
                invariant
                    j <= n,
                    n == self.filtered_indices@.len(),
                    self.spec_is_filtering(),
                    forall|k: int| 0 <= k < n
                        ==> 0 <= #[trigger] self.filtered_indices@[k] < self.fruits@.len(),
                    r@.len() == j,
                    forall|k: int| 0 <= k < j
                        ==> *#[trigger] r@[k] == self.fruits@[self.display_index(k)],
                decreases n - j,
            {
                let idx = self.filtered_indices[j];
                r.push(&self.fruits[idx]);
                j = j + 1;
            }
        } else {
            let n = self.fruits.len();
            let mut j: usize = 0;
            while j < n
                invariant
                    j <= n,
                    n == self.fruits@.len(),
                    !self.spec_is_filtering(),
                    r@.len() == j,
                    forall|k: int| 0 <= k < j
                        ==> *#[trigger] r@[k] == self.fruits@[self.display_index(k)],
                decreases n - j,
            {
                r.push(&self.fruits[j]);
                j = j + 1;
            }
        }
        r
    }

    /// Move the selection up by one, clamped at the top; a no-op when the
    /// displayed list is empty.
    pub fn select_previous(&mut self)
        ensures
            final(self).same_except_selection(*old(self)),
            final(self).selected_index as int
                == prev_index(old(self).selected_index as int, old(self).display_len() as int),
            old(self).wf() ==> final(self).wf(),
    {
        let display_len = self.display_length();
        if display_len > 0 && self.selected_index > 0 {
            self.selected_index = self.selected_index - 1;
        }
    }

    /// Move the selection down by one, clamped at the bottom; a no-op when
    /// the displayed list is empty.
    pub fn select_next(&mut self)
        ensures
            final(self).same_except_selection(*old(self)),
            final(self).selected_index as int
                == next_index(old(self).selected_index as int, old(self).display_len() as int),
            old(self).wf() ==> final(self).wf(),
    {
        let display_len = self.display_length();
        if display_len > 0 && self.selected_index < display_len - 1 {
            self.selected_index = self.selected_index + 1;
        }
    }

    /// Lowercase and store the query, recompute the filtered indices, and
    /// reset the selection to the top.
    pub fn update_filter(&mut self, query: &str)
        ensures
            final(self).fruits@ == old(self).fruits@,
            final(self).mode == old(self).mode,
            final(self).dirty == old(self).dirty,
            final(self).error_message == old(self).error_message,
            final(self).modal == old(self).modal,
            final(self).filter_query@ == lower_of(query@),
            final(self).filtered_indices@
                == matching_indices(old(self).fruits@, lower_of(query@)),
            final(self).selected_index == 0,
            ((old(self).modal is Some) <==> (old(self).mode is AddFruit
                || old(self).mode is EditFruit)) ==> final(self).wf(),
    {
        self.filter_query = to_lower(query);
        self.filtered_indices = compute_matching(&self.fruits, self.filter_query.as_str());
        self.selected_index = 0;
    }

    /// Empty the query: every record is shown again, in order. The
    /// selection stays where it was (it is always still in range).
    pub fn clear_filter(&mut self)
        ensures
            final(self).fruits@ == old(self).fruits@,
            final(self).mode == old(self).mode,
            final(self).dirty == old(self).dirty,
            final(self).error_message == old(self).error_message,
            final(self).modal == old(self).modal,
            final(self).selected_index == old(self).selected_index,
            final(self).filter_query@.len() == 0,
            final(self).filtered_indices@
                == matching_indices(old(self).fruits@, final(self).filter_query@),
            old(self).wf() ==> final(self).wf(),
    {
        proof {
            assert(self.fruits.len() == self.fruits@.len());
            lemma_matching_indices_props(self.fruits@, self.filter_query@);
        }
        self.filter_query = String::new();
        self.filtered_indices = compute_matching(&self.fruits, self.filter_query.as_str());
    }

    /// Append a record and mark the catalogue dirty. Never fails.
    pub fn add_fruit(&mut self, fruit: FruitDimensions) -> (r: Result<(), AppError>)
        ensures
            r is Ok,
            final(self).fruits@ == old(self).fruits@.push(fruit),
            final(self).dirty,
            final(self).selected_index == old(self).selected_index,
            final(self).same_surroundings(*old(self)),
            final(self).filtered_indices@
                == matching_indices(final(self).fruits@, final(self).filter_query@),
            old(self).wf() ==> final(self).wf(),
    {
        self.fruits.push(fruit);
        let n = self.fruits.len();
        proof {
            assert(old(self).fruits@.len() < usize::MAX);
            lemma_matching_indices_push(old(self).fruits@, old(self).filter_query@, fruit);
        }
        self.filtered_indices = compute_matching(&self.fruits, self.filter_query.as_str());
        self.dirty = true;
        Ok(())
    }

    /// Replace the record at an absolute index and mark the catalogue
    /// dirty; fails with a validation error, changing nothing, when the
    /// index is out of range. The filtered indices are refreshed (the new
    /// name may match differently) and the selection is clamped into the
    /// new displayed list.
    pub fn update_fruit(&mut self, index: usize, fruit: FruitDimensions) -> (r: Result<
        (),
        AppError,
    >)
        ensures
            index < old(self).fruits@.len() <==> r is Ok,
            r matches Err(e) ==> {
                &&& *final(self) == *old(self)
                &&& e matches AppError::Validation(m)
                &&& m@ == "Invalid fruit index"@
            },
            r is Ok ==> {
                &&& final(self).fruits@ == old(self).fruits@.update(index as int, fruit)
                &&& final(self).dirty
                &&& final(self).same_surroundings(*old(self))
                &&& final(self).filtered_indices@
                    == matching_indices(final(self).fruits@, final(self).filter_query@)
                &&& final(self).selected_index as int == clamped_index(
                    old(self).selected_index as int,
                    final(self).display_len() as int,
                )
                &&& (old(self).wf() ==> final(self).wf())
            },
    {
        if index >= self.fruits.len() {
            return Err(AppError::Validation(String::from_str("Invalid fruit index")));
        }
        self.fruits[index] = fruit;
        self.filtered_indices = compute_matching(&self.fruits, self.filter_query.as_str());
        self.dirty = true;
        self.clamp_selection();
        Ok(())
    }

    /// Remove the record at an absolute index and mark the catalogue
    /// dirty; fails with a validation error, changing nothing, when the
    /// index is out of range. The filtered indices are refreshed and the
    /// selection is clamped into the new displayed list.
    pub fn delete_fruit(&mut self, index: usize) -> (r: Result<(), AppError>)
        ensures
            index < old(self).fruits@.len() <==> r is Ok,
            r matches Err(e) ==> {
                &&& *final(self) == *old(self)
                &&& e matches AppError::Validation(m)
                &&& m@ == "Invalid fruit index"@
            },
            r is Ok ==> {
                &&& final(self).fruits@ == old(self).fruits@.remove(index as int)
                &&& final(self).dirty
                &&& final(self).same_surroundings(*old(self))
                &&& final(self).filtered_indices@
                    == matching_indices(final(self).fruits@, final(self).filter_query@)
                &&& final(self).selected_index as int == clamped_index(
                    old(self).selected_index as int,
                    final(self).display_len() as int,
                )
                &&& (old(self).wf() ==> final(self).wf())
            },
    {
        if index >= self.fruits.len() {
            return Err(AppError::Validation(String::from_str("Invalid fruit index")));
        }
        self.fruits.remove(index);
        self.filtered_indices = compute_matching(&self.fruits, self.filter_query.as_str());
        self.dirty = true;
        self.clamp_selection();
        Ok(())
    }

    /// Pull the selection back into the displayed list: to the last valid
    /// index when it points past the end, to zero when nothing is shown.
    fn clamp_selection(&mut self)
        ensures
            final(self).same_except_selection(*old(self)),
            final(self).selected_index as int
                == clamped_index(old(self).selected_index as int, old(self).display_len() as int),
            final(self).wf() == (final(self).filtered_indices@
                == matching_indices(final(self).fruits@, final(self).filter_query@)
                && ((final(self).modal is Some)
                    <==> (final(self).mode is AddFruit || final(self).mode is EditFruit))),
    {
        let display_len = self.display_length();
        if display_len == 0 {
            self.selected_index = 0;
        } else if self.selected_index >= display_len {
            self.selected_index = display_len - 1;
        }
    }

    /// Show a status or error message.
    pub fn set_error(&mut self, msg: String)
        ensures
            final(self).same_except_error(*old(self)),
            final(self).error_message matches Some(m) && m@ == msg@,
            old(self).wf() ==> final(self).wf(),
    {
        self.error_message = Some(msg);
    }

    /// Clear the status or error message.
    pub fn clear_error(&mut self)
        ensures
            final(self).same_except_error(*old(self)),
            final(self).error_message is None,
            old(self).wf() ==> final(self).wf(),
    {
        self.error_message = None;
    }
}

/// The absolute indices of the records whose lowercased name contains
/// `query`, in order, by a linear scan.
fn compute_matching(fruits: &Vec<FruitDimensions>, query: &str) -> (v: Vec<usize>)
    ensures
        v@ == matching_indices(fruits@, query@),
{
    let mut v: Vec<usize> = Vec::new();
    let n = fruits.len();
    let mut i: usize = 0;
    while i < n
        invariant
            i <= n,
            n == fruits@.len(),
            v@ == matching_prefix(fruits@, query@, i as int),
        decreases n - i,
    {
        let f = &fruits[i];
        let low = to_lower(f.name.as_str());
        if contains_str(low.as_str(), query) {
            v.push(i);
        }
        i = i + 1;
    }
    v
}

} // verus!
