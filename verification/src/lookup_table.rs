//! Paginated candidate table with a bounded cursor.
//!
//! IBus displays the candidates page by page; the page size must lie in
//! `1..=16`, and the cursor always stays on a valid candidate index (or at
//! 0 while the table is empty).
use vstd::prelude::*;

verus! {

/// Orientation of the candidate list on screen.
#[derive(Debug, Copy, Clone)]
pub enum IBusOrientation {
    Horizontal,
    Vertical,
    /// Use ibus global orientation setup.
    System,
}

impl IBusOrientation {
    /// The wire encoding of the orientation used by the ibus protocol.
    pub fn code(&self) -> (r: i32)
        ensures
            r == (match self {
                IBusOrientation::Horizontal => 0int,
                IBusOrientation::Vertical => 1int,
                IBusOrientation::System => 2int,
            }),
    {
        match self {
            IBusOrientation::Horizontal => 0,
            IBusOrientation::Vertical => 1,
            IBusOrientation::System => 2,
        }
    }
}

/// A table of strings ("candidates") that IBus displays to the user.
///
/// The user can then scroll through the candidates and select one.
/// IBus automatically paginates candidates by groups of 1 to 16.
#[derive(Debug, Clone)]
pub struct LookupTable {
    candidates: Vec<String>,
    /// Labels for items in a page.
    ///
    /// If this vector is empty (the default), items are labelled 1 through f.
    /// Populating this vector allows to customize labels.
    /// Note that labels are the same on every page, they do not label candidates.
    pub labels: Vec<String>,
    page_size: u32,
    cursor_pos: u32,
    pub cursor_visible: bool,
    /// If true, scrolling beyond the end of the lookup table wraps to the beginning.
    pub round: bool,
    pub orientation: IBusOrientation,
}

/// The cursor position that a request to move to `desired` settles on, for a
/// table of `len` candidates: modular wrap-around when `round` holds,
/// saturation at the table edges otherwise.
pub open spec fn cursor_after(round: bool, len: nat, desired: int) -> int {
    if round {
        if len == 0 {
            0
        } else {
            desired % (len as int)
        }
    } else if desired < 0 {
        0
    } else if desired >= len {
        if len == 0 {
            0
        } else {
            len - 1
        }
    } else {
        desired
    }
}

impl LookupTable {
    /// The candidate list as a sequence.
    pub closed spec fn spec_candidates(&self) -> Seq<String> {
        self.candidates@
    }

    /// The candidate list as the concrete vector (needed to speak about the
    /// closure handed to [`LookupTable::modify_candidates`]).
    pub closed spec fn cand_vec(&self) -> Vec<String> {
        self.candidates
    }

    /// The number of candidates shown per page.
    pub closed spec fn spec_page_size(&self) -> u32 {
        self.page_size
    }

    /// The index of the currently selected candidate.
    pub closed spec fn spec_cursor_pos(&self) -> u32 {
        self.cursor_pos
    }

    /// The page labels.
    pub closed spec fn spec_labels(&self) -> Vec<String> {
        self.labels
    }

    /// Whether the cursor is shown.
    pub closed spec fn spec_cursor_visible(&self) -> bool {
        self.cursor_visible
    }

    /// Whether cursor movement wraps at the table boundaries.
    pub closed spec fn spec_round(&self) -> bool {
        self.round
    }

    /// The configured orientation.
    pub closed spec fn spec_orientation(&self) -> IBusOrientation {
        self.orientation
    }

    /// Invariant: the page size lies in `1..=16` and the cursor is a valid
    /// candidate index (or 0 while the table is empty).
    pub open spec fn wf(&self) -> bool {
        &&& 1 <= self.spec_page_size() <= 16
        &&& self.spec_candidates().len() == 0 ==> self.spec_cursor_pos() == 0
        &&& self.spec_candidates().len() > 0 ==> (self.spec_cursor_pos() as nat)
            < self.spec_candidates().len()
    }

    /// Fields that no cursor movement touches.
    pub open spec fn same_contents(&self, other: &Self) -> bool {
        &&& self.spec_candidates() == other.spec_candidates()
        &&& self.spec_page_size() == other.spec_page_size()
        &&& self.spec_labels() == other.spec_labels()
        &&& self.spec_cursor_visible() == other.spec_cursor_visible()
        &&& self.spec_round() == other.spec_round()
        &&& self.spec_orientation() == other.spec_orientation()
    }

    /// Creates a lookup table with cursor at position 0.
    ///
    /// Returns an error if page size is not in range `1..=16`.
    pub fn new(candidates: Vec<String>, page_size: u32, cursor_visible: bool, round: bool) -> (r:
        Result<Self, ()>)
        ensures
            r is Ok <==> 1 <= page_size <= 16,
            r matches Ok(t) ==> {
                &&& t.wf()
                &&& t.spec_candidates() == candidates@
                &&& t.spec_page_size() == page_size
                &&& t.spec_cursor_pos() == 0
                &&& t.spec_labels()@ == Seq::<String>::empty()
                &&& t.spec_cursor_visible() == cursor_visible
                &&& t.spec_round() == round
                &&& t.spec_orientation() is System
            },
    {
        if page_size == 0 || page_size > 16 {
            return Err(());
        }
        Ok(
            LookupTable {
                candidates,
                labels: Vec::new(),
                page_size,
                cursor_pos: 0,
                cursor_visible,
                round,
                orientation: IBusOrientation::System,
            },
        )
    }

    /// Sets the cursor position, making sure it remains in bound.
    pub fn set_cursor_pos(&mut self, desired_pos: i64)
        requires
            old(self).wf(),
        ensures
            final(self).wf(),
            final(self).same_contents(old(self)),
            old(self).spec_candidates().len() <= u32::MAX ==> final(self).spec_cursor_pos()
                == cursor_after(
                old(self).spec_round(),
                old(self).spec_candidates().len(),
                desired_pos as int,
            ),
    {
        let n = self.candidates.len();
        if self.round {
            if n == 0 {
                self.cursor_pos = 0;
            } else if n <= u32::MAX as usize {
                match desired_pos.checked_rem_euclid(n as i64) {
                    Some(r) => {
                        self.cursor_pos = r as u32;
                    },
                    None => {
                        // unreachable: the modulus is at least 1
                        self.cursor_pos = 0;
                    },
                }
            } else {
                // a table beyond u32::MAX candidates cannot arise through the
                // u32-based protocol; keep the cursor in bounds
                self.cursor_pos = 0;
            }
        } else if desired_pos < 0 {
            self.cursor_pos = 0;
        } else if n <= u32::MAX as usize {
            if desired_pos >= n as i64 {
                self.cursor_pos = (n as u32).saturating_sub(1);
            } else {
                self.cursor_pos = desired_pos as u32;
            }
        } else {
            self.cursor_pos = if desired_pos > u32::MAX as i64 {
                u32::MAX
            } else {
                desired_pos as u32
            };
        }
    }

    /// Sets the cursor position to the next element.
    ///
    /// Wraps around if round is true.
    pub fn cursor_down(&mut self)
        requires
            old(self).wf(),
        ensures
            final(self).wf(),
            final(self).same_contents(old(self)),
            old(self).spec_candidates().len() <= u32::MAX ==> final(self).spec_cursor_pos()
                == cursor_after(
                old(self).spec_round(),
                old(self).spec_candidates().len(),
                old(self).spec_cursor_pos() + 1,
            ),
    {
        let cur = self.cursor_pos;
        self.set_cursor_pos(cur as i64 + 1)
    }

    /// Sets the cursor position to the previous element.
    ///
    /// Wraps around if round is true.
    pub fn cursor_up(&mut self)
        requires
            old(self).wf(),
        ensures
            final(self).wf(),
            final(self).same_contents(old(self)),
            old(self).spec_candidates().len() <= u32::MAX ==> final(self).spec_cursor_pos()
                == cursor_after(
                old(self).spec_round(),
                old(self).spec_candidates().len(),
                old(self).spec_cursor_pos() - 1,
            ),
    {
        let cur = self.cursor_pos;
        self.set_cursor_pos(cur as i64 - 1)
    }

    /// Sets the cursor position on an element of the next page.
    pub fn page_down(&mut self)
        requires
            old(self).wf(),
        ensures
            final(self).wf(),
            final(self).same_contents(old(self)),
            old(self).spec_candidates().len() <= u32::MAX ==> final(self).spec_cursor_pos()
                == cursor_after(
                old(self).spec_round(),
                old(self).spec_candidates().len(),
                old(self).spec_cursor_pos() - (old(self).spec_cursor_pos() as int % old(
                    self,
                ).spec_page_size() as int) + old(self).spec_page_size(),
            ),
    {
        let cur = self.cursor_pos;
        let ps = self.page_size;
        self.set_cursor_pos(cur as i64 - (cur % ps) as i64 + ps as i64)
    }

    /// Sets the cursor position on an element of the previous page.
    pub fn page_up(&mut self)
        requires
            old(self).wf(),
        ensures
            final(self).wf(),
            final(self).same_contents(old(self)),
            old(self).spec_candidates().len() <= u32::MAX ==> final(self).spec_cursor_pos()
                == cursor_after(
                old(self).spec_round(),
                old(self).spec_candidates().len(),
                old(self).spec_cursor_pos() - (old(self).spec_cursor_pos() as int % old(
                    self,
                ).spec_page_size() as int) - 1,
            ),
    {
        let cur = self.cursor_pos;
        let ps = self.page_size;
        self.set_cursor_pos(cur as i64 - (cur % ps) as i64 - 1)
    }

    /// The index of the currently selected candidate.
    pub fn cursor_pos(&self) -> (r: u32)
        ensures
            r == self.spec_cursor_pos(),
    {
        self.cursor_pos
    }

    /// The number of elements shown per page.
    pub fn page_size(&self) -> (r: u32)
        ensures
            r == self.spec_page_size(),
    {
        self.page_size
    }

    /// The 0-based index of the currently selected element in its page.
    ///
    /// If default labels are displayed, this corresponds to the label minus one.
    pub fn cursor_pos_in_page(&self) -> (r: u32)
        requires
            self.wf(),
        ensures
            r == self.spec_cursor_pos() as int % self.spec_page_size() as int,
    {
        self.cursor_pos % self.page_size
    }

    /// Returns the candidate at `index_in_page` in the current page.
    pub fn get_candidate_by_index_in_page(&self, index_in_page: u32) -> (r: Option<&String>)
        requires
            self.wf(),
        ensures
            ({
                let start = self.spec_page_size() * (self.spec_cursor_pos() as int / self
                    .spec_page_size() as int);
                &&& r is Some <==> index_in_page < self.spec_page_size() && start + index_in_page
                    < self.spec_candidates().len()
                &&& r matches Some(c) ==> *c == self.spec_candidates()[start + index_in_page]
            }),
    {
        if index_in_page >= self.page_size {
            None
        } else {
            let page = self.cursor_pos / self.page_size;
            proof {
                assert(self.page_size as u64 * page as u64 <= 16 * (u32::MAX as u64))
                    by (nonlinear_arith)
                    requires
                        self.page_size <= 16,
                        page <= u32::MAX,
                ;
            }
            let index: u64 = self.page_size as u64 * page as u64 + index_in_page as u64;
            if index < self.candidates.len() as u64 {
                Some(&self.candidates[index as usize])
            } else {
                None
            }
        }
    }

    /// Sets the page size. Fails if the page size is 0 or more than 16.
    pub fn set_page_size(&mut self, page_size: u32) -> (r: Result<(), ()>)
        requires
            old(self).wf(),
        ensures
            final(self).wf(),
            r is Ok <==> 1 <= page_size <= 16,
            r is Ok ==> final(self).spec_page_size() == page_size,
            r is Err ==> *final(self) == *old(self),
            final(self).spec_candidates() == old(self).spec_candidates(),
            final(self).spec_cursor_pos() == old(self).spec_cursor_pos(),
            final(self).spec_labels() == old(self).spec_labels(),
            final(self).spec_cursor_visible() == old(self).spec_cursor_visible(),
            final(self).spec_round() == old(self).spec_round(),
            final(self).spec_orientation() == old(self).spec_orientation(),
    {
        if page_size == 0 || page_size > 16 {
            return Err(());
        }
        self.page_size = page_size;
        Ok(())
    }

    /// Modifies the list of candidates.
    ///
    /// Moves the cursor if the list of candidates is made shorter.
    pub fn modify_candidates<F: FnOnce(Vec<String>) -> Vec<String>>(&mut self, f: F)
        requires
            old(self).wf(),
            call_requires(f, (old(self).cand_vec(),)),
        ensures
            final(self).wf(),
            call_ensures(f, (old(self).cand_vec(),), final(self).cand_vec()),
            final(self).spec_candidates().len() <= u32::MAX ==> final(self).spec_cursor_pos() == (
            if final(self).spec_candidates().len() == 0 {
                0
            } else {
                vstd::math::min(
                    old(self).spec_cursor_pos() as int,
                    final(self).spec_candidates().len() - 1,
                )
            }),
            final(self).spec_page_size() == old(self).spec_page_size(),
            final(self).spec_labels() == old(self).spec_labels(),
            final(self).spec_cursor_visible() == old(self).spec_cursor_visible(),
            final(self).spec_round() == old(self).spec_round(),
            final(self).spec_orientation() == old(self).spec_orientation(),
    {
        let mut cands: Vec<String> = Vec::new();
        core::mem::swap(&mut cands, &mut self.candidates);
        self.candidates = f(cands);
        // if the cursor position is out of bound, make it in bound. Otherwise ibus
        // makes the lookup table disappear
        let bound: u32 = #[verifier::truncate] (self.candidates.len().saturating_sub(1) as u32);
        if self.cursor_pos > bound {
            self.cursor_pos = bound;
        }
    }

    /// Returns the current list of candidates.
    pub fn candidates(&self) -> (r: &[String])
        ensures
            r@ == self.spec_candidates(),
    {
        self.candidates.as_slice()
    }

    /// Removes all candidates.
    pub fn clear(&mut self)
        ensures
            final(self).wf() == (1 <= final(self).spec_page_size() <= 16),
            final(self).spec_candidates() == Seq::<String>::empty(),
            final(self).spec_cursor_pos() == 0,
            final(self).spec_page_size() == old(self).spec_page_size(),
            final(self).spec_labels() == old(self).spec_labels(),
            final(self).spec_cursor_visible() == old(self).spec_cursor_visible(),
            final(self).spec_round() == old(self).spec_round(),
            final(self).spec_orientation() == old(self).spec_orientation(),
    {
        self.candidates.clear();
        self.cursor_pos = 0;
    }

    /// Adds one candidate to the end of the list.
    pub fn push_candidate(&mut self, candidate: String)
        requires
            old(self).wf(),
        ensures
            final(self).wf(),
            final(self).spec_candidates() == old(self).spec_candidates().push(candidate),
            final(self).spec_cursor_pos() == old(self).spec_cursor_pos(),
            final(self).spec_page_size() == old(self).spec_page_size(),
            final(self).spec_labels() == old(self).spec_labels(),
            final(self).spec_cursor_visible() == old(self).spec_cursor_visible(),
            final(self).spec_round() == old(self).spec_round(),
            final(self).spec_orientation() == old(self).spec_orientation(),
    {
        self.candidates.push(candidate);
    }

    /// Replaces the list of candidates by this one, and sets the cursor to the
    /// beginning.
    pub fn reset_candidates(&mut self, candidates: Vec<String>)
        ensures
            final(self).wf() == (1 <= final(self).spec_page_size() <= 16),
            final(self).spec_candidates() == candidates@,
            final(self).spec_cursor_pos() == 0,
            final(self).spec_page_size() == old(self).spec_page_size(),
            final(self).spec_labels() == old(self).spec_labels(),
            final(self).spec_cursor_visible() == old(self).spec_cursor_visible(),
            final(self).spec_round() == old(self).spec_round(),
            final(self).spec_orientation() == old(self).spec_orientation(),
    {
        self.candidates = candidates;
        self.cursor_pos = 0;
    }

    /// Appends the given candidates to the end of the list.
    pub fn extend(&mut self, mut other: Vec<String>)
        requires
            old(self).wf(),
        ensures
            final(self).wf(),
            final(self).spec_candidates() == old(self).spec_candidates() + other@,
            final(self).spec_cursor_pos() == old(self).spec_cursor_pos(),
            final(self).spec_page_size() == old(self).spec_page_size(),
            final(self).spec_labels() == old(self).spec_labels(),
            final(self).spec_cursor_visible() == old(self).spec_cursor_visible(),
            final(self).spec_round() == old(self).spec_round(),
            final(self).spec_orientation() == old(self).spec_orientation(),
    {
        self.candidates.append(&mut other);
    }
}

} // verus!
