//! The snapshots of a text that undo and redo move between.

use vstd::prelude::*;

verus! {

/// At most this many snapshots are kept.
pub const MAX_SNAPSHOTS: usize = 100;

/// The snapshots of the text of a document, the oldest first, and the
/// position of the one that the editor shows.
pub struct History {
    snapshots: Vec<String>,
    index: usize,
}

/// The value of a [`History`].
pub struct HistoryView {
    pub snapshots: Seq<Seq<char>>,
    pub index: nat,
}

impl View for History {
    type V = HistoryView;

    closed spec fn view(&self) -> HistoryView {
        HistoryView {
            snapshots: Seq::new(self.snapshots@.len(), |i: int| self.snapshots@[i]@),
            index: self.index as nat,
        }
    }
}

/// Whether a history is one that recording, undoing and redoing lead to: it
/// keeps no more snapshots than allowed, and its position is among them or
/// just behind them.
pub open spec fn is_history(h: HistoryView) -> bool {
    h.snapshots.len() <= MAX_SNAPSHOTS && h.index <= h.snapshots.len()
}

/// The history of a document that was just opened with `text`.
pub open spec fn opened_with(text: Seq<char>) -> HistoryView {
    HistoryView { snapshots: seq![text], index: 0 }
}

/// The history after an edit left `text`: the snapshots behind the position
/// go, `text` is the last snapshot and the position stands at it. Where that
/// is one snapshot too many, the oldest goes, and the position then stands
/// behind the last snapshot.
pub open spec fn recorded(h: HistoryView, text: Seq<char>) -> HistoryView {
    let kept = if h.index + 1 < h.snapshots.len() {
        h.snapshots.take(h.index as int + 1)
    } else {
        h.snapshots
    };
    let all = kept.push(text);
    if all.len() > MAX_SNAPSHOTS {
        HistoryView { snapshots: all.drop_first(), index: (all.len() - 1) as nat }
    } else {
        HistoryView { snapshots: all, index: (all.len() - 1) as nat }
    }
}

/// The history after undo: the position moves one snapshot back if it can.
pub open spec fn undone(h: HistoryView) -> HistoryView {
    if h.index > 0 {
        HistoryView { index: (h.index - 1) as nat, ..h }
    } else {
        h
    }
}

/// The history after redo: the position moves one snapshot on if there is
/// one.
pub open spec fn redone(h: HistoryView) -> HistoryView {
    if h.index + 1 < h.snapshots.len() {
        HistoryView { index: h.index + 1, ..h }
    } else {
        h
    }
}

impl History {
    /// The history keeps no more snapshots than allowed, and its position is
    /// among them or just behind them.
    pub open spec fn wf(&self) -> bool {
        is_history(self@)
    }

    /// The history of a document without text.
    pub fn new() -> (history: Self)
        ensures
            history.wf(),
            history@ == (HistoryView { snapshots: Seq::empty(), index: 0 }),
    {
        let history = History { snapshots: Vec::new(), index: 0 };
        assert(history@.snapshots =~= Seq::empty());
        history
    }

    /// The history of a document that was just opened with `text`.
    pub fn opened(text: String) -> (history: Self)
        ensures
            history.wf(),
            history@ == opened_with(text@),
    {
        let mut snapshots: Vec<String> = Vec::new();
        snapshots.push(text);
        let history = History { snapshots, index: 0 };
        assert(history@.snapshots =~= seq![text@]);
        history
    }

    /// Notes that an edit left `text`.
    pub fn record(&mut self, text: String)
        requires
            old(self).wf(),
        ensures
            final(self).wf(),
            final(self)@ == recorded(old(self)@, text@),
    {
        let ghost before = self@;
        if self.index < self.snapshots.len() {
            self.snapshots.truncate(self.index + 1);
        }
        let ghost kept = self@.snapshots;
        assert(kept =~= if before.index + 1 < before.snapshots.len() {
            before.snapshots.take(before.index as int + 1)
        } else {
            before.snapshots
        });
        self.snapshots.push(text);
        self.index = self.snapshots.len() - 1;
        assert(self@.snapshots =~= kept.push(text@));
        if self.snapshots.len() > MAX_SNAPSHOTS {
            let _ = self.snapshots.remove(0);
            assert(self@.snapshots =~= kept.push(text@).drop_first());
        }
    }

    /// Moves one snapshot back and gives the text to show and whether it
    /// differs from what is on disk, which the oldest snapshot does not; gives
    /// nothing at the oldest snapshot.
    pub fn undo(&mut self) -> (shown: Option<(String, bool)>)
        requires
            old(self).wf(),
        ensures
            final(self).wf(),
            final(self)@ == undone(old(self)@),
            match shown {
                Some((text, dirty)) => {
                    &&& old(self)@.index > 0
                    &&& text@ == old(self)@.snapshots[old(self)@.index - 1]
                    &&& dirty == (old(self)@.index != 1)
                },
                None => old(self)@.index == 0,
            },
    {
        if self.index > 0 {
            self.index -= 1;
            Some((self.snapshots[self.index].clone(), self.index != 0))
        } else {
            None
        }
    }

    /// Moves one snapshot on and gives the text to show; gives nothing at the
    /// newest snapshot.
    pub fn redo(&mut self) -> (shown: Option<String>)
        requires
            old(self).wf(),
        ensures
            final(self).wf(),
            final(self)@ == redone(old(self)@),
            match shown {
                Some(text) => {
                    &&& old(self)@.index + 1 < old(self)@.snapshots.len()
                    &&& text@ == old(self)@.snapshots[old(self)@.index as int + 1]
                },
                None => old(self)@.index + 1 >= old(self)@.snapshots.len(),
            },
    {
        if self.index < self.snapshots.len() && self.index + 1 < self.snapshots.len() {
            self.index += 1;
            Some(self.snapshots[self.index].clone())
        } else {
            None
        }
    }

    /// How many snapshots are kept.
    pub fn len(&self) -> (len: usize)
        ensures
            len == self@.snapshots.len(),
    {
        self.snapshots.len()
    }

    /// The position of the snapshot that the editor shows.
    pub fn position(&self) -> (index: usize)
        ensures
            index == self@.index,
    {
        self.index
    }
}

/// Undo after an edit shows the text that stood before the edit, where the
/// history was not full.
pub proof fn lemma_undo_after_record(h: HistoryView, text: Seq<char>)
    requires
        is_history(h),
        h.index < h.snapshots.len(),
        h.index + 1 < MAX_SNAPSHOTS,
    ensures
        undone(recorded(h, text)).index == h.index,
        undone(recorded(h, text)).snapshots[h.index as int] == h.snapshots[h.index as int],
{
}

/// Redo takes back what undo did, where the position stood at a snapshot.
pub proof fn lemma_redo_after_undo(h: HistoryView)
    requires
        is_history(h),
        0 < h.index < h.snapshots.len(),
    ensures
        redone(undone(h)) == h,
{
}

/// Recording, undoing and redoing keep a history a history.
pub proof fn lemma_history_is_kept(h: HistoryView, text: Seq<char>)
    requires
        is_history(h),
    ensures
        is_history(recorded(h, text)),
        is_history(undone(h)),
        is_history(redone(h)),
{
}

} // verus!
