//! Undo/redo over the two annotation stacks, the labels a host menu shows
//! for them, and the laws the stack discipline obeys.

use vstd::prelude::*;
use crate::annotation::{Action, ActionV};
use crate::state::{AppState, AppStateV};

verus! {

/// What one undo does: the newest annotation, if any, moves from the undo
/// stack to the top of the redo stack; either way a repaint is requested.
pub open spec fn undo_spec(s: AppStateV) -> AppStateV {
    if s.actions.len() == 0 {
        AppStateV { repaint: true, ..s }
    } else {
        AppStateV {
            actions: s.actions.drop_last(),
            redo_actions: s.redo_actions.push(s.actions.last()),
            repaint: true,
            ..s
        }
    }
}

/// What one redo does: the most recently undone annotation, if any, moves
/// back onto the undo stack; either way a repaint is requested.
pub open spec fn redo_spec(s: AppStateV) -> AppStateV {
    if s.redo_actions.len() == 0 {
        AppStateV { repaint: true, ..s }
    } else {
        AppStateV {
            actions: s.actions.push(s.redo_actions.last()),
            redo_actions: s.redo_actions.drop_last(),
            repaint: true,
            ..s
        }
    }
}

/// What recording a freshly created annotation does to the history: it is
/// pushed onto the undo stack and the redo stack is emptied, since a new
/// edit invalidates the annotations undone before it.
pub open spec fn record_spec(s: AppStateV, a: ActionV) -> AppStateV {
    AppStateV { actions: s.actions.push(a), redo_actions: Seq::empty(), ..s }
}

impl AppState {
    /// Moves the newest annotation to the redo stack; no-op on an empty
    /// undo stack.
    pub fn undo(&mut self)
        ensures
            final(self)@ == undo_spec(old(self)@),
            old(self)@.wf() ==> final(self)@.wf(),
    {
        if let Some(a) = self.actions.pop() {
            self.redo_actions.push(a);
        }
        self.repaint = true;
        proof {
            assert(self@ =~= undo_spec(old(self)@));
        }
    }

    /// Moves the most recently undone annotation back; no-op on an empty
    /// redo stack.
    pub fn redo(&mut self)
        ensures
            final(self)@ == redo_spec(old(self)@),
            old(self)@.wf() ==> final(self)@.wf(),
    {
        if let Some(a) = self.redo_actions.pop() {
            self.actions.push(a);
        }
        self.repaint = true;
        proof {
            assert(self@ =~= redo_spec(old(self)@));
        }
    }

    /// A host menu enables its undo entry exactly when something can be
    /// undone.
    pub fn undo_enabled(&self) -> (r: bool)
        ensures
            r == (self@.actions.len() > 0),
    {
        self.actions.len() > 0
    }

    /// A host menu enables its redo entry exactly when something can be
    /// redone.
    pub fn redo_enabled(&self) -> (r: bool)
        ensures
            r == (self@.redo_actions.len() > 0),
    {
        self.redo_actions.len() > 0
    }

    /// The menu label for undo, named after the kind of the annotation that
    /// would be undone.
    pub fn undo_label(&self) -> (r: &'static str)
        ensures
            r@ == undo_label_spec(self@.actions),
    {
        if self.actions.len() == 0 {
            "Undo"
        } else {
            match &self.actions[self.actions.len() - 1] {
                Action::Pen { .. } => "Undo Pen",
                Action::Highlighter { .. } => "Undo Highlighter",
                Action::Rectangle { .. } => "Undo Rectangle",
                Action::Circle { .. } => "Undo Circle",
                Action::Ellipse { .. } => "Undo Ellipse",
                Action::Arrow { .. } => "Undo Arrow",
                Action::Text { .. } => "Undo Text",
                Action::Crop { .. } => "Undo",
            }
        }
    }

    /// The menu label for redo, named after the kind of the annotation that
    /// would be redone.
    pub fn redo_label(&self) -> (r: &'static str)
        ensures
            r@ == redo_label_spec(self@.redo_actions),
    {
        if self.redo_actions.len() == 0 {
            "Redo"
        } else {
            match &self.redo_actions[self.redo_actions.len() - 1] {
                Action::Pen { .. } => "Redo Pen",
                Action::Highlighter { .. } => "Redo Highlighter",
                Action::Rectangle { .. } => "Redo Rectangle",
                Action::Circle { .. } => "Redo Circle",
                Action::Ellipse { .. } => "Redo Ellipse",
                Action::Arrow { .. } => "Redo Arrow",
                Action::Text { .. } => "Redo Text",
                Action::Crop { .. } => "Redo",
            }
        }
    }
}

/// The label the undo menu entry shows: the kind of the top annotation, or
/// the bare word where the stack is empty or the top is a crop, which has no
/// label of its own.
pub open spec fn undo_label_spec(actions: Seq<ActionV>) -> Seq<char> {
    if actions.len() == 0 {
        "Undo"@
    } else {
        match actions.last() {
            ActionV::Pen { .. } => "Undo Pen"@,
            ActionV::Highlighter { .. } => "Undo Highlighter"@,
            ActionV::Rectangle { .. } => "Undo Rectangle"@,
            ActionV::Circle { .. } => "Undo Circle"@,
            ActionV::Ellipse { .. } => "Undo Ellipse"@,
            ActionV::Arrow { .. } => "Undo Arrow"@,
            ActionV::Text { .. } => "Undo Text"@,
            ActionV::Crop { .. } => "Undo"@,
        }
    }
}

/// The label the redo menu entry shows, like `undo_label_spec`.
pub open spec fn redo_label_spec(redo_actions: Seq<ActionV>) -> Seq<char> {
    if redo_actions.len() == 0 {
        "Redo"@
    } else {
        match redo_actions.last() {
            ActionV::Pen { .. } => "Redo Pen"@,
            ActionV::Highlighter { .. } => "Redo Highlighter"@,
            ActionV::Rectangle { .. } => "Redo Rectangle"@,
            ActionV::Circle { .. } => "Redo Circle"@,
            ActionV::Ellipse { .. } => "Redo Ellipse"@,
            ActionV::Arrow { .. } => "Redo Arrow"@,
            ActionV::Text { .. } => "Redo Text"@,
            ActionV::Crop { .. } => "Redo"@,
        }
    }
}

/// Redo directly after undo restores both stacks exactly: the annotation
/// that comes back is the very value that was undone, geometry, style and
/// transform snapshot included.
pub proof fn lemma_undo_then_redo(s: AppStateV)
    requires
        s.actions.len() > 0,
    ensures
        redo_spec(undo_spec(s)).actions == s.actions,
        redo_spec(undo_spec(s)).redo_actions == s.redo_actions,
        redo_spec(undo_spec(s)).actions.last() == s.actions.last(),
{
    let u = undo_spec(s);
    assert(u.redo_actions.last() == s.actions.last());
    assert(u.redo_actions.drop_last() =~= s.redo_actions);
    assert(redo_spec(u).actions =~= s.actions);
}

/// Undo directly after redo restores both stacks exactly, the mirror image
/// of `lemma_undo_then_redo`.
pub proof fn lemma_redo_then_undo(s: AppStateV)
    requires
        s.redo_actions.len() > 0,
    ensures
        undo_spec(redo_spec(s)).actions == s.actions,
        undo_spec(redo_spec(s)).redo_actions == s.redo_actions,
{
    let r = redo_spec(s);
    assert(r.actions.last() == s.redo_actions.last());
    assert(r.actions.drop_last() =~= s.actions);
    assert(undo_spec(r).redo_actions =~= s.redo_actions);
}

/// Recording each of `items` in turn, oldest first.
pub open spec fn record_all(s: AppStateV, items: Seq<ActionV>) -> AppStateV
    decreases items.len(),
{
    if items.len() == 0 {
        s
    } else {
        record_all(record_spec(s, items.first()), items.drop_first())
    }
}

/// Undoing `n` times in a row.
pub open spec fn undo_n(s: AppStateV, n: nat) -> AppStateV
    decreases n,
{
    if n == 0 {
        s
    } else {
        undo_n(undo_spec(s), (n - 1) as nat)
    }
}

/// Recording a run of annotations appends them all to the undo stack in
/// order and leaves the redo stack empty.
pub proof fn lemma_record_all(s: AppStateV, items: Seq<ActionV>)
    requires
        items.len() > 0,
    ensures
        record_all(s, items).actions == s.actions + items,
        record_all(s, items).redo_actions == Seq::<ActionV>::empty(),
    decreases items.len(),
{
    let s1 = record_spec(s, items.first());
    if items.len() == 1 {
        assert(record_all(s1, items.drop_first()) == s1);
        assert(s1.actions =~= s.actions + items);
    } else {
        lemma_record_all(s1, items.drop_first());
        assert(s1.actions + items.drop_first() =~= s.actions + items);
    }
}

/// Undoing `n` of the annotations on the undo stack peels exactly the `n`
/// newest off and stacks them onto the redo stack newest-first.
pub proof fn lemma_undo_n(s: AppStateV, n: nat)
    requires
        n <= s.actions.len(),
    ensures
        undo_n(s, n).actions == s.actions.take(s.actions.len() - n),
        undo_n(s, n).redo_actions == s.redo_actions + s.actions.skip(
            s.actions.len() - n,
        ).reverse(),
    decreases n,
{
    if n == 0 {
        assert(s.actions.take(s.actions.len() as int) =~= s.actions);
        assert(s.redo_actions + s.actions.skip(s.actions.len() as int).reverse()
            =~= s.redo_actions);
    } else {
        let u = undo_spec(s);
        lemma_undo_n(u, (n - 1) as nat);
        let keep = s.actions.len() - n;
        assert(u.actions.take(u.actions.len() - (n - 1)) =~= s.actions.take(keep));
        assert(u.redo_actions + u.actions.skip(u.actions.len() - (n - 1)).reverse()
            =~= s.redo_actions + s.actions.skip(keep).reverse());
    }
}

/// A run of annotation creations followed by exactly as many undos returns
/// the undo stack to what it was before the run, and leaves the redo stack
/// holding precisely the annotations of the run, newest first.
pub proof fn lemma_creations_then_undos(s: AppStateV, items: Seq<ActionV>)
    requires
        items.len() > 0,
    ensures
        undo_n(record_all(s, items), items.len()).actions == s.actions,
        undo_n(record_all(s, items), items.len()).redo_actions == items.reverse(),
{
    lemma_record_all(s, items);
    let r = record_all(s, items);
    lemma_undo_n(r, items.len());
    assert(r.actions.take(r.actions.len() - items.len()) =~= s.actions);
    assert(r.redo_actions + r.actions.skip(r.actions.len() - items.len()).reverse()
        =~= items.reverse());
}

} // verus!
