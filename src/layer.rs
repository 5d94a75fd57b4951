use vstd::prelude::*;
use crate::error::Error;
use crate::instructions::{InstructionBox, InstructionBoxView};

verus! {

/// A layer: a stack of instructions with an undo cursor, and a visibility flag.
#[derive(Debug)]
pub struct Layer {
    history: Vec<InstructionBox>,
    history_index: usize,
    visible: bool,
}

/// What a layer is: the instructions at positions below `history_index` are
/// applied, those at or above it have been undone and can be redone.
pub struct LayerView {
    pub history: Seq<InstructionBoxView>,
    pub history_index: int,
    pub visible: bool,
}

/// One operation on a layer, as a client issues it.
pub enum LayerOp {
    Instruct(InstructionBoxView),
    UndoBy(nat),
    RedoBy(nat),
    Clear,
    ToggleVisibility,
}

impl LayerView {
    /// An empty, visible layer.
    pub open spec fn empty() -> LayerView {
        LayerView { history: Seq::empty(), history_index: 0, visible: true }
    }

    /// The cursor lies within the history.
    pub open spec fn wf(self) -> bool {
        0 <= self.history_index <= self.history.len()
    }

    pub open spec fn can_undo_by(self, n: int) -> bool {
        n <= self.history_index
    }

    pub open spec fn can_redo_by(self, n: int) -> bool {
        self.history_index + n <= self.history.len()
    }

    /// The cursor moved by `d` (back when `d` is negative).
    pub open spec fn moved_by(self, d: int) -> LayerView {
        LayerView { history_index: self.history_index + d, ..self }
    }

    /// The undone tail dropped and `b` appended as the last applied instruction.
    pub open spec fn instructed(self, b: InstructionBoxView) -> LayerView {
        LayerView {
            history: self.history.take(self.history_index).push(b),
            history_index: self.history_index + 1,
            visible: self.visible,
        }
    }

    pub open spec fn cleared(self) -> LayerView {
        LayerView { history: Seq::empty(), history_index: 0, visible: self.visible }
    }

    pub open spec fn toggled(self) -> LayerView {
        LayerView { visible: !self.visible, ..self }
    }

    /// The layer after `op`; an operation that is refused leaves it as it is.
    pub open spec fn step(self, op: LayerOp) -> LayerView {
        match op {
            LayerOp::Instruct(b) => if b.is_empty_stroke() { self } else { self.instructed(b) },
            LayerOp::UndoBy(n) => if self.can_undo_by(n as int) { self.moved_by(-n) } else { self },
            LayerOp::RedoBy(n) => if self.can_redo_by(n as int) { self.moved_by(n as int) } else { self },
            LayerOp::Clear => self.cleared(),
            LayerOp::ToggleVisibility => self.toggled(),
        }
    }

    /// What the layer's method for `op` returns.
    pub open spec fn outcome(self, op: LayerOp) -> Result<(), Error> {
        match op {
            LayerOp::Instruct(b) => if b.is_empty_stroke() { Err(Error::EmptyStroke) } else { Ok(()) },
            LayerOp::UndoBy(n) => if self.can_undo_by(n as int) { Ok(()) } else { Err(Error::CannotUndo) },
            LayerOp::RedoBy(n) => if self.can_redo_by(n as int) { Ok(()) } else { Err(Error::CannotRedo) },
            LayerOp::Clear => Ok(()),
            LayerOp::ToggleVisibility => Ok(()),
        }
    }

    /// The layer after each of `ops` in turn.
    pub open spec fn run(self, ops: Seq<LayerOp>) -> LayerView
        decreases ops.len(),
    {
        if ops.len() == 0 {
            self
        } else {
            self.step(ops[0]).run(ops.drop_first())
        }
    }
}

/// Whatever operations a layer goes through, its cursor stays within its history.
pub proof fn lemma_cursor_stays_in_history(l: LayerView, ops: Seq<LayerOp>)
    requires
        l.wf(),
    ensures
        l.run(ops).wf(),
    decreases ops.len(),
{
    if ops.len() > 0 {
        lemma_cursor_stays_in_history(l.step(ops[0]), ops.drop_first());
    }
}

/// After an undo, a new instruction drops what was undone: a redo is then
/// refused with `CannotRedo`, and the new instruction is the last of the history.
pub proof fn lemma_instruct_after_undo_drops_redo(l: LayerView, b: InstructionBoxView)
    requires
        l.wf(),
        l.outcome(LayerOp::UndoBy(1)) == Ok::<(), Error>(()),
        !b.is_empty_stroke(),
    ensures
        l.step(LayerOp::UndoBy(1)).step(LayerOp::Instruct(b)).outcome(LayerOp::RedoBy(1))
            == Err::<(), Error>(Error::CannotRedo),
        l.step(LayerOp::UndoBy(1)).step(LayerOp::Instruct(b)).history.last() == b,
{
}

/// A stroke without any point is refused with `EmptyStroke` and leaves the
/// history and the cursor as they were.
pub proof fn lemma_empty_stroke_refused(l: LayerView, b: InstructionBoxView)
    requires
        b.is_empty_stroke(),
    ensures
        l.step(LayerOp::Instruct(b)) == l,
        l.outcome(LayerOp::Instruct(b)) == Err::<(), Error>(Error::EmptyStroke),
{
}

impl View for Layer {
    type V = LayerView;

    closed spec fn view(&self) -> LayerView {
        LayerView {
            history: self.history@.map_values(|b: InstructionBox| b@),
            history_index: self.history_index as int,
            visible: self.visible,
        }
    }
}

impl Default for Layer {
    fn default() -> (l: Layer)
        ensures
            l@ == LayerView::empty(),
    {
        let l = Layer { history: Vec::new(), history_index: 0, visible: true };
        assert(l@.history =~= Seq::empty());
        l
    }
}

impl Layer {
    /// The layer's cursor lies within its history.
    pub open spec fn wf(&self) -> bool {
        self@.wf()
    }

    /// An empty, visible layer.
    pub fn new() -> (l: Layer)
        ensures
            l@ == LayerView::empty(),
            l.wf(),
    {
        Layer::default()
    }

    /// A layer with the given history, cursor and visibility; `None` when the
    /// cursor lies beyond the history.
    pub fn from_parts(history: Vec<InstructionBox>, history_index: usize, visible: bool) -> (r: Option<Layer>)
        ensures
            r is Some <==> history_index <= history@.len(),
            r matches Some(l) ==> l.wf() && l@ == (LayerView {
                history: history@.map_values(|b: InstructionBox| b@),
                history_index: history_index as int,
                visible,
            }),
    {
        if history_index <= history.len() {
            Some(Layer { history, history_index, visible })
        } else {
            None
        }
    }

    /// Goes one step back in the history.
    pub fn undo(&mut self) -> (r: Result<(), Error>)
        requires
            old(self).wf(),
        ensures
            final(self).wf(),
            r == (if old(self)@.can_undo_by(1) { Ok(()) } else { Err(Error::CannotUndo) }),
            final(self)@ == old(self)@.step(LayerOp::UndoBy(1)),
    {
        self.undo_by(1)
    }

    /// Goes one step forward in the history.
    pub fn redo(&mut self) -> (r: Result<(), Error>)
        requires
            old(self).wf(),
        ensures
            final(self).wf(),
            r == (if old(self)@.can_redo_by(1) { Ok(()) } else { Err(Error::CannotRedo) }),
            final(self)@ == old(self)@.step(LayerOp::RedoBy(1)),
    {
        self.redo_by(1)
    }

    /// Goes `by` steps back in the history.
    pub fn undo_by(&mut self, by: usize) -> (r: Result<(), Error>)
        requires
            old(self).wf(),
        ensures
            final(self).wf(),
            r == (if old(self)@.can_undo_by(by as int) { Ok(()) } else { Err(Error::CannotUndo) }),
            final(self)@ == old(self)@.step(LayerOp::UndoBy(by as nat)),
    {
        if self.history_index >= by {
            self.history_index = self.history_index - by;
            assert(self@ =~= old(self)@.moved_by(-by));
            Ok(())
        } else {
            Err(Error::CannotUndo)
        }
    }

    /// Goes `by` steps forward in the history.
    pub fn redo_by(&mut self, by: usize) -> (r: Result<(), Error>)
        requires
            old(self).wf(),
        ensures
            final(self).wf(),
            r == (if old(self)@.can_redo_by(by as int) { Ok(()) } else { Err(Error::CannotRedo) }),
            final(self)@ == old(self)@.step(LayerOp::RedoBy(by as nat)),
    {
        if by <= self.history.len() - self.history_index {
            self.history_index = self.history_index + by;
            assert(self@ =~= old(self)@.moved_by(by as int));
            Ok(())
        } else {
            Err(Error::CannotRedo)
        }
    }

    /// Empties the history. This cannot be undone.
    pub fn clear(&mut self)
        ensures
            final(self).wf(),
            final(self)@ == old(self)@.cleared(),
    {
        self.history.clear();
        self.history_index = 0;
        assert(self@.history =~= old(self)@.cleared().history);
    }

    /// Appends an instruction after the applied ones, dropping those that were
    /// undone; a stroke without any point is refused.
    pub fn instruct(&mut self, instruction: InstructionBox) -> (r: Result<(), Error>)
        requires
            old(self).wf(),
        ensures
            final(self).wf(),
            r == (if instruction@.is_empty_stroke() { Err(Error::EmptyStroke) } else { Ok(()) }),
            final(self)@ == old(self)@.step(LayerOp::Instruct(instruction@)),
    {
        if instruction.is_empty_stroke() {
            return Err(Error::EmptyStroke);
        }
        let ghost b = instruction@;
        self.history.truncate(self.history_index);
        self.history.push(instruction);
        self.history_index = self.history.len();
        assert(self@.history =~= old(self)@.history.take(old(self)@.history_index).push(b));
        Ok(())
    }

    /// Toggles between visible and hidden.
    pub fn toggle_visibility(&mut self) -> (r: &Self)
        requires
            old(self).wf(),
        ensures
            final(self).wf(),
            final(self)@ == old(self)@.toggled(),
            r@ == final(self)@,
    {
        self.visible = !self.visible;
        assert(self@ =~= old(self)@.toggled());
        self
    }

    /// Whether the layer is visible.
    pub fn is_visible(&self) -> (r: bool)
        ensures
            r == self@.visible,
    {
        self.visible
    }

    /// All the instructions of the layer, the undone ones included.
    pub fn history(&self) -> (r: &Vec<InstructionBox>)
        ensures
            r@.map_values(|b: InstructionBox| b@) == self@.history,
    {
        &self.history
    }

    /// The position of the undo cursor.
    pub fn history_index(&self) -> (r: usize)
        ensures
            r as int == self@.history_index,
    {
        self.history_index
    }

    /// A copy of this layer.
    pub fn duplicate(&self) -> (l: Layer)
        requires
            self.wf(),
        ensures
            l@ == self@,
            l.wf(),
    {
        let mut out: Vec<InstructionBox> = Vec::new();
        let mut i: usize = 0;
        while i < self.history.len()
            invariant
                i <= self.history@.len(),
                out@.len() == i,
                forall|j: int| 0 <= j < i ==> out@[j]@ == self.history@[j]@,
            decreases self.history@.len() - i,
        {
            out.push(self.history[i].duplicate());
            i = i + 1;
        }
        let l = Layer { history: out, history_index: self.history_index, visible: self.visible };
        assert(l@.history =~= self@.history);
        l
    }
}

} // verus!
