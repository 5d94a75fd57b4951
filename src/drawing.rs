use vstd::prelude::*;
use crate::error::Error;
use crate::instructions::{InstructionBox, InstructionBoxView};
use crate::layer::{Layer, LayerOp, LayerView};

verus! {

/// A drawing: named layers in paint order, and the size of the canvas.
///
/// The layers are kept in one list, in paint order, so that the order always
/// names each layer exactly once.
#[derive(Debug)]
pub struct Drawing {
    layers: Vec<(String, Layer)>,
    width: u32,
    height: u32,
}

/// What a drawing is: its named layers in paint order (the first at the top)
/// and the canvas size.
pub struct DrawingView {
    pub layers: Seq<(Seq<char>, LayerView)>,
    pub width: u32,
    pub height: u32,
}

impl DrawingView {
    /// The layer names, in paint order.
    pub open spec fn layer_order(self) -> Seq<Seq<char>> {
        self.layers.map_values(|e: (Seq<char>, LayerView)| e.0)
    }

    /// Names are unique and every layer is well formed.
    pub open spec fn wf(self) -> bool {
        &&& self.layer_order().no_duplicates()
        &&& forall|i: int| 0 <= i < self.layers.len() ==> (#[trigger] self.layers[i]).1.wf()
    }

    pub open spec fn has_layer(self, name: Seq<char>) -> bool {
        self.layer_order().contains(name)
    }

    /// Where the layer of that name stands in the paint order.
    pub open spec fn position(self, name: Seq<char>) -> int {
        self.layer_order().index_of(name)
    }

    /// The layer of that name.
    pub open spec fn layer(self, name: Seq<char>) -> LayerView {
        self.layers[self.position(name)].1
    }

    /// The layer at position `i` replaced by `l`, under the same name.
    pub open spec fn with_layer_at(self, i: int, l: LayerView) -> DrawingView {
        DrawingView { layers: self.layers.update(i, (self.layers[i].0, l)), ..self }
    }

    /// The layers at positions `i` and `j` exchanged.
    pub open spec fn swapped(self, i: int, j: int) -> DrawingView {
        DrawingView { layers: self.layers.update(i, self.layers[j]).update(j, self.layers[i]), ..self }
    }

    /// The layer at position `i` taken out and put back at position `j`.
    pub open spec fn relocated(self, i: int, j: int) -> DrawingView {
        DrawingView { layers: self.layers.remove(i).insert(j, self.layers[i]), ..self }
    }

    /// `add_layer`: the drawing after it and its result.
    pub open spec fn add_layer_spec(self, name: Seq<char>) -> (DrawingView, Result<(), Error>) {
        if self.has_layer(name) {
            (self, Err(Error::LayerExists))
        } else {
            (DrawingView { layers: self.layers.push((name, LayerView::empty())), ..self }, Ok(()))
        }
    }

    /// `layer_up`: one step towards the top (position 0).
    pub open spec fn layer_up_spec(self, name: Seq<char>) -> (DrawingView, Result<(), Error>) {
        if !self.has_layer(name) {
            (self, Err(Error::LayerNotFound))
        } else if self.position(name) == 0 {
            (self, Err(Error::InvalidMove))
        } else {
            (self.swapped(self.position(name) - 1, self.position(name)), Ok(()))
        }
    }

    /// `layer_down`: one step towards the bottom (the last position).
    pub open spec fn layer_down_spec(self, name: Seq<char>) -> (DrawingView, Result<(), Error>) {
        if !self.has_layer(name) {
            (self, Err(Error::LayerNotFound))
        } else if self.position(name) == self.layers.len() - 1 {
            (self, Err(Error::InvalidMove))
        } else {
            (self.swapped(self.position(name), self.position(name) + 1), Ok(()))
        }
    }

    /// `layer_up_by`: the layer relocated `by` positions further in the order.
    pub open spec fn layer_up_by_spec(self, name: Seq<char>, by: nat) -> (DrawingView, Result<(), Error>) {
        if !self.has_layer(name) {
            (self, Err(Error::LayerNotFound))
        } else if self.position(name) + by >= self.layers.len() {
            (self, Err(Error::InvalidMove))
        } else {
            (self.relocated(self.position(name), self.position(name) + by), Ok(()))
        }
    }

    /// `layer_down_by`: the layer relocated `by` positions back in the order.
    pub open spec fn layer_down_by_spec(self, name: Seq<char>, by: nat) -> (DrawingView, Result<(), Error>) {
        if !self.has_layer(name) {
            (self, Err(Error::LayerNotFound))
        } else if self.position(name) < by {
            (self, Err(Error::InvalidMove))
        } else {
            (self.relocated(self.position(name), self.position(name) - by), Ok(()))
        }
    }

    /// `op` applied to the layer of that name.
    pub open spec fn on_layer_spec(self, name: Seq<char>, op: LayerOp) -> (DrawingView, Result<(), Error>) {
        if !self.has_layer(name) {
            (self, Err(Error::LayerNotFound))
        } else {
            (
                self.with_layer_at(self.position(name), self.layer(name).step(op)),
                self.layer(name).outcome(op),
            )
        }
    }
}

/// A name that is taken cannot be added again: after a first `add_layer`,
/// a second one under the same name returns `LayerExists` and leaves the
/// drawing, its paint order included, as it was.
pub proof fn lemma_add_layer_twice(d: DrawingView, name: Seq<char>)
    requires
        d.wf(),
    ensures
        d.add_layer_spec(name).0.add_layer_spec(name) == (d.add_layer_spec(name).0, Err::<(), Error>(Error::LayerExists)),
        d.add_layer_spec(name).0.layer_order().len() == d.add_layer_spec(name).0.add_layer_spec(name).0.layer_order().len(),
{
    let d1 = d.add_layer_spec(name).0;
    if !d.has_layer(name) {
        assert(d1.layer_order()[d.layers.len() as int] == name);
    }
}

/// The top layer cannot go up and the bottom layer cannot go down: both
/// moves return `InvalidMove` and leave the drawing as it was.
pub proof fn lemma_extremes_do_not_move(d: DrawingView)
    requires
        d.wf(),
        d.layers.len() > 0,
    ensures
        d.layer_up_spec(d.layer_order()[0]) == (d, Err::<(), Error>(Error::InvalidMove)),
        d.layer_down_spec(d.layer_order().last()) == (d, Err::<(), Error>(Error::InvalidMove)),
{
    lemma_position(d, 0);
    lemma_position(d, d.layers.len() - 1);
}

/// A stroke without any point, sent to an existing layer, is refused with
/// `EmptyStroke` and changes nothing.
pub proof fn lemma_empty_stroke_changes_no_layer(d: DrawingView, name: Seq<char>, b: InstructionBoxView)
    requires
        d.wf(),
        d.has_layer(name),
        b.is_empty_stroke(),
    ensures
        d.on_layer_spec(name, LayerOp::Instruct(b)) == (d, Err::<(), Error>(Error::EmptyStroke)),
{
    let i = d.position(name);
    assert(d.layer_order()[i] == name);
    assert(d.with_layer_at(i, d.layers[i].1).layers =~= d.layers);
}

/// A step keeps a layer well formed.
proof fn lemma_step_wf(l: LayerView, op: LayerOp)
    requires
        l.wf(),
    ensures
        l.step(op).wf(),
{
}

/// The position of `name` is the index at which it stands.
proof fn lemma_position(d: DrawingView, i: int)
    requires
        d.wf(),
        0 <= i < d.layers.len(),
    ensures
        d.has_layer(d.layers[i].0),
        d.position(d.layers[i].0) == i,
{
    let name = d.layers[i].0;
    assert(d.layer_order()[i] == name);
    let j = d.position(name);
    assert(d.layer_order()[j] == name);
}

/// What a named layer of a drawing is.
spec fn entry_view(e: (String, Layer)) -> (Seq<char>, LayerView) {
    (e.0@, e.1@)
}

/// What the named layers of a drawing are.
spec fn entries_view(v: Seq<(String, Layer)>) -> Seq<(Seq<char>, LayerView)> {
    v.map_values(|x: (String, Layer)| entry_view(x))
}

/// Replacing one named layer replaces its view alone.
broadcast proof fn lemma_entries_update(v: Seq<(String, Layer)>, i: int, e: (String, Layer))
    requires
        0 <= i < v.len(),
    ensures
        #[trigger] entries_view(v.update(i, e)) == entries_view(v).update(i, entry_view(e)),
{
    assert(entries_view(v.update(i, e)) =~= entries_view(v).update(i, entry_view(e)));
}

impl View for Drawing {
    type V = DrawingView;

    closed spec fn view(&self) -> DrawingView {
        DrawingView {
            layers: entries_view(self.layers@),
            width: self.width,
            height: self.height,
        }
    }
}

impl Default for Drawing {
    /// An empty drawing of 500 by 500.
    fn default() -> (d: Drawing)
        ensures
            d@ == (DrawingView { layers: Seq::empty(), width: 500, height: 500 }),
            d.wf(),
    {
        Drawing::new(500, 500)
    }
}

impl Drawing {
    pub open spec fn wf(&self) -> bool {
        self@.wf()
    }

    /// An empty drawing with the given dimensions.
    pub fn new(height: u32, width: u32) -> (d: Drawing)
        ensures
            d@ == (DrawingView { layers: Seq::empty(), width, height }),
            d.wf(),
    {
        let d = Drawing { layers: Vec::new(), width, height };
        assert(d@.layers =~= Seq::empty());
        d
    }

    /// Where the layer of that name stands.
    fn find(&self, name: &str) -> (r: Option<usize>)
        requires
            self.wf(),
        ensures
            match r {
                Some(i) => self@.has_layer(name@) && i as int == self@.position(name@) && i < self@.layers.len(),
                None => !self@.has_layer(name@),
            },
    {
        let key: String = name.to_owned();
        let mut i: usize = 0;
        while i < self.layers.len()
            invariant
                self.wf(),
                key@ == name@,
                i <= self.layers@.len(),
                forall|j: int| 0 <= j < i ==> self@.layer_order()[j] != name@,
            decreases self.layers@.len() - i,
        {
            if self.layers[i].0 == key {
                proof {
                    lemma_position(self@, i as int);
                }
                return Some(i);
            }
            i = i + 1;
        }
        None
    }

    /// Adds an empty, visible layer of that name at the end of the paint order;
    /// names are unique, so a name that is taken is refused.
    pub fn add_layer(&mut self, name: &str) -> (r: Result<(), Error>)
        requires
            old(self).wf(),
        ensures
            final(self).wf(),
            (final(self)@, r) == old(self)@.add_layer_spec(name@),
    {
        self.insert_layer(name, Layer::new())
    }

    /// Adds the given layer under that name at the end of the paint order;
    /// a name that is taken is refused.
    pub fn insert_layer(&mut self, name: &str, layer: Layer) -> (r: Result<(), Error>)
        requires
            old(self).wf(),
            layer.wf(),
        ensures
            final(self).wf(),
            r == (if old(self)@.has_layer(name@) { Err(Error::LayerExists) } else { Ok(()) }),
            final(self)@ == (if old(self)@.has_layer(name@) {
                old(self)@
            } else {
                DrawingView { layers: old(self)@.layers.push((name@, layer@)), ..old(self)@ }
            }),
    {
        match self.find(name) {
            Some(_) => Err(Error::LayerExists),
            None => {
                let ghost l = layer@;
                self.layers.push((name.to_owned(), layer));
                assert(self@.layers =~= old(self)@.layers.push((name@, l)));
                assert(self@.layer_order() =~= old(self)@.layer_order().push(name@));
                Ok(())
            }
        }
    }

    /// The layer names, in paint order.
    pub fn layer_order(&self) -> (r: Vec<String>)
        ensures
            r@.map_values(|s: String| s@) == self@.layer_order(),
    {
        let mut out: Vec<String> = Vec::new();
        let mut i: usize = 0;
        while i < self.layers.len()
            invariant
                i <= self.layers@.len(),
                out@.map_values(|s: String| s@) == self@.layer_order().take(i as int),
            decreases self.layers@.len() - i,
        {
            let ghost before = out@;
            let s = self.layers[i].0.clone();
            out.push(s);
            assert(out@.map_values(|s: String| s@) =~= before.map_values(|s: String| s@).push(self@.layer_order()[i as int]));
            assert(self@.layer_order().take(i + 1) =~= self@.layer_order().take(i as int).push(self@.layer_order()[i as int]));
            i = i + 1;
        }
        assert(self@.layer_order().take(self.layers@.len() as int) =~= self@.layer_order());
        out
    }

    /// The layer of that name, to be changed in place.
    pub fn get_layer_mut(&mut self, layer_name: &str) -> (r: Option<&mut Layer>)
        requires
            old(self).wf(),
        ensures
            match r {
                Some(l) => old(self)@.has_layer(layer_name@)
                    && l@ == old(self)@.layer(layer_name@)
                    && final(self)@ == old(self)@.with_layer_at(old(self)@.position(layer_name@), final(l)@),
                None => !old(self)@.has_layer(layer_name@) && final(self)@ == old(self)@,
            },
    {
        broadcast use lemma_entries_update;
        match self.find(layer_name) {
            None => None,
            Some(i) => Some(&mut self.layers[i].1),
        }
    }

    /// Takes the layer at position `i` out and puts it back at position `j`.
    fn relocate(&mut self, i: usize, j: usize)
        requires
            old(self).wf(),
            i < old(self)@.layers.len(),
            j < old(self)@.layers.len(),
        ensures
            final(self).wf(),
            final(self)@ == old(self)@.relocated(i as int, j as int),
    {
        let entry = self.layers.remove(i);
        self.layers.insert(j, entry);
        assert(self@.layers =~= old(self)@.relocated(i as int, j as int).layers);
        proof { lemma_relocated_wf(old(self)@, i as int, j as int); }
    }

    /// Moves the layer one step up (towards position 0) in the paint order.
    pub fn layer_up(&mut self, name: &str) -> (r: Result<(), Error>)
        requires
            old(self).wf(),
        ensures
            final(self).wf(),
            (final(self)@, r) == old(self)@.layer_up_spec(name@),
    {
        match self.find(name) {
            None => Err(Error::LayerNotFound),
            Some(i) => {
                if i == 0 {
                    Err(Error::InvalidMove)
                } else {
                    self.relocate(i, i - 1);
                    assert(self@.layers =~= old(self)@.swapped(i - 1, i as int).layers);
                    Ok(())
                }
            }
        }
    }

    /// Moves the layer one step down (towards the last position) in the paint order.
    pub fn layer_down(&mut self, name: &str) -> (r: Result<(), Error>)
        requires
            old(self).wf(),
        ensures
            final(self).wf(),
            (final(self)@, r) == old(self)@.layer_down_spec(name@),
    {
        match self.find(name) {
            None => Err(Error::LayerNotFound),
            Some(i) => {
                if i == self.layers.len() - 1 {
                    Err(Error::InvalidMove)
                } else {
                    self.relocate(i, i + 1);
                    assert(self@.layers =~= old(self)@.swapped(i as int, i + 1).layers);
                    Ok(())
                }
            }
        }
    }

    /// Takes the layer out and puts it back `by` positions further in the order.
    pub fn layer_up_by(&mut self, name: &str, by: usize) -> (r: Result<(), Error>)
        requires
            old(self).wf(),
        ensures
            final(self).wf(),
            (final(self)@, r) == old(self)@.layer_up_by_spec(name@, by as nat),
    {
        match self.find(name) {
            None => Err(Error::LayerNotFound),
            Some(i) => {
                if by < self.layers.len() - i {
                    self.relocate(i, i + by);
                    Ok(())
                } else {
                    Err(Error::InvalidMove)
                }
            }
        }
    }

    /// Takes the layer out and puts it back `by` positions back in the order.
    pub fn layer_down_by(&mut self, name: &str, by: usize) -> (r: Result<(), Error>)
        requires
            old(self).wf(),
        ensures
            final(self).wf(),
            (final(self)@, r) == old(self)@.layer_down_by_spec(name@, by as nat),
    {
        match self.find(name) {
            None => Err(Error::LayerNotFound),
            Some(i) => {
                if i >= by {
                    self.relocate(i, i - by);
                    Ok(())
                } else {
                    Err(Error::InvalidMove)
                }
            }
        }
    }

    /// Applies the instruction to the layer of that name.
    pub fn instruct(&mut self, instruction: InstructionBox, layer_name: &str) -> (r: Result<(), Error>)
        requires
            old(self).wf(),
        ensures
            final(self).wf(),
            (final(self)@, r) == old(self)@.on_layer_spec(layer_name@, LayerOp::Instruct(instruction@)),
    {
        match self.find(layer_name) {
            None => Err(Error::LayerNotFound),
            Some(i) => {
                let ghost op = LayerOp::Instruct(instruction@);
                let r = self.layers[i].1.instruct(instruction);
                proof { self.lemma_layer_changed(old(self)@, i as int, op); }
                r
            }
        }
    }

    /// Goes one step back in the history of the layer of that name.
    pub fn undo(&mut self, layer_name: &str) -> (r: Result<(), Error>)
        requires
            old(self).wf(),
        ensures
            final(self).wf(),
            (final(self)@, r) == old(self)@.on_layer_spec(layer_name@, LayerOp::UndoBy(1)),
    {
        match self.find(layer_name) {
            None => Err(Error::LayerNotFound),
            Some(i) => {
                let r = self.layers[i].1.undo();
                proof { self.lemma_layer_changed(old(self)@, i as int, LayerOp::UndoBy(1)); }
                r
            }
        }
    }

    /// Goes one step forward in the history of the layer of that name.
    pub fn redo(&mut self, layer_name: &str) -> (r: Result<(), Error>)
        requires
            old(self).wf(),
        ensures
            final(self).wf(),
            (final(self)@, r) == old(self)@.on_layer_spec(layer_name@, LayerOp::RedoBy(1)),
    {
        match self.find(layer_name) {
            None => Err(Error::LayerNotFound),
            Some(i) => {
                let r = self.layers[i].1.redo();
                proof { self.lemma_layer_changed(old(self)@, i as int, LayerOp::RedoBy(1)); }
                r
            }
        }
    }

    /// Toggles the visibility of the layer of that name.
    pub fn toggle_visibility(&mut self, layer_name: &str) -> (r: Result<(), Error>)
        requires
            old(self).wf(),
        ensures
            final(self).wf(),
            (final(self)@, r) == old(self)@.on_layer_spec(layer_name@, LayerOp::ToggleVisibility),
    {
        match self.find(layer_name) {
            None => Err(Error::LayerNotFound),
            Some(i) => {
                self.layers[i].1.toggle_visibility();
                proof { self.lemma_layer_changed(old(self)@, i as int, LayerOp::ToggleVisibility); }
                Ok(())
            }
        }
    }

    /// The layer at position `i` went through `op` and nothing else changed.
    proof fn lemma_layer_changed(&self, before: DrawingView, i: int, op: LayerOp)
        requires
            before.wf(),
            0 <= i < before.layers.len(),
            self@.layers.len() == before.layers.len(),
            self.width == before.width,
            self.height == before.height,
            self.layers@[i].0@ == before.layers[i].0,
            self.layers@[i].1@ == before.layers[i].1.step(op),
            forall|k: int| 0 <= k < before.layers.len() && k != i ==> #[trigger] self@.layers[k] == before.layers[k],
        ensures
            self@ == before.with_layer_at(i, before.layers[i].1.step(op)),
            self.wf(),
    {
        lemma_position(before, i);
        assert(self@.layers =~= before.with_layer_at(i, before.layers[i].1.step(op)).layers);
        lemma_step_wf(before.layers[i].1, op);
        assert(self@.layer_order() =~= before.layer_order());
    }

    /// Returns the width of the drawing.
    pub fn width(&self) -> (w: u32)
        ensures
            w == self@.width,
    {
        self.width
    }

    /// Returns the height of the drawing.
    pub fn height(&self) -> (h: u32)
        ensures
            h == self@.height,
    {
        self.height
    }

    /// The layer of that name.
    pub fn get_layer(&self, layer_name: &str) -> (r: Option<&Layer>)
        requires
            self.wf(),
        ensures
            match r {
                Some(l) => self@.has_layer(layer_name@) && l@ == self@.layer(layer_name@),
                None => !self@.has_layer(layer_name@),
            },
    {
        match self.find(layer_name) {
            None => None,
            Some(i) => Some(&self.layers[i].1),
        }
    }

    /// A copy of this drawing.
    pub fn duplicate(&self) -> (d: Drawing)
        requires
            self.wf(),
        ensures
            d@ == self@,
            d.wf(),
    {
        let mut out: Vec<(String, Layer)> = Vec::new();
        let mut i: usize = 0;
        while i < self.layers.len()
            invariant
                self.wf(),
                i <= self.layers@.len(),
                out@.len() == i,
                forall|j: int| 0 <= j < i ==> (#[trigger] out@[j]).0@ == self.layers@[j].0@ && out@[j].1@ == self.layers@[j].1@,
            decreases self.layers@.len() - i,
        {
            proof { assert(self@.layers[i as int].1.wf()); }
            let name = self.layers[i].0.clone();
            let layer = self.layers[i].1.duplicate();
            out.push((name, layer));
            i = i + 1;
        }
        let d = Drawing { layers: out, width: self.width, height: self.height };
        assert(d@.layers =~= self@.layers);
        d
    }
}

/// Relocating a layer keeps the names unique and the layers well formed.
proof fn lemma_relocated_wf(d: DrawingView, i: int, j: int)
    requires
        d.wf(),
        0 <= i < d.layers.len(),
        0 <= j < d.layers.len(),
    ensures
        d.relocated(i, j).wf(),
{
    let r = d.relocated(i, j);
    let src = |k: int| if k == j { i } else if (if k < j { k } else { k - 1 }) < i { if k < j { k } else { k - 1 } } else { (if k < j { k } else { k - 1 }) + 1 };
    assert forall|k: int| 0 <= k < r.layers.len() implies 0 <= #[trigger] src(k) < d.layers.len() && r.layers[k] == d.layers[src(k)] by {
    }
    assert forall|a: int, b: int| 0 <= a < r.layers.len() && 0 <= b < r.layers.len() && a != b implies #[trigger] r.layer_order()[a] != #[trigger] r.layer_order()[b] by {
        assert(r.layers[a] == d.layers[src(a)]);
        assert(r.layers[b] == d.layers[src(b)]);
        assert(d.layer_order()[src(a)] != d.layer_order()[src(b)]);
    }
    assert forall|k: int| 0 <= k < r.layers.len() implies (#[trigger] r.layers[k]).1.wf() by {
        assert(r.layers[k] == d.layers[src(k)]);
    }
}

} // verus!
