use vstd::prelude::*;
use crate::drawing::{Drawing, DrawingView};
use crate::error::Error;
use crate::layer::LayerOp;
use crate::messages::{CursorDataIn, CursorDataOut, InitData, InstructionData, TempDrawData, WebSocketMessage};

verus! {

/// The names that a list of strings holds.
pub open spec fn names(v: Seq<String>) -> Seq<Seq<char>> {
    v.map_values(|s: String| s@)
}

/// The users of `users` other than `name`, in the same order.
pub open spec fn others(users: Seq<Seq<char>>, name: Seq<char>) -> Seq<Seq<char>>
    decreases users.len(),
{
    if users.len() == 0 {
        users
    } else {
        let rest = others(users.drop_last(), name);
        if users.last() == name {
            rest
        } else {
            rest.push(users.last())
        }
    }
}

/// A message and the users it goes to.
#[derive(Debug)]
pub struct Fanout {
    pub recipients: Vec<String>,
    pub message: WebSocketMessage,
}

/// The single authority over the shared drawing and the connected users.
#[derive(Debug)]
pub struct Hub {
    users: Vec<String>,
    drawing: Drawing,
}

/// What a hub is: the connected users, in the order they joined, and the drawing.
pub struct HubView {
    pub users: Seq<Seq<char>>,
    pub drawing: DrawingView,
}

impl HubView {
    /// Names are unique and the drawing is well formed.
    pub open spec fn wf(self) -> bool {
        self.users.no_duplicates() && self.drawing.wf()
    }

    /// A connection under `name` is accepted.
    pub open spec fn accepts(self, name: Seq<char>) -> bool {
        !self.users.contains(name)
    }

    /// The hub after a connection under `name`.
    pub open spec fn connected(self, name: Seq<char>) -> HubView {
        if self.accepts(name) {
            HubView { users: self.users.push(name), ..self }
        } else {
            self
        }
    }

    /// The hub after `name` has left.
    pub open spec fn disconnected(self, name: Seq<char>) -> HubView {
        HubView { users: others(self.users, name), ..self }
    }
}

/// A user is among the others of `name` exactly when it is connected and is
/// not `name`.
pub proof fn lemma_others(users: Seq<Seq<char>>, name: Seq<char>)
    ensures
        forall|u: Seq<char>| #[trigger] others(users, name).contains(u) <==> (users.contains(u) && u != name),
        users.no_duplicates() ==> others(users, name).no_duplicates(),
    decreases users.len(),
{
    if users.len() > 0 {
        let rest = users.drop_last();
        lemma_others(rest, name);
        assert forall|u: Seq<char>| users.contains(u) <==> (rest.contains(u) || u == users.last()) by {
            if users.contains(u) {
                let i = choose|i: int| 0 <= i < users.len() && users[i] == u;
                if i < users.len() - 1 {
                    assert(rest[i] == u);
                }
            }
            if rest.contains(u) {
                let i = choose|i: int| 0 <= i < rest.len() && rest[i] == u;
                assert(users[i] == u);
            }
            if u == users.last() {
                assert(users[users.len() - 1] == u);
            }
        }
        let o = others(users, name);
        let orest = others(rest, name);
        if users.last() != name {
            assert forall|u: Seq<char>| o.contains(u) <==> (orest.contains(u) || u == users.last()) by {
                if o.contains(u) {
                    let i = choose|i: int| 0 <= i < o.len() && o[i] == u;
                    if i < o.len() - 1 {
                        assert(orest[i] == u);
                    }
                }
                if orest.contains(u) {
                    let i = choose|i: int| 0 <= i < orest.len() && orest[i] == u;
                    assert(o[i] == u);
                }
                if u == users.last() {
                    assert(o[o.len() - 1] == u);
                }
            }
            if users.no_duplicates() {
                assert(rest.no_duplicates());
                assert(!rest.contains(users.last())) by {
                    if rest.contains(users.last()) {
                        let i = choose|i: int| 0 <= i < rest.len() && rest[i] == users.last();
                        assert(users[i] == users[users.len() - 1]);
                    }
                }
                assert(!orest.contains(users.last()));
                assert forall|i: int, j: int| 0 <= i < o.len() && 0 <= j < o.len() && i != j implies o[i] != o[j] by {
                    if i < o.len() - 1 && j < o.len() - 1 {
                        assert(o[i] == orest[i] && o[j] == orest[j]);
                    } else if i < o.len() - 1 {
                        assert(orest.contains(o[i]));
                    } else {
                        assert(orest.contains(o[j]));
                    }
                }
            }
        } else {
            if users.no_duplicates() {
                assert(rest.no_duplicates());
            }
        }
    }
}

/// A drawing operation went through the hub: the drawing took the step, the
/// users stayed, and a message went to every user exactly when the step
/// succeeded.
pub open spec fn commits(
    before: HubView,
    after: HubView,
    step: (DrawingView, Result<(), Error>),
    r: Option<Fanout>,
) -> bool {
    &&& after == (HubView { users: before.users, drawing: step.0 })
    &&& (r is Some <==> step.1 is Ok)
    &&& (r matches Some(f) ==> names(f.recipients@) == before.users)
}

impl View for Hub {
    type V = HubView;

    closed spec fn view(&self) -> HubView {
        HubView { users: names(self.users@), drawing: self.drawing@ }
    }
}

impl Hub {
    pub open spec fn wf(&self) -> bool {
        self@.wf()
    }

    /// A hub over the given drawing, with nobody connected.
    pub fn new(drawing: Drawing) -> (h: Hub)
        requires
            drawing.wf(),
        ensures
            h@ == (HubView { users: Seq::empty(), drawing: drawing@ }),
            h.wf(),
    {
        let h = Hub { users: Vec::new(), drawing };
        assert(h@.users =~= Seq::empty());
        h
    }

    /// The shared drawing.
    pub fn drawing(&self) -> (d: &Drawing)
        ensures
            d@ == self@.drawing,
    {
        &self.drawing
    }

    /// The connected users, in the order they joined.
    pub fn users(&self) -> (u: &Vec<String>)
        ensures
            names(u@) == self@.users,
    {
        &self.users
    }

    /// Whether a user of that name is connected.
    pub fn is_connected(&self, name: &str) -> (r: bool)
        ensures
            r == self@.users.contains(name@),
    {
        let key: String = name.to_owned();
        let mut i: usize = 0;
        while i < self.users.len()
            invariant
                key@ == name@,
                i <= self.users@.len(),
                forall|j: int| 0 <= j < i ==> self@.users[j] != name@,
            decreases self.users@.len() - i,
        {
            if self.users[i] == key {
                assert(self@.users[i as int] == name@);
                return true;
            }
            i = i + 1;
        }
        false
    }

    /// A copy of the list of users.
    fn everyone(&self) -> (r: Vec<String>)
        ensures
            names(r@) == self@.users,
    {
        let mut out: Vec<String> = Vec::new();
        let mut i: usize = 0;
        while i < self.users.len()
            invariant
                i <= self.users@.len(),
                names(out@) == self@.users.take(i as int),
            decreases self.users@.len() - i,
        {
            let ghost before = out@;
            let s = self.users[i].clone();
            out.push(s);
            assert(names(out@) =~= names(before).push(self@.users[i as int]));
            assert(self@.users.take(i + 1) =~= self@.users.take(i as int).push(self@.users[i as int]));
            i = i + 1;
        }
        assert(self@.users.take(self.users@.len() as int) =~= self@.users);
        out
    }

    /// The users other than `name`, in the order they joined.
    fn everyone_but(&self, name: &str) -> (r: Vec<String>)
        ensures
            names(r@) == others(self@.users, name@),
    {
        let key: String = name.to_owned();
        let mut out: Vec<String> = Vec::new();
        let mut i: usize = 0;
        while i < self.users.len()
            invariant
                key@ == name@,
                i <= self.users@.len(),
                names(out@) == others(self@.users.take(i as int), name@),
            decreases self.users@.len() - i,
        {
            let ghost before = out@;
            assert(self@.users.take(i + 1).drop_last() =~= self@.users.take(i as int));
            if self.users[i] != key {
                let s = self.users[i].clone();
                out.push(s);
                assert(names(out@) =~= names(before).push(self@.users[i as int]));
            }
            i = i + 1;
        }
        assert(self@.users.take(self.users@.len() as int) =~= self@.users);
        out
    }

    /// Registers a connection under `username`, unless a connected user
    /// already has that name. On success the users that were there are told
    /// that `username` joined.
    pub fn connect(&mut self, username: String) -> (r: Result<Fanout, Error>)
        requires
            old(self).wf(),
        ensures
            final(self).wf(),
            final(self)@ == old(self)@.connected(username@),
            r is Ok <==> old(self)@.accepts(username@),
            match r {
                Ok(f) => names(f.recipients@) == old(self)@.users
                    && (f.message matches WebSocketMessage::Join(u) && u@ == username@),
                Err(e) => e == Error::IdentityConflict,
            },
    {
        if self.is_connected(username.as_str()) {
            return Err(Error::IdentityConflict);
        }
        let recipients = self.everyone();
        let joined = username.clone();
        self.users.push(username);
        assert(self@.users =~= old(self)@.users.push(joined@));
        assert(self@.users.no_duplicates()) by {
            assert forall|i: int, j: int| 0 <= i < self@.users.len() && 0 <= j < self@.users.len() && i != j
                implies self@.users[i] != self@.users[j] by {
                if i == self@.users.len() - 1 {
                    assert(old(self)@.users[j] == self@.users[j]);
                    assert(old(self)@.users.contains(self@.users[j]));
                } else if j == self@.users.len() - 1 {
                    assert(old(self)@.users[i] == self@.users[i]);
                    assert(old(self)@.users.contains(self@.users[i]));
                } else {
                    assert(old(self)@.users[i] == self@.users[i]);
                    assert(old(self)@.users[j] == self@.users[j]);
                }
            }
        }
        Ok(Fanout { recipients, message: WebSocketMessage::Join(joined) })
    }

    /// Removes the user of that name, if it is connected. Nobody is told.
    pub fn disconnect(&mut self, username: &str)
        requires
            old(self).wf(),
        ensures
            final(self).wf(),
            final(self)@ == old(self)@.disconnected(username@),
    {
        let rest = self.everyone_but(username);
        self.users = rest;
        proof { lemma_others(old(self)@.users, username@); }
    }

    /// Moves the cursor of the layer one step back; on success every user is told.
    pub fn apply_undo(&mut self, layer: String) -> (r: Option<Fanout>)
        requires
            old(self).wf(),
        ensures
            final(self).wf(),
            commits(old(self)@, final(self)@, old(self)@.drawing.on_layer_spec(layer@, LayerOp::UndoBy(1)), r),
            r matches Some(f) ==> (f.message matches WebSocketMessage::Undo(l) && l@ == layer@),
    {
        match self.drawing.undo(layer.as_str()) {
            Ok(()) => Some(Fanout { recipients: self.everyone(), message: WebSocketMessage::Undo(layer) }),
            Err(_) => None,
        }
    }

    /// Moves the cursor of the layer one step forward; on success every user is told.
    pub fn apply_redo(&mut self, layer: String) -> (r: Option<Fanout>)
        requires
            old(self).wf(),
        ensures
            final(self).wf(),
            commits(old(self)@, final(self)@, old(self)@.drawing.on_layer_spec(layer@, LayerOp::RedoBy(1)), r),
            r matches Some(f) ==> (f.message matches WebSocketMessage::Redo(l) && l@ == layer@),
    {
        match self.drawing.redo(layer.as_str()) {
            Ok(()) => Some(Fanout { recipients: self.everyone(), message: WebSocketMessage::Redo(layer) }),
            Err(_) => None,
        }
    }

    /// Adds a layer; on success every user is told.
    pub fn apply_add_layer(&mut self, layer: String) -> (r: Option<Fanout>)
        requires
            old(self).wf(),
        ensures
            final(self).wf(),
            commits(old(self)@, final(self)@, old(self)@.drawing.add_layer_spec(layer@), r),
            r matches Some(f) ==> (f.message matches WebSocketMessage::AddLayer(l) && l@ == layer@),
    {
        match self.drawing.add_layer(layer.as_str()) {
            Ok(()) => Some(Fanout { recipients: self.everyone(), message: WebSocketMessage::AddLayer(layer) }),
            Err(_) => None,
        }
    }

    /// Moves the layer one step up; on success every user is told.
    pub fn apply_layer_up(&mut self, layer: String) -> (r: Option<Fanout>)
        requires
            old(self).wf(),
        ensures
            final(self).wf(),
            commits(old(self)@, final(self)@, old(self)@.drawing.layer_up_spec(layer@), r),
            r matches Some(f) ==> (f.message matches WebSocketMessage::LayerUp(l) && l@ == layer@),
    {
        match self.drawing.layer_up(layer.as_str()) {
            Ok(()) => Some(Fanout { recipients: self.everyone(), message: WebSocketMessage::LayerUp(layer) }),
            Err(_) => None,
        }
    }

    /// Moves the layer one step down; on success every user is told.
    pub fn apply_layer_down(&mut self, layer: String) -> (r: Option<Fanout>)
        requires
            old(self).wf(),
        ensures
            final(self).wf(),
            commits(old(self)@, final(self)@, old(self)@.drawing.layer_down_spec(layer@), r),
            r matches Some(f) ==> (f.message matches WebSocketMessage::LayerDown(l) && l@ == layer@),
    {
        match self.drawing.layer_down(layer.as_str()) {
            Ok(()) => Some(Fanout { recipients: self.everyone(), message: WebSocketMessage::LayerDown(layer) }),
            Err(_) => None,
        }
    }

    /// Toggles the visibility of the layer; on success every user is told.
    pub fn apply_toggle_visibility(&mut self, layer: String) -> (r: Option<Fanout>)
        requires
            old(self).wf(),
        ensures
            final(self).wf(),
            commits(old(self)@, final(self)@, old(self)@.drawing.on_layer_spec(layer@, LayerOp::ToggleVisibility), r),
            r matches Some(f) ==> (f.message matches WebSocketMessage::ToggleLayerVisibility(l) && l@ == layer@),
    {
        match self.drawing.toggle_visibility(layer.as_str()) {
            Ok(()) => Some(Fanout { recipients: self.everyone(), message: WebSocketMessage::ToggleLayerVisibility(layer) }),
            Err(_) => None,
        }
    }

    /// Applies an instruction to its layer; on success the instruction, with
    /// its layer and its id, goes to every user, its sender included.
    pub fn apply_instruction(&mut self, data: InstructionData) -> (r: Option<Fanout>)
        requires
            old(self).wf(),
        ensures
            final(self).wf(),
            commits(
                old(self)@,
                final(self)@,
                old(self)@.drawing.on_layer_spec(data.layer@, LayerOp::Instruct(data.instruction@)),
                r,
            ),
            r matches Some(f) ==> (f.message matches WebSocketMessage::Instruction(d)
                && d.layer@ == data.layer@ && d.instruction@ == data.instruction@),
    {
        let InstructionData { layer, instruction } = data;
        let copy = instruction.duplicate();
        match self.drawing.instruct(instruction, layer.as_str()) {
            Ok(()) => Some(
                Fanout {
                    recipients: self.everyone(),
                    message: WebSocketMessage::Instruction(InstructionData { layer, instruction: copy }),
                },
            ),
            Err(_) => None,
        }
    }

    /// Relays a cursor to every user but its own.
    pub fn cursor_relay(&self, username: &str, cursor: CursorDataIn) -> (f: Fanout)
        ensures
            names(f.recipients@) == others(self@.users, username@),
            f.message matches WebSocketMessage::CursorOut(o) && o.cursor == cursor && o.username@ == username@,
    {
        let out = CursorDataOut::from_recieved(cursor, username.to_owned());
        Fanout { recipients: self.everyone_but(username), message: WebSocketMessage::CursorOut(out) }
    }

    /// Relays a stroke still being drawn to every user but its author.
    pub fn temp_draw_relay(&self, username: &str, data: TempDrawData) -> (f: Fanout)
        ensures
            names(f.recipients@) == others(self@.users, username@),
            f.message matches WebSocketMessage::TempDraw(d) && d == data,
    {
        Fanout { recipients: self.everyone_but(username), message: WebSocketMessage::TempDraw(data) }
    }

    /// The drawing as it is now and the list of users, for a connected user
    /// alone; nothing for a name that is not connected.
    pub fn request_init(&self, username: &str) -> (r: Option<Fanout>)
        requires
            self.wf(),
        ensures
            r is Some <==> self@.users.contains(username@),
            r matches Some(f) ==> names(f.recipients@) == seq![username@],
            r matches Some(f) ==> (f.message matches WebSocketMessage::Init(i)
                && i.drawing@ == self@.drawing && i.drawing.wf() && names(i.users@) == self@.users),
    {
        if !self.is_connected(username) {
            return None;
        }
        let mut recipients: Vec<String> = Vec::new();
        recipients.push(username.to_owned());
        assert(names(recipients@) =~= seq![username@]);
        let init = InitData { drawing: self.drawing.duplicate(), users: self.everyone() };
        Some(Fanout { recipients, message: WebSocketMessage::Init(init) })
    }

    /// Handles a message that the user `sender` sent: applies what it asks
    /// and says to whom what goes out. Messages that only the hub sends are
    /// ignored.
    pub fn receive(&mut self, sender: &str, message: WebSocketMessage) -> (r: Option<Fanout>)
        requires
            old(self).wf(),
        ensures
            final(self).wf(),
            match message {
                WebSocketMessage::CursorIn(c) => final(self)@ == old(self)@
                    && (r matches Some(f)
                    && names(f.recipients@) == others(old(self)@.users, sender@)
                    && (f.message matches WebSocketMessage::CursorOut(o) && o.cursor == c && o.username@ == sender@)),
                WebSocketMessage::Instruction(d) => commits(
                    old(self)@,
                    final(self)@,
                    old(self)@.drawing.on_layer_spec(d.layer@, LayerOp::Instruct(d.instruction@)),
                    r,
                ) && (r matches Some(f) ==> (f.message matches WebSocketMessage::Instruction(e)
                    && e.layer@ == d.layer@ && e.instruction@ == d.instruction@)),
                WebSocketMessage::ToggleLayerVisibility(l) => commits(
                    old(self)@,
                    final(self)@,
                    old(self)@.drawing.on_layer_spec(l@, LayerOp::ToggleVisibility),
                    r,
                ) && (r matches Some(f) ==> (f.message matches WebSocketMessage::ToggleLayerVisibility(m) && m@ == l@)),
                WebSocketMessage::AddLayer(l) => commits(old(self)@, final(self)@, old(self)@.drawing.add_layer_spec(l@), r)
                    && (r matches Some(f) ==> (f.message matches WebSocketMessage::AddLayer(m) && m@ == l@)),
                WebSocketMessage::LayerUp(l) => commits(old(self)@, final(self)@, old(self)@.drawing.layer_up_spec(l@), r)
                    && (r matches Some(f) ==> (f.message matches WebSocketMessage::LayerUp(m) && m@ == l@)),
                WebSocketMessage::LayerDown(l) => commits(old(self)@, final(self)@, old(self)@.drawing.layer_down_spec(l@), r)
                    && (r matches Some(f) ==> (f.message matches WebSocketMessage::LayerDown(m) && m@ == l@)),
                WebSocketMessage::Undo(l) => commits(
                    old(self)@,
                    final(self)@,
                    old(self)@.drawing.on_layer_spec(l@, LayerOp::UndoBy(1)),
                    r,
                ) && (r matches Some(f) ==> (f.message matches WebSocketMessage::Undo(m) && m@ == l@)),
                WebSocketMessage::Redo(l) => commits(
                    old(self)@,
                    final(self)@,
                    old(self)@.drawing.on_layer_spec(l@, LayerOp::RedoBy(1)),
                    r,
                ) && (r matches Some(f) ==> (f.message matches WebSocketMessage::Redo(m) && m@ == l@)),
                WebSocketMessage::RequestInit => final(self)@ == old(self)@
                    && (r is Some <==> old(self)@.users.contains(sender@))
                    && (r matches Some(f) ==> names(f.recipients@) == seq![sender@])
                    && (r matches Some(f) ==> (f.message matches WebSocketMessage::Init(i)
                    && i.drawing@ == old(self)@.drawing && names(i.users@) == old(self)@.users)),
                WebSocketMessage::TempDraw(t) => final(self)@ == old(self)@
                    && (r matches Some(f)
                    && names(f.recipients@) == others(old(self)@.users, sender@)
                    && (f.message matches WebSocketMessage::TempDraw(u) && u == t)),
                _ => final(self)@ == old(self)@ && r is None,
            },
    {
        match message {
            WebSocketMessage::CursorIn(c) => Some(self.cursor_relay(sender, c)),
            WebSocketMessage::Instruction(d) => self.apply_instruction(d),
            WebSocketMessage::ToggleLayerVisibility(l) => self.apply_toggle_visibility(l),
            WebSocketMessage::AddLayer(l) => self.apply_add_layer(l),
            WebSocketMessage::LayerUp(l) => self.apply_layer_up(l),
            WebSocketMessage::LayerDown(l) => self.apply_layer_down(l),
            WebSocketMessage::Undo(l) => self.apply_undo(l),
            WebSocketMessage::Redo(l) => self.apply_redo(l),
            WebSocketMessage::RequestInit => self.request_init(sender),
            WebSocketMessage::TempDraw(t) => Some(self.temp_draw_relay(sender, t)),
            WebSocketMessage::CursorOut(_) => None,
            WebSocketMessage::Init(_) => None,
            WebSocketMessage::Join(_) => None,
        }
    }
}

/// Of two connections under one free name, the first is accepted and the
/// second refused: the second changes nothing, and the name is registered,
/// once, since names stay unique.
pub proof fn lemma_one_connection_per_name(h: HubView, name: Seq<char>)
    requires
        h.wf(),
        !h.users.contains(name),
    ensures
        h.accepts(name),
        !h.connected(name).accepts(name),
        h.connected(name).connected(name) == h.connected(name),
        h.connected(name).wf(),
        h.connected(name).users.contains(name),
{
    let users = h.connected(name).users;
    assert(users[users.len() - 1] == name);
    assert(users.drop_last() =~= h.users);
    assert forall|i: int, j: int| 0 <= i < users.len() && 0 <= j < users.len() && i != j implies users[i] != users[j] by {
        if i < users.len() - 1 && j < users.len() - 1 {
            assert(users[i] == h.users[i] && users[j] == h.users[j]);
        } else if i < users.len() - 1 {
            assert(users[i] == h.users[i]);
        } else {
            assert(users[j] == h.users[j]);
        }
    }
}

/// A relayed cursor, or stroke in progress, reaches every connected user but
/// its sender, and never its sender.
pub proof fn lemma_relay_skips_only_sender(h: HubView, sender: Seq<char>)
    requires
        h.wf(),
    ensures
        forall|u: Seq<char>| h.users.contains(u) && u != sender ==> #[trigger] others(h.users, sender).contains(u),
        !others(h.users, sender).contains(sender),
        others(h.users, sender).no_duplicates(),
{
    lemma_others(h.users, sender);
}

/// A committed operation reaches every connected user, its sender included.
pub proof fn lemma_commit_reaches_everyone(
    before: HubView,
    after: HubView,
    step: (DrawingView, Result<(), Error>),
    r: Option<Fanout>,
    u: Seq<char>,
)
    requires
        commits(before, after, step, r),
        step.1 is Ok,
        before.users.contains(u),
    ensures
        r matches Some(f) && names(f.recipients@).contains(u),
{
}

} // verus!
