use vstd::prelude::*;
use crate::drawing::Drawing;
use crate::instructions::InstructionBox;
use crate::primitives::{Brush, Point};

verus! {

/// A message between a client and the hub.
#[derive(Debug)]
pub enum WebSocketMessage {
    /// Where the sender's cursor is; `None` hides it.
    CursorIn(CursorDataIn),
    /// Where another user's cursor is.
    CursorOut(CursorDataOut),
    /// An instruction for a layer.
    Instruction(InstructionData),
    ToggleLayerVisibility(String),
    AddLayer(String),
    LayerUp(String),
    LayerDown(String),
    Undo(String),
    Redo(String),
    /// Asks for the whole drawing and the list of users.
    RequestInit,
    /// The whole drawing and the list of users.
    Init(InitData),
    /// A user has joined.
    Join(String),
    /// A segment of a stroke that is still being drawn.
    TempDraw(TempDrawData),
}

/// An instruction and the layer it is for.
#[derive(Debug)]
pub struct InstructionData {
    pub layer: String,
    pub instruction: InstructionBox,
}

/// A cursor: where it is, and with which brush.
#[derive(Debug)]
pub struct Cursor {
    pub point: Point,
    pub brush: Brush,
}

/// A cursor as a client sends it; `None` hides it.
pub type CursorDataIn = Option<Cursor>;

/// A cursor as the hub relays it, with the name of its user.
#[derive(Debug)]
pub struct CursorDataOut {
    pub cursor: Option<Cursor>,
    pub username: String,
}

impl CursorDataOut {
    pub fn from_recieved(cursor: CursorDataIn, username: String) -> (r: CursorDataOut)
        ensures
            r.cursor == cursor,
            r.username == username,
    {
        CursorDataOut { cursor, username }
    }
}

/// The state that a client starts from.
#[derive(Debug)]
pub struct InitData {
    pub drawing: Drawing,
    pub users: Vec<String>,
}

/// A segment of a stroke that is still being drawn.
#[derive(Debug)]
pub struct TempDrawData {
    pub brush: Brush,
    pub uuid: String,
    pub start: Point,
    pub end: Point,
    pub layer: String,
}

} // verus!
