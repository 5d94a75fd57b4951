pub mod drawing;
pub mod error;
pub mod hub;
pub mod instructions;
pub mod layer;
pub mod messages;
pub mod primitives;

pub use crate::drawing::Drawing;
pub use crate::error::Error;
pub use crate::hub::{Fanout, Hub};
pub use crate::instructions::{ImageInsertion, Instruction, InstructionBox, Motion, Stroke};
pub use crate::layer::Layer;
pub use crate::messages::{Cursor, CursorDataIn, CursorDataOut, InitData, InstructionData, TempDrawData, WebSocketMessage};
pub use crate::primitives::{Brush, BrushShape, Color, CustomBrush, Point};
