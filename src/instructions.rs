use vstd::prelude::*;
use crate::primitives::{copy_points, Brush, BrushView, Point};

verus! {

/// A stroke: a path of points drawn with one brush.
#[derive(Debug)]
pub struct Stroke {
    points: Vec<Point>,
    brush: Brush,
}

pub struct StrokeView {
    pub points: Seq<Point>,
    pub brush: BrushView,
}

impl View for Stroke {
    type V = StrokeView;

    closed spec fn view(&self) -> StrokeView {
        StrokeView { points: self.points@, brush: self.brush@ }
    }
}

impl Stroke {
    pub fn new(points: Vec<Point>, brush: Brush) -> (s: Stroke)
        ensures
            s@ == (StrokeView { points: points@, brush: brush@ }),
    {
        Stroke { points, brush }
    }

    /// The number of points of the stroke.
    pub fn len(&self) -> (n: usize)
        ensures
            n == self@.points.len(),
    {
        self.points.len()
    }

    /// The points of the stroke, in drawing order.
    pub fn points(&self) -> (r: &Vec<Point>)
        ensures
            r@ == self@.points,
    {
        &self.points
    }

    /// Changes the stroke's brush.
    pub fn set_brush(&mut self, brush: Brush)
        ensures
            final(self)@ == (StrokeView { points: old(self)@.points, brush: brush@ }),
    {
        self.brush = brush;
    }

    /// A copy of the stroke's brush.
    pub fn brush(&self) -> (b: Brush)
        ensures
            b@ == self@.brush,
    {
        self.brush.duplicate()
    }

    /// Adds a point at the end of the stroke.
    pub fn add_point(&mut self, point: Point)
        ensures
            final(self)@ == (StrokeView { points: old(self)@.points.push(point), brush: old(self)@.brush }),
    {
        self.points.push(point);
    }

    /// A copy of this stroke.
    pub fn duplicate(&self) -> (s: Stroke)
        ensures
            s@ == self@,
    {
        Stroke { points: copy_points(&self.points), brush: self.brush.duplicate() }
    }
}

/// A move of the whole layer, or of a rectangle of it, from `start` to `end`.
#[derive(Clone, Copy, Debug)]
pub struct Motion {
    /// The upper left point of where the motion starts.
    pub start: Point,
    /// The upper left point of where the motion ends.
    pub end: Point,
    /// The upper left and lower right corners of the selection to move;
    /// `None` moves the entire layer.
    pub selection: Option<(Point, Point)>,
}

impl Motion {
    pub fn with_selection(start: Point, end: Point, up_left: Point, down_right: Point) -> (m: Motion)
        ensures
            m == (Motion { start, end, selection: Some((up_left, down_right)) }),
    {
        Motion { start, end, selection: Some((up_left, down_right)) }
    }

    pub fn new(start: Point, end: Point) -> (m: Motion)
        ensures
            m == (Motion { start, end, selection: None }),
    {
        Motion { start, end, selection: None }
    }
}

/// The insertion of an image, given in base64, at a position.
#[derive(Debug)]
pub struct ImageInsertion {
    base64: String,
    position: Point,
}

pub struct ImageInsertionView {
    pub base64: Seq<char>,
    pub position: Point,
}

impl View for ImageInsertion {
    type V = ImageInsertionView;

    closed spec fn view(&self) -> ImageInsertionView {
        ImageInsertionView { base64: self.base64@, position: self.position }
    }
}

impl ImageInsertion {
    pub fn new(base64: &str, point: Point) -> (i: ImageInsertion)
        ensures
            i@ == (ImageInsertionView { base64: base64@, position: point }),
    {
        ImageInsertion { base64: base64.to_owned(), position: point }
    }

    /// The image, in base64.
    pub fn base64(&self) -> (r: &String)
        ensures
            r@ == self@.base64,
    {
        &self.base64
    }

    /// Where the image goes.
    pub fn position(&self) -> (p: Point)
        ensures
            p == self@.position,
    {
        self.position
    }

    /// A copy of this insertion.
    pub fn duplicate(&self) -> (i: ImageInsertion)
        ensures
            i@ == self@,
    {
        ImageInsertion { base64: self.base64.clone(), position: self.position }
    }
}

/// One drawing operation.
#[derive(Debug)]
pub enum Instruction {
    Stroke(Stroke),
    Motion(Motion),
    ImageInsertion(ImageInsertion),
}

pub enum InstructionView {
    Stroke(StrokeView),
    Motion(Motion),
    ImageInsertion(ImageInsertionView),
}

impl View for Instruction {
    type V = InstructionView;

    open spec fn view(&self) -> InstructionView {
        match self {
            Instruction::Stroke(s) => InstructionView::Stroke(s@),
            Instruction::Motion(m) => InstructionView::Motion(*m),
            Instruction::ImageInsertion(i) => InstructionView::ImageInsertion(i@),
        }
    }
}

impl Instruction {
    /// A copy of this instruction.
    pub fn duplicate(&self) -> (r: Instruction)
        ensures
            r@ == self@,
    {
        match self {
            Instruction::Stroke(s) => Instruction::Stroke(s.duplicate()),
            Instruction::Motion(m) => Instruction::Motion(*m),
            Instruction::ImageInsertion(i) => Instruction::ImageInsertion(i.duplicate()),
        }
    }
}

/// An instruction with the id that its author gave it.
#[derive(Debug)]
pub struct InstructionBox {
    pub instruction: Instruction,
    pub uuid: String,
}

pub struct InstructionBoxView {
    pub instruction: InstructionView,
    pub uuid: Seq<char>,
}

impl View for InstructionBox {
    type V = InstructionBoxView;

    open spec fn view(&self) -> InstructionBoxView {
        InstructionBoxView { instruction: self.instruction@, uuid: self.uuid@ }
    }
}

impl InstructionBoxView {
    /// A stroke without any point.
    pub open spec fn is_empty_stroke(self) -> bool {
        match self.instruction {
            InstructionView::Stroke(s) => s.points.len() == 0,
            _ => false,
        }
    }
}

impl InstructionBox {
    /// A copy of this box.
    pub fn duplicate(&self) -> (r: InstructionBox)
        ensures
            r@ == self@,
    {
        InstructionBox { instruction: self.instruction.duplicate(), uuid: self.uuid.clone() }
    }

    /// Whether the box holds a stroke without any point.
    pub fn is_empty_stroke(&self) -> (r: bool)
        ensures
            r == self@.is_empty_stroke(),
    {
        match &self.instruction {
            Instruction::Stroke(s) => s.len() == 0,
            _ => false,
        }
    }
}

} // verus!
