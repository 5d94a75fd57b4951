use vstd::prelude::*;

verus! {

/// A point of the canvas.
///
/// Each coordinate is kept as the bit pattern of an IEEE-754 single-precision
/// number: the library stores and replays points, it never computes with them.
#[derive(Clone, Copy, Debug, PartialEq, Eq, Structural)]
pub struct Point {
    pub x_bits: u32,
    pub y_bits: u32,
}

impl Point {
    pub fn new(x_bits: u32, y_bits: u32) -> (p: Point)
        ensures
            p.x_bits == x_bits,
            p.y_bits == y_bits,
    {
        Point { x_bits, y_bits }
    }
}

/// An RGBA color.
#[derive(Clone, Copy, Debug, PartialEq, Eq, Structural)]
pub struct Color {
    /// The amount of red.
    pub r: u8,
    /// The amount of green.
    pub g: u8,
    /// The amount of blue.
    pub b: u8,
    /// The alpha (0 is transparent, 255 is opaque).
    pub a: u8,
}

impl Default for Color {
    /// Opaque black.
    fn default() -> (c: Color)
        ensures
            c == (Color { r: 0, g: 0, b: 0, a: 255 }),
    {
        Color { r: 0, g: 0, b: 0, a: 255 }
    }
}

/// Copies a list of points element by element.
pub fn copy_points(v: &Vec<Point>) -> (r: Vec<Point>)
    ensures
        r@ == v@,
{
    let mut r: Vec<Point> = Vec::new();
    let mut i: usize = 0;
    while i < v.len()
        invariant
            i <= v.len(),
            r@ == v@.take(i as int),
        decreases v.len() - i,
    {
        r.push(v[i]);
        i = i + 1;
        assert(r@ =~= v@.take(i as int));
    }
    assert(v@.take(v.len() as int) =~= v@);
    r
}

/// A brush shape made of closed polygons: the last point of each polygon is
/// linked to its first.
#[derive(Debug)]
pub struct CustomBrush {
    points: Vec<Vec<Point>>,
}

impl View for CustomBrush {
    type V = Seq<Seq<Point>>;

    closed spec fn view(&self) -> Seq<Seq<Point>> {
        self.points@.map_values(|poly: Vec<Point>| poly@)
    }
}

impl CustomBrush {
    pub fn new(points: Vec<Vec<Point>>) -> (c: CustomBrush)
        ensures
            c@ == points@.map_values(|poly: Vec<Point>| poly@),
    {
        CustomBrush { points }
    }

    /// The polygons of the shape.
    pub fn polygons(&self) -> (r: &Vec<Vec<Point>>)
        ensures
            r@.map_values(|poly: Vec<Point>| poly@) == self@,
    {
        &self.points
    }

    /// A copy of this shape.
    pub fn duplicate(&self) -> (c: CustomBrush)
        ensures
            c@ == self@,
    {
        let mut out: Vec<Vec<Point>> = Vec::new();
        let mut i: usize = 0;
        while i < self.points.len()
            invariant
                i <= self.points@.len(),
                out@.len() == i,
                forall|j: int| 0 <= j < i ==> out@[j]@ == self.points@[j]@,
            decreases self.points@.len() - i,
        {
            out.push(copy_points(&self.points[i]));
            i = i + 1;
        }
        let c = CustomBrush { points: out };
        assert(c@ =~= self@);
        c
    }
}

/// The shape of a brush.
#[derive(Debug)]
pub enum BrushShape {
    Circle,
    Square,
    Custom(CustomBrush),
}

/// What a brush shape is: a custom shape is its list of polygons.
pub enum BrushShapeView {
    Circle,
    Square,
    Custom(Seq<Seq<Point>>),
}

impl View for BrushShape {
    type V = BrushShapeView;

    open spec fn view(&self) -> BrushShapeView {
        match self {
            BrushShape::Circle => BrushShapeView::Circle,
            BrushShape::Square => BrushShapeView::Square,
            BrushShape::Custom(c) => BrushShapeView::Custom(c@),
        }
    }
}

impl BrushShape {
    /// A copy of this shape.
    pub fn duplicate(&self) -> (s: BrushShape)
        ensures
            s@ == self@,
    {
        match self {
            BrushShape::Circle => BrushShape::Circle,
            BrushShape::Square => BrushShape::Square,
            BrushShape::Custom(c) => BrushShape::Custom(c.duplicate()),
        }
    }
}

/// How a stroke is drawn.
#[derive(Debug)]
pub struct Brush {
    /// The shape of the brush.
    pub brush_shape: BrushShape,
    /// The color of the brush.
    pub color: Color,
    /// The width (diameter) of the brush, as the bit pattern of an
    /// IEEE-754 single-precision number.
    pub width_bits: u32,
    /// The diffusion of the brush.
    pub diffusion: u64,
    /// Whether the brush erases.
    pub erase: bool,
}

/// What a brush is, with its shape seen through its view.
pub struct BrushView {
    pub brush_shape: BrushShapeView,
    pub color: Color,
    pub width_bits: u32,
    pub diffusion: u64,
    pub erase: bool,
}

impl View for Brush {
    type V = BrushView;

    open spec fn view(&self) -> BrushView {
        BrushView {
            brush_shape: self.brush_shape@,
            color: self.color,
            width_bits: self.width_bits,
            diffusion: self.diffusion,
            erase: self.erase,
        }
    }
}

/// Bit pattern of the single-precision number 1.0.
pub const ONE_BITS: u32 = 0x3f80_0000;

impl Default for Brush {
    /// A round, opaque black brush of width 1 that neither diffuses nor erases.
    fn default() -> (b: Brush)
        ensures
            b@ == (BrushView {
                brush_shape: BrushShapeView::Circle,
                color: Color { r: 0, g: 0, b: 0, a: 255 },
                width_bits: ONE_BITS,
                diffusion: 0,
                erase: false,
            }),
    {
        Brush {
            brush_shape: BrushShape::Circle,
            color: Color::default(),
            width_bits: ONE_BITS,
            diffusion: 0,
            erase: false,
        }
    }
}

impl Brush {
    /// Creates a brush with the given properties.
    pub fn new(brush_shape: BrushShape, color: Color, width_bits: u32, diffusion: u64, erase: bool) -> (b: Brush)
        ensures
            b.brush_shape == brush_shape,
            b.color == color,
            b.width_bits == width_bits,
            b.diffusion == diffusion,
            b.erase == erase,
    {
        Brush { brush_shape, color, width_bits, diffusion, erase }
    }

    /// Updates the color of the brush.
    pub fn set_color(&mut self, color: Color)
        ensures
            *final(self) == (Brush { color, ..*old(self) }),
    {
        self.color = color;
    }

    /// Updates the width of the brush.
    pub fn set_width(&mut self, width_bits: u32)
        ensures
            *final(self) == (Brush { width_bits, ..*old(self) }),
    {
        self.width_bits = width_bits;
    }

    /// Updates the shape of the brush.
    pub fn set_brush_shape(&mut self, brush_shape: BrushShape)
        ensures
            *final(self) == (Brush { brush_shape, ..*old(self) }),
    {
        self.brush_shape = brush_shape;
    }

    /// A copy of this brush.
    pub fn duplicate(&self) -> (b: Brush)
        ensures
            b@ == self@,
    {
        Brush {
            brush_shape: self.brush_shape.duplicate(),
            color: self.color,
            width_bits: self.width_bits,
            diffusion: self.diffusion,
            erase: self.erase,
        }
    }
}

} // verus!
