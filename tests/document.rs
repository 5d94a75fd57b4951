use drinfo::{
    Brush, BrushShape, Color, CustomBrush, Drawing, Error, ImageInsertion, Instruction, InstructionBox, Layer, Motion,
    Point, Stroke,
};

fn pt(x: f32, y: f32) -> Point {
    Point::new(x.to_bits(), y.to_bits())
}

fn stroke_box(id: &str, n: usize) -> InstructionBox {
    let mut points = Vec::new();
    for i in 0..n {
        points.push(pt(i as f32, i as f32));
    }
    InstructionBox { instruction: Instruction::Stroke(Stroke::new(points, Brush::default())), uuid: id.to_string() }
}

fn ids(layer: &Layer) -> Vec<String> {
    layer.history().iter().map(|b| b.uuid.clone()).collect()
}

#[test]
fn color_default_is_opaque_black() {
    assert_eq!(Color::default(), Color { r: 0, g: 0, b: 0, a: 255 });
}

#[test]
fn brush_default_and_setters() {
    let mut b = Brush::default();
    assert!(matches!(b.brush_shape, BrushShape::Circle));
    assert_eq!(b.width_bits, 1.0f32.to_bits());
    assert_eq!(b.diffusion, 0);
    assert!(!b.erase);
    assert_eq!(b.color, Color { r: 0, g: 0, b: 0, a: 255 });
    b.set_color(Color { r: 1, g: 2, b: 3, a: 4 });
    b.set_width(2.5f32.to_bits());
    b.set_brush_shape(BrushShape::Square);
    assert_eq!(b.color, Color { r: 1, g: 2, b: 3, a: 4 });
    assert_eq!(f32::from_bits(b.width_bits), 2.5);
    assert!(matches!(b.brush_shape, BrushShape::Square));
}

#[test]
fn custom_brush_copy_keeps_polygons() {
    let poly = vec![vec![pt(0.0, 0.0), pt(1.0, 0.0), pt(0.0, 1.0)], vec![pt(5.0, 5.0)]];
    let shape = BrushShape::Custom(CustomBrush::new(poly.clone()));
    let b = Brush::new(shape, Color::default(), 3.0f32.to_bits(), 7, true);
    let c = b.duplicate();
    match c.brush_shape {
        BrushShape::Custom(cb) => assert_eq!(cb.polygons(), &poly),
        _ => panic!("shape lost"),
    }
    assert_eq!(c.diffusion, 7);
    assert!(c.erase);
}

#[test]
fn stroke_points_and_brush() {
    let mut s = Stroke::new(vec![], Brush::default());
    assert_eq!(s.len(), 0);
    s.add_point(pt(1.0, 2.0));
    s.add_point(pt(3.0, 4.0));
    assert_eq!(s.len(), 2);
    assert_eq!(s.points()[1], pt(3.0, 4.0));
    s.set_brush(Brush::new(BrushShape::Square, Color::default(), 4.0f32.to_bits(), 1, false));
    assert_eq!(f32::from_bits(s.brush().width_bits), 4.0);
}

#[test]
fn motion_and_image_constructors() {
    let m = Motion::new(pt(0.0, 0.0), pt(1.0, 1.0));
    assert!(m.selection.is_none());
    let m = Motion::with_selection(pt(0.0, 0.0), pt(1.0, 1.0), pt(2.0, 2.0), pt(3.0, 3.0));
    assert_eq!(m.selection, Some((pt(2.0, 2.0), pt(3.0, 3.0))));
    let i = ImageInsertion::new("aGVsbG8=", pt(4.0, 5.0));
    assert_eq!(i.base64(), "aGVsbG8=");
    assert_eq!(i.position(), pt(4.0, 5.0));
}

#[test]
fn new_layer_is_empty_and_visible() {
    let l = Layer::new();
    assert!(l.history().is_empty());
    assert_eq!(l.history_index(), 0);
    assert!(l.is_visible());
}

#[test]
fn undo_redo_move_the_cursor_within_bounds() {
    let mut l = Layer::new();
    assert_eq!(l.undo(), Err(Error::CannotUndo));
    assert_eq!(l.redo(), Err(Error::CannotRedo));
    l.instruct(stroke_box("a", 1)).unwrap();
    l.instruct(stroke_box("b", 2)).unwrap();
    assert_eq!(l.history_index(), 2);
    assert_eq!(l.undo(), Ok(()));
    assert_eq!(l.history_index(), 1);
    assert_eq!(l.redo(), Ok(()));
    assert_eq!(l.history_index(), 2);
    assert_eq!(l.redo(), Err(Error::CannotRedo));
    assert_eq!(l.undo_by(3), Err(Error::CannotUndo));
    assert_eq!(l.history_index(), 2);
    assert_eq!(l.undo_by(2), Ok(()));
    assert_eq!(l.history_index(), 0);
    assert_eq!(l.redo_by(3), Err(Error::CannotRedo));
    assert_eq!(l.redo_by(2), Ok(()));
    assert_eq!(l.history_index(), 2);
    assert_eq!(ids(&l), vec!["a", "b"]);
}

#[test]
fn redo_by_usize_max_is_refused() {
    let mut l = Layer::new();
    l.instruct(stroke_box("a", 1)).unwrap();
    l.undo().unwrap();
    assert_eq!(l.redo_by(usize::MAX), Err(Error::CannotRedo));
    assert_eq!(l.history_index(), 0);
}

#[test]
fn cursor_stays_in_bounds_over_mixed_operations() {
    let mut l = Layer::new();
    for step in 0..40usize {
        match step % 5 {
            0 | 3 => {
                let _ = l.instruct(stroke_box("x", step % 3));
            }
            1 => {
                let _ = l.undo();
            }
            2 => {
                let _ = l.redo_by(step % 4);
            }
            _ => {
                let _ = l.undo_by(step % 3);
            }
        }
        assert!(l.history_index() <= l.history().len());
    }
}

#[test]
fn instruct_after_undo_discards_redo_tail() {
    let mut l = Layer::new();
    l.instruct(stroke_box("a", 1)).unwrap();
    l.instruct(stroke_box("b", 1)).unwrap();
    l.undo().unwrap();
    l.instruct(stroke_box("new", 3)).unwrap();
    assert_eq!(l.redo(), Err(Error::CannotRedo));
    assert_eq!(ids(&l), vec!["a", "new"]);
    assert_eq!(l.history().last().unwrap().uuid, "new");
    assert_eq!(l.history_index(), 2);
}

#[test]
fn empty_stroke_is_refused_and_changes_nothing() {
    let mut l = Layer::new();
    l.instruct(stroke_box("a", 2)).unwrap();
    l.instruct(stroke_box("b", 2)).unwrap();
    l.undo().unwrap();
    assert_eq!(l.instruct(stroke_box("empty", 0)), Err(Error::EmptyStroke));
    assert_eq!(ids(&l), vec!["a", "b"]);
    assert_eq!(l.history_index(), 1);
}

#[test]
fn motion_and_image_are_accepted() {
    let mut l = Layer::new();
    let m = InstructionBox { instruction: Instruction::Motion(Motion::new(pt(0.0, 0.0), pt(2.0, 2.0))), uuid: "m".to_string() };
    let i = InstructionBox {
        instruction: Instruction::ImageInsertion(ImageInsertion::new("AAAA", pt(1.0, 1.0))),
        uuid: "i".to_string(),
    };
    assert_eq!(l.instruct(m), Ok(()));
    assert_eq!(l.instruct(i), Ok(()));
    assert_eq!(ids(&l), vec!["m", "i"]);
}

#[test]
fn clear_empties_history_and_keeps_visibility() {
    let mut l = Layer::new();
    l.toggle_visibility();
    l.instruct(stroke_box("a", 1)).unwrap();
    l.clear();
    assert!(l.history().is_empty());
    assert_eq!(l.history_index(), 0);
    assert!(!l.is_visible());
    assert_eq!(l.undo(), Err(Error::CannotUndo));
}

#[test]
fn hidden_layer_stays_editable() {
    let mut l = Layer::new();
    assert!(!l.toggle_visibility().is_visible());
    assert_eq!(l.instruct(stroke_box("a", 1)), Ok(()));
    assert_eq!(l.undo(), Ok(()));
    assert_eq!(l.redo(), Ok(()));
    assert!(l.toggle_visibility().is_visible());
}

#[test]
fn layer_from_parts_rejects_cursor_beyond_history() {
    assert!(Layer::from_parts(vec![stroke_box("a", 1)], 2, true).is_none());
    let l = Layer::from_parts(vec![stroke_box("a", 1)], 1, false).unwrap();
    assert_eq!(l.history_index(), 1);
    assert!(!l.is_visible());
}

#[test]
fn drawing_new_and_default_dimensions() {
    let d = Drawing::new(1080, 1920);
    assert_eq!(d.height(), 1080);
    assert_eq!(d.width(), 1920);
    let d = Drawing::default();
    assert_eq!((d.width(), d.height()), (500, 500));
    assert!(d.layer_order().is_empty());
}

#[test]
fn add_layer_twice_is_refused() {
    let mut d = Drawing::default();
    assert_eq!(d.add_layer("a"), Ok(()));
    assert_eq!(d.layer_order().len(), 1);
    assert_eq!(d.add_layer("a"), Err(Error::LayerExists));
    assert_eq!(d.layer_order(), vec!["a"]);
    let l = d.get_layer("a").unwrap();
    assert!(l.is_visible());
    assert_eq!(l.history_index(), 0);
}

fn abc() -> Drawing {
    let mut d = Drawing::default();
    d.add_layer("a").unwrap();
    d.add_layer("b").unwrap();
    d.add_layer("c").unwrap();
    d
}

#[test]
fn extremes_cannot_move_further() {
    let mut d = abc();
    assert_eq!(d.layer_up("a"), Err(Error::InvalidMove));
    assert_eq!(d.layer_down("c"), Err(Error::InvalidMove));
    assert_eq!(d.layer_order(), vec!["a", "b", "c"]);
}

#[test]
fn single_steps_swap_neighbours() {
    let mut d = abc();
    assert_eq!(d.layer_up("b"), Ok(()));
    assert_eq!(d.layer_order(), vec!["b", "a", "c"]);
    assert_eq!(d.layer_down("b"), Ok(()));
    assert_eq!(d.layer_order(), vec!["a", "b", "c"]);
    assert_eq!(d.layer_up("z"), Err(Error::LayerNotFound));
    assert_eq!(d.layer_down("z"), Err(Error::LayerNotFound));
}

#[test]
fn moves_by_relocate() {
    let mut d = abc();
    d.add_layer("d").unwrap();
    assert_eq!(d.layer_up_by("a", 2), Ok(()));
    assert_eq!(d.layer_order(), vec!["b", "c", "a", "d"]);
    assert_eq!(d.layer_up_by("a", 2), Err(Error::InvalidMove));
    assert_eq!(d.layer_down_by("d", 3), Ok(()));
    assert_eq!(d.layer_order(), vec!["d", "b", "c", "a"]);
    assert_eq!(d.layer_down_by("b", 2), Err(Error::InvalidMove));
    assert_eq!(d.layer_up_by("a", usize::MAX), Err(Error::InvalidMove));
    assert_eq!(d.layer_down_by("x", 0), Err(Error::LayerNotFound));
    assert_eq!(d.layer_up_by("x", 0), Err(Error::LayerNotFound));
    assert_eq!(d.layer_order(), vec!["d", "b", "c", "a"]);
}

#[test]
fn drawing_instruct_routes_to_layer() {
    let mut d = abc();
    assert_eq!(d.instruct(stroke_box("s", 2), "b"), Ok(()));
    assert_eq!(d.instruct(stroke_box("s", 2), "zz"), Err(Error::LayerNotFound));
    assert_eq!(d.instruct(stroke_box("e", 0), "b"), Err(Error::EmptyStroke));
    assert_eq!(ids(d.get_layer("b").unwrap()), vec!["s"]);
    assert!(d.get_layer("a").unwrap().history().is_empty());
    assert_eq!(d.undo("b"), Ok(()));
    assert_eq!(d.undo("b"), Err(Error::CannotUndo));
    assert_eq!(d.redo("b"), Ok(()));
    assert_eq!(d.redo("b"), Err(Error::CannotRedo));
    assert_eq!(d.undo("q"), Err(Error::LayerNotFound));
    assert_eq!(d.toggle_visibility("c"), Ok(()));
    assert!(!d.get_layer("c").unwrap().is_visible());
    assert_eq!(d.toggle_visibility("q"), Err(Error::LayerNotFound));
}

#[test]
fn insert_layer_keeps_its_content() {
    let mut d = Drawing::default();
    let l = Layer::from_parts(vec![stroke_box("a", 1), stroke_box("b", 1)], 1, true).unwrap();
    assert_eq!(d.insert_layer("bg", l), Ok(()));
    assert_eq!(d.insert_layer("bg", Layer::new()), Err(Error::LayerExists));
    let l = d.get_layer("bg").unwrap();
    assert_eq!(ids(l), vec!["a", "b"]);
    assert_eq!(l.history_index(), 1);
}

#[test]
fn duplicate_copies_everything() {
    let mut d = abc();
    d.instruct(stroke_box("s", 2), "c").unwrap();
    d.toggle_visibility("a").unwrap();
    let c = d.duplicate();
    assert_eq!(c.layer_order(), d.layer_order());
    assert_eq!(ids(c.get_layer("c").unwrap()), vec!["s"]);
    assert!(!c.get_layer("a").unwrap().is_visible());
    assert_eq!((c.width(), c.height()), (500, 500));
}

#[test]
fn errors_have_messages() {
    for e in [
        Error::LayerExists,
        Error::LayerNotFound,
        Error::InvalidMove,
        Error::EmptyStroke,
        Error::CannotUndo,
        Error::CannotRedo,
        Error::IdentityConflict,
    ] {
        assert!(!e.message().is_empty());
    }
}

#[test]
fn get_layer_mut_changes_layer_in_place() {
    let mut d = abc();
    d.get_layer_mut("b").unwrap().instruct(stroke_box("k", 1)).unwrap();
    assert!(d.get_layer_mut("zz").is_none());
    assert_eq!(ids(d.get_layer("b").unwrap()), vec!["k"]);
    assert_eq!(d.layer_order(), vec!["a", "b", "c"]);
}
