use gui_layout::styles::{Color, Size};
use gui_layout::{Children, Element, ElementKey, Gui, LayoutError, NodeTransform, Placement};

fn boxes(r: &Result<Vec<Placement>, LayoutError>) -> Vec<(u64, NodeTransform)> {
    r.as_ref().unwrap().iter().map(|p| (p.key.id, p.transform)).collect()
}

fn bx(x: i32, y: i32, width: i32, height: i32) -> NodeTransform {
    NodeTransform { x, y, width, height }
}

#[test]
fn keys_start_at_zero_and_grow() {
    let mut gui = Gui::new((800, 600));
    assert_eq!(gui.add_element(Element::new()), ElementKey { id: 0 });
    assert_eq!(gui.add_element(Element::new()), ElementKey { id: 1 });
    gui.remove_node(ElementKey { id: 0 });
    assert_eq!(gui.add_element(Element::new()), ElementKey { id: 2 });
    assert!(gui.get_node(ElementKey { id: 0 }).is_none());
    assert!(gui.get_node(ElementKey { id: 1 }).is_some());
    assert!(gui.get_node(ElementKey { id: 9 }).is_none());
}

#[test]
fn entry_fills_viewport() {
    let mut gui = Gui::new((800, 600));
    let mut e = Element::new();
    *e.styles.bg_color_mut() = Color { r: 1, g: 2, b: 3, a: 4 };
    let k = gui.add_element(e);
    gui.set_entry(Some(k));
    let r = gui.last_pass().as_ref().unwrap();
    assert_eq!(r.len(), 1);
    assert_eq!(r[0].transform, bx(400, 300, 800, 600));
    assert_eq!(r[0].color, Color { r: 1, g: 2, b: 3, a: 4 });
}

#[test]
fn resize_reresolves_entry() {
    let mut gui = Gui::new((800, 600));
    let k = gui.add_element(Element::new());
    gui.set_entry(Some(k));
    gui.resize((400, 300));
    assert_eq!(gui.size(), (400, 300));
    assert_eq!(boxes(gui.last_pass()), vec![(k.id, bx(200, 150, 400, 300))]);
}

#[test]
fn passes_are_repeatable() {
    let mut gui = Gui::new((640, 480));
    let child = gui.add_element(Element::new());
    let mut root = Element::new().with_children(Children::Columns { children: vec![child], spacing: Size::Auto });
    root.styles.transfomr_mut().width = Size::Percent(50);
    let k = gui.add_element(root);
    gui.set_entry(Some(k));
    let first = gui.last_pass().clone();
    gui.resize((640, 480));
    assert_eq!(&first, gui.last_pass());
    assert_eq!(gui.transform_entry(), gui.transform_entry());
}

#[test]
fn single_child_gets_parent_box() {
    let mut gui = Gui::new((800, 600));
    let mut c = Element::new();
    c.styles.transfomr_mut().width = Size::Pixel(100);
    c.styles.transfomr_mut().height = Size::Percent(50);
    let child = gui.add_element(c);
    let root = gui.add_element(Element::new().with_children(Children::Element(child)));
    gui.set_entry(Some(root));
    assert_eq!(boxes(gui.last_pass()), vec![(root.id, bx(400, 300, 800, 600)), (child.id, bx(400, 300, 100, 300))]);
}

#[test]
fn layers_share_parent_box() {
    let mut gui = Gui::new((800, 600));
    let a = gui.add_element(Element::new());
    let mut eb = Element::new();
    eb.styles.transfomr_mut().position = gui_layout::styles::Position::TopLeft;
    eb.styles.transfomr_mut().align = gui_layout::styles::Position::TopLeft;
    eb.styles.transfomr_mut().width = Size::Pixel(100);
    eb.styles.transfomr_mut().height = Size::Pixel(50);
    let b = gui.add_element(eb);
    let root = gui.add_element(Element::new().with_children(Children::Layers(vec![a, b])));
    gui.set_entry(Some(root));
    assert_eq!(
        boxes(gui.last_pass()),
        vec![(root.id, bx(400, 300, 800, 600)), (a.id, bx(400, 300, 800, 600)), (b.id, bx(50, 25, 100, 50))]
    );
}

#[test]
fn rows_split_height_with_spacing() {
    let mut gui = Gui::new((800, 600));
    let a = gui.add_element(Element::new());
    let b = gui.add_element(Element::new());
    let root = gui.add_element(
        Element::new().with_children(Children::Rows { children: vec![a, b], spacing: Size::Pixel(20) }),
    );
    gui.set_entry(Some(root));
    assert_eq!(
        boxes(gui.last_pass()),
        vec![(root.id, bx(400, 300, 800, 600)), (a.id, bx(400, 145, 800, 290)), (b.id, bx(400, 455, 800, 290))]
    );
}

#[test]
fn columns_split_width_equally() {
    let mut gui = Gui::new((800, 600));
    let a = gui.add_element(Element::new());
    let b = gui.add_element(Element::new());
    let c = gui.add_element(Element::new());
    let root = gui.add_element(
        Element::new().with_children(Children::Columns { children: vec![a, b, c], spacing: Size::Auto }),
    );
    gui.set_entry(Some(root));
    assert_eq!(
        boxes(gui.last_pass()),
        vec![
            (root.id, bx(400, 300, 800, 600)),
            (a.id, bx(133, 300, 266, 600)),
            (b.id, bx(399, 300, 266, 600)),
            (c.id, bx(665, 300, 266, 600)),
        ]
    );
}

#[test]
fn missing_child_ends_only_its_branch() {
    let mut gui = Gui::new((800, 600));
    let a = gui.add_element(Element::new());
    let root = gui.add_element(
        Element::new().with_children(Children::Layers(vec![ElementKey { id: 99 }, a])),
    );
    gui.set_entry(Some(root));
    assert_eq!(boxes(gui.last_pass()), vec![(root.id, bx(400, 300, 800, 600)), (a.id, bx(400, 300, 800, 600))]);
}

#[test]
fn cycle_is_reported() {
    let mut gui = Gui::new((800, 600));
    let a = gui.add_element(Element::new().with_children(Children::Element(ElementKey { id: 1 })));
    let b = gui.add_element(Element::new().with_children(Children::Element(a)));
    assert_eq!(b.id, 1);
    gui.set_entry(Some(a));
    assert_eq!(*gui.last_pass(), Err(LayoutError::Cycle(a)));
}

#[test]
fn self_reference_is_reported() {
    let mut gui = Gui::new((800, 600));
    let a = gui.add_element(Element::new().with_children(Children::Element(ElementKey { id: 0 })));
    gui.set_entry(Some(a));
    assert_eq!(*gui.last_pass(), Err(LayoutError::Cycle(a)));
}

#[test]
fn shared_child_is_not_a_cycle() {
    let mut gui = Gui::new((100, 100));
    let leaf = gui.add_element(Element::new());
    let root = gui.add_element(Element::new().with_children(Children::Layers(vec![leaf, leaf])));
    gui.set_entry(Some(root));
    assert_eq!(gui.last_pass().as_ref().unwrap().len(), 3);
}

#[test]
fn removed_parent_orphans_child() {
    let mut gui = Gui::new((800, 600));
    let child = gui.add_element(Element::new());
    let parent = gui.add_element(Element::new().with_children(Children::Element(child)));
    gui.set_entry(Some(parent));
    assert_eq!(gui.last_pass().as_ref().unwrap().len(), 2);
    gui.remove_node(parent);
    assert!(gui.get_node(child).is_some());
    assert_eq!(gui.transform_entry(), Ok(vec![]));
}

#[test]
fn replacing_entry_removes_only_old_entry() {
    let mut gui = Gui::new((800, 600));
    let child = gui.add_element(Element::new());
    let old = gui.add_element(Element::new().with_children(Children::Element(child)));
    gui.set_entry(Some(old));
    let fresh = gui.add_element(Element::new());
    gui.set_entry(Some(fresh));
    assert!(gui.get_node(old).is_none());
    assert!(gui.get_node(child).is_some());
    assert_eq!(gui.entry(), Some(fresh));
    assert_eq!(boxes(gui.last_pass()), vec![(fresh.id, bx(400, 300, 800, 600))]);
    gui.set_entry(None);
    assert_eq!(*gui.last_pass(), Ok(vec![]));
}

#[test]
fn node_edits_in_place() {
    let mut gui = Gui::new((800, 600));
    let k = gui.add_element(Element::new().with_label("root".to_string()));
    gui.get_node_mut(k).unwrap().styles.transfomr_mut().width = Size::Pixel(10);
    assert!(gui.get_node_mut(ElementKey { id: 5 }).is_none());
    assert_eq!(gui.get_node(k).unwrap().label.as_deref(), Some("root"));
    gui.set_entry(Some(k));
    assert_eq!(boxes(gui.last_pass()), vec![(k.id, bx(400, 300, 10, 600))]);
}

#[test]
fn resize_without_entry_keeps_last_pass() {
    let mut gui = Gui::new((800, 600));
    gui.resize((10, 10));
    assert_eq!(gui.size(), (10, 10));
    assert_eq!(*gui.last_pass(), Ok(vec![]));
}
