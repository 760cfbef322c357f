//! The element tree: an arena of elements keyed by issued integers, and the
//! depth-first pass that resolves every reachable element's box.
use vstd::prelude::*;
use vstd::set_lib::{lemma_int_range, lemma_len_subset, set_int_range};

use crate::algebra::{clip, clip_i32, half, offset_value, percent, resolved_x, resolved_y, trunc_div};
use crate::styles::{is_default_sheet, Color, Size, StyleSheet};

verus! {

/// Opaque key of an element in a tree; keys are issued from 0 upwards and
/// never reused.
#[derive(PartialEq, Eq, Structural, Hash, Clone, Copy, Debug)]
pub struct ElementKey {
    pub id: u64,
}

/// A resolved box: its center and its extent.
#[derive(Clone, Copy, Debug, PartialEq, Eq, Structural)]
pub struct NodeTransform {
    pub x: i32,
    pub y: i32,
    pub width: i32,
    pub height: i32,
}

/// How an element's children share its box. In rows and columns the extent
/// left after spacing is split into equal slots; each child then resolves its
/// own rules inside its slot.
#[derive(Clone, Debug)]
pub enum Children {
    /// One child, which gets the whole box.
    Element(ElementKey),
    /// Overlapping children, each of which gets the whole box.
    Layers(Vec<ElementKey>),
    /// Children stacked top to bottom in equal slots, `spacing` apart.
    Rows { children: Vec<ElementKey>, spacing: Size },
    /// Children laid out left to right in equal slots, `spacing` apart.
    Columns { children: Vec<ElementKey>, spacing: Size },
    /// No children.
    Empty,
}

/// A node of the tree.
#[derive(Clone, Debug)]
pub struct Element {
    /// For diagnostics only.
    pub label: Option<String>,
    pub styles: StyleSheet,
    pub children: Children,
}

/// What a pass hands to an element's renderable representation.
#[derive(Clone, Copy, Debug, PartialEq, Eq, Structural)]
pub struct Placement {
    pub key: ElementKey,
    pub transform: NodeTransform,
    pub color: Color,
}

/// A fault that stops a pass.
#[derive(Clone, Copy, Debug, PartialEq, Eq, Structural)]
pub enum LayoutError {
    /// The key was reached again below itself.
    Cycle(ElementKey),
}

/// The keys of the children, in order.
pub open spec fn child_keys(c: Children) -> Seq<ElementKey> {
    match c {
        Children::Element(k) => seq![k],
        Children::Layers(v) => v@,
        Children::Rows { children, .. } => children@,
        Children::Columns { children, .. } => children@,
        Children::Empty => seq![],
    }
}

/// Slot `i` of `n` equal slots along an axis of extent `extent` centered at
/// `center`, `spacing` apart: its center and its length.
pub open spec fn slot(center: int, extent: int, n: int, spacing: int, i: int) -> (int, int) {
    let len = clip(trunc_div(extent - (n - 1) * spacing, n));
    let start = center - half(extent);
    (clip(start + i * (len + spacing) + half(len)), len)
}

/// The box that child `i` of `c` gets inside its parent's box `own`.
pub open spec fn child_box(c: Children, own: NodeTransform, vw: int, vh: int, i: int) -> NodeTransform {
    match c {
        Children::Rows { children, spacing } => {
            let sp = clip(offset_value(spacing, own.height as int, vh));
            let s = slot(own.y as int, own.height as int, children@.len() as int, sp, i);
            NodeTransform { x: own.x, y: s.0 as i32, width: own.width, height: s.1 as i32 }
        },
        Children::Columns { children, spacing } => {
            let sp = clip(offset_value(spacing, own.width as int, vw));
            let s = slot(own.x as int, own.width as int, children@.len() as int, sp, i);
            NodeTransform { x: s.0 as i32, y: own.y, width: s.1 as i32, height: own.height }
        },
        _ => own,
    }
}

/// The box that `s` gives an element inside the box `parent`: its extent from
/// its size rules, and its center from its own anchor and alignment, for
/// every element of the tree alike.
pub open spec fn place(s: StyleSheet, parent: NodeTransform, vw: int, vh: int) -> NodeTransform {
    let w = clip(s.spec_width(parent.width as int, vw));
    let h = clip(s.spec_height(parent.height as int, vh));
    NodeTransform {
        x: clip(resolved_x(s.transform.position, s.transform.align, parent.x as int, parent.width as int, w)) as i32,
        y: clip(resolved_y(s.transform.position, s.transform.align, parent.y as int, parent.height as int, h)) as i32,
        width: w as i32,
        height: h as i32,
    }
}

/// The element stored under `k`, if any.
pub open spec fn lookup(nodes: Seq<Option<Element>>, k: ElementKey) -> Option<Element> {
    if k.id < nodes.len() {
        nodes[k.id as int]
    } else {
        Option::None
    }
}

/// The placements of the subtree under `key`, in depth-first pre-order,
/// when its parent's box is `parent` and `path` holds its ancestors. A key
/// met again on its own path is a cycle; `fuel` bounds the depth by the
/// number of slots, so a path deeper than that repeats a key too. A missing
/// key ends its branch only.
pub open spec fn walk(
    nodes: Seq<Option<Element>>,
    vw: int,
    vh: int,
    key: ElementKey,
    parent: NodeTransform,
    path: Seq<ElementKey>,
    fuel: nat,
) -> Result<Seq<Placement>, LayoutError>
    decreases fuel, 0nat,
{
    if path.contains(key) {
        Result::Err(LayoutError::Cycle(key))
    } else {
        match lookup(nodes, key) {
            Option::None => Result::Ok(seq![]),
            Option::Some(e) => if fuel == 0 {
                Result::Err(LayoutError::Cycle(key))
            } else {
                let own = place(e.styles, parent, vw, vh);
                let me = Placement { key, transform: own, color: e.styles.background.color };
                match walk_children(
                    nodes,
                    vw,
                    vh,
                    e.children,
                    own,
                    path.push(key),
                    (fuel - 1) as nat,
                    child_keys(e.children).len(),
                ) {
                    Result::Ok(s) => Result::Ok(seq![me] + s),
                    Result::Err(x) => Result::Err(x),
                }
            },
        }
    }
}

/// The placements of the first `k` children of `c`, one after another.
pub open spec fn walk_children(
    nodes: Seq<Option<Element>>,
    vw: int,
    vh: int,
    c: Children,
    own: NodeTransform,
    path: Seq<ElementKey>,
    fuel: nat,
    k: nat,
) -> Result<Seq<Placement>, LayoutError>
    decreases fuel, k,
{
    if k == 0 {
        Result::Ok(seq![])
    } else {
        match walk_children(nodes, vw, vh, c, own, path, fuel, (k - 1) as nat) {
            Result::Err(x) => Result::Err(x),
            Result::Ok(s) => match walk(
                nodes,
                vw,
                vh,
                child_keys(c)[k - 1],
                child_box(c, own, vw, vh, k - 1),
                path,
                fuel,
            ) {
                Result::Ok(t) => Result::Ok(s + t),
                Result::Err(x) => Result::Err(x),
            },
        }
    }
}

/// The box of the whole viewport: centered, of the viewport's size.
pub open spec fn viewport_box(size: (u32, u32)) -> NodeTransform {
    NodeTransform {
        x: clip(half(size.0 as int)) as i32,
        y: clip(half(size.1 as int)) as i32,
        width: clip(size.0 as int) as i32,
        height: clip(size.1 as int) as i32,
    }
}

/// A full pass from `entry`, seeded with the viewport's box.
pub open spec fn full_pass(nodes: Seq<Option<Element>>, entry: Option<ElementKey>, size: (u32, u32)) -> Result<
    Seq<Placement>,
    LayoutError,
> {
    match entry {
        Option::None => Result::Ok(seq![]),
        Option::Some(k) => walk(nodes, size.0 as int, size.1 as int, k, viewport_box(size), seq![], nodes.len()),
    }
}

/// The outcome `r` as a sequence of placements or a fault.
pub open spec fn outcome_view(r: Result<Vec<Placement>, LayoutError>) -> Result<Seq<Placement>, LayoutError> {
    match r {
        Result::Ok(v) => Result::Ok(v@),
        Result::Err(a) => Result::Err(a),
    }
}

/// `r` holds the outcome `s`.
pub open spec fn outcome_is(r: Result<Vec<Placement>, LayoutError>, s: Result<Seq<Placement>, LayoutError>) -> bool {
    outcome_view(r) == s
}

/// `slots` with the slot of `k` emptied, if `k` was issued.
pub open spec fn without(slots: Seq<Option<Element>>, k: ElementKey) -> Seq<Option<Element>> {
    if k.id < slots.len() {
        slots.update(k.id as int, Option::None)
    } else {
        slots
    }
}


/// Resolves the box that `styles` gives an element inside `parent`.
pub fn place_in(styles: &StyleSheet, parent: NodeTransform, vw: i64, vh: i64) -> (r: NodeTransform)
    ensures
        r == place(*styles, parent, vw as int, vh as int),
{
    let w = styles.get_width(parent.width as i64, vw);
    let h = styles.get_height(parent.height as i64, vh);
    let x = styles.get_x(parent.x as i64, parent.width as i64, w as i64);
    let y = styles.get_y(parent.y as i64, parent.height as i64, h as i64);
    NodeTransform { x, y, width: w, height: h }
}

/// Slot `i` of `n` equal slots along one axis; see `slot`.
fn slot_exec(center: i32, extent: i32, n: usize, spacing: i32, i: usize) -> (r: (i32, i32))
    requires
        0 < n,
        i < n,
    ensures
        r.0 == slot(center as int, extent as int, n as int, spacing as int, i as int).0,
        r.1 == slot(center as int, extent as int, n as int, spacing as int, i as int).1,
{
    let nn = n as i128;
    let sp = spacing as i128;
    assert(-0x1_0000_0000_0000_0000_0000_0000 <= (nn - 1) * sp <= 0x1_0000_0000_0000_0000_0000_0000) by (nonlinear_arith)
        requires
            0 <= nn - 1 <= 0x1_0000_0000_0000_0000,
            -0x8000_0000 <= sp <= 0x8000_0000,
    ;
    let avail = extent as i128 - (nn - 1) * sp;
    let q = if avail >= 0 {
        avail / nn
    } else {
        -((-avail) / nn)
    };
    let len = clip_i32(q);
    let ii = i as i128;
    let step = len as i128 + sp;
    assert(-0x1_0000_0000_0000_0000_0000_0000 <= ii * step <= 0x1_0000_0000_0000_0000_0000_0000) by (nonlinear_arith)
        requires
            0 <= ii <= 0x1_0000_0000_0000_0000,
            -0x1_0000_0000 <= step <= 0x1_0000_0000,
    ;
    let e = extent as i128;
    let start = center as i128 - (if e >= 0 {
        e / 2
    } else {
        -((-e) / 2)
    });
    let half_len: i32 = if len >= 0 {
        len / 2
    } else {
        -((-(len as i64)) / 2) as i32
    };
    (clip_i32(start + ii * step + half_len as i128), len)
}

/// The number of children.
fn child_count(c: &Children) -> (r: usize)
    ensures
        r == child_keys(*c).len(),
{
    match c {
        Children::Element(_) => 1,
        Children::Layers(v) => v.len(),
        Children::Rows { children, .. } => children.len(),
        Children::Columns { children, .. } => children.len(),
        Children::Empty => 0,
    }
}

/// The key of child `i`.
fn child_at(c: &Children, i: usize) -> (r: ElementKey)
    requires
        i < child_keys(*c).len(),
    ensures
        r == child_keys(*c)[i as int],
{
    match c {
        Children::Element(k) => *k,
        Children::Layers(v) => v[i],
        Children::Rows { children, .. } => children[i],
        Children::Columns { children, .. } => children[i],
        Children::Empty => ElementKey { id: 0 },
    }
}

/// The box that child `i` of `c` gets inside `own`.
fn child_box_exec(c: &Children, own: NodeTransform, vw: i64, vh: i64, i: usize) -> (r: NodeTransform)
    requires
        i < child_keys(*c).len(),
    ensures
        r == child_box(*c, own, vw as int, vh as int, i as int),
{
    match c {
        Children::Rows { children, spacing } => {
            let sp = clip_i32(offset_exec(*spacing, own.height as i64, vh));
            let s = slot_exec(own.y, own.height, children.len(), sp, i);
            NodeTransform { x: own.x, y: s.0, width: own.width, height: s.1 }
        },
        Children::Columns { children, spacing } => {
            let sp = clip_i32(offset_exec(*spacing, own.width as i64, vw));
            let s = slot_exec(own.x, own.width, children.len(), sp, i);
            NodeTransform { x: s.0, y: own.y, width: s.1, height: own.height }
        },
        _ => own,
    }
}

/// The length an offset rule stands for; see `offset_value`.
fn offset_exec(rule: Size, parent: i64, viewport: i64) -> (r: i128)
    ensures
        r == offset_value(rule, parent as int, viewport as int),
{
    match rule {
        Size::Pixel(v) => v as i128,
        Size::Percent(p) => percent(parent, p),
        Size::AbsPercent(p) => percent(viewport, p),
        _ => 0,
    }
}

/// Whether `key` is on `path`.
fn on_path(path: &Vec<ElementKey>, key: ElementKey) -> (r: bool)
    ensures
        r == path@.contains(key),
{
    let mut i: usize = 0;
    while i < path.len()
        invariant
            i <= path@.len(),
            forall|j: int| 0 <= j < i ==> path@[j] != key,
        decreases path@.len() - i,
    {
        if path[i].id == key.id {
            assert(path@[i as int] == key);
            return true;
        }
        i = i + 1;
    }
    false
}


/// Once the children walk has failed, walking further children keeps that failure.
proof fn lemma_failure_persists(
    nodes: Seq<Option<Element>>,
    vw: int,
    vh: int,
    c: Children,
    own: NodeTransform,
    path: Seq<ElementKey>,
    fuel: nat,
    k1: nat,
    k2: nat,
)
    requires
        k1 <= k2,
        walk_children(nodes, vw, vh, c, own, path, fuel, k1) is Err,
    ensures
        walk_children(nodes, vw, vh, c, own, path, fuel, k2) == walk_children(nodes, vw, vh, c, own, path, fuel, k1),
    decreases k2,
{
    if k1 < k2 {
        lemma_failure_persists(nodes, vw, vh, c, own, path, fuel, k1, (k2 - 1) as nat);
    }
}

impl Element {
    /// An element with no label, default styles and no children.
    pub fn new() -> (r: Element)
        ensures
            r.label is None,
            is_default_sheet(r.styles),
            r.children is Empty,
    {
        Element { label: None, styles: StyleSheet::default(), children: Children::Empty }
    }

    pub fn with_label(self, label: String) -> (r: Element)
        ensures
            r == (Element { label: Option::Some(label), ..self }),
    {
        Element { label: Some(label), ..self }
    }

    pub fn with_styles(self, styles: StyleSheet) -> (r: Element)
        ensures
            r == (Element { styles: styles, ..self }),
    {
        Element { styles, ..self }
    }

    pub fn with_children(self, children: Children) -> (r: Element)
        ensures
            r == (Element { children: children, ..self }),
    {
        Element { children, ..self }
    }
}

/// A path of distinct keys, each below `n`, has at most `n` keys.
proof fn lemma_path_fits(path: Seq<ElementKey>, n: nat)
    requires
        path.no_duplicates(),
        forall|i: int| 0 <= i < path.len() ==> path[i].id < n,
    ensures
        path.len() <= n,
{
    let ids = path.map_values(|k: ElementKey| k.id as int);
    assert(ids.no_duplicates()) by {
        assert forall|i: int, j: int| 0 <= i < ids.len() && 0 <= j < ids.len() && i != j implies ids[i] != ids[j] by {
            if ids[i] == ids[j] {
                assert(path[i] == path[j]);
            }
        }
    }
    ids.unique_seq_to_set();
    assert(ids.to_set().subset_of(set_int_range(0, n as int))) by {
        assert forall|x: int| ids.to_set().contains(x) implies set_int_range(0, n as int).contains(x) by {
            let i = choose|i: int| 0 <= i < ids.len() && ids[i] == x;
        }
    }
    lemma_int_range(0, n as int);
    lemma_len_subset(ids.to_set(), set_int_range(0, n as int));
}

/// The keys on `path` are distinct and were all issued.
pub open spec fn sound_path(nodes: Seq<Option<Element>>, path: Seq<ElementKey>) -> bool {
    &&& path.no_duplicates()
    &&& forall|i: int| 0 <= i < path.len() ==> path[i].id < nodes.len()
}

/// Along a sound path, any fuel that covers the keys not yet on it gives
/// the same walk: the depth bound never cuts a walk short.
pub proof fn lemma_walk_fuel(
    nodes: Seq<Option<Element>>,
    vw: int,
    vh: int,
    key: ElementKey,
    parent: NodeTransform,
    path: Seq<ElementKey>,
    fuel1: nat,
    fuel2: nat,
)
    requires
        sound_path(nodes, path),
        fuel1 + path.len() >= nodes.len(),
        fuel2 + path.len() >= nodes.len(),
    ensures
        walk(nodes, vw, vh, key, parent, path, fuel1) == walk(nodes, vw, vh, key, parent, path, fuel2),
    decreases fuel1, 0nat,
{
    if !path.contains(key) {
        if let Option::Some(e) = lookup(nodes, key) {
            let below = path.push(key);
            assert(sound_path(nodes, below)) by {
                assert forall|i: int, j: int| 0 <= i < below.len() && 0 <= j < below.len() && i != j implies below[i]
                    != below[j] by {
                    if i < path.len() && j == path.len() {
                        assert(path.contains(path[i]));
                    } else if j < path.len() && i == path.len() {
                        assert(path.contains(path[j]));
                    }
                }
            }
            lemma_path_fits(below, nodes.len());
            lemma_children_fuel(
                nodes,
                vw,
                vh,
                e.children,
                place(e.styles, parent, vw, vh),
                below,
                (fuel1 - 1) as nat,
                (fuel2 - 1) as nat,
                child_keys(e.children).len(),
            );
        }
    }
}

/// The children walk counterpart of `lemma_walk_fuel`.
pub proof fn lemma_children_fuel(
    nodes: Seq<Option<Element>>,
    vw: int,
    vh: int,
    c: Children,
    own: NodeTransform,
    path: Seq<ElementKey>,
    fuel1: nat,
    fuel2: nat,
    k: nat,
)
    requires
        sound_path(nodes, path),
        fuel1 + path.len() >= nodes.len(),
        fuel2 + path.len() >= nodes.len(),
    ensures
        walk_children(nodes, vw, vh, c, own, path, fuel1, k) == walk_children(nodes, vw, vh, c, own, path, fuel2, k),
    decreases fuel1, k,
{
    if k > 0 {
        lemma_children_fuel(nodes, vw, vh, c, own, path, fuel1, fuel2, (k - 1) as nat);
        lemma_walk_fuel(nodes, vw, vh, child_keys(c)[k - 1], child_box(c, own, vw, vh, k - 1), path, fuel1, fuel2);
    }
}

/// A tree of elements with one designated entry, the viewport's size, and
/// the outcome of the last pass.
pub struct Gui {
    nodes: Vec<Option<Element>>,
    entry: Option<ElementKey>,
    size: (u32, u32),
    last_pass: Result<Vec<Placement>, LayoutError>,
}

impl Gui {
    /// One slot per issued key; removed elements leave an empty slot.
    pub closed spec fn slots(&self) -> Seq<Option<Element>> {
        self.nodes@
    }

    pub closed spec fn entry_key(&self) -> Option<ElementKey> {
        self.entry
    }

    pub closed spec fn viewport(&self) -> (u32, u32) {
        self.size
    }

    /// The outcome of the last pass that was run.
    pub closed spec fn stored_pass(&self) -> Result<Vec<Placement>, LayoutError> {
        self.last_pass
    }

    /// The element under `k`, if any.
    pub open spec fn node(&self, k: ElementKey) -> Option<Element> {
        lookup(self.slots(), k)
    }

    /// What a full pass over the current tree and viewport gives.
    pub open spec fn spec_pass(&self) -> Result<Seq<Placement>, LayoutError> {
        full_pass(self.slots(), self.entry_key(), self.viewport())
    }

    /// An empty tree for a viewport of `size`.
    pub fn new(size: (u32, u32)) -> (r: Gui)
        ensures
            r.slots() == Seq::<Option<Element>>::empty(),
            r.entry_key() is None,
            r.viewport() == size,
            outcome_is(r.stored_pass(), Result::Ok(seq![])),
    {
        Gui { nodes: Vec::new(), entry: None, size, last_pass: Ok(Vec::new()) }
    }

    /// Inserts `element` under a fresh key: the number of keys issued so far.
    pub fn add_element(&mut self, element: Element) -> (r: ElementKey)
        ensures
            r.id == old(self).slots().len(),
            final(self).slots() == old(self).slots().push(Option::Some(element)),
            final(self).entry_key() == old(self).entry_key(),
            final(self).viewport() == old(self).viewport(),
            final(self).stored_pass() == old(self).stored_pass(),
    {
        let key = ElementKey { id: self.nodes.len() as u64 };
        self.nodes.push(Some(element));
        key
    }

    /// Deletes the element under `key`; its children stay in the tree.
    pub fn remove_node(&mut self, key: ElementKey)
        ensures
            final(self).slots() == without(old(self).slots(), key),
            final(self).entry_key() == old(self).entry_key(),
            final(self).viewport() == old(self).viewport(),
            final(self).stored_pass() == old(self).stored_pass(),
    {
        if key.id < self.nodes.len() as u64 {
            self.nodes.set(key.id as usize, None);
        }
    }

    pub fn get_node(&self, key: ElementKey) -> (r: Option<&Element>)
        ensures
            match r {
                Option::Some(e) => self.node(key) == Option::Some(*e),
                Option::None => self.node(key) is None,
            },
    {
        if key.id < self.nodes.len() as u64 {
            self.nodes[key.id as usize].as_ref()
        } else {
            None
        }
    }

    /// Hands out the element under `key` for changes in place.
    pub fn get_node_mut(&mut self, key: ElementKey) -> (r: Option<&mut Element>)
        ensures
            match r {
                Option::Some(e) => old(self).node(key) == Option::Some(*e) && final(self).slots() == old(
                    self,
                ).slots().update(key.id as int, Option::Some(*final(e))),
                Option::None => old(self).node(key) is None && final(self).slots() == old(self).slots(),
            },
            final(self).entry_key() == old(self).entry_key(),
            final(self).viewport() == old(self).viewport(),
            final(self).stored_pass() == old(self).stored_pass(),
    {
        if key.id < self.nodes.len() as u64 {
            self.nodes[key.id as usize].as_mut()
        } else {
            None
        }
    }

    /// Resolves the subtree under `key`; see `walk`.
    fn walk_exec(&self, key: ElementKey, parent: NodeTransform, path: &mut Vec<ElementKey>, fuel: usize) -> (r:
        Result<Vec<Placement>, LayoutError>)
        ensures
            final(path)@ == old(path)@,
            outcome_is(r, walk(self.nodes@, self.size.0 as int, self.size.1 as int, key, parent, old(path)@, fuel as nat)),
        decreases fuel,
    {
        if on_path(path, key) {
            return Err(LayoutError::Cycle(key));
        }
        if key.id >= self.nodes.len() as u64 {
            return Ok(Vec::new());
        }
        match &self.nodes[key.id as usize] {
            None => Ok(Vec::new()),
            Some(e) => {
                if fuel == 0 {
                    return Err(LayoutError::Cycle(key));
                }
                let vw = self.size.0 as i64;
                let vh = self.size.1 as i64;
                let own = place_in(&e.styles, parent, vw, vh);
                let me = Placement { key, transform: own, color: e.styles.background.color };
                let mut out: Vec<Placement> = Vec::new();
                out.push(me);
                let ghost below = old(path)@.push(key);
                let ghost mut acc: Seq<Placement> = seq![];
                path.push(key);
                let n = child_count(&e.children);
                let mut i: usize = 0;
                while i < n
                    invariant
                        path@ == below,
                        below == old(path)@.push(key),
                        n == child_keys(e.children).len(),
                        i <= n,
                        1 <= fuel,
                        !old(path)@.contains(key),
                        key.id < self.nodes@.len(),
                        self.nodes@[key.id as int] == Option::Some(*e),
                        own == place(e.styles, parent, vw as int, vh as int),
                        vw == self.size.0 as int,
                        vh == self.size.1 as int,
                        walk_children(self.nodes@, vw as int, vh as int, e.children, own, below, (fuel - 1) as nat, i as nat)
                            == Result::<Seq<Placement>, LayoutError>::Ok(acc),
                        out@ == seq![me] + acc,
                    decreases n - i,
                {
                    let child = child_at(&e.children, i);
                    let cb = child_box_exec(&e.children, own, vw, vh, i);
                    let sub = self.walk_exec(child, cb, path, fuel - 1);
                    match sub {
                        Err(x) => {
                            proof {
                                let wc = walk(self.nodes@, vw as int, vh as int, child, cb, below, (fuel - 1) as nat);
                                assert(wc == Result::<Seq<Placement>, LayoutError>::Err(x));
                                assert(walk_children(self.nodes@, vw as int, vh as int, e.children, own, below,
                                    (fuel - 1) as nat, (i + 1) as nat) == Result::<Seq<Placement>, LayoutError>::Err(x));
                                lemma_failure_persists(
                                    self.nodes@, vw as int, vh as int, e.children, own, below,
                                    (fuel - 1) as nat, (i + 1) as nat, n as nat,
                                );
                            }
                            path.pop();
                            return Err(x);
                        },
                        Ok(v) => {
                            let mut v = v;
                            proof {
                                acc = acc + v@;
                            }
                            out.append(&mut v);
                        },
                    }
                    i = i + 1;
                }
                path.pop();
                Ok(out)
            },
        }
    }

    /// A full pass from the entry, seeded with the viewport's box; the
    /// placements come in depth-first pre-order.
    pub fn transform_entry(&self) -> (r: Result<Vec<Placement>, LayoutError>)
        ensures
            outcome_is(r, self.spec_pass()),
    {
        match self.entry {
            None => Ok(Vec::new()),
            Some(k) => {
                let w = self.size.0 as i128;
                let h = self.size.1 as i128;
                let seed = NodeTransform {
                    x: clip_i32(w / 2),
                    y: clip_i32(h / 2),
                    width: clip_i32(w),
                    height: clip_i32(h),
                };
                let mut path: Vec<ElementKey> = Vec::new();
                self.walk_exec(k, seed, &mut path, self.nodes.len())
            },
        }
    }

    /// Makes `key` the entry, removes the previous entry's element (not its
    /// children), and runs a full pass.
    pub fn set_entry(&mut self, key: Option<ElementKey>)
        ensures
            final(self).slots() == match old(self).entry_key() {
                Option::Some(prev) => without(old(self).slots(), prev),
                Option::None => old(self).slots(),
            },
            final(self).entry_key() == key,
            final(self).viewport() == old(self).viewport(),
            outcome_is(final(self).stored_pass(), final(self).spec_pass()),
    {
        match self.entry {
            Some(prev) => self.remove_node(prev),
            None => {},
        }
        self.entry = key;
        self.last_pass = self.transform_entry();
    }

    /// Takes the new viewport size and, if an entry is set, runs a full pass.
    pub fn resize(&mut self, size: (u32, u32))
        ensures
            final(self).slots() == old(self).slots(),
            final(self).entry_key() == old(self).entry_key(),
            final(self).viewport() == size,
            old(self).entry_key() is Some ==> outcome_is(final(self).stored_pass(), final(self).spec_pass()),
            old(self).entry_key() is None ==> final(self).stored_pass() == old(self).stored_pass(),
    {
        self.size = size;
        if self.entry.is_some() {
            self.last_pass = self.transform_entry();
        }
    }

    pub fn size(&self) -> (r: (u32, u32))
        ensures
            r == self.viewport(),
    {
        self.size
    }

    pub fn entry(&self) -> (r: Option<ElementKey>)
        ensures
            r == self.entry_key(),
    {
        self.entry
    }

    /// The outcome of the last pass that was run.
    pub fn last_pass(&self) -> (r: &Result<Vec<Placement>, LayoutError>)
        ensures
            *r == self.stored_pass(),
    {
        &self.last_pass
    }
}

} // verus!
