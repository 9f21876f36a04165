//! The node helpers and the box builders' aggregation laws on concrete
//! values.

use rex::layout::builders::{HBox, VBox};
use rex::layout::{kern_horizontal, kern_vertical, Alignment, Grid, Layout, LayoutVariant};
use rex::parser::nodes::{
    is_symbol, ArrayColumnsFormatting, AtomChange, Delimited, NodeList, ParseNode, Scripts,
};
use rex::parser::symbols::codepoint_atom_type;
use rex::parser::environments::Environment;
use rex::parser::{AtomType, Symbol};

fn sym(c: char, at: AtomType) -> ParseNode {
    ParseNode::Symbol(Symbol { codepoint: c, atom_type: at })
}

#[test]
fn hbox_aggregates_are_sum_max_min() {
    let mut hb = HBox::new();
    hb.add_node(kern_horizontal(30));
    let mut tall = kern_vertical(70);
    tall.depth = -20;
    hb.add_node(tall);
    let mut deep = kern_vertical(10);
    deep.depth = -90;
    deep.width = 15;
    hb.add_node(deep);
    let node = hb.build().unwrap();
    assert_eq!(node.width, 45);
    assert_eq!(node.height, 70);
    assert_eq!(node.depth, -90);
}

#[test]
fn hbox_offset_shifts_height_and_depth() {
    let mut hb = HBox::new();
    hb.add_node(kern_vertical(100));
    hb.set_offset(25);
    let node = hb.build().unwrap();
    assert_eq!(node.height, 75);
    assert_eq!(node.depth, -25);
}

#[test]
fn vbox_with_zero_offset_keeps_last_depth_and_sums_heights() {
    let mut vb = VBox::new();
    let mut a = kern_vertical(40);
    a.width = 10;
    a.depth = -5;
    vb.add_node(a);
    let mut b = kern_vertical(60);
    b.width = 25;
    b.depth = -35;
    vb.add_node(b);
    let node = vb.build().unwrap();
    assert_eq!(node.width, 25);
    assert_eq!(node.height, 100);
    assert_eq!(node.depth, -35);
}

#[test]
fn vbox_insert_node_counts_like_append() {
    let mut vb = VBox::new();
    vb.add_node(kern_vertical(40));
    vb.insert_node(0, kern_vertical(25));
    let node = vb.build().unwrap();
    assert_eq!(node.height, 65);
    match node.node {
        LayoutVariant::VerticalBox(ref inner) => {
            assert_eq!(inner.contents.len(), 2);
            assert_eq!(inner.contents[0].height, 25);
            assert_eq!(inner.contents[1].height, 40);
        },
        _ => panic!("expected a vertical box"),
    }
}

#[test]
fn layout_accumulates_like_a_horizontal_box() {
    let mut l = Layout::new();
    l.add_node(kern_horizontal(10)).unwrap();
    let mut t = kern_vertical(55);
    t.depth = -45;
    l.add_node(t).unwrap();
    assert_eq!(l.width, 10);
    assert_eq!(l.height, 55);
    assert_eq!(l.depth, -45);
    l.prepend_kern(7).unwrap();
    assert_eq!(l.width, 17);
    assert_eq!(l.contents.len(), 3);
    assert_eq!(l.contents[0].width, 7);
    let node = l.finalize().as_node();
    assert_eq!(node.width, 17);
}

#[test]
fn grid_tracks_row_and_column_extents() {
    let mut g = Grid::new();
    let mut a = kern_vertical(100);
    a.width = 40;
    a.depth = -20;
    g.insert(0, 0, a);
    let mut b = kern_vertical(60);
    b.width = 70;
    b.depth = -50;
    g.insert(0, 1, b);
    let mut c = kern_vertical(90);
    c.width = 10;
    c.depth = 0;
    g.insert(1, 0, c);
    assert_eq!(g.rows.len(), 2);
    assert_eq!(g.columns.len(), 2);
    assert_eq!(g.rows[0], (100, -50));
    assert_eq!(g.rows[1], (90, 0));
    assert_eq!(g.columns[0], 40);
    assert_eq!(g.columns[1], 70);
    let x = g.x_offsets().unwrap();
    assert_eq!(x, vec![0, 40]);
    let y = g.y_offsets().unwrap();
    assert_eq!(y, vec![0, 150]);
    let node = g.build().unwrap();
    assert_eq!(node.width, 110);
    assert_eq!(node.height, 240);
    assert_eq!(node.depth, 0);
}

#[test]
fn grid_insert_replaces_same_key() {
    let mut g = Grid::new();
    let mut a = kern_vertical(10);
    a.width = 5;
    g.insert(0, 0, a);
    let mut b = kern_vertical(20);
    b.width = 9;
    g.insert(0, 0, b);
    match g.build().unwrap().node {
        LayoutVariant::Grid(grid) => {
            assert_eq!(grid.contents.len(), 1);
            assert_eq!(grid.contents[0].node.height, 20);
        },
        _ => panic!("expected a grid"),
    }
}

#[test]
fn atom_types_of_nodes() {
    assert_eq!(sym('a', AtomType::Alpha).atom_type(), AtomType::Alpha);
    assert_eq!(
        ParseNode::Kerning(rex::dimensions::AnyUnit::Em(10)).atom_type(),
        AtomType::Transparent
    );
    assert_eq!(
        ParseNode::Style(rex::layout::Style::Display).atom_type(),
        AtomType::Transparent
    );
    let scripts = ParseNode::Scripts(Scripts {
        base: Some(Box::new(sym('=', AtomType::Relation))),
        superscript: None,
        subscript: None,
    });
    assert_eq!(scripts.atom_type(), AtomType::Relation);
    let empty_scripts = ParseNode::Scripts(Scripts {
        base: None,
        superscript: None,
        subscript: None,
    });
    assert_eq!(empty_scripts.atom_type(), AtomType::Alpha);
    let change = ParseNode::AtomChange(AtomChange {
        at: AtomType::Operator(true),
        inner: vec![],
    });
    assert_eq!(change.atom_type(), AtomType::Operator(true));
}

#[test]
fn set_atom_type_reaches_script_base() {
    let mut n = ParseNode::Scripts(Scripts {
        base: Some(Box::new(sym('a', AtomType::Alpha))),
        superscript: None,
        subscript: None,
    });
    n.set_atom_type(AtomType::Relation);
    assert_eq!(n.atom_type(), AtomType::Relation);
}

#[test]
fn is_symbol_digs_through_wrappers() {
    let single = [sym('q', AtomType::Alpha)];
    assert_eq!(
        is_symbol(&single),
        Some(Symbol { codepoint: 'q', atom_type: AtomType::Alpha })
    );
    let two = [sym('q', AtomType::Alpha), sym('r', AtomType::Alpha)];
    assert_eq!(is_symbol(&two), None);
    let wrapped = ParseNode::AtomChange(AtomChange {
        at: AtomType::Relation,
        inner: vec![sym('s', AtomType::Alpha)],
    });
    assert_eq!(
        wrapped.is_symbol(),
        Some(Symbol { codepoint: 's', atom_type: AtomType::Alpha })
    );
}

#[test]
fn classify_codepoints() {
    assert_eq!(codepoint_atom_type('a'), Some(AtomType::Alpha));
    assert_eq!(codepoint_atom_type('+'), Some(AtomType::Binary));
    assert_eq!(codepoint_atom_type('('), Some(AtomType::Open));
    assert_eq!(codepoint_atom_type('!'), Some(AtomType::Close));
    assert_eq!(codepoint_atom_type('<'), Some(AtomType::Relation));
    assert_eq!(codepoint_atom_type(';'), Some(AtomType::Punctuation));
    assert_eq!(codepoint_atom_type('|'), Some(AtomType::Fence));
    assert_eq!(codepoint_atom_type('\u{0416}'), None);
}

#[test]
fn default_array_formatting_is_centered() {
    let f = ArrayColumnsFormatting::default_for(3);
    assert_eq!(f.columns.len(), 3);
    assert_eq!(f.n_vertical_bars_before, 0);
    for c in &f.columns {
        assert_eq!(c.alignment, rex::parser::nodes::ArrayColumnAlign::Centered);
        assert_eq!(c.n_vertical_bars_after, 0);
    }
}

#[test]
fn environments_by_name() {
    assert_eq!(Environment::try_from_str("array"), Some(Environment::Array));
    assert_eq!(Environment::try_from_str("pmatrix"), Some(Environment::PMatrix));
    assert_eq!(Environment::try_from_str("Bmatrix"), Some(Environment::BbMatrix));
    assert_eq!(Environment::try_from_str("Vmatrix"), Some(Environment::VvMatrix));
    assert_eq!(Environment::try_from_str("unknown"), None);
}

#[test]
fn get_script_selects_side() {
    let s = Scripts {
        base: None,
        superscript: Some(vec![sym('u', AtomType::Alpha)]),
        subscript: Some(vec![]),
    };
    assert_eq!(s.get_script(true).as_ref().map(|v| v.len()), Some(1));
    assert_eq!(s.get_script(false).as_ref().map(|v| v.len()), Some(0));
}

#[test]
fn delimited_accessors() {
    let d = Delimited::new(
        vec![
            Symbol { codepoint: '(', atom_type: AtomType::Open },
            Symbol { codepoint: ')', atom_type: AtomType::Close },
        ],
        vec![NodeList { nodes: vec![sym('a', AtomType::Alpha)] }],
    );
    assert_eq!(d.delimiters().len(), 2);
    assert_eq!(d.inners().len(), 1);
    let as_node = ParseNode::Delimited(d);
    assert_eq!(as_node.atom_type(), AtomType::Inner);
}

#[test]
fn alignment_default_is_left_flush() {
    assert_eq!(Alignment::default(), Alignment::Default);
}
