use svgbob::{
    to_svg, to_svg_with_size_nooptimization, CircleKind, Element, Feature, Grid, Loc, Node,
    Point, Stroke,
};

fn line(n: &Node) -> (String, String, String, String, Stroke, Feature) {
    match n {
        Node::Line { x1, y1, x2, y2, stroke, feature } => {
            (x1.clone(), y1.clone(), x2.clone(), y2.clone(), *stroke, *feature)
        }
        other => panic!("not a line: {:?}", other),
    }
}

fn s(v: &str) -> String {
    v.to_string()
}

#[test]
fn cell_rule_gives_lattice_points() {
    let grid = Grid::from_str("-");
    match grid.get_elements(0, 0) {
        Some(v) => {
            assert_eq!(v.len(), 1);
            match &v[0] {
                Element::Line(a, b, Stroke::Solid, Feature::Nothing) => {
                    assert_eq!((*a, *b), (Point::new(0, 2), Point::new(4, 2)));
                }
                other => panic!("{:?}", other),
            }
        }
        None => panic!("no primitives"),
    }
    assert!(grid.get_elements(1, 0).is_none());
}

#[test]
fn low_bar_draws_on_the_baseline() {
    let svg = to_svg("_");
    assert_eq!(line(&svg.nodes[0]), (s("0"), s("16"), s("8"), s("16"), Stroke::Solid, Feature::Nothing));
}

#[test]
fn slants_cross_the_cell() {
    let svg = to_svg("/");
    assert_eq!(line(&svg.nodes[0]), (s("0"), s("16"), s("8"), s("0"), Stroke::Solid, Feature::Nothing));
    let svg = to_svg("\\");
    assert_eq!(line(&svg.nodes[0]), (s("0"), s("0"), s("8"), s("16"), Stroke::Solid, Feature::Nothing));
}

#[test]
fn equal_signs_make_a_dashed_line() {
    let separate = to_svg_with_size_nooptimization("===", 8, 16);
    assert_eq!(separate.nodes.len(), 3);
    assert_eq!(line(&separate.nodes[1]), (s("8"), s("8"), s("16"), s("8"), Stroke::Dashed, Feature::Nothing));
    let fused = to_svg("===");
    assert_eq!(fused.nodes.len(), 1);
    assert_eq!(line(&fused.nodes[0]), (s("0"), s("8"), s("24"), s("8"), Stroke::Dashed, Feature::Nothing));
}

#[test]
fn lone_equal_sign_is_text() {
    let svg = to_svg("=");
    match &svg.nodes[0] {
        Node::Text { text, .. } => assert_eq!(text, "="),
        other => panic!("{:?}", other),
    }
}

#[test]
fn colons_make_a_dashed_vertical() {
    let svg = to_svg(":\n:");
    assert_eq!(svg.nodes.len(), 1);
    assert_eq!(line(&svg.nodes[0]), (s("4"), s("0"), s("4"), s("32"), Stroke::Dashed, Feature::Nothing));
}

#[test]
fn connected_o_is_an_open_circle() {
    let svg = to_svg("o-");
    match &svg.nodes[0] {
        Node::Circle { kind, cx, cy, r } => {
            assert_eq!((*kind, cx.as_str(), cy.as_str(), r.as_str()), (CircleKind::Open, "4", "8", "4"));
        }
        other => panic!("{:?}", other),
    }
    assert_eq!(line(&svg.nodes[1]), (s("8"), s("8"), s("16"), s("8"), Stroke::Solid, Feature::Nothing));
}

#[test]
fn lone_marks_are_text() {
    for mark in ["*", "o", "+"] {
        let svg = to_svg(mark);
        assert_eq!(svg.nodes.len(), 1);
        match &svg.nodes[0] {
            Node::Text { x, y, text } => {
                assert_eq!((x.as_str(), y.as_str(), text.as_str()), ("2", "12", mark));
            }
            other => panic!("{:?}", other),
        }
    }
}

#[test]
fn space_is_text_only_between_words() {
    let grid = Grid::from_str("a b -");
    match grid.get_elements(1, 0) {
        Some(v) => match &v[0] {
            Element::Text(loc, t) => {
                assert_eq!(*loc, Loc::new(1, 0));
                assert_eq!(t, " ");
            }
            other => panic!("{:?}", other),
        },
        None => panic!("space between words is dropped"),
    }
    assert!(grid.get_elements(3, 0).is_none());
}

#[test]
fn arrow_heads_reach_the_cell_edge() {
    let svg = to_svg("<--");
    assert_eq!(line(&svg.nodes[0]), (s("8"), s("8"), s("0"), s("8"), Stroke::Solid, Feature::Arrow));
    let svg = to_svg("-->");
    assert_eq!(line(&svg.nodes[0]), (s("0"), s("8"), s("24"), s("8"), Stroke::Solid, Feature::Arrow));
    let svg = to_svg("===>");
    assert_eq!(line(&svg.nodes[0]), (s("0"), s("8"), s("32"), s("8"), Stroke::Dashed, Feature::Arrow));
}

#[test]
fn nodes_name_their_svg_attributes() {
    let svg = to_svg("===>");
    let (name, attributes) = svg.nodes[0].attributes();
    assert_eq!(name, "line");
    let expected: Vec<(String, String)> = [
        ("x1", "0"),
        ("y1", "8"),
        ("x2", "32"),
        ("y2", "8"),
        ("marker-end", "url(#triangle)"),
        ("stroke-dasharray", "3 3"),
        ("fill", "none"),
    ]
    .iter()
    .map(|(a, b)| (a.to_string(), b.to_string()))
    .collect();
    assert_eq!(attributes, expected);
    let svg = to_svg("*-");
    let (name, attributes) = svg.nodes[0].attributes();
    assert_eq!(name, "circle");
    assert_eq!(attributes[0], (s("class"), s("solid")));
    let svg = to_svg("a");
    let (name, attributes) = svg.nodes[0].attributes();
    assert_eq!(name, "text");
    assert_eq!(attributes, vec![(s("x"), s("2")), (s("y"), s("12"))]);
}
