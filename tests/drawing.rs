use svgbob::optimizer::{flatten, optimize_elements};
use svgbob::{
    to_svg, to_svg_with_size, to_svg_with_size_nooptimization, CircleKind, Element, Feature, Grid,
    Node, Point, Settings, Stroke,
};

fn line_of(n: &Node) -> Option<(&str, &str, &str, &str, Stroke, Feature)> {
    match n {
        Node::Line { x1, y1, x2, y2, stroke, feature } => {
            Some((x1.as_str(), y1.as_str(), x2.as_str(), y2.as_str(), *stroke, *feature))
        }
        _ => None,
    }
}

fn paths(nodes: &[Node]) -> Vec<String> {
    nodes
        .iter()
        .filter_map(|n| match n {
            Node::Path { d, .. } => Some(d.clone()),
            _ => None,
        })
        .collect()
}

fn texts(nodes: &[Node]) -> Vec<(String, String, String)> {
    nodes
        .iter()
        .filter_map(|n| match n {
            Node::Text { x, y, text } => Some((x.clone(), y.clone(), text.clone())),
            _ => None,
        })
        .collect()
}

#[test]
fn dash_draws_one_horizontal_line() {
    let svg = to_svg("-");
    assert_eq!(svg.width, 40);
    assert_eq!(svg.height, 48);
    assert_eq!(svg.nodes.len(), 1);
    assert_eq!(
        line_of(&svg.nodes[0]),
        Some(("0", "8", "8", "8", Stroke::Solid, Feature::Nothing))
    );
}

#[test]
fn pipe_draws_one_vertical_line() {
    let svg = to_svg("|");
    assert_eq!(svg.nodes.len(), 1);
    assert_eq!(
        line_of(&svg.nodes[0]),
        Some(("4", "0", "4", "16", Stroke::Solid, Feature::Nothing))
    );
}

#[test]
fn arrow_is_one_line_with_marker() {
    let svg = to_svg("------->");
    assert_eq!(svg.nodes.len(), 1);
    assert_eq!(
        line_of(&svg.nodes[0]),
        Some(("0", "8", "64", "8", Stroke::Solid, Feature::Arrow))
    );
}

#[test]
fn rounded_rectangle_has_four_arcs() {
    let input = ".-.\n| |\n'-'";
    let svg = to_svg_with_size_nooptimization(input, 8, 16);
    let arcs: Vec<String> = paths(&svg.nodes)
        .into_iter()
        .filter(|d| d.contains(" A 4 4 0 0 "))
        .collect();
    assert_eq!(arcs.len(), 4);
    let compact = to_svg(input);
    assert_eq!(compact.nodes.len(), 1);
    assert_eq!(paths(&compact.nodes).len(), 1);
}

#[test]
fn asterisks_joined_by_line() {
    let svg = to_svg("*---*");
    let circles: Vec<(String, String, String, CircleKind)> = svg
        .nodes
        .iter()
        .filter_map(|n| match n {
            Node::Circle { kind, cx, cy, r } => Some((cx.clone(), cy.clone(), r.clone(), *kind)),
            _ => None,
        })
        .collect();
    assert_eq!(
        circles,
        vec![
            ("4".to_string(), "8".to_string(), "4".to_string(), CircleKind::Solid),
            ("36".to_string(), "8".to_string(), "4".to_string(), CircleKind::Solid),
        ]
    );
    let lines: Vec<_> = svg.nodes.iter().filter_map(line_of).collect();
    assert_eq!(lines, vec![("8", "8", "32", "8", Stroke::Solid, Feature::Nothing)]);
}

#[test]
fn banner_is_one_path() {
    let svg = to_svg(".---.\n| Hi |\n'---'");
    assert_eq!(svg.width, 80);
    assert_eq!(svg.height, 80);
    let ds = paths(&svg.nodes);
    assert_eq!(ds.len(), 1);
    assert!(ds[0].starts_with("M 4 12 L 4 36 A 4 4 0 0 0 8 40"), "{}", ds[0]);
    assert!(texts(&svg.nodes).contains(&("18".to_string(), "28".to_string(), "Hi".to_string())));
}

#[test]
fn markup_text_is_escaped_and_fused() {
    let svg = to_svg("<&>");
    let shown: Vec<String> = texts(&svg.nodes).into_iter().map(|t| t.2).collect();
    assert_eq!(shown.concat(), "&lt;&amp;&gt;");
    assert_eq!(shown, vec!["&lt;", "&amp;", "&gt;"]);
}

#[test]
fn space_between_words_is_kept() {
    let svg = to_svg("a b");
    assert_eq!(texts(&svg.nodes), vec![("2".to_string(), "12".to_string(), "a b".to_string())]);
    let lone = to_svg("a  b");
    assert_eq!(
        texts(&lone.nodes),
        vec![
            ("2".to_string(), "12".to_string(), "a".to_string()),
            ("26".to_string(), "12".to_string(), "b".to_string()),
        ]
    );
}

#[test]
fn empty_text_draws_nothing() {
    let svg = to_svg("");
    assert_eq!(svg.width, 32);
    assert_eq!(svg.height, 32);
    assert!(svg.nodes.is_empty());
}

#[test]
fn size_scales_with_cell_size() {
    let small = to_svg_with_size(".-.\n| |\n'-'", 8, 16);
    let large = to_svg_with_size(".-.\n| |\n'-'", 16, 32);
    assert_eq!(small.width * 2, large.width);
    assert_eq!(small.height * 2, large.height);
    assert_eq!((small.width, small.height), (56, 80));
}

#[test]
fn fractional_pixels_are_written_exactly() {
    let svg = to_svg_with_size("|", 5, 10);
    assert_eq!(
        line_of(&svg.nodes[0]),
        Some(("2.5", "0", "2.5", "10", Stroke::Solid, Feature::Nothing))
    );
    let svg = to_svg_with_size("-", 6, 6);
    assert_eq!(
        line_of(&svg.nodes[0]),
        Some(("0", "3", "6", "3", Stroke::Solid, Feature::Nothing))
    );
}

#[test]
fn primitive_count_is_bounded_by_cells() {
    let input = "+--+\n|  |\n+--+\n \\/ \n o*o";
    let grid = Grid::from_str(input);
    let cells: usize = input.lines().map(|l| l.chars().count()).sum();
    let flat = flatten(grid.get_all_elements());
    assert!(flat.len() <= 16 * cells);
    let svg = grid.get_svg(&Settings::default());
    assert!(svg.nodes.len() <= 16 * cells);
}

#[test]
fn unoptimized_output_has_no_paths() {
    let grid = Grid::from_str(".-.\n| |\n'-'\n*--o->");
    let flat = flatten(grid.get_all_elements());
    assert!(!flat.is_empty());
    assert!(flat.iter().all(|e| !matches!(e, Element::Path(..))));
    let separate = optimize_elements(flatten(grid.get_all_elements()), false);
    assert!(separate.iter().all(|e| !matches!(e, Element::Path(..))));
}

#[test]
fn optimizing_twice_changes_nothing() {
    for input in [".-.\n| |\n'-'", "*---*", "------->", ".---.\n| Hi |\n'---'", "a b\n==="] {
        let grid = Grid::from_str(input);
        for compact in [false, true] {
            let once = optimize_elements(flatten(grid.get_all_elements()), compact);
            let shown = format!("{:?}", once);
            let twice = optimize_elements(once, compact);
            assert_eq!(shown, format!("{:?}", twice));
        }
    }
}

#[test]
fn collinear_lines_fuse_and_bent_ones_do_not() {
    let a = Element::solid_line(&Point::new(0, 2), &Point::new(4, 2));
    let b = Element::solid_line(&Point::new(4, 2), &Point::new(8, 2));
    let c = Element::solid_line(&Point::new(4, 2), &Point::new(8, 6));
    match a.reduce(&b) {
        Some(Element::Line(s, e, Stroke::Solid, Feature::Nothing)) => {
            assert_eq!((s, e), (Point::new(0, 2), Point::new(8, 2)));
        }
        other => panic!("{:?}", other),
    }
    assert!(a.reduce(&c).is_none());
    let dashed = Element::line(&Point::new(4, 2), &Point::new(8, 2), Stroke::Dashed, Feature::Nothing);
    assert!(a.reduce(&dashed).is_none());
    let arrow = Element::line(&Point::new(0, 2), &Point::new(4, 2), Stroke::Solid, Feature::Arrow);
    assert!(arrow.reduce(&b).is_none());
}

#[test]
fn quarter_numbers_are_written_in_decimal() {
    let cases: [(i128, &str); 7] = [
        (0, "0"),
        (4, "1"),
        (6, "1.5"),
        (1, "0.25"),
        (-7, "-1.75"),
        (-6, "-1.5"),
        (4000, "1000"),
    ];
    for (q, text) in cases {
        let mut s = String::new();
        svgbob::number::push_quarters(&mut s, q);
        assert_eq!(s, text);
    }
}

#[test]
fn many_boxes_are_drawn_as_one_path() {
    let mut input = String::new();
    for _ in 0..12 {
        input.push_str(&".-----.  ".repeat(8));
        input.push('\n');
        input.push_str(&"|  x  |  ".repeat(8));
        input.push('\n');
        input.push_str(&"'-----'  ".repeat(8));
        input.push('\n');
    }
    let svg = to_svg(&input);
    assert_eq!(paths(&svg.nodes).len(), 1);
    assert_eq!(texts(&svg.nodes).len(), 96);
    assert_eq!(svg.nodes.len(), 97);
}
