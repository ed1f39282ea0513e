use svgbob::{GChar, Grid, Loc, Settings};

#[test]
fn test_bob() {
    let bob = "|mmu--文件系统---- 调度器--------------4";
    let grid = Grid::from_str(bob);
    let loc = &Loc::new(39, 0);
    let c = grid.get(loc);
    let _svg = grid.get_svg(&Settings::no_optimization());
    assert_eq!(c, Some(&GChar::from_str("4")));
}

#[test]
fn test_meme() {
    let meme = r#"[( ͡° ͜ʖ ͡°)]ﾟ"#;
    let grid = Grid::from_str(meme);
    assert_eq!(grid.get(&Loc::new(6, 0)), Some(&GChar::from_str(" ͡°")));
}

#[test]
fn test_eye_brow() {
    let meme = r#" ͡°"#;
    let grid = Grid::from_str(meme);
    let ch = grid.get(&Loc::new(0, 0));
    assert_eq!(ch, Some(&GChar::from_str(" ͡°")));
}

#[test]
fn wide_cell_spans_two_columns() {
    let grid = Grid::from_str("文x");
    assert_eq!(grid.get(&Loc::new(0, 0)), Some(&GChar::from_str("文")));
    assert_eq!(grid.get(&Loc::new(1, 0)), Some(&GChar::from_str("文")));
    assert_eq!(grid.get(&Loc::new(2, 0)), Some(&GChar::from_str("x")));
    assert_eq!(grid.get(&Loc::new(3, 0)), None);
    assert_eq!(grid.columns, 3);
}

#[test]
fn lines_split_on_newlines() {
    let grid = Grid::from_str("ab\r\ncde\n\nf\n");
    assert_eq!(grid.rows, 4);
    assert_eq!(grid.columns, 3);
    assert_eq!(grid.get(&Loc::new(1, 0)), Some(&GChar::from_str("b")));
    assert_eq!(grid.get(&Loc::new(2, 0)), None);
    assert_eq!(grid.get(&Loc::new(0, 2)), None);
    assert_eq!(grid.get(&Loc::new(0, 3)), Some(&GChar::from_str("f")));
    assert_eq!(grid.get(&Loc::new(0, 4)), None);
    assert_eq!(grid.get(&Loc::new(-1, 0)), None);
}

#[test]
fn leading_combining_mark_is_dropped() {
    let grid = Grid::from_str("\u{0361}ab");
    assert_eq!(grid.get(&Loc::new(0, 0)), Some(&GChar::from_str("b")));
    assert_eq!(grid.columns, 1);
}

#[test]
fn empty_text_has_no_rows() {
    let grid = Grid::from_str("");
    assert_eq!(grid.rows, 0);
    assert_eq!(grid.columns, 0);
}

#[test]
fn neighbors_in_order() {
    let loc = Loc::new(3, 5);
    let n = loc.neighbors();
    assert_eq!(
        n,
        vec![
            Loc::new(3, 4),
            Loc::new(3, 6),
            Loc::new(2, 5),
            Loc::new(4, 5),
            Loc::new(2, 4),
            Loc::new(4, 4),
            Loc::new(2, 6),
            Loc::new(4, 6),
        ]
    );
    assert_eq!(loc.top_left(), Loc::new(2, 4));
    assert_eq!(loc.bottom_right(), Loc::new(4, 6));
}
