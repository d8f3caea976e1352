use hotshot::geometry::{compute_selection, parse_region, Region};

#[test]
fn parse_comma_and_plus_grammars_agree() {
    let a = parse_region("100,200,800,600").unwrap();
    let b = parse_region("800x600+100+200").unwrap();
    assert_eq!(a, Region { x: 100, y: 200, width: 800, height: 600 });
    assert_eq!(a, b);
}

#[test]
fn parse_comma_allows_whitespace_and_signs() {
    let r = parse_region(" -10 , +20 , 30 , 40 ").unwrap();
    assert_eq!(r, Region { x: -10, y: 20, width: 30, height: 40 });
}

#[test]
fn parse_plus_grammar_allows_negative_origin() {
    let r = parse_region("800x600+-100+-200").unwrap();
    assert_eq!(r, Region { x: -100, y: -200, width: 800, height: 600 });
}

#[test]
fn parse_rejects_malformed_fields_by_name() {
    assert_eq!(parse_region("axb+1+2").unwrap_err(), "invalid width");
    assert_eq!(parse_region("800xb+1+2").unwrap_err(), "invalid height");
    assert_eq!(parse_region("800x600+c+2").unwrap_err(), "invalid x");
    assert_eq!(parse_region("800x600+1+d").unwrap_err(), "invalid y");
    assert_eq!(parse_region("e,2,3,4").unwrap_err(), "invalid x");
    assert_eq!(parse_region("1,f,3,4").unwrap_err(), "invalid y");
    assert_eq!(parse_region("1,2,-3,4").unwrap_err(), "invalid width");
    assert_eq!(parse_region("1,2,3,h").unwrap_err(), "invalid height");
}

#[test]
fn parse_rejects_wrong_shapes_with_format_error() {
    let e = parse_region("what").unwrap_err();
    assert_eq!(e, "invalid region format: 'what'. use: X,Y,W,H or WxH+X+Y");
    assert!(parse_region("1,2,3").is_err());
    assert!(parse_region("1,2,3,4,5").is_err());
    assert!(parse_region("").is_err());
}

#[test]
fn parse_rejects_out_of_range_numbers() {
    // Exceeds u32 for a width field.
    assert_eq!(parse_region("1,2,4294967296,4").unwrap_err(), "invalid width");
    // Exceeds i32 for an x field.
    assert_eq!(parse_region("2147483648,2,3,4").unwrap_err(), "invalid x");
    assert_eq!(parse_region("-2147483648,2,3,4").unwrap().x, i32::MIN);
}

#[test]
fn selection_is_commutative_in_its_corners() {
    let a = compute_selection(10, 20, 200, 300, 800, 600);
    let b = compute_selection(200, 300, 10, 20, 800, 600);
    assert_eq!(a, b);
}

#[test]
fn selection_clamps_to_screen_bounds() {
    let r = compute_selection(-50, -70, 900, 700, 800, 600);
    assert_eq!(r, Region { x: 0, y: 0, width: 800, height: 600 });
    // Both corners left of the screen: empty selection at the edge.
    let r = compute_selection(-50, 10, -10, 30, 800, 600);
    assert_eq!(r.width, 0);
    assert_eq!(r.height, 20);
    assert!(r.x >= 0 && r.y >= 0);
}

#[test]
fn selection_of_reversed_drag_is_normalised() {
    let r = compute_selection(300, 400, 100, 100, 1920, 1080);
    assert_eq!(r, Region { x: 100, y: 100, width: 200, height: 300 });
}
