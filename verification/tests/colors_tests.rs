use backend::colors::{parse_color, parse_table, parse_u8, table_line, ColorError, ColorRequest, Palette};

#[test]
fn the_plain_names() {
    assert!(matches!(parse_color("greyscale"), Ok(ColorRequest::Greyscale)));
    assert!(matches!(parse_color("  rgreyscale\n"), Ok(ColorRequest::RGreyscale)));
}

#[test]
fn tables_take_a_shift_and_a_scale() {
    assert!(matches!(
        parse_color("color(3, 0.5)"),
        Ok(ColorRequest::Table { palette: Palette::Color, shift: 3, scale }) if scale == " 0.5"
    ));
    assert!(matches!(
        parse_color(" red( 12 ,1e-3 ) "),
        Ok(ColorRequest::Table { palette: Palette::Red, shift: 12, scale }) if scale == "1e-3 "
    ));
    assert!(matches!(
        parse_color("color(+0,)"),
        Ok(ColorRequest::Table { palette: Palette::Color, shift: 0, scale }) if scale.is_empty()
    ));
    assert!(matches!(
        parse_table(Palette::Red, "4294967295,x"),
        Ok(ColorRequest::Table { palette: Palette::Red, shift: 4294967295, scale }) if scale == "x"
    ));
}

#[test]
fn tables_need_two_parameters() {
    assert!(matches!(parse_color("color()"), Err(ColorError::Syntax)));
    assert!(matches!(parse_color("color(1)"), Err(ColorError::Syntax)));
    assert!(matches!(parse_color("red(1, 2, 3)"), Err(ColorError::Syntax)));
    assert_eq!(
        parse_color("red()").unwrap_err().message(""),
        "Incorrect syntax: color has 2 parameters (shift and scale)."
    );
}

#[test]
fn the_shift_is_a_number() {
    assert!(matches!(parse_color("color( -1 , 2)"), Err(ColorError::Shift(t)) if t == " -1 "));
    assert!(matches!(parse_color("red(x, 2)"), Err(ColorError::Shift(t)) if t == "x"));
    assert!(matches!(parse_color("red(, 2)"), Err(ColorError::Shift(t)) if t.is_empty()));
    assert!(matches!(parse_color("color(4294967296, 2)"), Err(ColorError::Shift(_))));
    assert_eq!(
        parse_color("red(x, 2)").unwrap_err().message("ParseIntError { kind: InvalidDigit }"),
        "Couldn't parse shift x: ParseIntError { kind: InvalidDigit }."
    );
}

#[test]
fn other_texts_name_nothing() {
    assert!(matches!(parse_color(" rainbow "), Err(ColorError::NoSuchFunction(t)) if t == "rainbow"));
    assert!(matches!(parse_color(""), Err(ColorError::NoSuchFunction(t)) if t.is_empty()));
    assert!(matches!(parse_color("color(1, 2"), Err(ColorError::NoSuchFunction(_))));
    assert!(matches!(parse_color("color 1, 2)"), Err(ColorError::NoSuchFunction(_))));
    assert!(matches!(parse_color("Greyscale"), Err(ColorError::NoSuchFunction(_))));
    assert!(matches!(parse_color("red("), Err(ColorError::NoSuchFunction(_))));
    assert_eq!(
        parse_color(" rainbow ").unwrap_err().message(""),
        "No such color function: rainbow."
    );
}

#[test]
fn a_table_line_writes_three_bytes() {
    assert_eq!(table_line("0,128,255"), Some((0, 128, 255)));
    assert_eq!(table_line("1,2,3,4"), Some((1, 2, 3)));
    assert_eq!(table_line("+1,02,003"), Some((1, 2, 3)));
    assert_eq!(table_line("1,2"), None);
    assert_eq!(table_line(""), None);
    assert_eq!(table_line("1,2,256"), None);
    assert_eq!(table_line("1, 2,3"), None);
    assert_eq!(table_line("1,2,3,"), None);
    assert_eq!(table_line("1,2,3,x"), None);
    for s in ["0", "255", "256", "+7", "-1", "", "1000", "4294967296", "1e1"] {
        assert_eq!(parse_u8(s), s.parse::<u8>().ok(), "{:?}", s);
    }
}
