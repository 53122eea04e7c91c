use backend::cli::{
    answer, config_text, first_word_of, get_field, invalid_value, parse_command, parse_get,
    parse_set, set_field, set_scalar, Command, Field, FieldValue, SetOutcome,
};
use backend::math::{Complex, Real};
use backend::render::Parameters;

fn cli_scalar(value: f64) -> Real {
    Real::from_bits(value.to_bits())
}

fn cli_params() -> Parameters {
    Parameters {
        image_size: (1000, 500),
        supersampling: 2,
        center: Complex(cli_scalar(-0.5), cli_scalar(0.25)),
        radius: cli_scalar(2.0),
        max_iter: 500,
    }
}

#[test]
fn the_end_of_input_and_blank_lines() {
    assert!(matches!(parse_command(""), Command::End));
    assert!(matches!(parse_command("\n"), Command::Hint));
    assert!(matches!(parse_command("   \t\r\n"), Command::Hint));
}

#[test]
fn plain_commands() {
    assert!(matches!(parse_command("quit\n"), Command::Quit));
    assert!(matches!(parse_command("  exit  \n"), Command::Quit));
    assert!(matches!(parse_command("render\n"), Command::Render));
    assert!(matches!(parse_command("help\n"), Command::Help));
    assert!(matches!(parse_command("get\n"), Command::GetWithoutField));
    assert!(matches!(parse_command("set\n"), Command::SetWithoutField));
    assert!(matches!(parse_command("export\n"), Command::WithoutPath));
    assert!(matches!(parse_command("saveconfig\n"), Command::WithoutPath));
    assert!(matches!(parse_command("Render\n"), Command::Unknown(t) if t == "Render"));
    assert!(matches!(parse_command(" render now \n"), Command::Unknown(t) if t == "render now"));
    assert!(matches!(parse_command("sets x\n"), Command::Unknown(t) if t == "sets x"));
}

#[test]
fn set_names_a_field_and_a_value() {
    assert!(matches!(parse_command("set width 640\n"), Command::SetField(Field::Width, v) if v == "640"));
    assert!(matches!(
        parse_command("set   center:x    -0.75  \n"),
        Command::SetField(Field::CenterX, v) if v == "-0.75"
    ));
    assert!(matches!(
        parse_command("set colorfunc color(1, 0.5)\n"),
        Command::SetField(Field::ColorFunc, v) if v == "color(1, 0.5)"
    ));
    assert!(matches!(parse_command("set iterations\t9\n"), Command::SetField(Field::Iterations, v) if v == "9"));
    assert!(matches!(parse_command("set radius\n"), Command::SetWithoutValue));
    assert!(matches!(parse_command("set depth 3\n"), Command::UnknownField(w) if w == "depth"));
    assert!(matches!(parse_command("set widths 3\n"), Command::UnknownField(w) if w == "widths"));
    assert!(matches!(parse_set("height 20"), Command::SetField(Field::Height, v) if v == "20"));
    assert!(matches!(parse_set(""), Command::UnknownField(w) if w.is_empty()));
}

#[test]
fn get_names_a_field_alone() {
    assert!(matches!(parse_command("get width\n"), Command::GetField(Field::Width)));
    assert!(matches!(parse_command("get   supersampling \n"), Command::GetField(Field::Supersampling)));
    assert!(matches!(parse_command("get center:y\n"), Command::GetField(Field::CenterY)));
    assert!(matches!(parse_command("get width height\n"), Command::UnknownField(w) if w == "width"));
    assert!(matches!(parse_command("get depth\n"), Command::UnknownField(w) if w == "depth"));
    assert!(matches!(parse_get("radius"), Command::GetField(Field::Radius)));
}

#[test]
fn paths_are_taken_as_written() {
    assert!(matches!(parse_command("export out.png\n"), Command::Export(p) if p == "out.png"));
    assert!(matches!(parse_command("export   my file.png\n"), Command::Export(p) if p == "  my file.png"));
    assert!(matches!(parse_command("saveconfig /tmp/c.cfg\n"), Command::SaveConfig(p) if p == "/tmp/c.cfg"));
}

#[test]
fn fields_are_found_by_name() {
    let all = [
        (Field::Iterations, "iterations"),
        (Field::Width, "width"),
        (Field::Height, "height"),
        (Field::CenterX, "center:x"),
        (Field::CenterY, "center:y"),
        (Field::Radius, "radius"),
        (Field::Supersampling, "supersampling"),
        (Field::ColorFunc, "colorfunc"),
    ];
    for (field, name) in all {
        assert_eq!(Field::named(name), Some(field));
    }
    assert_eq!(Field::named("Width"), None);
    assert_eq!(Field::named(""), None);
    assert_eq!(first_word_of("  two words "), "two");
    assert_eq!(first_word_of("   "), "");
}

#[test]
fn integers_are_set_from_their_text() {
    let p = cli_params();
    match set_field(p, Field::Width, "640") {
        SetOutcome::Updated(q) => {
            assert_eq!(q.image_size, (640, 500));
            assert_eq!((q.max_iter, q.supersampling), (500, 2));
        }
        _ => panic!("not updated"),
    }
    assert!(matches!(set_field(p, Field::Height, "480"), SetOutcome::Updated(q) if q.image_size == (1000, 480)));
    assert!(matches!(set_field(p, Field::Iterations, "7"), SetOutcome::Updated(q) if q.max_iter == 7));
    assert!(matches!(set_field(p, Field::Supersampling, "0"), SetOutcome::Updated(q) if q.supersampling == 0));
    assert!(matches!(set_field(p, Field::Width, "-1"), SetOutcome::Invalid));
    assert!(matches!(set_field(p, Field::Width, "1e3"), SetOutcome::Invalid));
    assert!(matches!(set_field(p, Field::Width, ""), SetOutcome::Invalid));
    assert!(matches!(set_field(p, Field::Radius, "1.5"), SetOutcome::Scalar));
    assert!(matches!(set_field(p, Field::CenterX, "x"), SetOutcome::Scalar));
    assert!(matches!(set_field(p, Field::ColorFunc, "greyscale"), SetOutcome::Color));
    assert_eq!(invalid_value("1e3"), "Invalid value: 1e3");
}

#[test]
fn scalars_are_set_and_read() {
    let p = cli_params();
    let q = set_scalar(p, Field::CenterX, cli_scalar(1.0));
    assert_eq!((q.center.0.to_bits(), q.center.1.to_bits()), (1.0f64.to_bits(), 0.25f64.to_bits()));
    let q = set_scalar(p, Field::CenterY, cli_scalar(1.0));
    assert_eq!((q.center.0.to_bits(), q.center.1.to_bits()), ((-0.5f64).to_bits(), 1.0f64.to_bits()));
    let q = set_scalar(p, Field::Radius, cli_scalar(0.125));
    assert_eq!(q.radius.to_bits(), 0.125f64.to_bits());
    let q = set_scalar(p, Field::Width, cli_scalar(9.0));
    assert!(q == p);
    assert!(matches!(get_field(&p, Field::Iterations), FieldValue::Integer(500)));
    assert!(matches!(get_field(&p, Field::Width), FieldValue::Integer(1000)));
    assert!(matches!(get_field(&p, Field::Height), FieldValue::Integer(500)));
    assert!(matches!(get_field(&p, Field::Supersampling), FieldValue::Integer(2)));
    assert!(matches!(get_field(&p, Field::CenterX), FieldValue::Scalar(r) if r.to_bits() == (-0.5f64).to_bits()));
    assert!(matches!(get_field(&p, Field::CenterY), FieldValue::Scalar(r) if r.to_bits() == 0.25f64.to_bits()));
    assert!(matches!(get_field(&p, Field::Radius), FieldValue::Scalar(r) if r.to_bits() == 2.0f64.to_bits()));
    assert!(matches!(get_field(&p, Field::ColorFunc), FieldValue::Color));
}

#[test]
fn the_prompt_answers_what_it_cannot_do() {
    let said = |line: &str| answer(&parse_command(line));
    assert_eq!(said(""), Some("exit".to_string()));
    assert_eq!(said("\n"), Some("Enter `help` for possible commands".to_string()));
    assert_eq!(said("set width\n"), Some("Must specify a value.".to_string()));
    assert_eq!(said("get depth\n"), Some("depth is not a valid field.".to_string()));
    assert_eq!(said("get\n"), Some("Must specify a field.".to_string()));
    assert_eq!(said("set\n"), Some("Must specify a field and a value.".to_string()));
    assert_eq!(said("export\n"), Some("Must specify a path.".to_string()));
    assert_eq!(said("frobnicate\n"), Some("frobnicate is not a valid command.".to_string()));
    assert_eq!(said("render\n"), None);
    assert_eq!(said("quit\n"), None);
    assert_eq!(said("get width\n"), None);
}

#[test]
fn a_saved_configuration_is_a_list_of_set_commands() {
    let text = config_text(&cli_params(), "-0.5", "0.25", "2", "greyscale");
    assert_eq!(
        text,
        "set iterations 500\nset width 1000\nset height 500\nset center:x -0.5\nset center:y 0.25\nset radius 2\nset supersampling 2\nset colorfunc greyscale\n"
    );
    // each line is a command that sets the field again
    for line in text.lines() {
        assert!(matches!(parse_command(line), Command::SetField(..)), "{:?}", line);
    }
}
