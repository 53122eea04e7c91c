use backend::gui::{
    clean_line, listen_address, output_gate, parse_line, parse_render, progress_gate,
    render_gate, render_warnings, request, GuiError, GuiRequest, Operation,
};
use backend::math::Real;

fn gui_scalar(value: f64) -> Real {
    Real::from_bits(value.to_bits())
}

fn parts(list: &[&str]) -> Vec<String> {
    list.iter().map(|s| s.to_string()).collect()
}

#[test]
fn a_line_counts_without_nuls_and_white_space() {
    assert_eq!(clean_line("progress\n\0\0\0\0"), "progress");
    assert_eq!(clean_line("\0\0  exit \0"), "exit");
    assert_eq!(clean_line("\0\0"), "");
    assert_eq!(clean_line(" a\0b "), "a\0b");
    // the NULs go first: those within the white space stay
    assert_eq!(clean_line(" \0x\0 "), "\0x\0");
}

#[test]
fn a_render_request_holds_nine_parts() {
    let request = match parse_line("render 500 800 600 2 -0.5 0.25 1.5 color(1,2)") {
        Ok(GuiRequest::Render(request)) => request,
        _ => panic!("no render request"),
    };
    assert_eq!(
        (request.iterations, request.width, request.height, request.supersampling),
        (500, 800, 600, 2)
    );
    assert_eq!(
        (request.center_x.as_str(), request.center_y.as_str(), request.radius.as_str()),
        ("-0.5", "0.25", "1.5")
    );
    assert_eq!(request.colorfunc, "color(1,2)");
    assert!(matches!(parse_line("render"), Err(GuiError::Parts)));
    assert!(matches!(parse_line("render 1 2 3 4 5 6 7"), Err(GuiError::Parts)));
    assert!(matches!(parse_line("render 1 2 3 4 5 6 7 8 9"), Err(GuiError::Parts)));
    // two spaces make an empty part
    assert!(matches!(parse_line("render  1 2 3 4 5 6 g"), Err(GuiError::Iterations)));
    assert!(matches!(parse_line("renderer 1 2 3 4 5 6 7 g"), Ok(GuiRequest::Render(_))));
}

#[test]
fn the_integers_of_a_render_request_are_looked_at_in_order() {
    assert!(matches!(parse_line("render x y 3 4 5 6 7 g"), Err(GuiError::Iterations)));
    assert!(matches!(parse_line("render 1 y z 4 5 6 7 g"), Err(GuiError::Width)));
    assert!(matches!(parse_line("render 1 2 -3 w 5 6 7 g"), Err(GuiError::Height)));
    assert!(matches!(parse_line("render 1 2 3 4.0 5 6 7 g"), Err(GuiError::Supersampling)));
    assert!(matches!(parse_render(&parts(&["render", "1", "2", "3", "4", "a", "b", "c", "d"])), Ok(_)));
    assert!(matches!(parse_render(&parts(&[])), Err(GuiError::Parts)));
}

#[test]
fn the_other_requests_are_single_words() {
    assert!(matches!(parse_line("progress"), Ok(GuiRequest::Progress)));
    assert!(matches!(parse_line("output"), Ok(GuiRequest::Output)));
    assert!(matches!(parse_line("exit"), Ok(GuiRequest::Exit)));
    assert!(matches!(parse_line(""), Err(GuiError::Unknown)));
    assert!(matches!(parse_line("progress "), Err(GuiError::Unknown)));
    assert!(matches!(parse_line("Exit"), Err(GuiError::Unknown)));
}

#[test]
fn errors_are_told_by_code() {
    let all = [
        (GuiError::Unknown, "error(0)\n"),
        (GuiError::Parts, "error(1)\n"),
        (GuiError::Iterations, "error(2.1)\n"),
        (GuiError::Width, "error(2.2)\n"),
        (GuiError::Height, "error(2.3)\n"),
        (GuiError::Supersampling, "error(2.4)\n"),
        (GuiError::CenterX, "error(2.5)\n"),
        (GuiError::CenterY, "error(2.6)\n"),
        (GuiError::Radius, "error(2.7)\n"),
        (GuiError::ColorFunction, "error(2.8)\n"),
        (GuiError::ZeroSupersampling, "error(3.1)\n"),
        (GuiError::NegativeRadius, "error(3.2)\n"),
        (GuiError::NoOperation, "error(4)\n"),
        (GuiError::Busy, "error(5)\n"),
        (GuiError::NoOutput, "error(6.1)\n"),
        (GuiError::StillRunning, "error(6.2)\n"),
        (GuiError::Failed, "error(6.3)\n"),
    ];
    for (error, line) in all {
        assert_eq!(error.line(), line);
    }
    assert_eq!(GuiError::Radius.code(), "2.7");
}

#[test]
fn requests_wait_for_the_job() {
    assert_eq!(render_gate(Operation::Absent), Ok(()));
    assert_eq!(render_gate(Operation::Complete), Ok(()));
    assert_eq!(render_gate(Operation::Running), Err(GuiError::Busy));
    assert_eq!(progress_gate(Operation::Absent), Err(GuiError::NoOperation));
    assert_eq!(progress_gate(Operation::Running), Ok(()));
    assert_eq!(progress_gate(Operation::Complete), Ok(()));
    assert_eq!(output_gate(Operation::Absent), Err(GuiError::NoOutput));
    assert_eq!(output_gate(Operation::Running), Err(GuiError::StillRunning));
    assert_eq!(output_gate(Operation::Complete), Ok(()));
}

#[test]
fn warnings_do_not_stop_a_render() {
    assert_eq!(render_warnings(1, gui_scalar(2.0)), (None, None));
    assert_eq!(render_warnings(0, gui_scalar(2.0)), (Some(GuiError::ZeroSupersampling), None));
    assert_eq!(render_warnings(3, gui_scalar(-2.0)), (None, Some(GuiError::NegativeRadius)));
    assert_eq!(
        render_warnings(0, gui_scalar(-1e-300)),
        (Some(GuiError::ZeroSupersampling), Some(GuiError::NegativeRadius))
    );
    assert_eq!(render_warnings(1, gui_scalar(-0.0)), (None, None));
    assert_eq!(render_warnings(1, gui_scalar(f64::NAN)), (None, None));
}

#[test]
fn the_address_is_local() {
    assert_eq!(listen_address(Some(8080)), "127.0.0.1:8080");
    assert_eq!(listen_address(Some(65535)), "127.0.0.1:65535");
    assert_eq!(listen_address(None), "127.0.0.1:0");
}

#[test]
fn a_busy_job_is_told_before_the_request_is_read() {
    assert!(matches!(request("render x", Operation::Running), Err(GuiError::Busy)));
    assert!(matches!(
        request("render 1 2 3 4 5 6 7 g", Operation::Running),
        Err(GuiError::Busy)
    ));
    assert!(matches!(request("render x", Operation::Absent), Err(GuiError::Parts)));
    assert!(matches!(
        request("render 1 2 3 4 5 6 7 g", Operation::Complete),
        Ok(GuiRequest::Render(_))
    ));
    assert!(matches!(request("progress", Operation::Absent), Err(GuiError::NoOperation)));
    assert!(matches!(request("progress", Operation::Running), Ok(GuiRequest::Progress)));
    assert!(matches!(request("progress", Operation::Complete), Ok(GuiRequest::Progress)));
    assert!(matches!(request("output", Operation::Absent), Err(GuiError::NoOutput)));
    assert!(matches!(request("output", Operation::Running), Err(GuiError::StillRunning)));
    assert!(matches!(request("output", Operation::Complete), Ok(GuiRequest::Output)));
    assert!(matches!(request("exit", Operation::Running), Ok(GuiRequest::Exit)));
    assert!(matches!(request("what", Operation::Running), Err(GuiError::Unknown)));
}
