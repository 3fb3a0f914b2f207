use backlightd::command::{on_command, parse_command, swaysock_command, token, BacklightCommand, TargetDisplay};
use backlightd::error::Error;

fn make_disp(name: &str) -> TargetDisplay {
    TargetDisplay::Display(name.as_bytes().to_vec())
}

#[test]
fn test_token() {
    let input = "this is a test".as_bytes();
    let result = (" is a test".as_bytes().to_vec(), "this".as_bytes().to_vec());
    assert_eq!(token(input), result);
}

#[test]
fn test_on() {
    let input = "on DP-3".as_bytes();
    let r = Ok((Vec::new(), BacklightCommand::On(make_disp("DP-3"))));
    assert_eq!(on_command(input), r);
}

#[test]
fn test_all_on() {
    let input = "on all".as_bytes();
    let r = Ok((Vec::new(), BacklightCommand::On(TargetDisplay::All)));
    assert_eq!(on_command(input), r);
}

#[test]
fn test_swaysock() {
    let p_str = "/path/to/the/swaysock";
    let input = format!("swaysock {p_str}");
    let r = Ok((Vec::new(), BacklightCommand::SwaySock(p_str.as_bytes().to_vec())));
    assert_eq!(swaysock_command(input.as_bytes()), r);
}

#[test]
fn test_parsing() {
    let input = "DoWn SomeDisplay".as_bytes();
    let r = Ok(BacklightCommand::Down(make_disp("SomeDisplay")));
    assert_eq!(parse_command(input), r);
}

#[test]
fn on_named_display() {
    assert_eq!(parse_command(b"on DP-3"), Ok(BacklightCommand::On(make_disp("DP-3"))));
}

#[test]
fn toggle_all_upper_case() {
    assert_eq!(parse_command(b"TOGGLE all"), Ok(BacklightCommand::Toggle(TargetDisplay::All)));
    assert_eq!(parse_command(b"off ALL"), Ok(BacklightCommand::Off(TargetDisplay::All)));
}

#[test]
fn swaysock_path_verbatim() {
    assert_eq!(
        parse_command(b"swaysock /run/user/1000/sway-ipc.sock"),
        Ok(BacklightCommand::SwaySock(b"/run/user/1000/sway-ipc.sock".to_vec()))
    );
    assert_eq!(
        parse_command(b"swaysock /a dir/with spaces"),
        Ok(BacklightCommand::SwaySock(b"/a dir/with spaces".to_vec()))
    );
}

#[test]
fn unknown_verb_fails() {
    assert_eq!(parse_command(b"frobnicate foo"), Err(Error::BadParse));
    assert_eq!(parse_command(b""), Err(Error::BadParse));
}

#[test]
fn missing_argument_fails() {
    assert_eq!(parse_command(b"on"), Err(Error::BadParse));
    assert_eq!(parse_command(b"up   "), Err(Error::BadParse));
    assert_eq!(parse_command(b"swaysock"), Err(Error::BadParse));
}

#[test]
fn every_verb_decodes() {
    assert_eq!(parse_command(b"up eDP-1"), Ok(BacklightCommand::Up(make_disp("eDP-1"))));
    assert_eq!(parse_command(b"down all"), Ok(BacklightCommand::Down(TargetDisplay::All)));
    assert_eq!(parse_command(b"max x"), Ok(BacklightCommand::Max(make_disp("x"))));
    assert_eq!(parse_command(b"MIN x"), Ok(BacklightCommand::Min(make_disp("x"))));
    assert_eq!(parse_command(b"default all"), Ok(BacklightCommand::Default(TargetDisplay::All)));
    assert_eq!(parse_command(b"toggle HDMI-1"), Ok(BacklightCommand::Toggle(make_disp("HDMI-1"))));
}

#[test]
fn target_is_first_token() {
    assert_eq!(parse_command(b"off   DP-3 extra words"), Ok(BacklightCommand::Off(make_disp("DP-3"))));
    assert_eq!(parse_command(b"on allison"), Ok(BacklightCommand::On(make_disp("allison"))));
    assert_eq!(on_command(b"on DP-3 rest"), Ok((b" rest".to_vec(), BacklightCommand::On(make_disp("DP-3")))));
}
