use backlightd::command::{parse_command, BacklightCommand, TargetDisplay};
use backlightd::control::ControlMethod;
use backlightd::dispatch::{
    all_brightness_down, all_brightness_up, display_brightness_down, display_brightness_up, execute_command,
    power_actions, power_queries, toggle_all_displays, toggle_display, Action, Op,
};
use backlightd::display::Display;
use backlightd::error::Error;
use backlightd::scale::ScaleBuilder;

fn display(name: &str, level: i8) -> Display {
    let mut b = ScaleBuilder::new();
    b.max_value(100);
    let mut scale = b.make().unwrap();
    scale.set_level(level);
    Display::new(
        name.as_bytes().to_vec(),
        Some(ControlMethod::DDCUtil(1)),
        Some(ControlMethod::SysFS(b"/sys/class/drm/card0-DP-1/dpms".to_vec())),
        scale,
    )
}

fn set(display: usize, v: usize) -> Action {
    Action { display, op: Op::SetBrightness(v) }
}

#[test]
fn group_up_writes_every_display_until_all_saturated() {
    let mut ds = vec![display("a", 0), display("b", -2), display("c", 4)];
    assert!(ds[0].get_brightness().is_max());
    assert!(ds[1].get_brightness().is_max());
    assert!(ds[2].get_brightness().is_intermediate());
    let a = all_brightness_up(&mut ds);
    assert_eq!(a, vec![set(0, 100), set(1, 100), set(2, 67)]);
    for _ in 0..3 {
        assert_eq!(all_brightness_up(&mut ds).len(), 3);
    }
    assert!(ds.iter().all(|d| d.get_brightness().is_max()));
    assert_eq!(all_brightness_up(&mut ds), Vec::new());
}

#[test]
fn group_down_guard() {
    let mut ds = vec![display("a", 10), display("b", 9)];
    assert_eq!(all_brightness_down(&mut ds), vec![set(0, 0), set(1, 0)]);
    assert_eq!(all_brightness_down(&mut ds), Vec::new());
}

#[test]
fn named_step_skips_saturated_display_only() {
    let mut ds = vec![display("a", 0), display("a", 4), display("b", 4)];
    assert_eq!(display_brightness_up(&b"a".to_vec(), &mut ds), vec![set(1, 67)]);
    assert_eq!(ds[2].get_brightness().value(), 56);
    assert_eq!(display_brightness_down(&b"b".to_vec(), &mut ds), vec![set(2, 45)]);
    assert_eq!(display_brightness_up(&b"zzz".to_vec(), &mut ds), Vec::new());
}

#[test]
fn down_then_up_on_one_display() {
    let mut ds = vec![display("a", 2)];
    let start = ds[0].get_brightness();
    for _ in 0..3 {
        display_brightness_down(&b"a".to_vec(), &mut ds);
    }
    for _ in 0..3 {
        display_brightness_up(&b"a".to_vec(), &mut ds);
    }
    let end = ds[0].get_brightness();
    assert_eq!(start.is_intermediate(), end.is_intermediate());
    assert_eq!(start.value(), end.value());
}

#[test]
fn power_by_name_and_group() {
    let ds = vec![display("a", 4), display("b", 4), display("a", 4)];
    let on = power_actions(&TargetDisplay::Display(b"a".to_vec()), &ds, Op::TurnOn);
    assert_eq!(on, vec![Action { display: 0, op: Op::TurnOn }, Action { display: 2, op: Op::TurnOn }]);
    let off = power_actions(&TargetDisplay::All, &ds, Op::TurnOff);
    assert_eq!(off.len(), 3);
    assert!(off.iter().enumerate().all(|(i, a)| *a == Action { display: i, op: Op::TurnOff }));
}

#[test]
fn toggle_all_follows_first_display() {
    let ds = vec![display("a", 4), display("b", 4), display("c", 4)];
    let r = toggle_all_displays(&ds, &vec![Some(true), Some(false), None]).unwrap();
    assert_eq!(r.iter().filter(|a| a.op == Op::TurnOff).count(), 3);
    let r = toggle_all_displays(&ds, &vec![Some(false), Some(true), Some(true)]).unwrap();
    assert_eq!(r.iter().filter(|a| a.op == Op::TurnOn).count(), 3);
    assert_eq!(toggle_all_displays(&ds, &vec![None, Some(true), Some(true)]), Err(Error::NoBacklightStatus));
    assert_eq!(toggle_all_displays(&Vec::new(), &Vec::new()), Ok(Vec::new()));
}

#[test]
fn toggle_named_reads_each_display() {
    let ds = vec![display("a", 4), display("b", 4), display("a", 4), display("a", 4)];
    let r = toggle_display(&b"a".to_vec(), &ds, &vec![Some(true), Some(true), Some(false), None]);
    assert_eq!(r, vec![Action { display: 0, op: Op::TurnOff }, Action { display: 2, op: Op::TurnOn }]);
}

#[test]
fn execute_toggle_all_read_failure_does_nothing() {
    let mut ds = vec![display("a", 4), display("b", 4)];
    let cmd = parse_command(b"toggle all").unwrap();
    assert_eq!(power_queries(&cmd, &ds), vec![true, false]);
    let r = execute_command(cmd, &mut ds, &vec![None, None]);
    assert!(matches!(r, Err(Error::NoBacklightStatus)));
}

#[test]
fn execute_commands_end_to_end() {
    let mut ds = vec![display("a", 4), display("b", 0)];
    let r = execute_command(parse_command(b"up all").unwrap(), &mut ds, &Vec::new()).unwrap();
    assert_eq!(r.actions, vec![set(0, 67), set(1, 100)]);
    assert_eq!(r.socket, None);
    let r = execute_command(parse_command(b"swaysock /tmp/s.sock").unwrap(), &mut ds, &Vec::new()).unwrap();
    assert!(r.actions.is_empty());
    assert_eq!(r.socket, Some(b"/tmp/s.sock".to_vec()));
    let cmd = parse_command(b"toggle b").unwrap();
    assert_eq!(power_queries(&cmd, &ds), vec![false, true]);
    let r = execute_command(cmd, &mut ds, &vec![None, Some(false)]).unwrap();
    assert_eq!(r.actions, vec![Action { display: 1, op: Op::TurnOn }]);
    let r = execute_command(BacklightCommand::Max(TargetDisplay::All), &mut ds, &Vec::new());
    assert!(matches!(r, Err(Error::NotImplemented)));
}

#[test]
fn power_state_text() {
    let d = display("a", 4);
    assert_eq!(d.is_on(b"0\n"), Ok(true));
    assert_eq!(d.is_on(b"4\n"), Ok(false));
    assert_eq!(d.is_off(b"4\n"), Ok(true));
    assert_eq!(d.power_state_path(), Some(&b"/sys/class/drm/card0-DP-1/dpms".to_vec()));
    let mut b = ScaleBuilder::new();
    b.max_value(10);
    let no_dpms = Display::new(b"x".to_vec(), None, None, b.make().unwrap());
    assert_eq!(no_dpms.is_on(b"0\n"), Err(Error::NoBacklightStatus));
    assert_eq!(no_dpms.power_state_path(), None);
}
