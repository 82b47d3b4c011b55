use mobius::bootstrap::{Bootstrap, Event, SetupError, Stage, Step, MAIN_WINDOW};
use mobius::bridge::{parse_command, show_window, Command, InvokeError, Shell};
use mobius::window::{background_color, backdrop_material, Material, Rgba, Visibility, Window};

fn theme() -> Rgba {
    Rgba { r: 13, g: 13, b: 13, a: 255 }
}

fn drive(b: &mut Bootstrap, found: bool, painted: bool, applied: bool) {
    b.report(Event::WindowLookedUp(found));
    b.report(Event::BackgroundSet(painted));
    b.report(Event::VibrancyApplied(applied));
}

#[test]
fn theme_constants() {
    assert_eq!(background_color(), theme());
    assert_eq!(backdrop_material(), Material::UnderWindowBackground);
    assert_eq!(MAIN_WINDOW, "main");
}

#[test]
fn supported_platform_scenario() {
    let mut b = Bootstrap::new();
    assert_eq!(b.next_step(), Step::LookUpWindow);
    b.report(Event::WindowLookedUp(true));
    assert_eq!(b.next_step(), Step::SetBackground(theme()));
    b.report(Event::BackgroundSet(true));
    assert_eq!(b.next_step(), Step::ApplyVibrancy(Material::UnderWindowBackground));
    b.report(Event::VibrancyApplied(true));
    assert_eq!(b.next_step(), Step::StartEventLoop);
    assert!(b.is_finished());
    let mut shell = b.finish().ok().expect("setup completes");
    let w = shell.window.expect("window found");
    assert_eq!(w.visibility, Visibility::Hidden);
    assert_eq!(w.background, Some(theme()));
    assert_eq!(w.material, Some(Material::UnderWindowBackground));
    assert!(matches!(shell.invoke("show_window"), Ok(true)));
    assert!(shell.window.unwrap().is_visible());
}

#[test]
fn unsupported_platform_is_fatal() {
    let mut b = Bootstrap::new();
    drive(&mut b, true, true, false);
    assert_eq!(b.stage, Stage::Failed(SetupError::UnsupportedPlatform));
    assert_eq!(b.next_step(), Step::Abort(SetupError::UnsupportedPlatform));
    assert!(b.is_finished());
    let e = b.finish().err().expect("setup fails");
    assert_eq!(e, SetupError::UnsupportedPlatform);
    assert_eq!(
        e.message(),
        "Unsupported platform! 'apply_vibrancy' is only supported on macOS"
    );
}

#[test]
fn missing_window_is_fatal() {
    let mut b = Bootstrap::new();
    b.report(Event::WindowLookedUp(false));
    assert_eq!(b.next_step(), Step::Abort(SetupError::MissingWindow));
    assert_eq!(b.performed, vec![Step::LookUpWindow]);
    assert!(b.window.is_none());
    let e = b.finish().err().expect("setup fails");
    assert_eq!(e, SetupError::MissingWindow);
    assert_eq!(e.message(), "the window 'main' could not be found");
}

#[test]
fn refused_background_is_absorbed() {
    let mut b = Bootstrap::new();
    drive(&mut b, true, false, true);
    assert_eq!(b.stage, Stage::Running);
    let w = b.window.unwrap();
    assert_eq!(w.background, None);
    assert_eq!(w.material, Some(Material::UnderWindowBackground));
    assert!(b.finish().is_ok());
}

#[test]
fn setup_steps_keep_their_order() {
    let mut b = Bootstrap::new();
    assert!(b.performed.is_empty());
    drive(&mut b, true, true, true);
    assert_eq!(
        b.performed,
        vec![
            Step::LookUpWindow,
            Step::SetBackground(theme()),
            Step::ApplyVibrancy(Material::UnderWindowBackground),
        ]
    );
}

#[test]
fn events_out_of_turn_are_ignored() {
    let mut b = Bootstrap::new();
    b.report(Event::VibrancyApplied(true));
    b.report(Event::BackgroundSet(true));
    assert_eq!(b.stage, Stage::LookUp);
    assert!(b.performed.is_empty());
    assert!(!b.is_finished());
    b.report(Event::WindowLookedUp(true));
    b.report(Event::WindowLookedUp(false));
    assert_eq!(b.stage, Stage::Background);
    assert_eq!(b.window, Some(Window::created()));
}

#[test]
fn show_window_on_hidden_window() {
    let mut window = Some(Window::created());
    assert!(show_window(&mut window));
    let w = window.unwrap();
    assert_eq!(w.visibility, Visibility::Visible);
    assert_eq!(w.background, None);
    assert_eq!(w.material, None);
}

#[test]
fn show_window_twice_is_idempotent() {
    let mut shell = Shell { window: Some(Window::created()) };
    assert!(matches!(shell.invoke("show_window"), Ok(true)));
    let once = shell.window;
    assert!(matches!(shell.invoke("show_window"), Ok(true)));
    assert_eq!(shell.window, once);
    assert!(shell.window.unwrap().is_visible());
}

#[test]
fn show_window_without_window_succeeds() {
    let mut shell = Shell { window: None };
    assert!(matches!(shell.invoke("show_window"), Ok(false)));
    assert!(shell.window.is_none());
    let mut window: Option<Window> = None;
    assert!(!show_window(&mut window));
    assert!(window.is_none());
}

#[test]
fn unknown_command_fails_without_change() {
    let mut shell = Shell { window: Some(Window::created()) };
    let r = shell.invoke("hide_window");
    assert!(matches!(r, Err(InvokeError::UnknownCommand(ref n)) if n == "hide_window"));
    assert_eq!(shell.window, Some(Window::created()));
    assert!(!shell.window.unwrap().is_visible());
}

#[test]
fn command_names_match_exactly() {
    assert!(matches!(parse_command("show_window"), Ok(Command::ShowWindow)));
    for name in ["", "Show_Window", "show_window ", "show", "show_windows"] {
        match parse_command(name) {
            Err(InvokeError::UnknownCommand(n)) => assert_eq!(n, name),
            Ok(_) => panic!("{name:?} resolved to a command"),
        }
    }
}
