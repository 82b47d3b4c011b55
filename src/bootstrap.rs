//! The one-time setup sequence, as a state machine that the host drives.
//!
//! The host asks [`Bootstrap::next_step`] what to do, performs it against the
//! window system and reports the outcome with [`Bootstrap::report`]. Once the
//! sequence has ended, [`Bootstrap::finish`] either hands over the [`Shell`]
//! that serves commands or the fatal error that ends the process.
use vstd::prelude::*;
use crate::bridge::Shell;
use crate::window::{
    Material, Rgba, Visibility, Window, background_color, backdrop_material, shell_material,
    theme_background,
};

verus! {

/// Why setup cannot go on.
#[derive(Clone, Copy, Debug, PartialEq, Eq, Structural)]
pub enum SetupError {
    /// The window named "main" could not be found.
    MissingWindow,
    /// The platform does not implement compositor translucency.
    UnsupportedPlatform,
}

/// The label of the shell's one window.
pub const MAIN_WINDOW: &'static str = "main";

/// The diagnostic printed when setup fails with `e`.
pub open spec fn error_text(e: SetupError) -> Seq<char> {
    match e {
        SetupError::MissingWindow => "the window 'main' could not be found"@,
        SetupError::UnsupportedPlatform => "Unsupported platform! 'apply_vibrancy' is only supported on macOS"@,
    }
}

impl SetupError {
    /// The diagnostic to show the user before the process stops.
    pub fn message(&self) -> (s: String)
        ensures
            s@ == error_text(*self),
    {
        match self {
            SetupError::MissingWindow => "the window 'main' could not be found".to_owned(),
            SetupError::UnsupportedPlatform => "Unsupported platform! 'apply_vibrancy' is only supported on macOS".to_owned(),
        }
    }
}

/// Where the setup sequence stands.
#[derive(Clone, Copy, Debug, PartialEq, Eq, Structural)]
pub enum Stage {
    /// The window is to be looked up.
    LookUp,
    /// The background colour is to be set.
    Background,
    /// The translucency material is to be applied.
    Effects,
    /// Setup is complete: the event loop may start.
    Running,
    /// Setup failed for good.
    Failed(SetupError),
}

/// What the host is asked to do next.
#[derive(Clone, Copy, Debug, PartialEq, Eq, Structural)]
pub enum Step {
    /// Look up the window named "main".
    LookUpWindow,
    /// Paint the window's backdrop with this colour.
    SetBackground(Rgba),
    /// Apply this translucency material to the window's backdrop.
    ApplyVibrancy(Material),
    /// Hand control to the event loop, leaving the window hidden.
    StartEventLoop,
    /// Stop the process with this error.
    Abort(SetupError),
}

/// What the host observed when it performed a step.
#[derive(Clone, Copy, Debug, PartialEq, Eq, Structural)]
pub enum Event {
    /// The lookup of the window found it (`true`) or not.
    WindowLookedUp(bool),
    /// The platform accepted the background colour (`true`) or not.
    BackgroundSet(bool),
    /// The platform applied the material (`true`) or does not support it.
    VibrancyApplied(bool),
}

/// The step that belongs to each stage.
pub open spec fn step_for(stage: Stage) -> Step {
    match stage {
        Stage::LookUp => Step::LookUpWindow,
        Stage::Background => Step::SetBackground(theme_background()),
        Stage::Effects => Step::ApplyVibrancy(shell_material()),
        Stage::Running => Step::StartEventLoop,
        Stage::Failed(e) => Step::Abort(e),
    }
}

/// Whether the sequence has ended, well or badly.
pub open spec fn is_final(stage: Stage) -> bool {
    stage is Running || stage is Failed
}

/// The stage that follows `stage` when the host reports `event`. An event that
/// does not answer the pending step changes nothing. A refused background
/// colour is only cosmetic and setup goes on; a refused material is fatal.
pub open spec fn next_stage(stage: Stage, event: Event) -> Stage {
    match (stage, event) {
        (Stage::LookUp, Event::WindowLookedUp(found)) => if found {
            Stage::Background
        } else {
            Stage::Failed(SetupError::MissingWindow)
        },
        (Stage::Background, Event::BackgroundSet(_)) => Stage::Effects,
        (Stage::Effects, Event::VibrancyApplied(applied)) => if applied {
            Stage::Running
        } else {
            Stage::Failed(SetupError::UnsupportedPlatform)
        },
        _ => stage,
    }
}

/// The window as it stands after `event` is reported in `stage`.
pub open spec fn next_window(stage: Stage, window: Option<Window>, event: Event) -> Option<Window> {
    match (stage, event, window) {
        (Stage::LookUp, Event::WindowLookedUp(true), _) => Some(
            Window { visibility: Visibility::Hidden, background: None, material: None },
        ),
        (Stage::Background, Event::BackgroundSet(true), Some(w)) => Some(
            Window { background: Some(theme_background()), ..w },
        ),
        (Stage::Effects, Event::VibrancyApplied(true), Some(w)) => Some(
            Window { material: Some(shell_material()), ..w },
        ),
        _ => window,
    }
}

/// Stage and window after the host has reported `events` in turn.
pub open spec fn run(stage: Stage, window: Option<Window>, events: Seq<Event>) -> (Stage, Option<Window>)
    decreases events.len(),
{
    if events.len() == 0 {
        (stage, window)
    } else {
        run(
            next_stage(stage, events[0]),
            next_window(stage, window, events[0]),
            events.subrange(1, events.len() as int),
        )
    }
}

/// The steps whose outcome has been reported by the time setup is in `stage`.
pub open spec fn completed(stage: Stage) -> Seq<Step> {
    match stage {
        Stage::LookUp => seq![],
        Stage::Background => seq![Step::LookUpWindow],
        Stage::Effects => seq![Step::LookUpWindow, Step::SetBackground(theme_background())],
        Stage::Running => seq![
            Step::LookUpWindow,
            Step::SetBackground(theme_background()),
            Step::ApplyVibrancy(shell_material()),
        ],
        Stage::Failed(SetupError::MissingWindow) => seq![Step::LookUpWindow],
        Stage::Failed(SetupError::UnsupportedPlatform) => seq![
            Step::LookUpWindow,
            Step::SetBackground(theme_background()),
            Step::ApplyVibrancy(shell_material()),
        ],
    }
}

/// What can be known of the window in each stage.
pub open spec fn window_fits(stage: Stage, window: Option<Window>) -> bool {
    match stage {
        Stage::LookUp | Stage::Failed(SetupError::MissingWindow) => window.is_none(),
        _ => match window {
            None => false,
            Some(w) => {
                &&& w.visibility == Visibility::Hidden
                &&& (w.background.is_none() || w.background == Some(theme_background()))
                &&& if stage is Running {
                    w.material == Some(shell_material())
                } else {
                    w.material.is_none()
                }
                &&& stage is Background ==> w.background.is_none()
            },
        },
    }
}

/// The setup sequence in progress.
pub struct Bootstrap {
    pub stage: Stage,
    /// The window once it has been found.
    pub window: Option<Window>,
    /// The steps performed so far, in order.
    pub performed: Vec<Step>,
}

impl Bootstrap {
    /// The record of steps matches the stage and the window fits it.
    pub open spec fn wf(&self) -> bool {
        &&& self.performed@ == completed(self.stage)
        &&& window_fits(self.stage, self.window)
    }

    /// A sequence that has not started: nothing done, no window known.
    pub fn new() -> (b: Bootstrap)
        ensures
            b.wf(),
            b.stage == Stage::LookUp,
            b.window.is_none(),
            b.performed@ == Seq::<Step>::empty(),
    {
        Bootstrap { stage: Stage::LookUp, window: None, performed: Vec::new() }
    }

    /// The step the host is to perform now.
    pub fn next_step(&self) -> (s: Step)
        ensures
            s == step_for(self.stage),
    {
        match self.stage {
            Stage::LookUp => Step::LookUpWindow,
            Stage::Background => Step::SetBackground(background_color()),
            Stage::Effects => Step::ApplyVibrancy(backdrop_material()),
            Stage::Running => Step::StartEventLoop,
            Stage::Failed(e) => Step::Abort(e),
        }
    }

    /// Whether the sequence has ended.
    pub fn is_finished(&self) -> (r: bool)
        ensures
            r == is_final(self.stage),
    {
        match self.stage {
            Stage::Running | Stage::Failed(_) => true,
            _ => false,
        }
    }

    /// Takes in what the host observed when it performed the pending step.
    pub fn report(&mut self, event: Event)
        requires
            old(self).wf(),
        ensures
            final(self).wf(),
            final(self).stage == next_stage(old(self).stage, event),
            final(self).window == next_window(old(self).stage, old(self).window, event),
            final(self).performed@ == if final(self).stage == old(self).stage {
                old(self).performed@
            } else {
                old(self).performed@.push(step_for(old(self).stage))
            },
    {
        let step = self.next_step();
        match (self.stage, event) {
            (Stage::LookUp, Event::WindowLookedUp(found)) => {
                self.performed.push(step);
                if found {
                    self.stage = Stage::Background;
                    self.window = Some(Window::created());
                } else {
                    self.stage = Stage::Failed(SetupError::MissingWindow);
                }
            },
            (Stage::Background, Event::BackgroundSet(accepted)) => {
                self.performed.push(step);
                self.stage = Stage::Effects;
                if accepted {
                    if let Some(w) = self.window {
                        self.window = Some(Window { background: Some(background_color()), ..w });
                    }
                }
            },
            (Stage::Effects, Event::VibrancyApplied(applied)) => {
                self.performed.push(step);
                if applied {
                    self.stage = Stage::Running;
                    if let Some(w) = self.window {
                        self.window = Some(Window { material: Some(backdrop_material()), ..w });
                    }
                } else {
                    self.stage = Stage::Failed(SetupError::UnsupportedPlatform);
                }
            },
            _ => {},
        }
        assert(self.performed@ =~= completed(self.stage));
    }

    /// Ends the sequence: the shell that serves commands once setup is
    /// complete, or the error that stopped it.
    pub fn finish(self) -> (r: Result<Shell, SetupError>)
        requires
            is_final(self.stage),
        ensures
            match self.stage {
                Stage::Failed(e) => r == Err::<Shell, SetupError>(e),
                _ => r matches Ok(shell) && shell.window == self.window,
            },
    {
        match self.stage {
            Stage::Failed(e) => Err(e),
            _ => Ok(Shell { window: self.window }),
        }
    }
}

/// One reported event keeps the window fitting the stage.
proof fn lemma_next_fits(stage: Stage, window: Option<Window>, event: Event)
    requires
        window_fits(stage, window),
    ensures
        window_fits(next_stage(stage, event), next_window(stage, window, event)),
{
}

proof fn lemma_never_running(stage: Stage, window: Option<Window>, events: Seq<Event>)
    requires
        stage != Stage::Running,
        forall|i: int| 0 <= i < events.len() ==> events[i] != Event::VibrancyApplied(true),
    ensures
        run(stage, window, events).0 != Stage::Running,
    decreases events.len(),
{
    if events.len() > 0 {
        let rest = events.subrange(1, events.len() as int);
        assert forall|i: int| 0 <= i < rest.len() implies rest[i] != Event::VibrancyApplied(true) by {
            assert(rest[i] == events[i + 1]);
        }
        lemma_never_running(
            next_stage(stage, events[0]),
            next_window(stage, window, events[0]),
            rest,
        );
    }
}

/// On a platform that never applies the translucency material, setup never
/// reaches the stage from which the event loop starts, whatever else the host
/// reports: once it ends, it ends in a fatal error.
pub proof fn lemma_unsupported_platform_is_fatal(events: Seq<Event>)
    requires
        forall|i: int| 0 <= i < events.len() ==> events[i] != Event::VibrancyApplied(true),
    ensures
        run(Stage::LookUp, None, events).0 != Stage::Running,
        is_final(run(Stage::LookUp, None, events).0) ==> run(Stage::LookUp, None, events).0 is Failed,
{
    lemma_never_running(Stage::LookUp, None, events);
}

/// The window fits the stage, and from the effects stage on it carries the
/// theme colour.
pub open spec fn styled_so_far(stage: Stage, window: Option<Window>) -> bool {
    &&& window_fits(stage, window)
    &&& (stage is Effects || stage is Running) ==> window.unwrap().background == Some(
        theme_background(),
    )
}

proof fn lemma_styled_run(stage: Stage, window: Option<Window>, events: Seq<Event>)
    requires
        styled_so_far(stage, window),
        forall|i: int| 0 <= i < events.len() ==> events[i] != Event::BackgroundSet(false),
    ensures
        styled_so_far(run(stage, window, events).0, run(stage, window, events).1),
    decreases events.len(),
{
    if events.len() > 0 {
        let rest = events.subrange(1, events.len() as int);
        assert forall|i: int| 0 <= i < rest.len() implies rest[i] != Event::BackgroundSet(false) by {
            assert(rest[i] == events[i + 1]);
        }
        lemma_next_fits(stage, window, events[0]);
        lemma_styled_run(
            next_stage(stage, events[0]),
            next_window(stage, window, events[0]),
            rest,
        );
    }
}

/// Where the platform accepts the background colour, a setup that completes
/// leaves the window hidden, painted with the theme colour and carrying the
/// translucency material.
pub proof fn lemma_setup_styles_window(events: Seq<Event>)
    requires
        forall|i: int| 0 <= i < events.len() ==> events[i] != Event::BackgroundSet(false),
    ensures
        run(Stage::LookUp, None, events).0 == Stage::Running ==> run(Stage::LookUp, None, events).1
            == Some(
            Window {
                visibility: Visibility::Hidden,
                background: Some(theme_background()),
                material: Some(shell_material()),
            },
        ),
{
    lemma_styled_run(Stage::LookUp, None, events);
}

/// In every state of setup, each application of the translucency material
/// was preceded by setting the background colour; and setup reaches the stage
/// from which the event loop starts only after both.
pub proof fn lemma_setup_order(b: Bootstrap)
    requires
        b.wf(),
    ensures
        forall|j: int|
            0 <= j < b.performed@.len() && b.performed@[j] is ApplyVibrancy ==> exists|i: int|
                0 <= i < j && b.performed@[i] is SetBackground,
        b.stage == Stage::Running ==> exists|i: int, j: int|
            0 <= i < j < b.performed@.len() && b.performed@[i] is SetBackground
                && b.performed@[j] is ApplyVibrancy,
{
    let p = b.performed@;
    if p.len() == 3 {
        assert(p[1] is SetBackground);
        assert(p[2] is ApplyVibrancy);
    }
    assert forall|j: int| 0 <= j < p.len() && p[j] is ApplyVibrancy implies exists|i: int|
        0 <= i < j && p[i] is SetBackground by {
        assert(j == 2);
        assert(p[1] is SetBackground);
    }
}

} // verus!
