//! The lifecycle of the host application and the dispatch of its signals.

use crate::demo::Demo;
use crate::event::{
    device_action, is_escape, same_window, spec_device_action, spec_window_action, window_action,
    Action, DeviceEvent, Key, WindowEvent,
};
use crate::surface::Display;
use vstd::prelude::*;

verus! {

/// The state of the host application: nothing yet, or a live display with
/// the demo that draws on it.
pub enum App<H, D> {
    Uninitialized,
    Initialized { display: Display<H>, demo: D },
}

/// A signal of the host.
pub enum Signal<H, D> {
    /// The host resumed; it has created the display and the demo.
    Resumed { display: Display<H>, demo: D },
    /// An event of the window with the given identity.
    Window(winit::window::WindowId, WindowEvent),
    /// An event of an input device.
    Device(DeviceEvent),
}

impl<H, D> App<H, D> {
    /// What the host has to do when `signal` arrives in this state while
    /// the event loop runs.
    pub open spec fn action_for(self, signal: Signal<H, D>) -> Action {
        match (self, signal) {
            (App::Initialized { display, .. }, Signal::Window(window, event)) => {
                if window == display.window {
                    spec_window_action(event)
                } else {
                    Action::Idle
                }
            },
            (App::Initialized { .. }, Signal::Device(event)) => spec_device_action(event),
            _ => Action::Idle,
        }
    }

    /// The state that follows this one when `signal` arrives while the
    /// event loop runs.
    pub open spec fn after(self, signal: Signal<H, D>) -> App<H, D> {
        match signal {
            Signal::Resumed { display, demo } => App::Initialized { display, demo },
            _ => match (self, self.action_for(signal)) {
                (App::Initialized { display, demo }, Action::Reconfigure { width, height }) => {
                    App::Initialized { display: display.resized(width, height), demo }
                },
                _ => self,
            },
        }
    }

    /// What the host has to do when `signal` arrives in this state. Once
    /// the event loop is leaving (`exiting`), that is nothing: no signal is
    /// dispatched any more.
    pub open spec fn answer(self, exiting: bool, signal: Signal<H, D>) -> Action {
        if exiting {
            Action::Idle
        } else {
            self.action_for(signal)
        }
    }

    /// The state that follows this one when `signal` arrives. Once the
    /// event loop is leaving (`exiting`), the state stays as it is.
    pub open spec fn next(self, exiting: bool, signal: Signal<H, D>) -> App<H, D> {
        if exiting {
            self
        } else {
            self.after(signal)
        }
    }

    /// The state before anything has happened.
    pub fn new() -> (app: App<H, D>)
        ensures
            app == App::<H, D>::Uninitialized,
    {
        App::Uninitialized
    }

    /// Whether a display and a demo are live.
    pub fn is_initialized(&self) -> (initialized: bool)
        ensures
            initialized == (*self is Initialized),
    {
        match self {
            App::Initialized { .. } => true,
            App::Uninitialized => false,
        }
    }

    /// Makes `display` the live display, with the demo that its set-up
    /// gave; a set-up that failed changes nothing and hands its error on.
    pub fn start<E>(&mut self, display: Display<H>, outcome: Result<D, E>) -> (started: Result<(), E>)
        ensures
            match outcome {
                Ok(demo) => started is Ok && *final(self) == old(self).after(
                    Signal::Resumed { display, demo },
                ),
                Err(error) => started == Err::<(), E>(error) && *final(self) == *old(self),
            },
    {
        match outcome {
            Ok(demo) => {
                *self = App::Initialized { display, demo };
                Ok(())
            },
            Err(error) => Err(error),
        }
    }

    /// Dispatches an event of the window `window`; `exiting` tells whether
    /// the event loop has already been asked to leave. Events that arrive
    /// after that, events of other windows, and events that arrive before a
    /// display is live are dropped.
    pub fn window_event(
        &mut self,
        exiting: bool,
        window: winit::window::WindowId,
        event: WindowEvent,
    ) -> (action: Action)
        ensures
            exiting ==> action == Action::Idle && *final(self) == *old(self),
            !exiting ==> action == old(self).action_for(Signal::Window(window, event))
                && *final(self) == old(self).after(Signal::Window(window, event)),
    {
        if exiting {
            return Action::Idle;
        }
        match self {
            App::Initialized { display, .. } => {
                if same_window(&window, &display.window) {
                    let action = window_action(event);
                    if let Action::Reconfigure { width, height } = action {
                        display.resize(width, height);
                    }
                    action
                } else {
                    Action::Idle
                }
            },
            App::Uninitialized => Action::Idle,
        }
    }

    /// Dispatches an event of an input device; `exiting` tells whether the
    /// event loop has already been asked to leave. Events that arrive after
    /// that, and events that arrive before a display is live, are dropped.
    pub fn device_event(&self, exiting: bool, event: DeviceEvent) -> (action: Action)
        ensures
            exiting ==> action == Action::Idle,
            !exiting ==> action == self.action_for(Signal::Device(event)),
    {
        if exiting {
            return Action::Idle;
        }
        match self {
            App::Initialized { .. } => device_action(event),
            App::Uninitialized => Action::Idle,
        }
    }

    /// Dispatches any signal; `exiting` tells whether the event loop has
    /// already been asked to leave, after which every signal is dropped.
    pub fn handle(&mut self, exiting: bool, signal: Signal<H, D>) -> (action: Action)
        ensures
            exiting ==> action == Action::Idle && *final(self) == *old(self),
            !exiting ==> action == old(self).action_for(signal) && *final(self) == old(self).after(
                signal,
            ),
    {
        if exiting {
            return Action::Idle;
        }
        match signal {
            Signal::Resumed { display, demo } => {
                *self = App::Initialized { display, demo };
                Action::Idle
            },
            Signal::Window(window, event) => self.window_event(false, window, event),
            Signal::Device(event) => self.device_event(false, event),
        }
    }
}

impl<H, D: Demo<H>> App<H, D> {
    /// The host resumed and created `display`: sets the demo up on it, once,
    /// and makes both live. If the set-up fails nothing changes and its
    /// error is handed on.
    pub fn resumed(&mut self, display: Display<H>) -> (started: Result<(), D::Error>)
        ensures
            match started {
                Ok(_) => {
                    &&& *final(self) is Initialized
                    &&& D::set_up(display, Ok(final(self)->demo))
                    &&& *final(self) == old(self).after(
                        Signal::Resumed { display, demo: final(self)->demo },
                    )
                },
                Err(error) => {
                    &&& D::set_up(display, Err(error))
                    &&& *final(self) == *old(self)
                },
            },
    {
        let outcome = D::init(&display);
        self.start(display, outcome)
    }

    /// Calls the hook of the live demo that `action` names, with what the
    /// action carries: the keyboard hook, the mouse hook, or, for a redraw,
    /// the render hook with the live display. Any other action, and any
    /// action before a demo is live, calls nothing.
    pub fn deliver(&mut self, action: Action)
        ensures
            old(self).delivered(action, *final(self)),
    {
        match self {
            App::Initialized { display, demo } => match action {
                Action::Keyboard { key, pressed } => demo.process_keyboard(key, pressed),
                Action::Mouse { dx, dy } => demo.process_mouse(dx, dy),
                Action::Redraw => demo.render(display),
                _ => {},
            },
            App::Uninitialized => {},
        }
    }

    /// `after` is this state once `action` has been delivered to the live
    /// demo. A key goes to the keyboard hook with its code and its state,
    /// a pointer motion to the mouse hook with its two deltas, and a redraw
    /// to the render hook with the live display; the hook alone decides what
    /// becomes of the demo (and, for a redraw, of the display), and the
    /// rest stays. Any other action, and any action before a demo is live,
    /// reaches no hook and changes nothing.
    pub open spec fn delivered(self, action: Action, after: App<H, D>) -> bool {
        match (self, action) {
            (App::Initialized { display, demo }, Action::Keyboard { key, pressed }) => {
                &&& after is Initialized
                &&& after->display == display
                &&& D::keyed(demo, key, pressed, after->demo)
            },
            (App::Initialized { display, demo }, Action::Mouse { dx, dy }) => {
                &&& after is Initialized
                &&& after->display == display
                &&& D::moved(demo, dx, dy, after->demo)
            },
            (App::Initialized { display, demo }, Action::Redraw) => {
                &&& after is Initialized
                &&& D::rendered(demo, display, after->demo, after->display)
            },
            _ => after == self,
        }
    }
}

/// The event loop of a run that starts in `start`, after its first `count`
/// signals: the state of the application, and whether the loop is leaving.
/// The loop begins to leave with the first `Exit` and never returns from
/// that.
pub open spec fn loop_at<H, D>(start: App<H, D>, signals: Seq<Signal<H, D>>, count: int) -> (
    App<H, D>,
    bool,
)
    decreases count,
{
    if count <= 0 {
        (start, false)
    } else {
        let (app, exiting) = loop_at(start, signals, count - 1);
        let signal = signals[count - 1];
        (app.next(exiting, signal), exiting || app.answer(exiting, signal) == Action::Exit)
    }
}

/// The state of a run that starts in `start`, after its first `count`
/// signals.
pub open spec fn state_at<H, D>(start: App<H, D>, signals: Seq<Signal<H, D>>, count: int) -> App<H, D> {
    loop_at(start, signals, count).0
}

/// Whether the event loop of a run that starts in `start` is leaving after
/// its first `count` signals.
pub open spec fn exiting_at<H, D>(start: App<H, D>, signals: Seq<Signal<H, D>>, count: int) -> bool {
    loop_at(start, signals, count).1
}

/// What the host has to do for the signal at `index` of a run that starts
/// in `start`.
pub open spec fn action_at<H, D>(start: App<H, D>, signals: Seq<Signal<H, D>>, index: int) -> Action {
    state_at(start, signals, index).answer(exiting_at(start, signals, index), signals[index])
}

/// `log` holds the actions of a run over `signals` that starts in `start`:
/// one action for each signal in turn.
pub open spec fn is_log_of<H, D>(log: Seq<Action>, start: App<H, D>, signals: Seq<Signal<H, D>>) -> bool {
    &&& log.len() == signals.len()
    &&& forall|i: int| 0 <= i < log.len() ==> log[i] == action_at(start, signals, i)
}

/// Runs the application over a queue of signals, from the uninitialized
/// state, as the event loop does: every signal is dispatched in turn, and
/// from the first exit on the loop is leaving and the signals that still
/// come are dropped. Returns the final state and the answer to each signal.
pub fn run<H, D>(signals: Vec<Signal<H, D>>) -> (outcome: (App<H, D>, Vec<Action>))
    ensures
        is_log_of(outcome.1@, App::<H, D>::Uninitialized, signals@),
        outcome.0 == state_at(App::<H, D>::Uninitialized, signals@, signals@.len() as int),
{
    let ghost start = App::<H, D>::Uninitialized;
    let ghost all = signals@;
    let mut app: App<H, D> = App::new();
    let mut log: Vec<Action> = Vec::new();
    let mut exiting = false;
    for signal in queue: signals
        invariant
            queue.seq() == all,
            log@.len() == queue.index(),
            forall|i: int| 0 <= i < log@.len() ==> log@[i] == action_at(start, all, i),
            app == state_at(start, all, log@.len() as int),
            exiting == exiting_at(start, all, log@.len() as int),
    {
        let action = app.handle(exiting, signal);
        exiting = exiting || is_exit(&action);
        log.push(action);
    }
    (app, log)
}

/// Whether an action asks the host to leave the event loop.
pub fn is_exit(action: &Action) -> (exit: bool)
    ensures
        exit == (*action == Action::Exit),
{
    match action {
        Action::Exit => true,
        _ => false,
    }
}

/// The host is asked to leave the event loop exactly when, while the loop
/// still runs, a close request or a press of Escape arrives for the window
/// of the live display; the state stays as it is.
pub proof fn exit_exactly_on_close_or_escape<H, D>(
    app: App<H, D>,
    exiting: bool,
    signal: Signal<H, D>,
)
    ensures
        app.answer(exiting, signal) == Action::Exit <==> {
            &&& !exiting
            &&& app is Initialized
            &&& signal matches Signal::Window(window, event)
            &&& window == app->display.window
            &&& (event == WindowEvent::CloseRequested || (event matches WindowEvent::KeyboardInput {
                key: Key::Code(code),
                pressed,
            } && pressed && is_escape(code)))
        },
        app.answer(exiting, signal) == Action::Exit ==> app.next(exiting, signal) == app,
{
}

/// Once the event loop is leaving, no signal is dispatched any more: every
/// signal is answered by `Idle`, so that no hook of any demo is called, and
/// the state stays as it is.
pub proof fn exiting_is_idle<H, D>(app: App<H, D>, signal: Signal<H, D>)
    ensures
        app.answer(true, signal) == Action::Idle,
        app.next(true, signal) == app,
{
}

/// Before a display is live every signal is answered by `Idle`, so that no
/// hook of any demo is called, and only a resume changes the state.
pub proof fn uninitialized_is_idle<H, D>(app: App<H, D>, exiting: bool, signal: Signal<H, D>)
    requires
        app is Uninitialized,
    ensures
        app.answer(exiting, signal) == Action::Idle,
        !(signal is Resumed) ==> app.next(exiting, signal) == app,
{
}

/// While the event loop runs, a resize of the window of the live display
/// is stored at once, and the host is asked in the same step to reconfigure
/// the surface to the same dimensions; nothing else of the state changes.
pub proof fn resize_is_stored_and_reconfigured<H, D>(app: App<H, D>, width: u32, height: u32)
    requires
        app is Initialized,
    ensures
        ({
            let signal = Signal::<H, D>::Window(
                app->display.window,
                WindowEvent::Resized { width, height },
            );
            &&& app.answer(false, signal) == (Action::Reconfigure { width, height })
            &&& app.next(false, signal) is Initialized
            &&& app.next(false, signal)->display.config.width == width
            &&& app.next(false, signal)->display.config.height == height
            &&& app.next(false, signal)->display == app->display.resized(width, height)
            &&& app.next(false, signal)->demo == app->demo
        }),
{
}

/// After an exit nothing is dispatched any more: from the step that asks
/// the host to leave the event loop on, the loop is leaving, every later
/// signal of the run is answered by `Idle`, so that no hook of any demo is
/// called for it, and the state stays the one in which the exit was asked.
pub proof fn nothing_after_exit<H, D>(start: App<H, D>, signals: Seq<Signal<H, D>>, i: int, j: int)
    requires
        0 <= i < j,
        action_at(start, signals, i) == Action::Exit,
    ensures
        exiting_at(start, signals, j),
        action_at(start, signals, j) == Action::Idle,
        state_at(start, signals, j) == state_at(start, signals, i),
        state_at(start, signals, j + 1) == state_at(start, signals, i),
    decreases j - i,
{
    if i + 1 < j {
        nothing_after_exit(start, signals, i, j - 1);
    }
}

/// The loop of a run is leaving exactly when one of its steps so far has
/// asked for the exit.
pub proof fn exiting_after_an_exit<H, D>(start: App<H, D>, signals: Seq<Signal<H, D>>, count: int)
    ensures
        exiting_at(start, signals, count) <==> exists|i: int|
            0 <= i < count && #[trigger] action_at(start, signals, i) == Action::Exit,
    decreases count,
{
    if count > 0 {
        exiting_after_an_exit(start, signals, count - 1);
        if exiting_at(start, signals, count) {
            if !exiting_at(start, signals, count - 1) {
                assert(action_at(start, signals, count - 1) == Action::Exit);
            }
        }
    }
}

/// Once a display and a demo are live they stay live: no signal leads back
/// to the uninitialized state.
pub proof fn initialized_is_permanent<H, D>(
    start: App<H, D>,
    signals: Seq<Signal<H, D>>,
    i: int,
    j: int,
)
    requires
        0 <= i <= j,
        state_at(start, signals, i) is Initialized,
    ensures
        state_at(start, signals, j) is Initialized,
    decreases j - i,
{
    if i < j {
        initialized_is_permanent(start, signals, i, j - 1);
    }
}

/// A run passes from the uninitialized to the initialized state at most
/// once: two steps that both make the passage are the same step.
pub proof fn transition_is_unique<H, D>(
    start: App<H, D>,
    signals: Seq<Signal<H, D>>,
    i: int,
    j: int,
)
    requires
        0 <= i,
        0 <= j,
        state_at(start, signals, i) is Uninitialized,
        state_at(start, signals, i + 1) is Initialized,
        state_at(start, signals, j) is Uninitialized,
        state_at(start, signals, j + 1) is Initialized,
    ensures
        i == j,
{
    if i < j {
        initialized_is_permanent(start, signals, i + 1, j);
    } else if j < i {
        initialized_is_permanent(start, signals, j + 1, i);
    }
}

/// Before the first resume nothing reaches a demo: the state stays
/// uninitialized and every signal is answered by `Idle`. The first resume
/// makes the display and the demo that it brings the live ones.
pub proof fn transition_at_first_resume<H, D>(signals: Seq<Signal<H, D>>, first: int)
    requires
        0 <= first < signals.len(),
        signals[first] is Resumed,
        forall|k: int| 0 <= k < first ==> !(signals[k] is Resumed),
    ensures
        forall|k: int|
            0 <= k <= first ==> #[trigger] state_at(App::<H, D>::Uninitialized, signals, k)
                is Uninitialized,
        forall|k: int|
            0 <= k <= first ==> #[trigger] action_at(App::<H, D>::Uninitialized, signals, k)
                == Action::Idle,
        state_at(App::<H, D>::Uninitialized, signals, first + 1) == (App::Initialized {
            display: signals[first]->display,
            demo: signals[first]->demo,
        }),
{
    let start = App::<H, D>::Uninitialized;
    assert forall|k: int| 0 <= k <= first implies #[trigger] state_at(start, signals, k)
        is Uninitialized by {
        stays_uninitialized(signals, k);
    }
    stays_uninitialized(signals, first);
}

/// A run that has met no resume yet is still uninitialized, and its loop
/// is not leaving.
pub proof fn stays_uninitialized<H, D>(signals: Seq<Signal<H, D>>, count: int)
    requires
        0 <= count <= signals.len(),
        forall|k: int| 0 <= k < count ==> !(signals[k] is Resumed),
    ensures
        state_at(App::<H, D>::Uninitialized, signals, count) is Uninitialized,
        !exiting_at(App::<H, D>::Uninitialized, signals, count),
    decreases count,
{
    if count > 0 {
        stays_uninitialized(signals, count - 1);
    }
}

/// A run with a single resume is initialized exactly once: the step of the
/// resume is the only one that leads from the uninitialized to the
/// initialized state, and the demo that was set up for it is the live one
/// at every later point of the run.
pub proof fn single_resume_initializes_once<H, D>(signals: Seq<Signal<H, D>>, resume: int)
    requires
        0 <= resume < signals.len(),
        signals[resume] is Resumed,
        forall|k: int| 0 <= k < signals.len() && k != resume ==> !(signals[k] is Resumed),
    ensures
        forall|i: int|
            0 <= i < signals.len() ==> ((#[trigger] state_at(
                App::<H, D>::Uninitialized,
                signals,
                i,
            ) is Uninitialized && state_at(App::<H, D>::Uninitialized, signals, i + 1)
                is Initialized) <==> i == resume),
        forall|j: int|
            resume < j <= signals.len() ==> (#[trigger] state_at(
                App::<H, D>::Uninitialized,
                signals,
                j,
            )) is Initialized && state_at(App::<H, D>::Uninitialized, signals, j)->demo
                == signals[resume]->demo,
{
    let start = App::<H, D>::Uninitialized;
    transition_at_first_resume(signals, resume);
    assert forall|j: int| resume < j <= signals.len() implies (#[trigger] state_at(
        start,
        signals,
        j,
    )) is Initialized && state_at(start, signals, j)->demo == signals[resume]->demo by {
        demo_is_kept(start, signals, resume + 1, j);
    }
    assert forall|i: int| 0 <= i < signals.len() implies ((#[trigger] state_at(start, signals, i)
        is Uninitialized && state_at(start, signals, i + 1) is Initialized) <==> i == resume) by {
        if i < resume {
            assert(state_at(start, signals, i + 1) is Uninitialized);
        } else if i > resume {
            assert(state_at(start, signals, i) is Initialized);
        }
    }
}

/// Between two resumes the live demo, the host's handles and the window
/// stay the ones that the last resume brought: no other signal replaces
/// them.
pub proof fn demo_is_kept<H, D>(start: App<H, D>, signals: Seq<Signal<H, D>>, i: int, j: int)
    requires
        0 <= i <= j <= signals.len(),
        state_at(start, signals, i) is Initialized,
        forall|k: int| i <= k < j ==> !(signals[k] is Resumed),
    ensures
        state_at(start, signals, j) is Initialized,
        state_at(start, signals, j)->demo == state_at(start, signals, i)->demo,
        state_at(start, signals, j)->display.handles == state_at(start, signals, i)->display.handles,
        state_at(start, signals, j)->display.window == state_at(start, signals, i)->display.window,
    decreases j - i,
{
    if i < j {
        demo_is_kept(start, signals, i, j - 1);
    }
}

/// A resize reaches the surface before anything is drawn at the old size:
/// the step that records the new size asks the host to reconfigure the
/// surface to it, and until the next such step or resume the stored
/// configuration keeps exactly these dimensions, so that every later redraw
/// finds the surface and the configuration in agreement.
pub proof fn redraw_follows_last_resize<H, D>(
    start: App<H, D>,
    signals: Seq<Signal<H, D>>,
    i: int,
    j: int,
    width: u32,
    height: u32,
)
    requires
        0 <= i < j <= signals.len(),
        action_at(start, signals, i) == (Action::Reconfigure { width, height }),
        forall|k: int|
            i < k < j ==> !(signals[k] is Resumed) && !(#[trigger] action_at(start, signals, k)
                is Reconfigure),
    ensures
        state_at(start, signals, i) is Initialized,
        state_at(start, signals, j) is Initialized,
        state_at(start, signals, j)->display.config == state_at(
            start,
            signals,
            i,
        )->display.config.resized(width, height),
        state_at(start, signals, j)->display.config.width == width,
        state_at(start, signals, j)->display.config.height == height,
    decreases j - i,
{
    if i + 1 < j {
        redraw_follows_last_resize(start, signals, i, j - 1, width, height);
        assert(!(action_at(start, signals, j - 1) is Reconfigure));
    }
}

} // verus!
