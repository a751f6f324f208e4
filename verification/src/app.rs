//! The application state and the transitions the event loop applies to it.
//!
//! Each loop iteration renders the current state and then waits for the first
//! of two events: an input event, or a tick value from the background queue.
//! The handlers here apply the corresponding transition; the loop around them
//! (rendering, waiting) lives outside the library.

use vstd::prelude::*;

use crate::digits::{dec_string, i32_to_string};
use crate::events::{is_quit_event, is_quit_key, InputEvent, KeyCode, KeyEvent, KeyEventKind};

verus! {

/// The mathematical view of the application state.
pub ghost struct AppState {
    /// Is the application running?
    pub running: bool,
    /// The text currently shown.
    pub text: Seq<char>,
}

/// What a key event does to the state: a quit combination stops the
/// application, the character `a` sets the text to `"a"`, and every other
/// key leaves the state unchanged.
pub open spec fn step_key(s: AppState, key: KeyEvent) -> AppState {
    if is_quit_key(key.code, key.modifiers) {
        AppState { running: false, ..s }
    } else if key.code == KeyCode::Char('a') {
        AppState { text: seq!['a'], ..s }
    } else {
        s
    }
}

/// What an input event does to the state: only key presses are handled;
/// releases, repeats, pointer events and resizes leave the state unchanged.
pub open spec fn step_input(s: AppState, e: InputEvent) -> AppState {
    match e {
        InputEvent::Key(k) => if k.kind is Press {
            step_key(s, k)
        } else {
            s
        },
        _ => s,
    }
}

/// What a queue event does to the state: a delivered value becomes the text,
/// in decimal; a closed queue (no value) leaves the state unchanged.
pub open spec fn step_time(s: AppState, v: Option<i32>) -> AppState {
    match v {
        Some(x) => AppState { text: dec_string(x as int), ..s },
        None => s,
    }
}

/// The state after a sequence of input events, applied in order.
pub open spec fn steps_input(s: AppState, es: Seq<InputEvent>) -> AppState
    decreases es.len(),
{
    if es.len() == 0 {
        s
    } else {
        steps_input(step_input(s, es[0]), es.skip(1))
    }
}

/// The application state, owned by the event loop alone.
#[derive(Debug)]
pub struct App {
    /// Is the application running?
    running: bool,
    /// The text currently shown.
    string: String,
}

impl View for App {
    type V = AppState;

    closed spec fn view(&self) -> AppState {
        AppState { running: self.running, text: self.string@ }
    }
}

impl Default for App {
    fn default() -> (app: App)
        ensures
            !app@.running,
            app@.text == Seq::<char>::empty(),
    {
        App { running: false, string: String::new() }
    }
}

impl App {
    /// Construct a new instance of [`App`], not yet running, with empty text.
    pub fn new() -> (app: App)
        ensures
            !app@.running,
            app@.text == Seq::<char>::empty(),
    {
        App::default()
    }

    /// Mark the application as running; the event loop calls this once,
    /// before its first iteration.
    pub fn start(&mut self)
        ensures
            final(self)@ == (AppState { running: true, ..old(self)@ }),
    {
        self.running = true;
    }

    /// Is the application still running? The event loop keeps iterating
    /// exactly while this holds.
    pub fn is_running(&self) -> (r: bool)
        ensures
            r == self@.running,
    {
        self.running
    }

    /// The text to render.
    pub fn display_text(&self) -> (r: &String)
        ensures
            r@ == self@.text,
    {
        &self.string
    }

    /// Apply one event from the input source, or record that the source is
    /// exhausted (`None`) or failed (`Some(Err(..))`). A failure is handed
    /// back unchanged for the loop to abort on; everything else applies
    /// [`step_input`].
    pub fn handle_crossterm_event<E>(&mut self, option_event: Option<Result<InputEvent, E>>) -> (r:
        Result<(), E>)
        ensures
            match option_event {
                Some(Err(e)) => r == Err::<(), E>(e) && final(self)@ == old(self)@,
                Some(Ok(ev)) => r is Ok && final(self)@ == step_input(old(self)@, ev),
                None => r is Ok && final(self)@ == old(self)@,
            },
    {
        match option_event {
            Some(Ok(event)) => {
                match event {
                    InputEvent::Key(key) => {
                        // Only key presses are handled, so that platforms
                        // reporting both press and release do not act twice.
                        match key.kind {
                            KeyEventKind::Press => self.on_key_event(key),
                            _ => {},
                        }
                    },
                    _ => {},
                }
                Ok(())
            },
            Some(Err(e)) => Err(e),
            None => Ok(()),
        }
    }

    /// Apply one key event: applies [`step_key`], ignoring the event's kind.
    pub fn on_key_event(&mut self, key: KeyEvent)
        ensures
            final(self)@ == step_key(old(self)@, key),
    {
        let quit: bool = match key.code {
            KeyCode::Esc => !key.modifiers.control && !key.modifiers.shift && !key.modifiers.alt,
            KeyCode::Char(c) => (c == 'c' || c == 'C') && key.modifiers.control
                && !key.modifiers.alt,
            _ => false,
        };
        if quit {
            self.quit();
        } else {
            match key.code {
                KeyCode::Char(c) => {
                    if c == 'a' {
                        proof {
                            reveal_strlit("a");
                        }
                        self.string = "a".to_owned();
                        assert(self@.text =~= seq!['a']);
                    }
                },
                _ => {},
            }
        }
    }

    /// Set running to false to quit the application.
    pub fn quit(&mut self)
        ensures
            final(self)@ == (AppState { running: false, ..old(self)@ }),
    {
        self.running = false;
    }

    /// Apply one event from the tick queue: applies [`step_time`], so a
    /// delivered value becomes the text in decimal, and a closed queue
    /// changes nothing (in particular, it does not stop the loop).
    pub fn handle_time_event(&mut self, option_x: Option<i32>)
        ensures
            final(self)@ == step_time(old(self)@, option_x),
    {
        match option_x {
            Some(x) => {
                self.string = i32_to_string(x);
            },
            None => {},
        }
    }
}

/// An input event that is not a quit key-press leaves `running` as it was:
/// in particular, a run of such events never stops the application.
pub proof fn lemma_non_quit_preserves_running(s: AppState, e: InputEvent)
    requires
        !is_quit_event(e),
    ensures
        step_input(s, e).running == s.running,
{
}

/// Processing any sequence of input events that contains no quit key-press
/// leaves a running application running.
pub proof fn lemma_no_quit_keeps_running(s: AppState, es: Seq<InputEvent>)
    requires
        s.running,
        forall|i: int| 0 <= i < es.len() ==> !is_quit_event(#[trigger] es[i]),
    ensures
        steps_input(s, es).running,
    decreases es.len(),
{
    if es.len() > 0 {
        lemma_non_quit_preserves_running(s, es[0]);
        lemma_no_quit_keeps_running(step_input(s, es[0]), es.skip(1));
    }
}

/// Any quit key-press stops the application, whatever the state was.
pub proof fn lemma_quit_event_stops(s: AppState, e: InputEvent)
    requires
        is_quit_event(e),
    ensures
        !step_input(s, e).running,
{
}

/// A stopped application stays stopped: no input or queue event sets
/// `running` again. Together with the loop exiting as soon as `running` is
/// false, no event is processed after a quit.
pub proof fn lemma_stopped_stays_stopped(s: AppState, e: InputEvent, v: Option<i32>)
    requires
        !s.running,
    ensures
        !step_input(s, e).running,
        !step_time(s, v).running,
{
}

/// A key event whose kind is not a press leaves the state exactly as it was,
/// whatever its code and modifiers.
pub proof fn lemma_release_ignored(s: AppState, k: KeyEvent)
    requires
        !(k.kind is Press),
    ensures
        step_input(s, InputEvent::Key(k)) == s,
{
}

/// An event the application does not act on: a key event that is not a
/// press, a press of a key that is neither a quit combination nor the
/// character `a`, or any non-key event.
pub open spec fn is_ignored_event(e: InputEvent) -> bool {
    match e {
        InputEvent::Key(k) => !(k.kind is Press) || (!is_quit_key(k.code, k.modifiers) && k.code
            != KeyCode::Char('a')),
        _ => true,
    }
}

/// Dispatching an ignored event leaves the state exactly as it was.
pub proof fn lemma_ignored_event_is_noop(s: AppState, e: InputEvent)
    requires
        is_ignored_event(e),
    ensures
        step_input(s, e) == s,
{
}

/// Pressing the character `a` sets the text to exactly `"a"`, overwriting
/// any prior text, and leaves `running` as it was.
pub proof fn lemma_char_a_sets_text(s: AppState, k: KeyEvent)
    requires
        k.kind is Press,
        k.code == KeyCode::Char('a'),
    ensures
        step_input(s, InputEvent::Key(k)).text == seq!['a'],
        step_input(s, InputEvent::Key(k)).running == s.running,
{
}

/// A value delivered from the queue sets the text to exactly its decimal
/// representation, and leaves `running` as it was.
pub proof fn lemma_tick_sets_decimal_text(s: AppState, x: i32)
    ensures
        step_time(s, Some(x)).text == dec_string(x as int),
        step_time(s, Some(x)).running == s.running,
{
}

} // verus!
