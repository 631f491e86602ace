//! The component contract, command values and input events.
//!
//! Components never perform effects: `update` hands back a [`Cmd`] that the
//! run loop outside this library carries out, and whose outcome re-enters
//! the component as an ordinary message.
use vstd::prelude::*;

verus! {

/// A background job that the run loop performs away from the rendering
/// thread. `job` names the work; the outcome comes back as `on_ok` or
/// `on_err`, through the normal update path.
#[derive(Debug, Clone)]
pub struct AsyncJob<M> {
    pub job: u64,
    pub on_ok: M,
    pub on_err: M,
}

/// An inert description of a side effect that a component asks for.
#[derive(Debug)]
pub enum Cmd<M> {
    /// Stop the run loop after the current render.
    Quit,
    /// Run a background job and deliver its outcome as a message.
    RunAsync(AsyncJob<M>),
    /// Several commands, scheduled in order.
    Batch(Vec<Cmd<M>>),
}

impl<M> Cmd<M> {
    /// The command that ends the program.
    pub fn quit() -> (r: Cmd<M>)
        ensures
            r is Quit,
    {
        Cmd::Quit
    }
}

/// Composes two optional commands: nothing with one command gives that
/// command, two commands give a batch that runs the first, then the second.
pub fn batch<M>(a: Option<Cmd<M>>, b: Option<Cmd<M>>) -> (r: Option<Cmd<M>>)
    ensures
        a is None ==> r == b,
        a is Some && b is None ==> r == a,
        a is Some && b is Some ==> (r matches Some(Cmd::Batch(v)) && v@ == seq![a->0, b->0]),
{
    match (a, b) {
        (None, b) => b,
        (Some(a), None) => Some(a),
        (Some(a), Some(b)) => {
            let mut v: Vec<Cmd<M>> = Vec::new();
            v.push(a);
            v.push(b);
            Some(Cmd::Batch(v))
        },
    }
}

/// A key of the keyboard.
#[derive(Debug, Clone, Copy, PartialEq, Eq, Structural)]
pub enum KeyCode {
    Char(char),
    Up,
    Down,
    Left,
    Right,
    PageUp,
    PageDown,
    Home,
    End,
    Enter,
    Tab,
    Backspace,
    Esc,
}

/// Modifier keys held during a key press.
#[derive(Debug, Clone, Copy, PartialEq, Eq, Structural)]
pub struct KeyModifiers {
    pub shift: bool,
    pub ctrl: bool,
    pub alt: bool,
}

/// A key press.
#[derive(Debug, Clone, Copy, PartialEq, Eq, Structural)]
pub struct KeyEvent {
    pub code: KeyCode,
    pub modifiers: KeyModifiers,
}

impl KeyEvent {
    /// A key press without modifiers.
    pub fn plain(code: KeyCode) -> (r: KeyEvent)
        ensures
            r.code == code,
            !r.modifiers.shift && !r.modifiers.ctrl && !r.modifiers.alt,
    {
        KeyEvent { code, modifiers: KeyModifiers { shift: false, ctrl: false, alt: false } }
    }
}

/// A raw input event, as decoded by the terminal driver.
#[derive(Debug, Clone)]
pub enum Event {
    /// A key press.
    Key(KeyEvent),
    /// The terminal now has this many columns and rows.
    Resize { width: u16, height: u16 },
    /// Text pasted in one piece.
    Paste(String),
    /// Any event that no component needs to understand.
    Other,
}

/// The shape shared by every widget: a message type, a startup command, an
/// update step that folds one message into the state, a pure rendering and
/// a pure translation of raw input into messages.
pub trait Model {
    type Message;

    /// Called once before the first render.
    fn init(&self) -> Option<Cmd<Self::Message>>;

    /// Folds one message into the state; the only mutator.
    fn update(&mut self, msg: Self::Message) -> Option<Cmd<Self::Message>>;

    /// The text of the current state.
    fn view(&self) -> String;

    /// Translates a raw event into a message, or nothing.
    fn handle_event(&self, event: Event) -> Option<Self::Message>;
}

} // verus!
