//! Keyboard keys and the events of the interface loop.

use vstd::prelude::*;

verus! {

/// A key pressed on the keyboard.
#[derive(Clone, Copy, Debug, PartialEq, Eq, Structural)]
pub enum Key {
    Enter,
    Tab,
    Backspace,
    Esc,
    Left,
    Right,
    Up,
    Down,
    Ins,
    Delete,
    Home,
    End,
    PageUp,
    PageDown,
    Char(char),
    Ctrl(char),
    Alt(char),
    Unknown,
}

/// An event of the interface loop: a key press or a clock tick.
#[derive(Debug)]
pub enum Event<I> {
    Input(I),
    Tick,
}

/// Configuration of the event source: the key that quits, and the period of
/// the clock ticks in milliseconds.
#[derive(Debug, Clone, Copy)]
pub struct EventConfig {
    pub exit_key: Key,
    pub tick_rate: u64,
}

impl Default for EventConfig {
    fn default() -> (c: EventConfig)
        ensures
            c.exit_key == Key::Ctrl('c'),
            c.tick_rate == 250,
    {
        EventConfig { exit_key: Key::Ctrl('c'), tick_rate: 250 }
    }
}

impl EventConfig {
    /// The default configuration with another tick period.
    pub fn with_tick_rate(tick_rate: u64) -> (c: EventConfig)
        ensures
            c.exit_key == Key::Ctrl('c'),
            c.tick_rate == tick_rate,
    {
        EventConfig { tick_rate, ..EventConfig::default() }
    }
}

/// The event source of the interface: key presses, and a clock tick every
/// `config.tick_rate` milliseconds. This is what it is set up with; the
/// program starts the threads that read the keyboard and the clock from it.
#[derive(Debug, Clone, Copy)]
pub struct Events {
    pub config: EventConfig,
}

impl Events {
    /// An event source with the default configuration and a tick every
    /// `tick_rate` milliseconds.
    pub fn new(tick_rate: u64) -> (e: Events)
        ensures
            e.config.exit_key == Key::Ctrl('c'),
            e.config.tick_rate == tick_rate,
    {
        Events::with_config(EventConfig::with_tick_rate(tick_rate))
    }

    /// An event source with the given configuration.
    pub fn with_config(config: EventConfig) -> (e: Events)
        ensures
            e.config == config,
    {
        Events { config }
    }
}

} // verus!
