//! Window configuration, runtime commands, and exit policy.

use vstd::prelude::*;
use vstd::string::StringExecFns;

verus! {

/// How the window's header bar is presented.
#[derive(Clone, Copy, Debug, PartialEq, Eq, Hash, Structural)]
pub enum AdwaitaHeaderBar {
    /// A full header bar above the content.
    Full,
    /// A header bar drawn over the content.
    OverContent,
    /// No header bar at all.
    Hidden,
}

impl core::default::Default for AdwaitaHeaderBar {
    /// The default presentation: a full header bar.
    fn default() -> (bar: Self)
        ensures
            bar == AdwaitaHeaderBar::Full,
    {
        AdwaitaHeaderBar::Full
    }
}

/// Initial settings of one bridged window.
#[derive(Clone, Debug)]
pub struct AdwaitaWindowConfig {
    pub width: u32,
    pub height: u32,
    pub title: String,
    pub resizable: bool,
    pub maximized: bool,
    pub fullscreen: bool,
    pub header_bar: AdwaitaHeaderBar,
}

impl core::default::Default for AdwaitaWindowConfig {
    /// A 1280 by 720, resizable, windowed "App" window with a full header bar.
    fn default() -> (config: Self)
        ensures
            config.width == 1280,
            config.height == 720,
            config.title@ == "App"@,
            config.resizable,
            !config.maximized,
            !config.fullscreen,
            config.header_bar == AdwaitaHeaderBar::Full,
    {
        AdwaitaWindowConfig {
            width: 1280,
            height: 720,
            title: String::from_str("App"),
            resizable: true,
            maximized: false,
            fullscreen: false,
            header_bar: AdwaitaHeaderBar::Full,
        }
    }
}

/// When the whole application should quit.
#[derive(Clone, Copy, Debug, PartialEq, Eq, Structural)]
pub enum ExitCondition {
    /// Quit once the primary window has closed.
    OnPrimaryClosed,
    /// Quit once no window is left open.
    OnAllClosed,
    /// Never quit on window lifecycle alone.
    DontExit,
}

/// Top-level settings of the window bridge.
#[derive(Clone, Debug)]
pub struct AdwaitaWindowPlugin {
    /// Settings for a primary window opened up front, if any.
    pub primary_window_config: Option<AdwaitaWindowConfig>,
    /// When window lifecycle quits the application.
    pub exit_condition: ExitCondition,
}

impl core::default::Default for AdwaitaWindowPlugin {
    /// A primary window with default settings; quit once all windows closed.
    fn default() -> (plugin: Self)
        ensures
            plugin.primary_window_config matches Some(config) && config.width == 1280
                && config.height == 720 && config.title@ == "App"@,
            plugin.exit_condition == ExitCondition::OnAllClosed,
    {
        AdwaitaWindowPlugin {
            primary_window_config: Some(core::default::Default::default()),
            exit_condition: ExitCondition::OnAllClosed,
        }
    }
}

/// Marks the window whose closing can quit the application.
#[derive(Clone, Copy, Debug, PartialEq, Eq, Hash, Structural)]
pub struct PrimaryAdwaitaWindow;

/// Whether the application should quit, given the exit policy and which
/// windows are still open.
pub open spec fn exit_decision(
    condition: ExitCondition,
    primary_open: bool,
    any_open: bool,
) -> bool {
    match condition {
        ExitCondition::OnPrimaryClosed => !primary_open,
        ExitCondition::OnAllClosed => !any_open,
        ExitCondition::DontExit => false,
    }
}

/// Decides whether the application quits this tick.
pub fn should_exit(condition: ExitCondition, primary_open: bool, any_open: bool) -> (quit: bool)
    ensures
        quit == exit_decision(condition, primary_open, any_open),
{
    match condition {
        ExitCondition::OnPrimaryClosed => !primary_open,
        ExitCondition::OnAllClosed => !any_open,
        ExitCondition::DontExit => false,
    }
}

/// A runtime command toward the UI thread. Commands are best-effort UI
/// hints: delivery is fire-and-forget.
#[derive(Clone, Debug, PartialEq)]
pub enum WindowCommand {
    SetMaximized(bool),
    SetFullscreen(bool),
    SetTitle(String),
}

/// Capacity of the bounded command channel toward the UI thread.
pub const COMMAND_CHANNEL_CAPACITY: usize = 16;

/// The waiting commands after a fire-and-forget send: appended while the
/// channel has room, dropped otherwise.
pub open spec fn after_command_send(
    waiting: Seq<WindowCommand>,
    command: WindowCommand,
) -> Seq<WindowCommand> {
    if waiting.len() < COMMAND_CHANNEL_CAPACITY {
        waiting.push(command)
    } else {
        waiting
    }
}

/// The render-thread end of the bounded command channel: commands wait here
/// in order until the UI thread drains them. A send never blocks; when the
/// channel is full the command is dropped, since commands are non-critical
/// hints.
pub struct CommandQueue {
    items: Vec<WindowCommand>,
}

impl CommandQueue {
    /// The commands waiting to be drained, oldest first.
    pub closed spec fn waiting(&self) -> Seq<WindowCommand> {
        self.items@
    }

    /// An empty channel.
    pub fn new() -> (queue: CommandQueue)
        ensures
            queue.waiting() == Seq::<WindowCommand>::empty(),
    {
        CommandQueue { items: Vec::new() }
    }

    /// Enqueues a command without blocking: accepted while fewer than
    /// `COMMAND_CHANNEL_CAPACITY` commands wait, dropped otherwise.
    pub fn send(&mut self, command: WindowCommand) -> (accepted: bool)
        ensures
            accepted == (old(self).waiting().len() < COMMAND_CHANNEL_CAPACITY),
            accepted ==> final(self).waiting() == old(self).waiting().push(command),
            !accepted ==> final(self).waiting() == old(self).waiting(),
    {
        if self.items.len() < COMMAND_CHANNEL_CAPACITY {
            self.items.push(command);
            true
        } else {
            false
        }
    }

    /// Removes and returns the oldest waiting command, if any.
    pub fn next_command(&mut self) -> (command: Option<WindowCommand>)
        ensures
            old(self).waiting().len() == 0 ==> command == Option::<WindowCommand>::None
                && final(self).waiting() == old(self).waiting(),
            old(self).waiting().len() > 0 ==> command == Some(old(self).waiting()[0])
                && final(self).waiting() == old(self).waiting().drop_first(),
    {
        if self.items.len() == 0 {
            None
        } else {
            let command = self.items.remove(0);
            Some(command)
        }
    }
}

} // verus!
