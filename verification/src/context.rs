//! What a plugin may reach of the application: the log, the commands it
//! exports and the popup it may open.

use vstd::prelude::*;
use vstd::string::*;

verus! {

/// How urgent a log entry is.
#[derive(Clone, Copy, Debug, PartialEq, Eq, Structural)]
pub enum NotificationLevel {
    Debug,
    Info,
    Warning,
    Error,
}

impl NotificationLevel {
    /// The level that a plugin names by `code`: 0 for debug, 1 for info, 2
    /// for warning, anything else for error.
    pub open spec fn of_code(code: u8) -> NotificationLevel {
        if code == 0 {
            NotificationLevel::Debug
        } else if code == 1 {
            NotificationLevel::Info
        } else if code == 2 {
            NotificationLevel::Warning
        } else {
            NotificationLevel::Error
        }
    }

    /// The level that a plugin names by `code`.
    pub fn from_code(code: u8) -> (level: NotificationLevel)
        ensures
            level == NotificationLevel::of_code(code),
    {
        match code {
            0 => NotificationLevel::Debug,
            1 => NotificationLevel::Info,
            2 => NotificationLevel::Warning,
            _ => NotificationLevel::Error,
        }
    }
}

/// One entry of the log.
#[derive(Clone, Debug, PartialEq, Eq)]
pub struct Notification {
    pub level: NotificationLevel,
    pub message: String,
}

/// The log, oldest entry first.
#[derive(Clone, Debug, PartialEq, Eq)]
pub struct Logger {
    pub entries: Vec<Notification>,
}

impl Logger {
    /// The entries as levels and texts.
    pub open spec fn view(self) -> Seq<(NotificationLevel, Seq<char>)> {
        self.entries@.map_values(|n: Notification| (n.level, n.message@))
    }

    /// An empty log.
    pub fn new() -> (logger: Logger)
        ensures
            logger.view() == Seq::<(NotificationLevel, Seq<char>)>::empty(),
    {
        let logger = Logger { entries: Vec::new() };
        assert(logger.view() =~= Seq::<(NotificationLevel, Seq<char>)>::empty());
        logger
    }

    /// Appends an entry.
    pub fn log(&mut self, level: NotificationLevel, message: &str)
        ensures
            final(self).view() == old(self).view().push((level, message@)),
    {
        let entry = Notification { level, message: String::from_str(message) };
        self.entries.push(entry);
        assert(self.view() =~= old(self).view().push((level, message@)));
    }

    /// Number of entries.
    pub fn len(&self) -> (n: usize)
        ensures
            n == self.view().len(),
    {
        self.entries.len()
    }
}

/// A command that a plugin offers, with the text that describes it.
#[derive(Clone, Debug, PartialEq, Eq)]
pub struct ExportedCommand {
    pub command: String,
    pub description: String,
}

/// The commands that plugins offer, in the order in which they were first
/// added; no name occurs twice.
#[derive(Clone, Debug, PartialEq, Eq)]
pub struct ExportedCommands {
    pub commands: Vec<ExportedCommand>,
}

/// Position of the command called `name`, if there is one.
pub open spec fn position_of(names: Seq<Seq<char>>, name: Seq<char>) -> Option<int> {
    if names.contains(name) {
        Some(names.index_of(name))
    } else {
        None
    }
}

impl ExportedCommands {
    /// The commands as names and descriptions.
    pub open spec fn view(self) -> Seq<(Seq<char>, Seq<char>)> {
        self.commands@.map_values(|c: ExportedCommand| (c.command@, c.description@))
    }

    /// The names of the commands, in order.
    pub open spec fn names(self) -> Seq<Seq<char>> {
        self.commands@.map_values(|c: ExportedCommand| c.command@)
    }

    /// No name occurs twice.
    pub open spec fn wf(self) -> bool {
        self.names().no_duplicates()
    }

    /// No commands.
    pub fn new() -> (commands: ExportedCommands)
        ensures
            commands.wf(),
            commands.view() == Seq::<(Seq<char>, Seq<char>)>::empty(),
    {
        let commands = ExportedCommands { commands: Vec::new() };
        assert(commands.view() =~= Seq::<(Seq<char>, Seq<char>)>::empty());
        commands
    }

    /// The position of the command called `name`.
    pub fn find(&self, name: &String) -> (at: Option<usize>)
        ensures
            match at {
                Some(i) => i < self.names().len() && self.names()[i as int] == name@,
                None => !self.names().contains(name@),
            },
    {
        let mut i: usize = 0;
        while i < self.commands.len()
            invariant
                0 <= i <= self.commands@.len(),
                forall|j: int| 0 <= j < i ==> self.names()[j] != name@,
            decreases self.commands@.len() - i,
        {
            if self.commands[i].command == *name {
                return Some(i);
            }
            i = i + 1;
        }
        None
    }

    /// Adds the command `command`, or gives it a new description where it
    /// is there already.
    pub fn add_command(&mut self, command: String, description: String)
        requires
            old(self).wf(),
        ensures
            final(self).wf(),
            !old(self).names().contains(command@) ==> final(self).view() == old(self).view().push(
                (command@, description@),
            ),
            old(self).names().contains(command@) ==> final(self).view() == old(self).view().update(
                old(self).names().index_of(command@),
                (command@, description@),
            ),
    {
        match self.find(&command) {
            Some(i) => {
                proof {
                    let names = old(self).names();
                    let at = names.index_of(command@);
                    assert(names.contains(command@));
                    assert(names[at] == command@);
                    assert(at == i);
                }
                self.commands.set(i, ExportedCommand { command, description });
                proof {
                    assert(self.view() =~= old(self).view().update(i as int, (command@, description@)));
                    assert(self.names() =~= old(self).names());
                }
            },
            None => {
                self.commands.push(ExportedCommand { command, description });
                proof {
                    assert(self.view() =~= old(self).view().push((command@, description@)));
                    assert(self.names() =~= old(self).names().push(command@));
                }
            },
        }
    }

    /// Takes the command called `command` away and tells whether it was
    /// there.
    pub fn remove_command(&mut self, command: &String) -> (removed: bool)
        requires
            old(self).wf(),
        ensures
            final(self).wf(),
            removed == old(self).names().contains(command@),
            removed ==> final(self).view() == old(self).view().remove(old(self).names().index_of(command@)),
            !removed ==> final(self).view() == old(self).view(),
    {
        match self.find(command) {
            Some(i) => {
                proof {
                    let names = old(self).names();
                    let at = names.index_of(command@);
                    assert(names.contains(command@));
                    assert(names[at] == command@);
                    assert(at == i);
                }
                self.commands.remove(i);
                proof {
                    assert(self.view() =~= old(self).view().remove(i as int));
                    assert(self.names() =~= old(self).names().remove(i as int));
                }
                true
            },
            None => false,
        }
    }

    /// Number of commands.
    pub fn len(&self) -> (n: usize)
        ensures
            n == self.view().len(),
    {
        self.commands.len()
    }
}

/// Why a request of a plugin was turned down.
#[derive(Clone, Debug, PartialEq, Eq)]
pub enum ContextError {
    /// The command names a function that the plugin does not define.
    CommandFunctionMissing(String),
    /// No command of that name is exported.
    CommandNotFound(String),
    /// A popup is open already.
    PopupAlreadyOpen,
    /// The popup names a function that the plugin does not define.
    PopupFunctionMissing(String),
}

impl ContextError {
    /// The text of the error.
    pub open spec fn text(self) -> Seq<char> {
        match self {
            ContextError::CommandFunctionMissing(name) => "Function '"@ + name@
                + "' not found but needed to export the command"@,
            ContextError::CommandNotFound(name) => "Command '"@ + name@ + "' not found"@,
            ContextError::PopupAlreadyOpen => "Popup already open"@,
            ContextError::PopupFunctionMissing(name) => "Function '"@ + name@
                + "' not found but needed to open the popup"@,
        }
    }

    /// The text of the error.
    pub fn message(&self) -> (m: String)
        ensures
            m@ == self.text(),
    {
        match self {
            ContextError::CommandFunctionMissing(name) => {
                let mut m = String::from_str("Function '");
                m.append(name.as_str());
                m.append("' not found but needed to export the command");
                m
            },
            ContextError::CommandNotFound(name) => {
                let mut m = String::from_str("Command '");
                m.append(name.as_str());
                m.append("' not found");
                m
            },
            ContextError::PopupAlreadyOpen => String::from_str("Popup already open"),
            ContextError::PopupFunctionMissing(name) => {
                let mut m = String::from_str("Function '");
                m.append(name.as_str());
                m.append("' not found but needed to open the popup");
                m
            },
        }
    }
}

/// The part of the application that plugins act on.
#[derive(Clone, Debug)]
pub struct AppContext {
    pub logger: Logger,
    pub exported_commands: ExportedCommands,
    /// The plugin that is running, if one is.
    pub plugin_index: Option<usize>,
    /// The open popup: the plugin that owns it and the function that
    /// fills it.
    pub popup: Option<(usize, String)>,
}

impl AppContext {
    /// No command name occurs twice.
    pub open spec fn wf(self) -> bool {
        self.exported_commands.wf()
    }

    /// The open popup as plugin and function name.
    pub open spec fn popup_view(self) -> Option<(usize, Seq<char>)> {
        match self.popup {
            Some((plugin, callback)) => Some((plugin, callback@)),
            None => None,
        }
    }

    /// A context with an empty log, no commands, no running plugin and no
    /// popup.
    pub fn new() -> (context: Self)
        ensures
            context.wf(),
            context.logger.view().len() == 0,
            context.exported_commands.view().len() == 0,
            context.plugin_index is None,
            context.popup is None,
    {
        AppContext { logger: Logger::new(), exported_commands: ExportedCommands::new(), plugin_index: None, popup: None }
    }

    /// Appends `message` to the log at the level that `level` names.
    pub fn log(&mut self, level: u8, message: &str)
        ensures
            final(self).logger.view() == old(self).logger.view().push((NotificationLevel::of_code(level), message@)),
            final(self).exported_commands == old(self).exported_commands,
            final(self).plugin_index == old(self).plugin_index,
            final(self).popup == old(self).popup,
    {
        self.logger.log(NotificationLevel::from_code(level), message);
    }

    /// Exports `command` where the plugin defines a function of that name,
    /// which `function_found` tells; turns the request down otherwise and
    /// changes nothing.
    pub fn add_command(&mut self, command: String, description: String, function_found: bool) -> (r: Result<
        (),
        ContextError,
    >)
        requires
            old(self).wf(),
        ensures
            final(self).wf(),
            final(self).logger == old(self).logger,
            final(self).plugin_index == old(self).plugin_index,
            final(self).popup == old(self).popup,
            function_found ==> r is Ok,
            function_found && !old(self).exported_commands.names().contains(command@)
                ==> final(self).exported_commands.view() == old(self).exported_commands.view().push(
                (command@, description@),
            ),
            function_found && old(self).exported_commands.names().contains(command@)
                ==> final(self).exported_commands.view() == old(self).exported_commands.view().update(
                old(self).exported_commands.names().index_of(command@),
                (command@, description@),
            ),
            !function_found ==> r == Err::<(), ContextError>(ContextError::CommandFunctionMissing(command))
                && final(self).exported_commands == old(self).exported_commands,
    {
        if function_found {
            self.exported_commands.add_command(command, description);
            Ok(())
        } else {
            Err(ContextError::CommandFunctionMissing(command))
        }
    }

    /// Withdraws `command`; turns the request down where no command of
    /// that name is exported.
    pub fn remove_command(&mut self, command: String) -> (r: Result<(), ContextError>)
        requires
            old(self).wf(),
        ensures
            final(self).wf(),
            final(self).logger == old(self).logger,
            final(self).plugin_index == old(self).plugin_index,
            final(self).popup == old(self).popup,
            old(self).exported_commands.names().contains(command@) ==> r is Ok
                && final(self).exported_commands.view() == old(self).exported_commands.view().remove(
                old(self).exported_commands.names().index_of(command@),
            ),
            !old(self).exported_commands.names().contains(command@) ==> r == Err::<(), ContextError>(
                ContextError::CommandNotFound(command),
            ) && final(self).exported_commands.view() == old(self).exported_commands.view(),
    {
        if self.exported_commands.remove_command(&command) {
            Ok(())
        } else {
            Err(ContextError::CommandNotFound(command))
        }
    }

    /// Opens a popup that the function `callback` of the running plugin
    /// fills. The request is turned down where a popup is open already,
    /// and else where the plugin defines no such function, which
    /// `function_found` tells.
    pub fn open_popup(&mut self, callback: String, function_found: bool) -> (r: Result<(), ContextError>)
        requires
            old(self).popup is None && function_found ==> old(self).plugin_index is Some,
        ensures
            final(self).logger == old(self).logger,
            final(self).exported_commands == old(self).exported_commands,
            final(self).plugin_index == old(self).plugin_index,
            old(self).popup is Some ==> r == Err::<(), ContextError>(ContextError::PopupAlreadyOpen) && final(self).popup
                == old(self).popup,
            old(self).popup is None && !function_found ==> r == Err::<(), ContextError>(
                ContextError::PopupFunctionMissing(callback),
            ) && final(self).popup is None,
            old(self).popup is None && function_found ==> r is Ok && final(self).popup == Some(
                (old(self).plugin_index->0, callback),
            ),
    {
        if self.popup.is_some() {
            Err(ContextError::PopupAlreadyOpen)
        } else if !function_found {
            Err(ContextError::PopupFunctionMissing(callback))
        } else {
            let plugin = self.plugin_index.unwrap();
            self.popup = Some((plugin, callback));
            Ok(())
        }
    }
}

impl Default for AppContext {
    fn default() -> (context: Self)
        ensures
            context.wf(),
            context.logger.view().len() == 0,
            context.exported_commands.view().len() == 0,
            context.plugin_index is None,
            context.popup is None,
    {
        AppContext::new()
    }
}

} // verus!
