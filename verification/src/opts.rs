//! What the command line asks for.

use vstd::prelude::*;

use crate::file_path::FilePath;
use crate::ipc::ApiCommand;

verus! {

/// The options of the `mosaic` command.
#[derive(Debug, PartialEq, Eq)]
pub struct Opt {
    /// Send "split (direction h == horizontal / v == vertical)" to active mosaic session
    pub split: Option<char>,
    /// Send "move focused pane" to active mosaic session
    pub move_focus: bool,
    /// Send "open file in new pane" to active mosaic session
    pub open_file: Option<FilePath>,
    /// Maximum panes on screen, caution: opening more panes will close old ones
    pub max_panes: Option<usize>,
    /// Path to a layout yaml file
    pub layout: Option<FilePath>,
    pub debug: bool,
}

impl Default for Opt {
    /// No option given.
    fn default() -> (opts: Opt)
        ensures
            opts == (Opt {
                split: None,
                move_focus: false,
                open_file: None,
                max_panes: None,
                layout: None,
                debug: false,
            }),
    {
        Opt {
            split: None,
            move_focus: false,
            open_file: None,
            max_panes: None,
            layout: None,
            debug: false,
        }
    }
}

/// What one run of the `mosaic` command does.
#[derive(Debug, PartialEq, Eq)]
pub enum Invocation {
    /// Passes a command on to the session that is running.
    Ask(ApiCommand),
    /// Does nothing: the direction to split in is unknown.
    Nothing,
    /// Starts a session.
    Start(Opt),
}

/// What `opts` ask for. Of several commands the split comes first, then moving
/// the focus, then the file to open; without any of them a session starts.
pub open spec fn invocation_of(opts: Opt) -> Invocation {
    match (opts.split, opts.open_file) {
        (Some(direction), _) => if direction == 'h' {
            Invocation::Ask(ApiCommand::SplitHorizontally)
        } else if direction == 'v' {
            Invocation::Ask(ApiCommand::SplitVertically)
        } else {
            Invocation::Nothing
        },
        (None, file) => if opts.move_focus {
            Invocation::Ask(ApiCommand::MoveFocus)
        } else {
            match file {
                Some(path) => Invocation::Ask(ApiCommand::OpenFile(path)),
                None => Invocation::Start(opts),
            }
        },
    }
}

impl Opt {
    /// What these options ask for.
    pub fn invocation(self) -> (invocation: Invocation)
        ensures
            invocation == invocation_of(self),
    {
        if let Some(split_dir) = self.split {
            match split_dir {
                'h' => Invocation::Ask(ApiCommand::SplitHorizontally),
                'v' => Invocation::Ask(ApiCommand::SplitVertically),
                _ => Invocation::Nothing,
            }
        } else if self.move_focus {
            Invocation::Ask(ApiCommand::MoveFocus)
        } else {
            match self {
                Opt { open_file: Some(file_to_open), .. } => {
                    Invocation::Ask(ApiCommand::OpenFile(file_to_open))
                },
                opts => Invocation::Start(opts),
            }
        }
    }
}

} // verus!
