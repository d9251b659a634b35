//! Utilities for opening an editor.
use super::{editor_of, Finder};
use crate::environment::Environment;
use crate::error::Error;
use crate::native::NativeString;
use crate::words::{names_command, words_of};
use std::path::PathBuf;
use vstd::prelude::*;
use vstd::utf8::encode_utf8;

verus! {

/// A process to start: the editor on a file.
#[derive(Debug)]
pub struct Launch {
    /// The executable to run.
    pub program: PathBuf,
    /// The arguments to run it with, in their order.
    pub args: Vec<NativeString>,
    /// Whether to wait until the process has ended.
    pub wait: bool,
}

/// What is left to do once the process was asked for.
#[derive(Clone, Copy, Debug, PartialEq, Eq, Structural)]
pub enum Next {
    /// Wait until the process has ended.
    Wait,
    /// Nothing: the process is left to itself.
    Done,
}

/// The arguments of an editor that is to open `file` with the arguments
/// `args` of its own: those arguments, each in the native encoding, and the
/// file after them.
pub open spec fn launch_args(args: Seq<Seq<char>>, file: Seq<u8>) -> Seq<Seq<u8>> {
    args.map_values(|arg: Seq<char>| encode_utf8(arg)).push(file)
}

/// Whether `launch` may be what opening `file` with the editor named by
/// `line` comes to: a process that gets the arguments of the line and then
/// the file, and that is waited for as `wait` says; the error that the
/// command was not found; or the error that a quote was left open.
pub open spec fn is_launch_of(
    line: Seq<char>,
    file: Seq<u8>,
    wait: bool,
    launch: Result<Launch, Error>,
) -> bool {
    match words_of(line) {
        Some(words) => match launch {
            Ok(launch) => launch.args.deep_view() == launch_args(words.skip(1), file)
                && launch.wait == wait,
            Err(e) => e is Which,
        },
        None => launch matches Err(Error::ShellWords(_)),
    }
}

/// What opening `file` comes to, once the search for the editor's command
/// has ended as `located` says: the process that runs the path found, with
/// the arguments found and then the file, or the error of the search and no
/// process at all.
pub fn launch_of(
    located: Result<(PathBuf, Vec<String>), Error>,
    file: NativeString,
    wait: bool,
) -> (launch: Result<Launch, Error>)
    ensures
        match located {
            Ok((program, args)) => launch matches Ok(l) && l.program == program
                && l.args.deep_view() == launch_args(args.deep_view(), file@) && l.wait == wait,
            Err(e) => launch == Err::<Launch, Error>(e),
        },
{
    match located {
        Ok((program, args)) => Ok(Launch::new(program, &args, file, wait)),
        Err(e) => Err(e),
    }
}

impl Finder {
    /// Prepares an editor to edit `file`. Set `wait` to `true` to have the editor
    /// waited for until it is closed.
    ///
    /// _When in doubt, you **should** set `wait` to `true`._
    ///
    /// The process is not started here: the caller starts what the result
    /// describes, and asks [`Launch::after_spawn`] and
    /// [`Launch::after_wait`] what follows.
    pub fn open_editor(&self, env: &Environment, file: NativeString, wait: bool) -> (launch: Result<
        Launch,
        Error,
    >)
        requires
            names_command(editor_of(self@, *env)),
        ensures
            is_launch_of(editor_of(self@, *env), file@, wait, launch),
    {
        launch_of(self.which_editor(env), file, wait)
    }

    /// Does what [`Finder::open_editor`] does, in any environment: `None`
    /// where the editor's name holds no command.
    pub fn try_open_editor(&self, env: &Environment, file: NativeString, wait: bool) -> (launch:
        Option<Result<Launch, Error>>)
        ensures
            launch is Some <==> names_command(editor_of(self@, *env)),
            launch matches Some(launch) ==> is_launch_of(
                editor_of(self@, *env),
                file@,
                wait,
                launch,
            ),
    {
        if self.has_command(env) {
            Some(self.open_editor(env, file, wait))
        } else {
            None
        }
    }
}

impl Launch {
    /// The process that runs `program` on `file`: it gets the arguments
    /// `args` in their order and then the file, and it is waited for as
    /// `wait` says.
    pub fn new(program: PathBuf, args: &Vec<String>, file: NativeString, wait: bool) -> (launch:
        Self)
        ensures
            launch.program == program,
            launch.args.deep_view() == launch_args(args.deep_view(), file@),
            launch.wait == wait,
    {
        let mut native: Vec<NativeString> = Vec::new();
        let mut i: usize = 0;
        while i < args.len()
            invariant
                i <= args.len(),
                native.len() == i,
                forall|j: int| 0 <= j < i ==> native[j]@ == encode_utf8(args[j]@),
            decreases args.len() - i,
        {
            native.push(NativeString::from_str(args[i].as_str()));
            i += 1;
        }
        native.push(file);
        assert(native.deep_view() =~= launch_args(args.deep_view(), file@));
        Launch { program, args: native, wait }
    }

    /// What follows the attempt to start the process, which ended as
    /// `spawned` says: its error where it failed, else the wait that was
    /// asked for, or nothing.
    pub fn after_spawn(&self, spawned: Result<(), std::io::Error>) -> (next: Result<Next, Error>)
        ensures
            match spawned {
                Ok(_) => next == Ok::<Next, Error>(
                    if self.wait {
                        Next::Wait
                    } else {
                        Next::Done
                    },
                ),
                Err(e) => next == Err::<Next, Error>(Error::Io(e)),
            },
    {
        match spawned {
            Ok(_) => Ok(
                if self.wait {
                    Next::Wait
                } else {
                    Next::Done
                },
            ),
            Err(e) => Err(Error::Io(e)),
        }
    }

    /// What follows the wait for the process, which ended as `waited` says:
    /// its error where it failed, and success otherwise, however the
    /// process itself ended.
    pub fn after_wait(waited: Result<(), std::io::Error>) -> (done: Result<(), Error>)
        ensures
            match waited {
                Ok(_) => done is Ok,
                Err(e) => done == Err::<(), Error>(Error::Io(e)),
            },
    {
        match waited {
            Ok(_) => Ok(()),
            Err(e) => Err(Error::Io(e)),
        }
    }
}

} // verus!
