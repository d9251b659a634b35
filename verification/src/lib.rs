//! Find and open an editor.
//!
//! If no editor is found, this library will always fall back to `notepad.exe` on
//! Windows and `vi` on every other platform.
//!
//! Use [`Finder`] for more advanced usage.
//!
//! The library reads the process environment from an [`Environment`], a
//! record that its caller fills, and starts no process itself: it says in a
//! [`Launch`] what is to be started.
pub use environment::{Environment, Platform, VarError};
pub use error::Error;
pub use finder::{Finder, Launch, Next};
pub use native::NativeString;
pub use shell_words::ParseError;
use std::path::PathBuf;
use vstd::prelude::*;
pub use which::Error as WhichError;

pub mod environment;
pub mod error;
pub mod finder;
pub mod laws;
pub mod locate;
pub mod lookup;
pub mod native;
pub mod words;

use finder::{editor_of, is_launch_of, native_editor_of};
use locate::is_location_of;
use words::{is_split_of, names_command};

verus! {

/// Gets the name of an editor as a [`String`].
///
/// See [`Finder::editor_name`] for more information.
pub fn editor_name(env: &Environment) -> (editor: String)
    ensures
        editor@ == editor_of(Seq::empty(), *env),
{
    Finder::new().editor_name(env)
}

/// Gets the name of an editor as a [`NativeString`].
///
/// See [`Finder::editor_name_os`] for more information.
pub fn editor_name_os(env: &Environment) -> (editor: NativeString)
    ensures
        editor@ == native_editor_of(Seq::empty(), *env),
{
    Finder::new().editor_name_os(env)
}

/// Splits the editor into its command and any arguments.
///
/// See [`Finder::split_editor_name`] for more information.
pub fn split_editor_name(env: &Environment) -> (split: Result<(String, Vec<String>), Error>)
    requires
        names_command(editor_of(Seq::empty(), *env)),
    ensures
        is_split_of(editor_of(Seq::empty(), *env), split),
{
    Finder::new().split_editor_name(env)
}

/// Gets the editor's command path and any arguments that should be passed to it.
///
/// See [`Finder::which_editor`] for more information.
pub fn which_editor(env: &Environment) -> (located: Result<(PathBuf, Vec<String>), Error>)
    requires
        names_command(editor_of(Seq::empty(), *env)),
    ensures
        is_location_of(editor_of(Seq::empty(), *env), located),
{
    Finder::new().which_editor(env)
}

/// Prepares an editor to edit `file`. Set `wait` to `true` to have the editor
/// waited for until it is closed.
///
/// _When in doubt, you **should** set `wait` to `true`._
///
/// See [`Finder::open_editor`] for more information.
pub fn open_editor(env: &Environment, file: NativeString, wait: bool) -> (launch: Result<
    Launch,
    Error,
>)
    requires
        names_command(editor_of(Seq::empty(), *env)),
    ensures
        is_launch_of(editor_of(Seq::empty(), *env), file@, wait, launch),
{
    Finder::new().open_editor(env, file, wait)
}

/// Does what [`split_editor_name`] does, in any environment: `None` where
/// the editor's name holds no command.
pub fn try_split_editor_name(env: &Environment) -> (split: Option<
    Result<(String, Vec<String>), Error>,
>)
    ensures
        split is Some <==> names_command(editor_of(Seq::empty(), *env)),
        split matches Some(split) ==> is_split_of(editor_of(Seq::empty(), *env), split),
{
    if Finder::new().has_command(env) {
        Some(split_editor_name(env))
    } else {
        None
    }
}

/// Does what [`which_editor`] does, in any environment: `None` where the
/// editor's name holds no command.
pub fn try_which_editor(env: &Environment) -> (located: Option<
    Result<(PathBuf, Vec<String>), Error>,
>)
    ensures
        located is Some <==> names_command(editor_of(Seq::empty(), *env)),
        located matches Some(located) ==> is_location_of(editor_of(Seq::empty(), *env), located),
{
    if Finder::new().has_command(env) {
        Some(which_editor(env))
    } else {
        None
    }
}

/// Does what [`open_editor`] does, in any environment: `None` where the
/// editor's name holds no command.
pub fn try_open_editor(env: &Environment, file: NativeString, wait: bool) -> (launch: Option<
    Result<Launch, Error>,
>)
    ensures
        launch is Some <==> names_command(editor_of(Seq::empty(), *env)),
        launch matches Some(launch) ==> is_launch_of(
            editor_of(Seq::empty(), *env),
            file@,
            wait,
            launch,
        ),
{
    if Finder::new().has_command(env) {
        Some(open_editor(env, file, wait))
    } else {
        None
    }
}

} // verus!
