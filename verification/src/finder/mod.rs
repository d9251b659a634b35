//! Contains the [`Finder`] struct which helps find editors.
use crate::environment::{Environment, Platform, VarError};
use crate::error::Error;
use crate::locate::{find_on_path, is_location_of, located};
use crate::laws::law_lookup_function_decides;
use crate::lookup::{
    first_given, first_set, lemma_first_given_after_none, lemma_first_given_among_more,
    lemma_none_given_of_both, may_give, may_skip, none_given,
};
use crate::native::NativeString;
use crate::words::{command_and_args, is_split_of, names_command, split};
use std::path::PathBuf;
use vstd::prelude::*;
use vstd::string::StringExecFns;
use vstd::utf8::encode_utf8;

mod open;

pub use open::{is_launch_of, launch_args, launch_of, Launch, Next};

verus! {

/// The key `VISUAL`, in the native encoding.
pub open spec fn visual_key() -> Seq<u8> {
    encode_utf8("VISUAL"@)
}

/// The key `EDITOR`, in the native encoding.
pub open spec fn editor_key() -> Seq<u8> {
    encode_utf8("EDITOR"@)
}

/// The keys that every finder looks up, after its own.
pub open spec fn standard_keys() -> Seq<Seq<u8>> {
    seq![visual_key(), editor_key()]
}

/// The editor that is used where no key gives one.
pub open spec fn common_editor_text(platform: Platform) -> Seq<char> {
    match platform {
        Platform::Windows => "notepad.exe"@,
        Platform::Other => "vi"@,
    }
}

/// The editor's name as Unicode text, for a finder with the extra keys
/// `extras` in the environment `env`: the text of the first variable that
/// can be read as Unicode, the extra keys asked before the standard ones,
/// and the common editor of the platform where none can.
pub open spec fn editor_of(extras: Seq<Seq<u8>>, env: Environment) -> Seq<char> {
    match first_set(extras + standard_keys(), env.unicode()) {
        Some(text) => text,
        None => common_editor_text(env.platform()),
    }
}

/// The editor's name in the native encoding, for a finder with the extra
/// keys `extras` in the environment `env`: the value of the first variable
/// that is set, the extra keys asked before the standard ones, and the
/// common editor of the platform where none is.
pub open spec fn native_editor_of(extras: Seq<Seq<u8>>, env: Environment) -> Seq<u8> {
    match first_set(extras + standard_keys(), env@) {
        Some(value) => value,
        None => encode_utf8(common_editor_text(env.platform())),
    }
}

/// Helper to find and open an editor.
///
/// Can take extra environment variable keys to define environment variables specific
/// to your tool that should be looked up first.
///
/// Its view is the sequence of those extra keys.
#[derive(Debug)]
pub struct Finder {
    /// Extra environment variables to search for.
    extra_env_vars: Vec<NativeString>,
}

impl View for Finder {
    type V = Seq<Seq<u8>>;

    closed spec fn view(&self) -> Seq<Seq<u8>> {
        self.extra_env_vars.deep_view()
    }
}

impl Default for Finder {
    fn default() -> (finder: Self)
        ensures
            finder@ == Seq::<Seq<u8>>::empty(),
    {
        Finder::new()
    }
}

impl Finder {
    /// Creates a new [`Finder`].
    pub fn new() -> (finder: Self)
        ensures
            finder@ == Seq::<Seq<u8>>::empty(),
    {
        let finder = Finder { extra_env_vars: Vec::new() };
        assert(finder@ =~= Seq::<Seq<u8>>::empty());
        finder
    }

    /// Creates a new [`Finder`] with a set of extra environment variables to look up.
    ///
    /// This can be useful if you're writing an executable and you would also like
    /// to use environment variables like `$MY_TOOL_EDITOR`. The extra environment
    /// variables always take priority over the defaults.
    pub fn with_extra_environment_variables(extras: Vec<NativeString>) -> (finder: Self)
        ensures
            finder@ == extras.deep_view(),
    {
        Finder { extra_env_vars: extras }
    }

    /// The keys that are looked up, in the order in which they are asked
    /// for: the extra keys, then the standard ones.
    pub fn keys(&self) -> (keys: Vec<NativeString>)
        ensures
            keys.deep_view() == self@ + standard_keys(),
    {
        let mut keys: Vec<NativeString> = Vec::new();
        let mut i: usize = 0;
        while i < self.extra_env_vars.len()
            invariant
                i <= self.extra_env_vars.len(),
                keys.len() == i,
                forall|j: int| 0 <= j < i ==> keys[j]@ == self.extra_env_vars[j]@,
            decreases self.extra_env_vars.len() - i,
        {
            keys.push(self.extra_env_vars[i].clone());
            i += 1;
        }
        keys.push(NativeString::from_str("VISUAL"));
        keys.push(NativeString::from_str("EDITOR"));
        assert(keys.deep_view() =~= self@ + standard_keys());
        keys
    }

    /// The editor that is used where no key gives one: `notepad.exe` on
    /// Windows and `vi` on every other platform.
    pub fn common_editor(platform: Platform) -> (editor: &'static str)
        ensures
            editor@ == common_editor_text(platform),
    {
        match platform {
            Platform::Windows => "notepad.exe",
            Platform::Other => "vi",
        }
    }

    /// Gets the name of an editor as a [`String`].
    ///
    /// Sometimes an editor can be multiple words (e.g. `code --wait`). Consider using
    /// [`Finder::split_editor_name`] to handle this case. Also consider using
    /// [`Finder::which_editor`] to assert that the editor exists in `$PATH`.
    pub fn editor_name(&self, env: &Environment) -> (editor: String)
        ensures
            editor@ == editor_of(self@, *env),
    {
        let f = |key: &NativeString| -> (value: Result<String, VarError>)
            ensures
                match value {
                    Ok(text) => env.unicode().contains_key(key@) && text@ == env.unicode()[key@],
                    Err(_) => !env.unicode().contains_key(key@),
                },
            { env.var(key) };
        let editor = self.editor_name_inner(f, Self::common_editor(env.platform()));
        proof {
            law_lookup_function_decides(
                f,
                self@ + standard_keys(),
                env.unicode(),
                common_editor_text(env.platform()),
                editor,
            );
        }
        editor
    }

    /// Finds the editor [`String`] from any extra environment variable keys that were
    /// configured.
    pub fn find_extra_editor_name<Env, E>(&self, f: Env) -> (found: Option<String>) where
        Env: Fn(&NativeString) -> Result<String, E>,

        requires
            forall|k: &NativeString| call_requires(f, (k,)),
        ensures
            match found {
                Some(editor) => first_given(f, self@, editor),
                None => none_given(f, self@),
            },
    {
        let mut i: usize = 0;
        while i < self.extra_env_vars.len()
            invariant
                i <= self.extra_env_vars.len(),
                self@.len() == self.extra_env_vars.len(),
                forall|k: &NativeString| call_requires(f, (k,)),
                none_given(f, self@.take(i as int)),
            decreases self.extra_env_vars.len() - i,
        {
            // NOTE We'll just skip if we can't read.
            match f(&self.extra_env_vars[i]) {
                Ok(editor) => {
                    assert(may_give(f, self@[i as int], editor));
                    return Some(editor);
                },
                Err(_) => {
                    assert(may_skip(f, self@[i as int]));
                },
            }
            i += 1;
        }
        assert(self@.take(i as int) =~= self@);
        None
    }

    /// Finds the editor [`String`]
    pub fn find_editor_name<Env, E>(f: Env) -> (found: Option<String>) where
        Env: Fn(&NativeString) -> Result<String, E>,

        requires
            forall|k: &NativeString| call_requires(f, (k,)),
        ensures
            match found {
                Some(editor) => first_given(f, standard_keys(), editor),
                None => none_given(f, standard_keys()),
            },
    {
        match f(&NativeString::from_str("VISUAL")) {
            Ok(editor) => {
                assert(may_give(f, standard_keys()[0], editor));
                Some(editor)
            },
            Err(_) => {
                assert(may_skip(f, standard_keys()[0]));
                match f(&NativeString::from_str("EDITOR")) {
                    Ok(editor) => {
                        assert(may_give(f, standard_keys()[1], editor));
                        Some(editor)
                    },
                    Err(_) => {
                        assert(may_skip(f, standard_keys()[1]));
                        None
                    },
                }
            },
        }
    }

    /// Gets the name of an editor as a [`String`].
    pub fn editor_name_inner<Env, E>(&self, f: Env, fallback: &str) -> (editor: String) where
        Env: Copy + Fn(&NativeString) -> Result<String, E>,

        requires
            forall|k: &NativeString| call_requires(f, (k,)),
        ensures
            first_given(f, self@ + standard_keys(), editor) || (none_given(
                f,
                self@ + standard_keys(),
            ) && editor@ == fallback@),
    {
        match self.find_extra_editor_name(f) {
            Some(editor) => {
                proof {
                    lemma_first_given_among_more(f, self@, standard_keys(), editor);
                }
                editor
            },
            None => match Self::find_editor_name(f) {
                Some(editor) => {
                    proof {
                        lemma_first_given_after_none(f, self@, standard_keys(), editor);
                    }
                    editor
                },
                None => {
                    proof {
                        lemma_none_given_of_both(f, self@, standard_keys());
                    }
                    String::from_str(fallback)
                },
            },
        }
    }

    /// Gets the name of an editor as a [`NativeString`].
    ///
    /// This is a lower-level utility in case you expect the editor's name to not be valid
    /// unicode.
    pub fn editor_name_os(&self, env: &Environment) -> (editor: NativeString)
        ensures
            editor@ == native_editor_of(self@, *env),
    {
        let f = |key: &NativeString| -> (value: Option<NativeString>)
            ensures
                match value {
                    Some(v) => env@.contains_key(key@) && v@ == env@[key@],
                    None => !env@.contains_key(key@),
                },
            { env.var_os(key) };
        let editor = self.editor_name_os_inner(f, Self::common_editor(env.platform()));
        proof {
            law_lookup_function_decides(
                f,
                self@ + standard_keys(),
                env@,
                encode_utf8(common_editor_text(env.platform())),
                editor,
            );
        }
        editor
    }

    /// Gets the name of an editor as a [`NativeString`].
    ///
    /// This is a lower-level utility in case you expect the editor's name to not be valid
    /// unicode.
    pub fn editor_name_os_inner<Env>(&self, f: Env, fallback: &str) -> (editor: NativeString) where
        Env: Copy + Fn(&NativeString) -> Option<NativeString>,

        requires
            forall|k: &NativeString| call_requires(f, (k,)),
        ensures
            first_given(f, self@ + standard_keys(), editor) || (none_given(
                f,
                self@ + standard_keys(),
            ) && editor@ == encode_utf8(fallback@)),
    {
        match self.find_extra_editor_name_os(f) {
            Some(editor) => {
                proof {
                    lemma_first_given_among_more(f, self@, standard_keys(), editor);
                }
                editor
            },
            None => match Self::find_editor_name_os(f) {
                Some(editor) => {
                    proof {
                        lemma_first_given_after_none(f, self@, standard_keys(), editor);
                    }
                    editor
                },
                None => {
                    proof {
                        lemma_none_given_of_both(f, self@, standard_keys());
                    }
                    NativeString::from_str(fallback)
                },
            },
        }
    }

    /// Finds the editor [`NativeString`] from any extra environment variable keys that were
    /// configured.
    pub fn find_extra_editor_name_os<Env>(&self, f: Env) -> (found: Option<NativeString>) where
        Env: Fn(&NativeString) -> Option<NativeString>,

        requires
            forall|k: &NativeString| call_requires(f, (k,)),
        ensures
            match found {
                Some(editor) => first_given(f, self@, editor),
                None => none_given(f, self@),
            },
    {
        let mut i: usize = 0;
        while i < self.extra_env_vars.len()
            invariant
                i <= self.extra_env_vars.len(),
                self@.len() == self.extra_env_vars.len(),
                forall|k: &NativeString| call_requires(f, (k,)),
                none_given(f, self@.take(i as int)),
            decreases self.extra_env_vars.len() - i,
        {
            // NOTE We'll just skip if we can't read.
            match f(&self.extra_env_vars[i]) {
                Some(editor) => {
                    assert(may_give(f, self@[i as int], editor));
                    return Some(editor);
                },
                None => {
                    assert(may_skip(f, self@[i as int]));
                },
            }
            i += 1;
        }
        assert(self@.take(i as int) =~= self@);
        None
    }

    /// Finds the editor [`NativeString`].
    pub fn find_editor_name_os<Env>(f: Env) -> (found: Option<NativeString>) where
        Env: Fn(&NativeString) -> Option<NativeString>,

        requires
            forall|k: &NativeString| call_requires(f, (k,)),
        ensures
            match found {
                Some(editor) => first_given(f, standard_keys(), editor),
                None => none_given(f, standard_keys()),
            },
    {
        match f(&NativeString::from_str("VISUAL")) {
            Some(editor) => {
                assert(may_give(f, standard_keys()[0], editor));
                Some(editor)
            },
            None => {
                assert(may_skip(f, standard_keys()[0]));
                match f(&NativeString::from_str("EDITOR")) {
                    Some(editor) => {
                        assert(may_give(f, standard_keys()[1], editor));
                        Some(editor)
                    },
                    None => {
                        assert(may_skip(f, standard_keys()[1]));
                        None
                    },
                }
            },
        }
    }

    /// Whether the editor's name holds a command: splitting it does not
    /// end without a single word.
    pub fn has_command(&self, env: &Environment) -> (named: bool)
        ensures
            named == names_command(editor_of(self@, *env)),
    {
        let editor = self.editor_name(env);
        match split(editor.as_str()) {
            Ok(words) => words.len() > 0,
            Err(_) => true,
        }
    }

    /// Finds the editor with [`Finder::editor_name`], then splits the editor into its
    /// command and any arguments.
    ///
    /// This can be useful when the editor includes arguments, like `code --wait`.
    pub fn split_editor_name(&self, env: &Environment) -> (split: Result<
        (String, Vec<String>),
        Error,
    >)
        requires
            names_command(editor_of(self@, *env)),
        ensures
            is_split_of(editor_of(self@, *env), split),
    {
        let editor = self.editor_name(env);
        match split(editor.as_str()) {
            Ok(words) => {
                let parts = command_and_args(words);
                assert(parts.1.deep_view() =~= words.deep_view().skip(1));
                Ok(parts)
            },
            Err(e) => Err(Error::ShellWords(e)),
        }
    }

    /// Finds the editor's command with [`Finder::split_editor_name`], then finds editor
    /// command's path. Also returns any arguments that should be passed to the command.
    ///
    /// It does *not* search in `cwd`, even on Windows, as it is extremely unlikely that one
    /// would intentionally want to run a binary in the current directory, and can be a
    /// security issue.
    pub fn which_editor(&self, env: &Environment) -> (located: Result<
        (PathBuf, Vec<String>),
        Error,
    >)
        requires
            names_command(editor_of(self@, *env)),
        ensures
            is_location_of(editor_of(self@, *env), located),
    {
        let (editor, args) = self.split_editor_name(env)?;
        located(find_on_path(editor.as_str()), args)
    }

    /// Does what [`Finder::split_editor_name`] does, in any environment:
    /// `None` where the editor's name holds no command.
    pub fn try_split_editor_name(&self, env: &Environment) -> (split: Option<
        Result<(String, Vec<String>), Error>,
    >)
        ensures
            split is Some <==> names_command(editor_of(self@, *env)),
            split matches Some(split) ==> is_split_of(editor_of(self@, *env), split),
    {
        if self.has_command(env) {
            Some(self.split_editor_name(env))
        } else {
            None
        }
    }

    /// Does what [`Finder::which_editor`] does, in any environment: `None`
    /// where the editor's name holds no command.
    pub fn try_which_editor(&self, env: &Environment) -> (located: Option<
        Result<(PathBuf, Vec<String>), Error>,
    >)
        ensures
            located is Some <==> names_command(editor_of(self@, *env)),
            located matches Some(located) ==> is_location_of(editor_of(self@, *env), located),
    {
        if self.has_command(env) {
            Some(self.which_editor(env))
        } else {
            None
        }
    }
}

} // verus!
