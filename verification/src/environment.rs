//! A snapshot of the process environment.
//!
//! The library never reads the environment itself. Its caller records what
//! the process was given in an [`Environment`], and every lookup is answered
//! from that record.
use crate::native::NativeString;
use vstd::prelude::*;
use vstd::utf8::{decode_utf8, valid_utf8};

verus! {

/// The family of platforms that the process runs on.
#[derive(Clone, Copy, Debug, PartialEq, Eq, Structural)]
pub enum Platform {
    /// A platform of the Windows family.
    Windows,
    /// Any other platform.
    Other,
}

/// Why a variable could not be read as Unicode text.
#[derive(Debug, PartialEq, Eq)]
pub enum VarError {
    /// The environment holds no variable of that name.
    NotPresent,
    /// The variable is set, to the value given, which is not valid Unicode.
    NotUnicode(NativeString),
}

/// The environment of a process: the platform family and the variables that
/// are set, each with its name and its value in the platform's native
/// encoding. Two names are one name where their bytes are the same.
///
/// Its view maps the name of each variable that is set to the bytes of its
/// value.
#[derive(Debug)]
pub struct Environment {
    platform: Platform,
    vars: Vec<(NativeString, NativeString)>,
}

/// The value that the latest entry for `key` gives it, if there is one.
spec fn latest(entries: Seq<(NativeString, NativeString)>, key: Seq<u8>) -> Option<Seq<u8>>
    decreases entries.len(),
{
    if entries.len() == 0 {
        None
    } else if entries.last().0@ == key {
        Some(entries.last().1@)
    } else {
        latest(entries.drop_last(), key)
    }
}

impl View for Environment {
    type V = Map<Seq<u8>, Seq<u8>>;

    closed spec fn view(&self) -> Map<Seq<u8>, Seq<u8>> {
        Map::new(
            |key: Seq<u8>| latest(self.vars@, key) is Some,
            |key: Seq<u8>| latest(self.vars@, key)->0,
        )
    }
}

impl Environment {
    /// The platform family, for use in contracts.
    pub closed spec fn spec_platform(&self) -> Platform {
        self.platform
    }

    /// The variables that can be read as Unicode text, each with its text:
    /// those whose value is valid Unicode.
    pub open spec fn unicode(&self) -> Map<Seq<u8>, Seq<char>> {
        Map::new(
            |key: Seq<u8>| self@.contains_key(key) && valid_utf8(self@[key]),
            |key: Seq<u8>| decode_utf8(self@[key]),
        )
    }

    /// An environment on `platform` in which no variable is set.
    pub fn new(platform: Platform) -> (env: Self)
        ensures
            env@ == Map::<Seq<u8>, Seq<u8>>::empty(),
            env.spec_platform() == platform,
    {
        let env = Environment { platform, vars: Vec::new() };
        assert(env@ =~= Map::<Seq<u8>, Seq<u8>>::empty());
        env
    }

    /// The platform family.
    #[verifier::when_used_as_spec(spec_platform)]
    pub fn platform(&self) -> (platform: Platform)
        ensures
            platform == self.spec_platform(),
    {
        self.platform
    }

    /// Sets the variable `key` to `value`, in place of any value it had.
    pub fn set(&mut self, key: NativeString, value: NativeString)
        ensures
            final(self)@ == old(self)@.insert(key@, value@),
            final(self).spec_platform() == old(self).spec_platform(),
    {
        self.vars.push((key, value));
        proof {
            let before = old(self).vars@;
            let after = self.vars@;
            assert(after.drop_last() =~= before);
            assert forall|k: Seq<u8>| #[trigger] latest(after, k) == (if k == key@ {
                Some(value@)
            } else {
                latest(before, k)
            }) by {}
            assert(self@ =~= old(self)@.insert(key@, value@));
        }
    }

    /// The value of the variable `key` in the native encoding, or `None`
    /// where the variable is not set.
    pub fn var_os(&self, key: &NativeString) -> (value: Option<NativeString>)
        ensures
            match value {
                Some(v) => self@.contains_key(key@) && v@ == self@[key@],
                None => !self@.contains_key(key@),
            },
    {
        let mut i: usize = self.vars.len();
        assert(self.vars@.take(i as int) =~= self.vars@);
        while i > 0
            invariant
                i <= self.vars.len(),
                latest(self.vars@, key@) == latest(self.vars@.take(i as int), key@),
            decreases i,
        {
            i -= 1;
            assert(self.vars@.take(i + 1).drop_last() =~= self.vars@.take(i as int));
            if self.vars[i].0.same_as(key) {
                return Some(self.vars[i].1.clone());
            }
        }
        None
    }

    /// The value of the variable `key` as Unicode text.
    ///
    /// Fails with [`VarError::NotPresent`] where the variable is not set,
    /// and with [`VarError::NotUnicode`], which holds the value, where it is
    /// set to something that is not valid Unicode.
    pub fn var(&self, key: &NativeString) -> (value: Result<String, VarError>)
        ensures
            match value {
                Ok(text) => self.unicode().contains_key(key@) && text@ == self.unicode()[key@],
                Err(VarError::NotPresent) => !self@.contains_key(key@),
                Err(VarError::NotUnicode(raw)) => self@.contains_key(key@) && !valid_utf8(
                    self@[key@],
                ) && raw@ == self@[key@],
            },
    {
        match self.var_os(key) {
            None => Err(VarError::NotPresent),
            Some(raw) => match raw.to_unicode() {
                Some(text) => Ok(text),
                None => Err(VarError::NotUnicode(raw)),
            },
        }
    }
}

} // verus!
