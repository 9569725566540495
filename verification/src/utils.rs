//! Reading configuration from a snapshot of the process environment.

use crate::domain::Pager;
use crate::domain::PagerError;
use vstd::prelude::*;
use vstd::string::StringExecFns;

verus! {

/// What the environment holds under one name.
#[derive(Debug, Clone, PartialEq, Eq)]
pub enum EnvValue {
    /// A value that is valid Unicode.
    Unicode(String),
    /// A value that is not valid Unicode and cannot be read as a string.
    NotUnicode,
}

/// One variable of the environment.
#[derive(Debug, Clone, PartialEq, Eq)]
pub struct EnvEntry {
    pub name: String,
    pub value: EnvValue,
}

/// A snapshot of the process environment, taken once at start-up. Where a
/// name occurs more than once, the first entry counts.
#[derive(Debug, Clone, PartialEq, Eq)]
pub struct Environment {
    pub entries: Vec<EnvEntry>,
}

#[derive(Debug, Clone, PartialEq, Eq)]
pub enum EnvVarError {
    /// The named variable is set, but not to valid Unicode.
    EnvVarIsInvalid(String),
}

/// Why a mandatory variable could not be read.
#[derive(Debug, Clone, PartialEq, Eq)]
pub enum MandatoryVarError {
    /// The named variable is not set.
    NotSet(String),
    /// The named variable is set, but not to valid Unicode.
    Invalid(EnvVarError),
}

/// The name of the variable that overrides the default pager.
pub open spec fn pager_var() -> Seq<char> {
    "GRF_PAGER"@
}

/// What a lookup of one variable finds, as a mathematical value:
/// `None` where the variable is absent, `Some(None)` where it is not Unicode,
/// `Some(Some(text))` where it is.
pub open spec fn lookup(entries: Seq<EnvEntry>, key: Seq<char>) -> Option<Option<Seq<char>>>
    decreases entries.len(),
{
    if entries.len() == 0 {
        None
    } else if entries[0].name@ == key {
        match entries[0].value {
            EnvValue::Unicode(text) => Some(Some(text@)),
            EnvValue::NotUnicode => Some(None),
        }
    } else {
        lookup(entries.drop_first(), key)
    }
}

impl Environment {
    /// What this environment holds under `key`.
    pub open spec fn get(&self, key: Seq<char>) -> Option<Option<Seq<char>>> {
        lookup(self.entries@, key)
    }
}

impl EnvVarError {
    /// The name of the variable that the error is about.
    pub open spec fn name(&self) -> Seq<char> {
        match self {
            EnvVarError::EnvVarIsInvalid(name) => name@,
        }
    }

    /// The error as a sentence for the user.
    pub fn message(&self) -> (text: String)
        ensures
            text@ == "environment variable \""@ + self.name() + "\" is not valid unicode"@,
    {
        match self {
            EnvVarError::EnvVarIsInvalid(name) => {
                String::from_str("environment variable \"").concat(name.as_str()).concat(
                    "\" is not valid unicode",
                )
            },
        }
    }
}

impl MandatoryVarError {
    /// The name of the variable that the error is about.
    pub open spec fn name(&self) -> Seq<char> {
        match self {
            MandatoryVarError::NotSet(name) => name@,
            MandatoryVarError::Invalid(e) => e.name(),
        }
    }

    /// The error as a sentence for the user.
    pub fn message(&self) -> (text: String)
        ensures
            text@ == match self {
                MandatoryVarError::NotSet(name) => name@ + " is not set"@,
                MandatoryVarError::Invalid(e) => "environment variable \""@ + e.name()
                    + "\" is not valid unicode"@,
            },
    {
        match self {
            MandatoryVarError::NotSet(name) => name.clone().concat(" is not set"),
            MandatoryVarError::Invalid(e) => e.message(),
        }
    }
}

/// Looks `key` up in the environment. An absent variable is no error; one
/// that is not valid Unicode is, and the error names the variable.
pub fn get_env_var(env: &Environment, key: &str) -> (r: Result<Option<String>, EnvVarError>)
    ensures
        match env.get(key@) {
            None => r == Ok::<Option<String>, EnvVarError>(None),
            Some(None) => r is Err && r->Err_0.name() == key@,
            Some(Some(text)) => r is Ok && r->Ok_0 is Some && r->Ok_0->Some_0@ == text,
        },
{
    let wanted = key.to_owned();
    let mut i: usize = 0;
    assert(env.entries@.skip(0) =~= env.entries@);
    while i < env.entries.len()
        invariant
            i <= env.entries.len(),
            wanted@ == key@,
            lookup(env.entries@, key@) == lookup(env.entries@.skip(i as int), key@),
        decreases env.entries.len() - i,
    {
        let entry = &env.entries[i];
        let ghost rest = env.entries@.skip(i as int);
        assert(rest.len() > 0 && rest[0] == env.entries@[i as int]);
        assert(rest.drop_first() =~= env.entries@.skip(i + 1));
        if entry.name == wanted {
            return match &entry.value {
                EnvValue::Unicode(text) => Ok(Some(text.clone())),
                EnvValue::NotUnicode => Err(EnvVarError::EnvVarIsInvalid(wanted)),
            };
        }
        i += 1;
    }
    Ok(None)
}

/// Looks up a variable that must be set.
pub fn get_mandatory_env_var(env: &Environment, key: &str) -> (r: Result<String, MandatoryVarError>)
    ensures
        match env.get(key@) {
            None => r is Err && r->Err_0 is NotSet && r->Err_0.name() == key@,
            Some(None) => r is Err && r->Err_0 is Invalid && r->Err_0.name() == key@,
            Some(Some(text)) => r is Ok && r->Ok_0@ == text,
        },
{
    match get_env_var(env, key) {
        Ok(Some(text)) => Ok(text),
        Ok(None) => Err(MandatoryVarError::NotSet(key.to_owned())),
        Err(e) => Err(MandatoryVarError::Invalid(e)),
    }
}

/// Why no pager could be chosen.
#[derive(Debug, Clone, PartialEq, Eq)]
pub enum GetPagerError {
    /// The variable that names the pager is not valid Unicode.
    Environment(EnvVarError),
    /// The variable names a command that cannot be run.
    Pager(PagerError),
}

impl GetPagerError {
    /// The error as a sentence for the user.
    pub fn message(&self) -> (r: String)
        ensures
            r@ == match self {
                GetPagerError::Environment(e) => "environment variable \""@ + e.name()
                    + "\" is not valid unicode"@,
                GetPagerError::Pager(_) => "the pager command is empty"@,
            },
    {
        match self {
            GetPagerError::Environment(e) => e.message(),
            GetPagerError::Pager(e) => e.message(),
        }
    }
}

/// Chooses the pager: the command that `GRF_PAGER` names, or the default
/// pager where the variable is not set.
pub fn get_pager(env: &Environment) -> (r: Result<Pager, GetPagerError>)
    ensures
        match env.get(pager_var()) {
            None => r is Ok && r->Ok_0@ == Pager::default_command(),
            Some(None) => r is Err && r->Err_0 is Environment
                && r->Err_0->Environment_0.name() == pager_var(),
            Some(Some(text)) => if text.len() == 0 {
                r == Err::<Pager, GetPagerError>(GetPagerError::Pager(PagerError::EmptyCommand))
            } else {
                r is Ok && r->Ok_0@ == text
            },
        },
{
    match get_env_var(env, "GRF_PAGER") {
        Err(e) => Err(GetPagerError::Environment(e)),
        Ok(None) => Ok(Pager::default()),
        Ok(Some(command)) => match Pager::custom(command.as_str()) {
            Ok(pager) => Ok(pager),
            Err(e) => Err(GetPagerError::Pager(e)),
        },
    }
}

} // verus!
