//! Choosing the backend from the connection URI.
//!
//! The scheme of the URI, the text before its first `://`, decides: `bolt`
//! stands for a session with a graph database, which needs a user, a
//! password and a database name from the environment; `http` and `https`
//! stand for a managed graph service, whose credentials are found when the
//! connection is made. Here the choice is made and the configuration is
//! gathered; no connection is opened.

use crate::utils::get_mandatory_env_var;
use crate::utils::EnvVarError;
use crate::utils::Environment;
use crate::utils::MandatoryVarError;
use vstd::prelude::*;
use vstd::string::StringExecFns;

verus! {

/// The schemes that a connection URI can have.
#[derive(Debug, Clone, Copy, PartialEq, Eq, Structural)]
pub enum Scheme {
    Bolt,
    Http,
    Https,
}

/// What is needed to connect to the chosen backend.
#[derive(Debug, Clone, PartialEq, Eq)]
pub enum BackendConfig {
    /// A session with the named database of a Bolt server.
    Bolt { uri: String, user: String, password: String, database: String },
    /// Requests to the endpoint of a managed graph service.
    ManagedService { endpoint: String },
}

/// Why no backend could be chosen.
#[derive(Debug, Clone, PartialEq, Eq)]
pub enum ConfigurationError {
    /// The URI has no `://`, or a scheme that is not supported.
    InvalidConnectionUri(String),
    /// The named variable is needed and not set.
    MissingConfiguration(String),
    /// A variable that is needed is set, but not to valid Unicode.
    InvalidEnvironment(EnvVarError),
}

/// A backend configuration as a mathematical value.
pub enum BackendView {
    Bolt { uri: Seq<char>, user: Seq<char>, password: Seq<char>, database: Seq<char> },
    ManagedService { endpoint: Seq<char> },
}

/// A configuration error as a mathematical value.
pub enum ConfigurationFailure {
    InvalidConnectionUri(Seq<char>),
    MissingConfiguration(Seq<char>),
    InvalidEnvironment(Seq<char>),
}

impl View for BackendConfig {
    type V = BackendView;

    open spec fn view(&self) -> BackendView {
        match self {
            BackendConfig::Bolt { uri, user, password, database } => BackendView::Bolt {
                uri: uri@,
                user: user@,
                password: password@,
                database: database@,
            },
            BackendConfig::ManagedService { endpoint } => BackendView::ManagedService {
                endpoint: endpoint@,
            },
        }
    }
}

impl View for ConfigurationError {
    type V = ConfigurationFailure;

    open spec fn view(&self) -> ConfigurationFailure {
        match self {
            ConfigurationError::InvalidConnectionUri(uri) => {
                ConfigurationFailure::InvalidConnectionUri(uri@)
            },
            ConfigurationError::MissingConfiguration(name) => {
                ConfigurationFailure::MissingConfiguration(name@)
            },
            ConfigurationError::InvalidEnvironment(e) => ConfigurationFailure::InvalidEnvironment(
                e.name(),
            ),
        }
    }
}

/// Whether `://` stands at position `i` of the URI.
pub open spec fn separator_at(uri: Seq<char>, i: int) -> bool {
    0 <= i && i + 3 <= uri.len() && uri[i] == ':' && uri[i + 1] == '/' && uri[i + 2] == '/'
}

/// The first position at or after `from` at which `://` stands.
pub open spec fn find_separator(uri: Seq<char>, from: int) -> Option<int>
    decreases uri.len() - from,
{
    if from < 0 || from + 3 > uri.len() {
        None
    } else if separator_at(uri, from) {
        Some(from)
    } else {
        find_separator(uri, from + 1)
    }
}

/// The text before the first `://` of the URI; `None` where it has none.
pub open spec fn scheme_text(uri: Seq<char>) -> Option<Seq<char>> {
    match find_separator(uri, 0) {
        Some(i) => Some(uri.take(i)),
        None => None,
    }
}

/// The scheme that a text names.
pub open spec fn scheme_named(text: Seq<char>) -> Option<Scheme> {
    if text == "bolt"@ {
        Some(Scheme::Bolt)
    } else if text == "http"@ {
        Some(Scheme::Http)
    } else if text == "https"@ {
        Some(Scheme::Https)
    } else {
        None
    }
}

/// The scheme of a connection URI; `None` where the URI has no `://` or its
/// scheme is not supported.
pub open spec fn scheme_of(uri: Seq<char>) -> Option<Scheme> {
    match scheme_text(uri) {
        Some(text) => scheme_named(text),
        None => None,
    }
}

/// A variable that must be set, as the configuration sees it.
pub open spec fn mandatory(env: Environment, name: Seq<char>) -> Result<
    Seq<char>,
    ConfigurationFailure,
> {
    match env.get(name) {
        None => Err(ConfigurationFailure::MissingConfiguration(name)),
        Some(None) => Err(ConfigurationFailure::InvalidEnvironment(name)),
        Some(Some(text)) => Ok(text),
    }
}

/// The configuration of a Bolt backend: user, password and database name
/// from the environment, asked for in this order, so that the first one
/// that is missing is reported.
pub open spec fn bolt_config(uri: Seq<char>, env: Environment) -> Result<
    BackendView,
    ConfigurationFailure,
> {
    match mandatory(env, "NEO4J_USER"@) {
        Err(e) => Err(e),
        Ok(user) => match mandatory(env, "NEO4J_PASSWORD"@) {
            Err(e) => Err(e),
            Ok(password) => match mandatory(env, "NEO4J_DB"@) {
                Err(e) => Err(e),
                Ok(database) => Ok(BackendView::Bolt { uri, user, password, database }),
            },
        },
    }
}

/// The backend that a connection URI selects in an environment.
pub open spec fn selected(uri: Seq<char>, env: Environment) -> Result<
    BackendView,
    ConfigurationFailure,
> {
    match scheme_of(uri) {
        None => Err(ConfigurationFailure::InvalidConnectionUri(uri)),
        Some(Scheme::Bolt) => bolt_config(uri, env),
        Some(_) => Ok(BackendView::ManagedService { endpoint: uri }),
    }
}

/// The backend that an environment selects by its `DB_URI`.
pub open spec fn selected_by(env: Environment) -> Result<BackendView, ConfigurationFailure> {
    match mandatory(env, "DB_URI"@) {
        Err(e) => Err(e),
        Ok(uri) => selected(uri, env),
    }
}

/// What a function that chooses a backend returns, as a mathematical value.
pub open spec fn choice_view(r: Result<BackendConfig, ConfigurationError>) -> Result<
    BackendView,
    ConfigurationFailure,
> {
    match r {
        Ok(config) => Ok(config@),
        Err(e) => Err(e@),
    }
}

/// The search for `://` finds the first position at which it stands, and
/// finds none only where it stands nowhere at or after `from`.
pub proof fn lemma_find_separator(uri: Seq<char>, from: int)
    requires
        0 <= from,
    ensures
        match find_separator(uri, from) {
            Some(i) => from <= i && separator_at(uri, i) && forall|j: int|
                from <= j < i ==> !separator_at(uri, j),
            None => forall|j: int| from <= j ==> !separator_at(uri, j),
        },
    decreases uri.len() - from,
{
    if from + 3 <= uri.len() && !separator_at(uri, from) {
        lemma_find_separator(uri, from + 1);
    }
}

/// A URI made of a scheme without colon, `://` and any rest has that scheme
/// as the text before its first `://`.
pub proof fn lemma_scheme_of_prefixed(scheme: Seq<char>, rest: Seq<char>)
    requires
        !scheme.contains(':'),
    ensures
        scheme_text(scheme + seq![':', '/', '/'] + rest) == Some(scheme),
{
    let uri = scheme + seq![':', '/', '/'] + rest;
    lemma_find_separator(uri, 0);
    assert(separator_at(uri, scheme.len() as int));
    assert forall|j: int| 0 <= j < scheme.len() implies !separator_at(uri, j) by {
        assert(uri[j] == scheme[j]);
    }
    assert(uri.take(scheme.len() as int) =~= scheme);
}

/// For each supported scheme a URI of that scheme selects the backend that
/// the scheme stands for: `bolt` the Bolt backend, given its three variables,
/// `http` and `https` the managed service, whatever the environment holds.
pub proof fn lemma_supported_schemes(rest: Seq<char>, env: Environment)
    ensures
        selected("bolt"@ + seq![':', '/', '/'] + rest, env) == bolt_config(
            "bolt"@ + seq![':', '/', '/'] + rest,
            env,
        ),
        selected("http"@ + seq![':', '/', '/'] + rest, env) == Ok::<
            BackendView,
            ConfigurationFailure,
        >(BackendView::ManagedService { endpoint: "http"@ + seq![':', '/', '/'] + rest }),
        selected("https"@ + seq![':', '/', '/'] + rest, env) == Ok::<
            BackendView,
            ConfigurationFailure,
        >(BackendView::ManagedService { endpoint: "https"@ + seq![':', '/', '/'] + rest }),
{
    reveal_strlit("bolt");
    reveal_strlit("http");
    reveal_strlit("https");
    lemma_scheme_of_prefixed("bolt"@, rest);
    lemma_scheme_of_prefixed("http"@, rest);
    lemma_scheme_of_prefixed("https"@, rest);
    assert("bolt"@ != "http"@) by {
        assert("bolt"@[0] != "http"@[0]);
    }
    assert("bolt"@.len() != "https"@.len());
    assert("http"@.len() != "https"@.len());
}

/// A URI without `://`, or with another text before it than one of the three
/// scheme names, selects no backend, whatever the environment holds.
pub proof fn lemma_unsupported_uri(uri: Seq<char>, env: Environment)
    requires
        (forall|i: int| !separator_at(uri, i)) || (scheme_text(uri) is Some && scheme_text(uri)
            != Some("bolt"@) && scheme_text(uri) != Some("http"@) && scheme_text(uri) != Some(
            "https"@,
        )),
    ensures
        selected(uri, env) == Err::<BackendView, ConfigurationFailure>(
            ConfigurationFailure::InvalidConnectionUri(uri),
        ),
{
    lemma_find_separator(uri, 0);
}

/// The characters of a text.
fn chars_of(text: &str) -> (r: Vec<char>)
    ensures
        r@ == text@,
{
    let mut out: Vec<char> = Vec::new();
    for c in it: text.chars()
        invariant
            it.seq() == text@,
            out@ == it.seq().take(it.index() as int),
    {
        out.push(c);
        assert(it.seq().take(it.index() + 1) =~= it.seq().take(it.index() as int).push(c));
    }
    assert(text@.take(text@.len() as int) =~= text@);
    out
}

/// The scheme that the first `end` characters name.
fn scheme_before(chars: &Vec<char>, end: usize) -> (r: Option<Scheme>)
    requires
        end <= chars@.len(),
    ensures
        r == scheme_named(chars@.take(end as int)),
{
    let ghost text = chars@.take(end as int);
    proof {
        reveal_strlit("bolt");
        reveal_strlit("http");
        reveal_strlit("https");
        assert(text.len() == end);
        assert(forall|k: int| 0 <= k < end ==> text[k] == chars@[k]);
    }
    if end == 4 && chars[0] == 'b' && chars[1] == 'o' && chars[2] == 'l' && chars[3] == 't' {
        assert(text =~= "bolt"@);
        Some(Scheme::Bolt)
    } else if end == 4 && chars[0] == 'h' && chars[1] == 't' && chars[2] == 't' && chars[3]
        == 'p' {
        assert(text =~= "http"@);
        assert("bolt"@[0] != text[0]);
        Some(Scheme::Http)
    } else if end == 5 && chars[0] == 'h' && chars[1] == 't' && chars[2] == 't' && chars[3] == 'p'
        && chars[4] == 's' {
        assert(text =~= "https"@);
        Some(Scheme::Https)
    } else {
        assert(text != "bolt"@) by {
            if text == "bolt"@ {
                assert(text[0] == 'b' && text[1] == 'o' && text[2] == 'l' && text[3] == 't');
            }
        }
        assert(text != "http"@) by {
            if text == "http"@ {
                assert(text[0] == 'h' && text[1] == 't' && text[2] == 't' && text[3] == 'p');
            }
        }
        assert(text != "https"@) by {
            if text == "https"@ {
                assert(text[0] == 'h' && text[1] == 't' && text[2] == 't' && text[3] == 'p'
                    && text[4] == 's');
            }
        }
        None
    }
}

/// Reads the scheme of a connection URI.
pub fn parse_scheme(uri: &str) -> (r: Option<Scheme>)
    ensures
        r == scheme_of(uri@),
{
    let chars = chars_of(uri);
    if chars.len() < 3 {
        return None;
    }
    let last: usize = chars.len() - 3;
    let mut i: usize = 0;
    while i <= last
        invariant
            chars@ == uri@,
            last + 3 == chars@.len(),
            i <= last + 1,
            find_separator(uri@, 0) == find_separator(uri@, i as int),
        decreases last + 1 - i,
    {
        if chars[i] == ':' && chars[i + 1] == '/' && chars[i + 2] == '/' {
            return scheme_before(&chars, i);
        }
        i += 1;
    }
    None
}

/// A variable that the configuration needs.
fn mandatory_var(env: &Environment, name: &str) -> (r: Result<String, ConfigurationError>)
    ensures
        match mandatory(*env, name@) {
            Ok(text) => r is Ok && r->Ok_0@ == text,
            Err(e) => r is Err && r->Err_0@ == e,
        },
{
    match get_mandatory_env_var(env, name) {
        Ok(text) => Ok(text),
        Err(MandatoryVarError::NotSet(missing)) => Err(
            ConfigurationError::MissingConfiguration(missing),
        ),
        Err(MandatoryVarError::Invalid(e)) => Err(ConfigurationError::InvalidEnvironment(e)),
    }
}

/// Chooses the backend for a connection URI and gathers what is needed to
/// connect to it. An unsupported URI is refused before anything is read
/// from the environment.
pub fn backend_for(uri: &str, env: &Environment) -> (r: Result<BackendConfig, ConfigurationError>)
    ensures
        choice_view(r) == selected(uri@, *env),
{
    match parse_scheme(uri) {
        None => Err(ConfigurationError::InvalidConnectionUri(uri.to_owned())),
        Some(Scheme::Bolt) => {
            let user = match mandatory_var(env, "NEO4J_USER") {
                Ok(text) => text,
                Err(e) => {
                    return Err(e);
                },
            };
            let password = match mandatory_var(env, "NEO4J_PASSWORD") {
                Ok(text) => text,
                Err(e) => {
                    return Err(e);
                },
            };
            let database = match mandatory_var(env, "NEO4J_DB") {
                Ok(text) => text,
                Err(e) => {
                    return Err(e);
                },
            };
            Ok(BackendConfig::Bolt { uri: uri.to_owned(), user, password, database })
        },
        Some(_) => Ok(BackendConfig::ManagedService { endpoint: uri.to_owned() }),
    }
}

/// Chooses the backend by the connection URI that the environment holds
/// under `DB_URI`.
pub fn select_backend(env: &Environment) -> (r: Result<BackendConfig, ConfigurationError>)
    ensures
        choice_view(r) == selected_by(*env),
{
    match mandatory_var(env, "DB_URI") {
        Ok(uri) => backend_for(uri.as_str(), env),
        Err(e) => Err(e),
    }
}

impl ConfigurationError {
    /// The error as a sentence for the user; that of an invalid URI lists
    /// the supported schemes with an example of each.
    pub open spec fn message_text(&self) -> Seq<char> {
        match self {
            ConfigurationError::InvalidConnectionUri(uri) => "invalid connection URI \""@ + uri@
                + "\": supported schemes are bolt (bolt://localhost:7687), http (http://localhost:8182) and https (https://localhost:8182)"@,
            ConfigurationError::MissingConfiguration(name) => name@ + " is not set"@,
            ConfigurationError::InvalidEnvironment(e) => "environment variable \""@ + e.name()
                + "\" is not valid unicode"@,
        }
    }

    /// The error as a sentence for the user.
    pub fn message(&self) -> (r: String)
        ensures
            r@ == self.message_text(),
    {
        match self {
            ConfigurationError::InvalidConnectionUri(uri) => String::from_str(
                "invalid connection URI \"",
            ).concat(uri.as_str()).concat(
                "\": supported schemes are bolt (bolt://localhost:7687), http (http://localhost:8182) and https (https://localhost:8182)",
            ),
            ConfigurationError::MissingConfiguration(name) => name.clone().concat(" is not set"),
            ConfigurationError::InvalidEnvironment(e) => e.message(),
        }
    }
}

} // verus!
