//! Communication contexts: a named configuration with an initialized/shut-down lifecycle.

use vstd::prelude::*;
use crate::error::{Error, ErrorCode, ErrorView};
use crate::string_map::StringMap;
use crate::text::owned;

verus! {

/// Log levels for log callbacks.
#[derive(Debug, Clone, Copy, PartialEq, Eq, Structural)]
pub enum LogLevel {
    Debug,
    Info,
    Warning,
    Error,
}

/// What a [`Context`] holds.
pub struct ContextView {
    pub id: Seq<char>,
    pub config: Map<Seq<char>, Seq<char>>,
    pub initialized: bool,
}

/// A context after a request to initialize it: initialized, with its id and
/// configuration unchanged.
pub open spec fn initialize_spec(c: ContextView) -> ContextView {
    ContextView { initialized: true, ..c }
}

/// A context after a request to shut it down: not initialized, with no configuration.
pub open spec fn shutdown_spec(c: ContextView) -> ContextView {
    ContextView { initialized: false, config: Map::empty(), ..c }
}

/// A communication context: a user-chosen identifier, configuration values,
/// and whether it is initialized.
pub struct Context {
    /// User-defined identifier for this context
    pub id: String,
    /// Configuration options
    config: StringMap<String>,
    /// Internal state
    initialized: bool,
}

/// The view of a map whose values are strings.
pub open spec fn string_values(m: Map<Seq<char>, String>) -> Map<Seq<char>, Seq<char>> {
    Map::new(|k: Seq<char>| m.contains_key(k), |k: Seq<char>| m[k]@)
}

impl View for Context {
    type V = ContextView;

    closed spec fn view(&self) -> ContextView {
        ContextView { id: self.id@, config: string_values(self.config@), initialized: self.initialized }
    }
}

impl Context {
    /// A new context named `id`: not initialized, with no configuration.
    pub fn new(id: &str) -> (c: Context)
        ensures
            c@ == (ContextView { id: id@, config: Map::empty(), initialized: false }),
    {
        let c = Context { id: owned(id), config: StringMap::new(), initialized: false };
        assert(c@.config =~= Map::<Seq<char>, Seq<char>>::empty());
        c
    }

    /// Initialize the context. Fails with `InvalidState` (and changes nothing)
    /// when it is already initialized.
    pub fn initialize(&mut self) -> (r: Result<(), Error>)
        ensures
            old(self)@.initialized ==> {
                &&& final(self)@ == old(self)@
                &&& r matches Err(e) && e@ == (ErrorView {
                    code: ErrorCode::InvalidState,
                    message: "Context already initialized"@,
                    mattermost_error_id: None,
                    request_id: None,
                    http_status: None,
                })
            },
            !old(self)@.initialized ==> final(self)@ == initialize_spec(old(self)@) && r is Ok,
    {
        if self.initialized {
            return Err(Error::new(ErrorCode::InvalidState, owned("Context already initialized")));
        }
        self.initialized = true;
        Ok(())
    }

    /// Whether the context is initialized.
    pub fn is_initialized(&self) -> (b: bool)
        ensures
            b == self@.initialized,
    {
        self.initialized
    }

    /// Set a configuration value, replacing any value under the same key.
    pub fn set_config(&mut self, key: &str, value: &str)
        ensures
            final(self)@ == (ContextView { config: old(self)@.config.insert(key@, value@), ..old(self)@ }),
    {
        self.config.insert(owned(key), owned(value));
        assert(self@.config =~= old(self)@.config.insert(key@, value@));
    }

    /// The configuration value under `key`, if any.
    pub fn get_config(&self, key: &str) -> (r: Option<&String>)
        ensures
            match r {
                Some(v) => self@.config.contains_key(key@) && self@.config[key@] == v@,
                None => !self@.config.contains_key(key@),
            },
    {
        self.config.get(key)
    }

    /// Shut the context down, forgetting its configuration. Fails with
    /// `InvalidState` (and changes nothing) when it is not initialized.
    pub fn shutdown(&mut self) -> (r: Result<(), Error>)
        ensures
            !old(self)@.initialized ==> {
                &&& final(self)@ == old(self)@
                &&& r matches Err(e) && e@ == (ErrorView {
                    code: ErrorCode::InvalidState,
                    message: "Context not initialized"@,
                    mattermost_error_id: None,
                    request_id: None,
                    http_status: None,
                })
            },
            old(self)@.initialized ==> final(self)@ == shutdown_spec(old(self)@) && r is Ok,
    {
        if !self.initialized {
            return Err(Error::new(ErrorCode::InvalidState, owned("Context not initialized")));
        }
        self.initialized = false;
        self.config.clear();
        assert(self@.config =~= Map::<Seq<char>, Seq<char>>::empty());
        Ok(())
    }
}

/// A context goes from uninitialized to initialized and back: initializing an
/// uninitialized context and then shutting it down leaves it uninitialized,
/// with its id and no configuration, whatever was configured in between.
pub proof fn law_context_lifecycle(c: ContextView, key: Seq<char>, value: Seq<char>)
    requires
        !c.initialized,
    ensures
        initialize_spec(c).initialized,
        ({
            let configured = ContextView {
                config: initialize_spec(c).config.insert(key, value),
                ..initialize_spec(c)
            };
            &&& configured.initialized
            &&& configured.config[key] == value
            &&& shutdown_spec(configured) == (ContextView { id: c.id, config: Map::empty(), initialized: false })
        }),
{
}

} // verus!
