//! The errors that the engine reports.
use vstd::prelude::*;

verus! {

/// Why a registry refused a request.
#[derive(Debug, Clone, PartialEq, Eq)]
pub enum RegistryError {
    /// No factory is registered under this key.
    TypeNotFound(String),
    /// A factory is already registered under this key.
    AlreadyRegistered(String),
}

/// A `RegistryError` as mathematics sees it.
pub enum RegistryErrorView {
    TypeNotFound(Seq<char>),
    AlreadyRegistered(Seq<char>),
}

impl View for RegistryError {
    type V = RegistryErrorView;

    open spec fn view(&self) -> RegistryErrorView {
        match self {
            RegistryError::TypeNotFound(key) => RegistryErrorView::TypeNotFound(key@),
            RegistryError::AlreadyRegistered(key) => RegistryErrorView::AlreadyRegistered(key@),
        }
    }
}

impl RegistryErrorView {
    /// The sentence that describes the error.
    pub open spec fn message(self) -> Seq<char> {
        match self {
            RegistryErrorView::TypeNotFound(key) => "Context type '"@ + key
                + "' not found in registry"@,
            RegistryErrorView::AlreadyRegistered(key) => "Context type '"@ + key
                + "' already registered"@,
        }
    }
}

impl RegistryError {
    /// The sentence that describes the error.
    pub fn message(&self) -> (text: String)
        ensures
            text@ == self@.message(),
    {
        let mut text = String::from_str("Context type '");
        match self {
            RegistryError::TypeNotFound(key) => {
                text.append(key.as_str());
                text.append("' not found in registry");
            },
            RegistryError::AlreadyRegistered(key) => {
                text.append(key.as_str());
                text.append("' already registered");
            },
        }
        text
    }
}

/// The kind of an input or output failure.
#[derive(Debug, Clone, Copy, PartialEq, Eq, Structural)]
pub enum IoKind {
    NotFound,
    PermissionDenied,
    AlreadyExists,
    InvalidInput,
    InvalidData,
    Other,
}

/// An error of the engine or of a provider.
#[derive(Debug, Clone, PartialEq, Eq)]
pub enum CoreError {
    /// Something could not be read, written or accepted; `path` names the
    /// place where that is known.
    Io { path: Option<String>, kind: IoKind, message: String },
    /// The registry refused.
    Registry(RegistryError),
}

/// A `CoreError` as mathematics sees it.
pub enum CoreErrorView {
    Io { path: Option<Seq<char>>, kind: IoKind, message: Seq<char> },
    Registry(RegistryErrorView),
}

impl View for CoreError {
    type V = CoreErrorView;

    open spec fn view(&self) -> CoreErrorView {
        match self {
            CoreError::Io { path, kind, message } => CoreErrorView::Io {
                path: match path {
                    Some(p) => Some(p@),
                    None => None,
                },
                kind: *kind,
                message: message@,
            },
            CoreError::Registry(e) => CoreErrorView::Registry(e@),
        }
    }
}

/// Library-wide result alias.
pub type CoreResult<T> = Result<T, CoreError>;

/// The error for an input that cannot be accepted, with no path.
pub open spec fn invalid_input(message: Seq<char>) -> CoreErrorView {
    CoreErrorView::Io { path: None, kind: IoKind::InvalidInput, message }
}

/// The error for input of the wrong shape, with no path.
pub open spec fn invalid_data(message: Seq<char>) -> CoreErrorView {
    CoreErrorView::Io { path: None, kind: IoKind::InvalidData, message }
}

/// Any other failure, with no path.
pub open spec fn other_failure(message: Seq<char>) -> CoreErrorView {
    CoreErrorView::Io { path: None, kind: IoKind::Other, message }
}

impl CoreError {
    /// An error of the given kind with no path.
    pub fn io(kind: IoKind, message: &str) -> (e: CoreError)
        ensures
            e@ == (CoreErrorView::Io { path: None, kind, message: message@ }),
    {
        CoreError::Io { path: None, kind, message: String::from_str(message) }
    }
}

impl From<RegistryError> for CoreError {
    fn from(err: RegistryError) -> (e: CoreError) {
        CoreError::Registry(err)
    }
}

impl vstd::std_specs::convert::FromSpecImpl<RegistryError> for CoreError {
    open spec fn obeys_from_spec() -> bool {
        true
    }

    open spec fn from_spec(err: RegistryError) -> CoreError {
        CoreError::Registry(err)
    }
}

} // verus!
