use vstd::prelude::*;

verus! {

/// Failure to produce a secret from its source.
#[derive(Clone, Debug, PartialEq, Eq)]
pub enum SecretSourceError {
    /// The command could not be started (`exit_code` is `None`) or exited
    /// with a non-zero status.
    CommandFailed { exit_code: Option<i32>, stderr: String },
    /// The keyring holds no entry under `key`.
    KeyringMiss { key: String },
    /// More than one of `<field>`, `<field>-cmd`, `<field>-keyring` is set.
    AmbiguousSource { field: String },
    /// None of `<field>`, `<field>-cmd`, `<field>-keyring` is set.
    MissingSource { field: String },
}

/// Failure to map an account document into its configuration.
#[derive(Clone, Debug, PartialEq, Eq)]
pub enum ConfigError {
    AccountNotFound { name: String },
    MissingRequiredField { field: String },
    /// The key is present but its value has the wrong shape or range.
    InvalidValue { field: String },
    /// The authentication tag names a shape whose fields are absent or
    /// malformed, names no known shape, or is absent while the shape cannot
    /// be told.
    InvalidAuthShape { field: String },
    Secret(SecretSourceError),
    /// The account uses a backend that this build does not offer.
    BackendFeatureDisabled { backend: String },
}

} // verus!

verus! {

/// Failure in the life of an OAuth2 token.
#[derive(Clone, Debug, PartialEq, Eq)]
pub enum OAuth2Error {
    /// The token endpoint answered with a failure other than `invalid_grant`.
    TokenEndpointError { status: u16, body: String },
    /// The server no longer accepts the refresh token: the account must be
    /// authorized again.
    RefreshTokenExhausted,
    /// A refreshed token would have to be written back to a command source.
    NonPersistableSource { field: String },
}

} // verus!

verus! {

pub enum SecretSourceErrorView {
    CommandFailed { exit_code: Option<i32>, stderr: Seq<char> },
    KeyringMiss { key: Seq<char> },
    AmbiguousSource { field: Seq<char> },
    MissingSource { field: Seq<char> },
}

impl View for SecretSourceError {
    type V = SecretSourceErrorView;

    open spec fn view(&self) -> SecretSourceErrorView {
        match self {
            SecretSourceError::CommandFailed { exit_code, stderr } => SecretSourceErrorView::CommandFailed {
                exit_code: *exit_code,
                stderr: stderr@,
            },
            SecretSourceError::KeyringMiss { key } => SecretSourceErrorView::KeyringMiss { key: key@ },
            SecretSourceError::AmbiguousSource { field } => SecretSourceErrorView::AmbiguousSource {
                field: field@,
            },
            SecretSourceError::MissingSource { field } => SecretSourceErrorView::MissingSource {
                field: field@,
            },
        }
    }
}

pub enum ConfigErrorView {
    AccountNotFound { name: Seq<char> },
    MissingRequiredField { field: Seq<char> },
    InvalidValue { field: Seq<char> },
    InvalidAuthShape { field: Seq<char> },
    Secret(SecretSourceErrorView),
    BackendFeatureDisabled { backend: Seq<char> },
}

impl View for ConfigError {
    type V = ConfigErrorView;

    open spec fn view(&self) -> ConfigErrorView {
        match self {
            ConfigError::AccountNotFound { name } => ConfigErrorView::AccountNotFound { name: name@ },
            ConfigError::MissingRequiredField { field } => ConfigErrorView::MissingRequiredField {
                field: field@,
            },
            ConfigError::InvalidValue { field } => ConfigErrorView::InvalidValue { field: field@ },
            ConfigError::InvalidAuthShape { field } => ConfigErrorView::InvalidAuthShape {
                field: field@,
            },
            ConfigError::Secret(e) => ConfigErrorView::Secret(e@),
            ConfigError::BackendFeatureDisabled { backend } => ConfigErrorView::BackendFeatureDisabled {
                backend: backend@,
            },
        }
    }
}

/// The view of a result whose value and error have views.
pub open spec fn res_view<T: View, E: View>(r: Result<T, E>) -> Result<T::V, E::V> {
    match r {
        Ok(v) => Ok(v@),
        Err(e) => Err(e@),
    }
}

} // verus!
