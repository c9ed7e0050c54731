//! Keys and errors of the API definition registry.
use vstd::prelude::*;

use crate::platform::Uuid;
use vstd::string::to_string_from_display_ensures;

verus! {

/// The identifier of an API definition.
#[derive(Debug, Clone, PartialEq, Eq, Hash)]
pub struct ApiDefinitionId(pub String);

/// The version of an API definition.
#[derive(Debug, Clone, PartialEq, Eq, Hash)]
pub struct ApiVersion(pub String);

impl View for ApiDefinitionId {
    type V = Seq<char>;

    open spec fn view(&self) -> Seq<char> {
        self.0@
    }
}

impl View for ApiVersion {
    type V = Seq<char>;

    open spec fn view(&self) -> Seq<char> {
        self.0@
    }
}

impl ApiDefinitionId {
    /// A copy of the identifier.
    pub fn duplicate(&self) -> (r: ApiDefinitionId)
        ensures
            r == *self,
    {
        ApiDefinitionId(self.0.clone())
    }
}

impl ApiVersion {
    /// A copy of the version.
    pub fn duplicate(&self) -> (r: ApiVersion)
        ensures
            r == *self,
    {
        ApiVersion(self.0.clone())
    }
}

/// The identifier of a component template.
#[derive(Debug, PartialEq, Eq, Clone, Copy, Hash)]
pub struct TemplateId(pub Uuid);

/// What the registry reads of a worker binding: the template it runs on.
#[derive(Debug, PartialEq, Eq, Clone, Copy)]
pub struct GolemWorkerBinding {
    pub template: TemplateId,
}

/// A namespace in which API definitions are kept apart: an account, a
/// project, an environment, a composite of these, or a constant such as a
/// string or the unit value. Any comparable, hashable, printable value that
/// can be shared across threads serves.
pub trait ApiNamespace:
    Eq + std::hash::Hash + Clone + std::fmt::Debug + std::fmt::Display + Send + Sync {

}

impl<T: Eq + std::hash::Hash + Clone + std::fmt::Debug + std::fmt::Display + Send + Sync> ApiNamespace for T {

}

/// An API definition as the registry sees it: an identifier, a version, and
/// the worker bindings that name the templates it needs.
pub trait GolemApiDefinition {
    fn get_api_definition_id(&self) -> &ApiDefinitionId;

    fn get_version(&self) -> &ApiVersion;

    fn get_golem_worker_bindings(&self) -> &Vec<GolemWorkerBinding>;
}

/// An API definition identifier qualified by its version and namespace.
#[derive(Debug, Clone, PartialEq, Eq, Hash)]
pub struct ApiDefinitionKey<Namespace> {
    pub namespace: Namespace,
    pub id: ApiDefinitionId,
    pub version: ApiVersion,
}

impl<Namespace: std::fmt::Display> ApiDefinitionKey<Namespace> {
    /// The same key with the namespace in its printed form.
    pub fn displayed(&self) -> (r: ApiDefinitionKey<String>)
        ensures
            to_string_from_display_ensures::<Namespace>(&self.namespace, r.namespace),
            r.id == self.id,
            r.version == self.version,
    {
        ApiDefinitionKey {
            namespace: self.namespace.to_string(),
            id: self.id.duplicate(),
            version: self.version.duplicate(),
        }
    }
}

/// The errors of the validation of an API definition.
#[derive(Debug, Clone, PartialEq, Eq)]
pub struct ValidationErrors<E> {
    pub errors: Vec<E>,
}

/// A failure of the store of API definitions.
#[derive(Debug, Clone, PartialEq, Eq)]
pub enum ApiRegistrationRepoError {
    AlreadyExists(ApiDefinitionKey<String>),
    InternalError(String),
}

/// Why a request to the registry failed.
#[derive(Debug, Clone, PartialEq, Eq)]
pub enum ApiRegistrationError<E> {
    RepoError(ApiRegistrationRepoError),
    ValidationError(ValidationErrors<E>),
    TemplateNotFoundError(Vec<TemplateId>),
}

/// The answer of the registry to a request.
pub type ApiResult<T, E> = Result<T, ApiRegistrationError<E>>;

impl<E> From<ApiRegistrationRepoError> for ApiRegistrationError<E> {
    fn from(error: ApiRegistrationRepoError) -> (r: Self) {
        ApiRegistrationError::RepoError(error)
    }
}

impl<E> vstd::std_specs::convert::FromSpecImpl<ApiRegistrationRepoError> for ApiRegistrationError<E> {
    open spec fn obeys_from_spec() -> bool {
        true
    }

    open spec fn from_spec(error: ApiRegistrationRepoError) -> Self {
        ApiRegistrationError::RepoError(error)
    }
}

impl<E> From<ValidationErrors<E>> for ApiRegistrationError<E> {
    fn from(errors: ValidationErrors<E>) -> (r: Self) {
        ApiRegistrationError::ValidationError(errors)
    }
}

impl<E> vstd::std_specs::convert::FromSpecImpl<ValidationErrors<E>> for ApiRegistrationError<E> {
    open spec fn obeys_from_spec() -> bool {
        true
    }

    open spec fn from_spec(errors: ValidationErrors<E>) -> Self {
        ApiRegistrationError::ValidationError(errors)
    }
}

} // verus!
