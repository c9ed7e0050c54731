//! The decisions of the API definition service.
//!
//! Registering a definition fetches the templates that its worker bindings
//! name, validates the definition against them, and stores it under its key.
//! Those three are outside work; `Registration` decides, event by event, what
//! comes next and what the request is answered. Looking up, deleting and
//! listing definitions call the store once; the functions here build the key
//! and turn the store's answer into the service's answer.
use vstd::prelude::*;

use crate::api_definition::{
    ApiDefinitionId, ApiDefinitionKey, ApiRegistrationError, ApiRegistrationRepoError, ApiResult,
    ApiVersion, GolemWorkerBinding, TemplateId, ValidationErrors,
};

verus! {

broadcast use vstd::std_specs::vec::group_vec_axioms;

/// The service, holding its template service, its store of definitions and
/// its validator.
pub struct ApiDefinitionServiceDefault<TemplateService, RegisterRepo, Validator> {
    pub template_service: TemplateService,
    pub register_repo: RegisterRepo,
    pub api_definition_validator: Validator,
}

impl<TemplateService, RegisterRepo, Validator> ApiDefinitionServiceDefault<
    TemplateService,
    RegisterRepo,
    Validator,
> {
    /// The service with these parts.
    pub fn new(
        template_service: TemplateService,
        register_repo: RegisterRepo,
        api_definition_validator: Validator,
    ) -> (r: Self)
        ensures
            r.template_service == template_service,
            r.register_repo == register_repo,
            r.api_definition_validator == api_definition_validator,
    {
        Self { template_service, register_repo, api_definition_validator }
    }
}

/// The templates that the worker bindings name, one per binding, in order.
pub open spec fn binding_templates(bindings: Seq<GolemWorkerBinding>) -> Seq<TemplateId> {
    bindings.map_values(|b: GolemWorkerBinding| b.template)
}

/// The templates that were found, in the order in which they were asked for.
pub open spec fn fetched_templates<T>(results: Seq<Result<T, TemplateId>>) -> Seq<T>
    decreases results.len(),
{
    if results.len() == 0 {
        seq![]
    } else {
        let earlier = fetched_templates(results.drop_last());
        match results.last() {
            Ok(template) => earlier.push(template),
            Err(_) => earlier,
        }
    }
}

/// The identifiers of the templates that could not be fetched, in the order
/// in which they were asked for.
pub open spec fn missing_templates<T>(results: Seq<Result<T, TemplateId>>) -> Seq<TemplateId>
    decreases results.len(),
{
    if results.len() == 0 {
        seq![]
    } else {
        let earlier = missing_templates(results.drop_last());
        match results.last() {
            Ok(_) => earlier,
            Err(id) => earlier.push(id),
        }
    }
}

/// Every answer of the template service is either a template that was found
/// or the identifier of one that was not.
pub proof fn lemma_templates_partition<T>(results: Seq<Result<T, TemplateId>>)
    ensures
        fetched_templates(results).len() + missing_templates(results).len() == results.len(),
    decreases results.len(),
{
    if results.len() > 0 {
        lemma_templates_partition(results.drop_last());
    }
}

/// Sorting the answers of the template service keeps their order: the
/// answers to one batch of requests followed by those to another sort into
/// the found templates of the first then those of the second, and likewise
/// the missing identifiers. A single found template sorts into itself alone
/// and no missing identifier; a single missing identifier into itself alone
/// and no template.
pub proof fn lemma_templates_sort_in_order<T>(
    first: Seq<Result<T, TemplateId>>,
    second: Seq<Result<T, TemplateId>>,
    template: T,
    id: TemplateId,
)
    ensures
        fetched_templates(first + second) == fetched_templates(first) + fetched_templates(second),
        missing_templates(first + second) == missing_templates(first) + missing_templates(second),
        fetched_templates(seq![Ok::<T, TemplateId>(template)]) == seq![template],
        missing_templates(seq![Ok::<T, TemplateId>(template)]) == Seq::<TemplateId>::empty(),
        fetched_templates(seq![Err::<T, TemplateId>(id)]) == Seq::<T>::empty(),
        missing_templates(seq![Err::<T, TemplateId>(id)]) == seq![id],
    decreases second.len(),
{
    let one_found = seq![Ok::<T, TemplateId>(template)];
    let one_missing = seq![Err::<T, TemplateId>(id)];
    let none = Seq::<Result<T, TemplateId>>::empty();
    assert(fetched_templates(none) == Seq::<T>::empty());
    assert(missing_templates(none) == Seq::<TemplateId>::empty());
    assert(one_found.drop_last() == none);
    assert(one_missing.drop_last() == none);
    assert(fetched_templates(one_found) == Seq::<T>::empty().push(template));
    assert(missing_templates(one_missing) == Seq::<TemplateId>::empty().push(id));
    if second.len() == 0 {
        assert(first + second == first);
    } else {
        lemma_templates_sort_in_order(first, second.drop_last(), template, id);
        assert((first + second).drop_last() == first + second.drop_last());
        assert((first + second).last() == second.last());
    }
}

/// The templates to fetch for a definition with these worker bindings: the
/// template of each binding, in order.
pub fn templates_to_fetch(bindings: &Vec<GolemWorkerBinding>) -> (r: Vec<TemplateId>)
    ensures
        r@ == binding_templates(bindings@),
{
    let mut r: Vec<TemplateId> = Vec::new();
    let mut i: usize = 0;
    while i < bindings.len()
        invariant
            i <= bindings.len(),
            r@ == binding_templates(bindings@.take(i as int)),
        decreases bindings.len() - i,
    {
        proof {
            assert(bindings@.take(i + 1) == bindings@.take(i as int).push(bindings@[i as int]));
        }
        r.push(bindings[i].template);
        i = i + 1;
    }
    proof {
        assert(bindings@.take(i as int) == bindings@);
    }
    r
}

/// Gathers the answers of the template service: all the templates where
/// every one was found, and otherwise the identifiers of those that were not.
pub fn collect_templates<T, E>(results: Vec<Result<T, TemplateId>>) -> (r: Result<
    Vec<T>,
    ApiRegistrationError<E>,
>)
    ensures
        missing_templates(results@).len() == 0 ==> (r matches Ok(templates) && templates@
            == fetched_templates(results@)),
        missing_templates(results@).len() > 0 ==> (r matches Err(
            ApiRegistrationError::TemplateNotFoundError(ids),
        ) && ids@ == missing_templates(results@)),
{
    let ghost answers = results@;
    let mut templates: Vec<T> = Vec::new();
    let mut missing: Vec<TemplateId> = Vec::new();
    for result in it: results.into_iter()
        invariant
            it.seq() == answers,
            templates@ == fetched_templates(answers.take(it.index() as int)),
            missing@ == missing_templates(answers.take(it.index() as int)),
    {
        proof {
            let i = it.index() as int;
            assert(answers.take(i + 1).drop_last() == answers.take(i));
            assert(answers.take(i + 1).last() == answers[i]);
        }
        match result {
            Ok(template) => templates.push(template),
            Err(id) => missing.push(id),
        }
    }
    proof {
        assert(answers.take(answers.len() as int) == answers);
    }
    if missing.len() > 0 {
        Err(ApiRegistrationError::TemplateNotFoundError(missing))
    } else {
        Ok(templates)
    }
}

/// The key of the definition with this identifier and version in this
/// namespace.
pub open spec fn key_of<Namespace>(
    api_definition_id: ApiDefinitionId,
    version: ApiVersion,
    namespace: Namespace,
) -> ApiDefinitionKey<Namespace> {
    ApiDefinitionKey { namespace, id: api_definition_id, version }
}

/// The key under which a request of a caller with `auth_ctx` looks up or
/// deletes a definition. The caller's authorisation plays no part at this
/// level: the key depends on the identifier, version and namespace alone.
pub fn lookup_key<Namespace, AuthCtx>(
    api_definition_id: &ApiDefinitionId,
    version: &ApiVersion,
    namespace: Namespace,
    _auth_ctx: &AuthCtx,
) -> (r: ApiDefinitionKey<Namespace>)
    ensures
        r == key_of(*api_definition_id, *version, namespace),
{
    ApiDefinitionKey { namespace, id: api_definition_id.duplicate(), version: version.duplicate() }
}

/// Two callers that look up, or delete, the same definition in the same
/// namespace are answered alike, whatever their authorisation: they use the
/// same key, and the answer is a function of the store's answer to that key.
pub proof fn lemma_lookup_ignores_auth_context<Namespace, AuthCtx, T, E>(
    api_definition_id: ApiDefinitionId,
    version: ApiVersion,
    namespace: Namespace,
    first_auth: AuthCtx,
    second_auth: AuthCtx,
    first_key: ApiDefinitionKey<Namespace>,
    second_key: ApiDefinitionKey<Namespace>,
    store_answer: Result<T, ApiRegistrationRepoError>,
    first_answer: ApiResult<T, E>,
    second_answer: ApiResult<T, E>,
)
    requires
        first_key == key_of(api_definition_id, version, namespace),
        second_key == key_of(api_definition_id, version, namespace),
        is_repo_outcome(store_answer, first_answer),
        is_repo_outcome(store_answer, second_answer),
    ensures
        first_key == second_key,
        first_answer == second_answer,
{
}

/// `answer` is the service's answer to a look-up or a listing on which the
/// store answered `found`: what the store found, or the store's failure.
pub open spec fn is_repo_outcome<T, E>(
    found: Result<T, ApiRegistrationRepoError>,
    answer: ApiResult<T, E>,
) -> bool {
    match found {
        Ok(value) => answer == Ok::<T, ApiRegistrationError<E>>(value),
        Err(error) => answer == Err::<T, ApiRegistrationError<E>>(
            ApiRegistrationError::RepoError(error),
        ),
    }
}

/// The service's answer to a look-up or a listing, from the store's answer:
/// what the store found, or the store's failure.
pub fn repo_outcome<T, E>(found: Result<T, ApiRegistrationRepoError>) -> (r: ApiResult<T, E>)
    ensures
        is_repo_outcome(found, r),
{
    match found {
        Ok(value) => Ok(value),
        Err(error) => Err(ApiRegistrationError::RepoError(error)),
    }
}

/// The service's answer to a deletion, from the store's answer: the
/// identifier of the deleted definition, nothing where there was none to
/// delete, or the store's failure.
pub fn delete_outcome<Namespace, E>(
    key: ApiDefinitionKey<Namespace>,
    deleted: Result<bool, ApiRegistrationRepoError>,
) -> (r: ApiResult<Option<ApiDefinitionId>, E>)
    ensures
        deleted == Ok::<bool, ApiRegistrationRepoError>(true) ==> r == Ok::<
            Option<ApiDefinitionId>,
            ApiRegistrationError<E>,
        >(Some(key.id)),
        deleted == Ok::<bool, ApiRegistrationRepoError>(false) ==> r == Ok::<
            Option<ApiDefinitionId>,
            ApiRegistrationError<E>,
        >(None),
        deleted matches Err(error) ==> r == Err::<Option<ApiDefinitionId>, ApiRegistrationError<E>>(
            ApiRegistrationError::RepoError(error),
        ),
{
    match deleted {
        Ok(true) => Ok(Some(key.id)),
        Ok(false) => Ok(None),
        Err(error) => Err(ApiRegistrationError::RepoError(error)),
    }
}

/// The next piece of outside work of a registration, or its answer.
pub enum RegisterAction<Namespace, T, E> {
    /// Fetch the latest version of each of these templates.
    FetchTemplates(Vec<TemplateId>),
    /// Validate the definition against these templates.
    Validate(Vec<T>),
    /// Store the definition under this key.
    Store(ApiDefinitionKey<Namespace>),
    /// The registration is over; answer the request with this.
    Finish(ApiResult<ApiDefinitionId, E>),
}

/// What a piece of outside work of a registration gave.
pub enum RegisterEvent<T, E> {
    /// For each template asked for, in order, the template or its identifier
    /// where it could not be fetched.
    TemplatesFetched(Vec<Result<T, TemplateId>>),
    /// The answer of the validator.
    Validated(Result<(), ValidationErrors<E>>),
    /// The answer of the store.
    Stored(Result<(), ApiRegistrationRepoError>),
}

/// How far the registration of one definition has come.
pub enum Registration<Namespace> {
    /// Waiting for the templates; the definition is to be stored under this key.
    FetchingTemplates(ApiDefinitionKey<Namespace>),
    /// Waiting for the validator; the definition is to be stored under this key.
    Validating(ApiDefinitionKey<Namespace>),
    /// Waiting for the store; the definition has this identifier.
    Storing(ApiDefinitionId),
    /// The request has been answered.
    Finished,
}

impl<Namespace> Registration<Namespace> {
    /// The number of events after which the registration is over at the latest.
    pub open spec fn remaining_events(self) -> nat {
        match self {
            Registration::FetchingTemplates(_) => 3,
            Registration::Validating(_) => 2,
            Registration::Storing(_) => 1,
            Registration::Finished => 0,
        }
    }

    /// The registration is waiting for an event of this kind.
    pub open spec fn awaits<T, E>(self, event: RegisterEvent<T, E>) -> bool {
        match (self, event) {
            (Registration::FetchingTemplates(_), RegisterEvent::TemplatesFetched(_)) => true,
            (Registration::Validating(_), RegisterEvent::Validated(_)) => true,
            (Registration::Storing(_), RegisterEvent::Stored(_)) => true,
            _ => false,
        }
    }

    /// On `event`, the registration moves to `next` and calls for `action`:
    ///
    /// - when templates are missing, it answers with their identifiers, in
    ///   order; otherwise it has the definition validated against the
    ///   templates found, in order;
    /// - when the validator finds errors, it answers with them; otherwise it
    ///   has the definition stored under its key;
    /// - when the store fails, it answers with its failure; otherwise it
    ///   answers with the definition's identifier.
    pub open spec fn is_step<T, E>(
        self,
        event: RegisterEvent<T, E>,
        next: Self,
        action: RegisterAction<Namespace, T, E>,
    ) -> bool {
        match (self, event) {
            (
                Registration::FetchingTemplates(key),
                RegisterEvent::TemplatesFetched(results),
            ) => if missing_templates(results@).len() > 0 {
                &&& next == Registration::<Namespace>::Finished
                &&& action matches RegisterAction::Finish(
                    Err(ApiRegistrationError::TemplateNotFoundError(ids)),
                )
                &&& ids@ == missing_templates(results@)
            } else {
                &&& next == Registration::Validating(key)
                &&& action matches RegisterAction::Validate(templates)
                &&& templates@ == fetched_templates(results@)
            },
            (Registration::Validating(key), RegisterEvent::Validated(validated)) => match validated {
                Ok(_) => {
                    &&& next == Registration::<Namespace>::Storing(key.id)
                    &&& action == RegisterAction::<Namespace, T, E>::Store(key)
                },
                Err(errors) => {
                    &&& next == Registration::<Namespace>::Finished
                    &&& action == RegisterAction::<Namespace, T, E>::Finish(
                        Err(ApiRegistrationError::ValidationError(errors)),
                    )
                },
            },
            (Registration::Storing(id), RegisterEvent::Stored(stored)) => {
                &&& next == Registration::<Namespace>::Finished
                &&& action == RegisterAction::<Namespace, T, E>::Finish(
                    match stored {
                        Ok(_) => Ok(id),
                        Err(error) => Err(ApiRegistrationError::RepoError(error)),
                    },
                )
            },
            _ => false,
        }
    }

    /// Starts the registration, in `namespace`, of the definition with this
    /// identifier, version and worker bindings: the templates of its bindings
    /// are fetched first, and the definition is to be stored under its
    /// identifier and version in `namespace`.
    pub fn start<T, E>(
        api_definition_id: &ApiDefinitionId,
        version: &ApiVersion,
        bindings: &Vec<GolemWorkerBinding>,
        namespace: Namespace,
    ) -> (r: (Self, RegisterAction<Namespace, T, E>))
        ensures
            r.0 == Registration::FetchingTemplates(
                ApiDefinitionKey { namespace, id: *api_definition_id, version: *version },
            ),
            r.1 matches RegisterAction::FetchTemplates(ids) && ids@ == binding_templates(bindings@),
    {
        let key = ApiDefinitionKey {
            namespace,
            id: api_definition_id.duplicate(),
            version: version.duplicate(),
        };
        (Registration::FetchingTemplates(key), RegisterAction::FetchTemplates(templates_to_fetch(bindings)))
    }

    /// Whether the registration is waiting for an event of this kind.
    pub fn awaits_event<T, E>(&self, event: &RegisterEvent<T, E>) -> (r: bool)
        ensures
            r == self.awaits(*event),
    {
        match (self, event) {
            (Registration::FetchingTemplates(_), RegisterEvent::TemplatesFetched(_)) => true,
            (Registration::Validating(_), RegisterEvent::Validated(_)) => true,
            (Registration::Storing(_), RegisterEvent::Stored(_)) => true,
            _ => false,
        }
    }

    /// Takes in what the outside work gave, and decides what comes next.
    pub fn step<T, E>(self, event: RegisterEvent<T, E>) -> (r: (Self, RegisterAction<Namespace, T, E>))
        requires
            self.awaits(event),
        ensures
            self.is_step(event, r.0, r.1),
    {
        match (self, event) {
            (
                Registration::FetchingTemplates(key),
                RegisterEvent::TemplatesFetched(results),
            ) => match collect_templates(results) {
                Ok(templates) => (Registration::Validating(key), RegisterAction::Validate(templates)),
                Err(error) => (Registration::Finished, RegisterAction::Finish(Err(error))),
            },
            (Registration::Validating(key), RegisterEvent::Validated(validated)) => match validated {
                Ok(()) => {
                    let id = key.id.duplicate();
                    (Registration::Storing(id), RegisterAction::Store(key))
                },
                Err(errors) => (
                    Registration::Finished,
                    RegisterAction::Finish(Err(ApiRegistrationError::ValidationError(errors))),
                ),
            },
            (Registration::Storing(id), RegisterEvent::Stored(stored)) => match stored {
                Ok(()) => (Registration::Finished, RegisterAction::Finish(Ok(id))),
                Err(error) => (
                    Registration::Finished,
                    RegisterAction::Finish(Err(ApiRegistrationError::RepoError(error))),
                ),
            },
            _ => vstd::pervasive::unreached(),
        }
    }
}

/// Every step brings a registration closer to its end, and a step answers
/// the request exactly when it ends the registration: a registration is
/// over after at most three events.
pub proof fn lemma_registration_progresses<Namespace, T, E>(
    state: Registration<Namespace>,
    event: RegisterEvent<T, E>,
    next: Registration<Namespace>,
    action: RegisterAction<Namespace, T, E>,
)
    requires
        state.is_step(event, next, action),
    ensures
        next.remaining_events() < state.remaining_events(),
        (action is Finish) <==> (next is Finished),
{
}

/// A registration that began by waiting for the templates, with the
/// definition to be stored under `key`, answers with success only after
/// three events: every template was found, the validator found no error, and
/// the store accepted the definition under `key`. It then answers with the
/// identifier in `key`.
pub proof fn lemma_registration_succeeds_only_when_stored<Namespace, T, E>(
    key: ApiDefinitionKey<Namespace>,
    first: RegisterEvent<T, E>,
    second: RegisterEvent<T, E>,
    third: RegisterEvent<T, E>,
    after_first: Registration<Namespace>,
    after_second: Registration<Namespace>,
    after_third: Registration<Namespace>,
    first_action: RegisterAction<Namespace, T, E>,
    second_action: RegisterAction<Namespace, T, E>,
    third_action: RegisterAction<Namespace, T, E>,
    id: ApiDefinitionId,
)
    requires
        Registration::FetchingTemplates(key).is_step(first, after_first, first_action),
        after_first.is_step(second, after_second, second_action),
        after_second.is_step(third, after_third, third_action),
        third_action == RegisterAction::<Namespace, T, E>::Finish(Ok(id)),
    ensures
        first matches RegisterEvent::TemplatesFetched(results) && missing_templates(results@).len()
            == 0,
        second matches RegisterEvent::Validated(Ok(_)),
        second_action == RegisterAction::<Namespace, T, E>::Store(key),
        third matches RegisterEvent::Stored(Ok(_)),
        id == key.id,
{
}

/// The service that registers nothing: it accepts every definition without
/// keeping it, and finds none.
pub struct RegisterApiDefinitionNoop {}

impl RegisterApiDefinitionNoop {
    /// Accepts the definition and answers with the identifier "noop".
    pub fn register<D, Namespace, AuthCtx, E>(
        &self,
        _definition: &D,
        _namespace: Namespace,
        _auth_ctx: &AuthCtx,
    ) -> (r: ApiResult<ApiDefinitionId, E>)
        ensures
            r matches Ok(id) && id@ == "noop"@,
    {
        Ok(ApiDefinitionId("noop".to_owned()))
    }

    /// Finds nothing.
    pub fn get<D, Namespace, AuthCtx, E>(
        &self,
        _api_definition_id: &ApiDefinitionId,
        _version: &ApiVersion,
        _namespace: Namespace,
        _auth_ctx: &AuthCtx,
    ) -> (r: ApiResult<Option<D>, E>)
        ensures
            r == Ok::<Option<D>, ApiRegistrationError<E>>(None),
    {
        Ok(None)
    }

    /// Deletes nothing.
    pub fn delete<Namespace, AuthCtx, E>(
        &self,
        _api_definition_id: &ApiDefinitionId,
        _version: &ApiVersion,
        _namespace: Namespace,
        _auth_ctx: &AuthCtx,
    ) -> (r: ApiResult<Option<ApiDefinitionId>, E>)
        ensures
            r == Ok::<Option<ApiDefinitionId>, ApiRegistrationError<E>>(None),
    {
        Ok(None)
    }

    /// Lists no definition.
    pub fn get_all<D, Namespace, AuthCtx, E>(
        &self,
        _namespace: Namespace,
        _auth_ctx: &AuthCtx,
    ) -> (r: ApiResult<Vec<D>, E>)
        ensures
            r matches Ok(definitions) && definitions.len() == 0,
    {
        Ok(Vec::new())
    }

    /// Lists no version of any definition.
    pub fn get_all_versions<D, Namespace, AuthCtx, E>(
        &self,
        _api_id: &ApiDefinitionId,
        _namespace: Namespace,
        _auth_ctx: &AuthCtx,
    ) -> (r: ApiResult<Vec<D>, E>)
        ensures
            r matches Ok(definitions) && definitions.len() == 0,
    {
        Ok(Vec::new())
    }
}

} // verus!
