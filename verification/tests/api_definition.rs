use golem_api_model::api_definition::{
    ApiDefinitionId, ApiDefinitionKey, ApiRegistrationError,
    ApiRegistrationRepoError, ApiResult, ApiVersion, GolemApiDefinition, GolemWorkerBinding,
    TemplateId, ValidationErrors,
};
use golem_api_model::platform::Uuid;
use golem_api_model::service::{
    collect_templates, delete_outcome, lookup_key, repo_outcome, templates_to_fetch,
    ApiDefinitionServiceDefault, RegisterAction, RegisterApiDefinitionNoop, RegisterEvent,
    Registration,
};

struct Definition {
    id: ApiDefinitionId,
    version: ApiVersion,
    bindings: Vec<GolemWorkerBinding>,
}

impl GolemApiDefinition for Definition {
    fn get_api_definition_id(&self) -> &ApiDefinitionId {
        &self.id
    }

    fn get_version(&self) -> &ApiVersion {
        &self.version
    }

    fn get_golem_worker_bindings(&self) -> &Vec<GolemWorkerBinding> {
        &self.bindings
    }
}

fn template(n: u128) -> TemplateId {
    TemplateId(Uuid::from_u128(n))
}

fn definition(templates: &[u128]) -> Definition {
    Definition {
        id: ApiDefinitionId("shop".to_string()),
        version: ApiVersion("0.1".to_string()),
        bindings: templates.iter().map(|n| GolemWorkerBinding { template: template(*n) }).collect(),
    }
}

fn key(namespace: &str) -> ApiDefinitionKey<String> {
    ApiDefinitionKey {
        namespace: namespace.to_string(),
        id: ApiDefinitionId("shop".to_string()),
        version: ApiVersion("0.1".to_string()),
    }
}

#[test]
fn displayed_keeps_the_id_and_version_and_shows_the_namespace() {
    let k = key("account-1");
    assert_eq!(k.displayed(), key("account-1"));
    let numbered = ApiDefinitionKey {
        namespace: 42u32,
        id: ApiDefinitionId("a".to_string()),
        version: ApiVersion("1".to_string()),
    };
    assert_eq!(
        numbered.displayed(),
        ApiDefinitionKey {
            namespace: "42".to_string(),
            id: ApiDefinitionId("a".to_string()),
            version: ApiVersion("1".to_string()),
        }
    );
    assert_eq!(numbered.clone(), numbered);
}

#[test]
fn the_default_service_holds_its_parts() {
    let service = ApiDefinitionServiceDefault::new(1u8, "repo", 'v');
    assert_eq!(service.template_service, 1u8);
    assert_eq!(service.register_repo, "repo");
    assert_eq!(service.api_definition_validator, 'v');
}

#[test]
fn the_templates_to_fetch_are_those_of_the_bindings_in_order() {
    let d = definition(&[3, 1, 3]);
    assert_eq!(
        templates_to_fetch(d.get_golem_worker_bindings()),
        vec![template(3), template(1), template(3)]
    );
    assert_eq!(templates_to_fetch(&vec![]), vec![]);
}

#[test]
fn collected_templates_are_all_found_or_the_missing_ones_reported() {
    let found: Result<Vec<&str>, ApiRegistrationError<String>> =
        collect_templates(vec![Ok("a"), Ok("b")]);
    assert_eq!(found, Ok(vec!["a", "b"]));

    let missing: Result<Vec<&str>, ApiRegistrationError<String>> =
        collect_templates(vec![Err(template(1)), Ok("b"), Err(template(2))]);
    assert_eq!(
        missing,
        Err(ApiRegistrationError::TemplateNotFoundError(vec![template(1), template(2)]))
    );

    let none: Result<Vec<&str>, ApiRegistrationError<String>> = collect_templates(vec![]);
    assert_eq!(none, Ok(vec![]));
}

#[test]
fn lookups_and_listings_pass_on_what_the_store_answers() {
    let k = lookup_key(
        &ApiDefinitionId("shop".to_string()),
        &ApiVersion("0.1".to_string()),
        "ns".to_string(),
        &"alice",
    );
    assert_eq!(k, key("ns"));
    let other = lookup_key(
        &ApiDefinitionId("shop".to_string()),
        &ApiVersion("0.1".to_string()),
        "ns".to_string(),
        &42u64,
    );
    assert_eq!(other, k);

    let found: ApiResult<Option<u8>, String> = repo_outcome(Ok(Some(4)));
    assert_eq!(found, Ok(Some(4)));
    let listed: ApiResult<Vec<u8>, String> = repo_outcome(Ok(vec![1, 2]));
    assert_eq!(listed, Ok(vec![1, 2]));
    let failed: ApiResult<Option<u8>, String> =
        repo_outcome(Err(ApiRegistrationRepoError::InternalError("down".to_string())));
    assert_eq!(
        failed,
        Err(ApiRegistrationError::RepoError(ApiRegistrationRepoError::InternalError(
            "down".to_string()
        )))
    );
}

#[test]
fn a_deletion_answers_the_identifier_only_when_something_was_deleted() {
    let deleted: ApiResult<Option<ApiDefinitionId>, String> = delete_outcome(key("ns"), Ok(true));
    assert_eq!(deleted, Ok(Some(ApiDefinitionId("shop".to_string()))));
    let absent: ApiResult<Option<ApiDefinitionId>, String> = delete_outcome(key("ns"), Ok(false));
    assert_eq!(absent, Ok(None));
    let failed: ApiResult<Option<ApiDefinitionId>, String> =
        delete_outcome(key("ns"), Err(ApiRegistrationRepoError::AlreadyExists(key("ns"))));
    assert_eq!(
        failed,
        Err(ApiRegistrationError::RepoError(ApiRegistrationRepoError::AlreadyExists(key("ns"))))
    );
}

#[test]
fn repo_and_validation_errors_convert_into_registration_errors() {
    let e: ApiRegistrationError<u8> =
        ApiRegistrationRepoError::InternalError("x".to_string()).into();
    assert_eq!(e, ApiRegistrationError::RepoError(ApiRegistrationRepoError::InternalError("x".to_string())));
    let e: ApiRegistrationError<u8> = ValidationErrors { errors: vec![1, 2] }.into();
    assert_eq!(e, ApiRegistrationError::ValidationError(ValidationErrors { errors: vec![1, 2] }));
}

type Action = RegisterAction<String, &'static str, String>;
type Event = RegisterEvent<&'static str, String>;

fn started(templates: &[u128]) -> (Registration<String>, Action) {
    let d = definition(templates);
    Registration::start(
        d.get_api_definition_id(),
        d.get_version(),
        d.get_golem_worker_bindings(),
        "ns".to_string(),
    )
}

fn step(state: Registration<String>, event: Event) -> (Registration<String>, Action) {
    assert!(state.awaits_event(&event));
    state.step(event)
}

#[test]
fn a_registration_fetches_validates_stores_and_answers_the_id() {
    let (state, action) = started(&[1, 2]);
    assert!(matches!(action, RegisterAction::FetchTemplates(ref ids) if *ids == vec![template(1), template(2)]));
    let event: Event = RegisterEvent::TemplatesFetched(vec![Ok("one"), Ok("two")]);
    let (state, action) = step(state, event);
    assert!(matches!(action, RegisterAction::Validate(ref ts) if *ts == vec!["one", "two"]));
    let (state, action) = step(state, RegisterEvent::Validated(Ok(())));
    match action {
        RegisterAction::Store(k) => assert_eq!(k, key("ns")),
        _ => panic!("expected a store"),
    }
    let (state, action) = step(state, RegisterEvent::Stored(Ok(())));
    assert!(matches!(state, Registration::Finished));
    match action {
        RegisterAction::Finish(answer) => assert_eq!(answer, Ok(ApiDefinitionId("shop".to_string()))),
        _ => panic!("expected an answer"),
    }
}

#[test]
fn a_registration_with_missing_templates_answers_their_ids() {
    let (state, _) = started(&[1, 2, 3]);
    let (state, action) = step(state, RegisterEvent::TemplatesFetched(vec![Err(template(1)), Ok("two"), Err(template(3))]));
    assert!(matches!(state, Registration::Finished));
    match action {
        RegisterAction::Finish(answer) => assert_eq!(
            answer,
            Err(ApiRegistrationError::TemplateNotFoundError(vec![template(1), template(3)]))
        ),
        _ => panic!("expected an answer"),
    }
    let late: Event = RegisterEvent::Stored(Ok(()));
    assert!(!state.awaits_event(&late));
}

#[test]
fn a_registration_that_fails_validation_answers_the_errors() {
    let (state, _) = started(&[]);
    let (state, _) = step(state, RegisterEvent::TemplatesFetched(vec![]));
    let (state, action) = step(state, RegisterEvent::Validated(Err(ValidationErrors { errors: vec!["bad route".to_string()] })));
    assert!(matches!(state, Registration::Finished));
    match action {
        RegisterAction::Finish(answer) => assert_eq!(
            answer,
            Err(ApiRegistrationError::ValidationError(ValidationErrors { errors: vec!["bad route".to_string()] }))
        ),
        _ => panic!("expected an answer"),
    }
}

#[test]
fn a_registration_the_store_refuses_answers_the_store_error() {
    let (state, _) = started(&[7]);
    let (state, _) = step(state, RegisterEvent::TemplatesFetched(vec![Ok("seven")]));
    let (state, _) = step(state, RegisterEvent::Validated(Ok(())));
    let refusal = ApiRegistrationRepoError::AlreadyExists(key("ns"));
    let (state, action) = step(state, RegisterEvent::Stored(Err(refusal)));
    assert!(matches!(state, Registration::Finished));
    match action {
        RegisterAction::Finish(answer) => assert_eq!(
            answer,
            Err(ApiRegistrationError::RepoError(ApiRegistrationRepoError::AlreadyExists(key("ns"))))
        ),
        _ => panic!("expected an answer"),
    }
}

#[test]
fn the_noop_service_accepts_everything_and_finds_nothing() {
    let noop = RegisterApiDefinitionNoop {};
    let id: ApiResult<ApiDefinitionId, String> = noop.register(&definition(&[1]), "ns".to_string(), &());
    assert_eq!(id, Ok(ApiDefinitionId("noop".to_string())));
    let found: ApiResult<Option<Definition>, String> = noop.get(
        &ApiDefinitionId("shop".to_string()),
        &ApiVersion("0.1".to_string()),
        "ns".to_string(),
        &(),
    );
    assert!(matches!(found, Ok(None)));
    let deleted: ApiResult<Option<ApiDefinitionId>, String> = noop.delete(
        &ApiDefinitionId("shop".to_string()),
        &ApiVersion("0.1".to_string()),
        "ns".to_string(),
        &(),
    );
    assert_eq!(deleted, Ok(None));
    let all: ApiResult<Vec<u8>, String> = noop.get_all("ns".to_string(), &());
    assert_eq!(all, Ok(vec![]));
    let versions: ApiResult<Vec<u8>, String> =
        noop.get_all_versions(&ApiDefinitionId("shop".to_string()), "ns".to_string(), &());
    assert_eq!(versions, Ok(vec![]));
}

#[test]
fn registration_errors_clone_to_equal_copies() {
    let e: ApiRegistrationError<String> =
        ApiRegistrationError::TemplateNotFoundError(vec![template(1)]);
    assert_eq!(e.clone(), e);
}
