use bend_package::command::{accepts, handle_package_cmd, init, PackageCmd, Task};
use bend_package::error::PackageError;
use bend_package::manifest::update_mod;
use bend_package::fetch::{
    begin, checkout_error, find_last_slash, get, is_dependency_name, mirror_folder, remove,
    remove_repo, repository_name, repository_url, setup_remote, setup_repo, try_remove, Action,
    CheckoutFailure, Event, FetchPlan, RemoteAction, RemoteState, Stage, Step,
};

fn plan(version: Option<&str>) -> FetchPlan {
    get("host/org/project", version.map(|v| v.to_string()), None)
}

fn registered(url: &str) -> RemoteState {
    RemoteState::Registered { url: Some(url.to_string()) }
}

#[test]
fn repository_name_is_the_last_segment() {
    assert_eq!(repository_name("github.com/org/project"), "project");
    assert_eq!(repository_name("user/repo"), "repo");
    assert_eq!(repository_name("/x"), "x");
    assert_eq!(repository_name("a/b/ç"), "ç");
}

#[test]
fn last_slash_is_found() {
    assert_eq!(find_last_slash("a/b/c"), Some(3));
    assert_eq!(find_last_slash("abc"), None);
    assert_eq!(find_last_slash(""), None);
    assert_eq!(find_last_slash("é/b"), Some(1));
}

#[test]
fn dependency_names() {
    assert!(is_dependency_name("host/org/project"));
    assert!(!is_dependency_name("project"));
    assert!(!is_dependency_name("host/org/"));
    assert!(!is_dependency_name(""));
    assert!(!is_dependency_name("/"));
}

#[test]
fn url_and_folder() {
    assert_eq!(repository_url("github.com/org/project"), "https://github.com/org/project.git");
    assert_eq!(mirror_folder("project"), ".bend/project");
    assert_eq!(remove_repo("github.com/org/project", &None), ".bend/project");
    assert_eq!(remove_repo("github.com/org/project", &Some("p".to_string())), ".bend/p");
    assert_eq!(remove_repo("project", &Some("p".to_string())), ".bend/p");
}

#[test]
fn plan_without_alias() {
    let plan = get("github.com/org/project", None, None);
    assert_eq!(plan.name, "github.com/org/project");
    assert_eq!(plan.url, "https://github.com/org/project.git");
    assert_eq!(plan.folder, ".bend/project");
    assert_eq!(plan.version, None);
    assert_eq!(plan.alias, None);
}

#[test]
fn plan_with_alias_and_version() {
    let plan = get("github.com/org/project", Some("1.2.3".to_string()), Some("p".to_string()));
    assert_eq!(plan.url, "https://github.com/org/project.git");
    assert_eq!(plan.folder, ".bend/p");
    assert_eq!(plan.version, Some("1.2.3".to_string()));
    assert_eq!(plan.alias, Some("p".to_string()));
}

#[test]
fn missing_remote_is_created() {
    assert_eq!(setup_remote(&RemoteState::Missing, "https://a/b.git"), RemoteAction::Create);
}

#[test]
fn stale_remote_is_repointed() {
    assert_eq!(setup_remote(&registered("https://old/b.git"), "https://a/b.git"), RemoteAction::Repoint);
    assert_eq!(setup_remote(&registered(""), "https://a/b.git"), RemoteAction::Repoint);
    let state = RemoteState::Registered { url: None };
    assert_eq!(setup_remote(&state, "https://a/b.git"), RemoteAction::Repoint);
}

#[test]
fn current_remote_is_kept() {
    assert_eq!(setup_remote(&registered("https://a/b.git"), "https://a/b.git"), RemoteAction::Keep);
}

#[test]
fn checkout_errors() {
    let url = "https://a/b.git";
    let missing = CheckoutFailure { missing_reference: true, message: "revspec not found".to_string() };
    assert_eq!(
        checkout_error("9.9.9".to_string(), url, missing),
        PackageError::VersionNotFound { version: "9.9.9".to_string(), url: url.to_string() }
    );
    let other = CheckoutFailure { missing_reference: false, message: "disk full".to_string() };
    assert_eq!(
        checkout_error("1.0.0".to_string(), url, other),
        PackageError::Infrastructure { message: "disk full".to_string() }
    );
}

#[test]
fn first_fetch_of_the_latest_version() {
    let plan = plan(None);
    let (stage, action) = begin();
    assert_eq!((&stage, &action), (&Stage::Opening, &Action::OpenMirror));
    let (stage, action) = setup_repo(&plan, stage, Event::Done);
    assert_eq!((&stage, &action), (&Stage::Looking, &Action::FindRemote));
    let (stage, action) = setup_repo(&plan, stage, Event::Remote(RemoteState::Missing));
    assert_eq!((&stage, &action), (&Stage::Registering, &Action::Run(Step::CreateRemote)));
    let (stage, action) = setup_repo(&plan, stage, Event::Done);
    assert_eq!((&stage, &action), (&Stage::Deleting, &Action::Run(Step::DeleteLocalTags)));
    let (stage, action) = setup_repo(&plan, stage, Event::Done);
    assert_eq!((&stage, &action), (&Stage::Fetching, &Action::Run(Step::FetchTags)));
    let (stage, action) = setup_repo(&plan, stage, Event::Done);
    assert_eq!((&stage, &action), (&Stage::Listing, &Action::ListTags));
    let tags = vec!["1.0.0".to_string(), "2.0.0-rc1".to_string(), "bogus".to_string(), "2.0.0".to_string()];
    let (stage, action) = setup_repo(&plan, stage, Event::Tags(tags));
    assert_eq!(stage, Stage::CheckingOut { tag: "2.0.0".to_string() });
    assert_eq!(action, Action::Checkout { tag: "2.0.0".to_string() });
    let (stage, action) = setup_repo(&plan, stage, Event::Done);
    assert_eq!(stage, Stage::Finished);
    assert_eq!(action, Action::Finish(Ok("2.0.0".to_string())));
}

#[test]
fn second_fetch_of_a_requested_version() {
    let plan = plan(Some("main"));
    let (stage, _) = begin();
    let (stage, _) = setup_repo(&plan, stage, Event::Done);
    let (stage, action) = setup_repo(&plan, stage, Event::Remote(registered("https://host/org/project.git")));
    assert_eq!((&stage, &action), (&Stage::Deleting, &Action::Run(Step::DeleteLocalTags)));
    let (stage, action) = setup_repo(&plan, stage, Event::Done);
    assert_eq!((&stage, &action), (&Stage::Fetching, &Action::Run(Step::FetchTags)));
    let (stage, action) = setup_repo(&plan, stage, Event::Done);
    assert_eq!(stage, Stage::CheckingOut { tag: "main".to_string() });
    assert_eq!(action, Action::Checkout { tag: "main".to_string() });
    let (stage, action) = setup_repo(&plan, stage, Event::Done);
    assert_eq!(stage, Stage::Finished);
    assert_eq!(action, Action::Finish(Ok("main".to_string())));
}

#[test]
fn stale_remote_is_repointed_before_the_tags_are_refreshed() {
    let plan = plan(None);
    let (stage, action) = setup_repo(&plan, Stage::Looking, Event::Remote(registered("https://old.git")));
    assert_eq!((&stage, &action), (&Stage::Registering, &Action::Run(Step::RepointRemote)));
    let (stage, action) = setup_repo(&plan, stage, Event::Done);
    assert_eq!((&stage, &action), (&Stage::Deleting, &Action::Run(Step::DeleteLocalTags)));
}

#[test]
fn fetch_without_semantic_tags_fails() {
    let plan = plan(None);
    let tags = vec!["latest".to_string(), "v1".to_string()];
    let (stage, action) = setup_repo(&plan, Stage::Listing, Event::Tags(tags));
    assert_eq!(stage, Stage::Finished);
    assert_eq!(action, Action::Finish(Err(PackageError::NoTagsFound)));
    let (stage, action) = setup_repo(&plan, Stage::Listing, Event::Tags(Vec::new()));
    assert_eq!(stage, Stage::Finished);
    assert_eq!(action, Action::Finish(Err(PackageError::NoTagsFound)));
}

#[test]
fn failed_checkout_ends_the_fetch() {
    let plan = plan(Some("9.9.9"));
    let at = Stage::CheckingOut { tag: "9.9.9".to_string() };
    let missing = CheckoutFailure { missing_reference: true, message: "not found".to_string() };
    let (stage, action) = setup_repo(&plan, at.clone(), Event::CheckoutFailed(missing));
    assert_eq!(stage, Stage::Finished);
    assert_eq!(
        action,
        Action::Finish(Err(PackageError::VersionNotFound {
            version: "9.9.9".to_string(),
            url: "https://host/org/project.git".to_string(),
        }))
    );
    let other = CheckoutFailure { missing_reference: false, message: "conflict".to_string() };
    let (stage, action) = setup_repo(&plan, at, Event::CheckoutFailed(other));
    assert_eq!(stage, Stage::Finished);
    assert_eq!(
        action,
        Action::Finish(Err(PackageError::Infrastructure { message: "conflict".to_string() }))
    );
}

#[test]
fn any_failure_ends_the_fetch() {
    let plan = plan(None);
    for stage in [Stage::Opening, Stage::Looking, Stage::Registering, Stage::Deleting, Stage::Fetching, Stage::Listing] {
        let (stage, action) = setup_repo(&plan, stage, Event::Failed { message: "unreachable host".to_string() });
        assert_eq!(stage, Stage::Finished);
        assert_eq!(
            action,
            Action::Finish(Err(PackageError::Infrastructure { message: "unreachable host".to_string() }))
        );
    }
}

#[test]
fn unexpected_event_ends_the_fetch() {
    let plan = plan(None);
    let error = Action::Finish(Err(PackageError::Infrastructure { message: "unexpected event".to_string() }));
    let (stage, action) = setup_repo(&plan, Stage::Opening, Event::Tags(Vec::new()));
    assert_eq!((&stage, &action), (&Stage::Finished, &error));
    let (stage, action) = setup_repo(&plan, Stage::Finished, Event::Done);
    assert_eq!((&stage, &action), (&Stage::Finished, &error));
    let (stage, action) = setup_repo(&plan, Stage::Finished, Event::Failed { message: "late".to_string() });
    assert_eq!((&stage, &action), (&Stage::Finished, &error));
    let (stage, action) = setup_repo(&plan, Stage::Listing, Event::Done);
    assert_eq!((&stage, &action), (&Stage::Finished, &error));
}

#[test]
fn remove_hands_out_the_folder_after_the_manifest() {
    let text = "[dependencies]\n\"host/org/project\" = \"1.0.0\"\n";
    let removal = remove(text, "host/org/project").unwrap();
    assert_eq!(removal.manifest, "[dependencies]\n");
    assert_eq!(removal.folder, ".bend/project");
}

#[test]
fn remove_of_an_unknown_dependency_deletes_nothing() {
    let text = "[dependencies]\n\"host/org/project\" = \"1.0.0\"\n";
    assert_eq!(
        remove(text, "host/org/other"),
        Err(PackageError::DependencyNotFound { name: "host/org/other".to_string() })
    );
    assert_eq!(remove("dependencies = 3", "host/org/other"), Err(PackageError::InvalidManifest));
}

#[test]
fn init_writes_the_module_name() {
    assert_eq!(init("demo"), "module = \"demo\"");
}

#[test]
fn commands_become_tasks() {
    let r = handle_package_cmd(PackageCmd::Init { name: "demo".to_string() });
    assert_eq!(r, Ok(Task::CreateManifest { content: "module = \"demo\"".to_string() }));

    let r = handle_package_cmd(PackageCmd::Get {
        name: "host/org/project".to_string(),
        version: None,
        alias: Some("p".to_string()),
    });
    match r {
        Ok(Task::Fetch { plan }) => {
            assert_eq!(plan.folder, ".bend/p");
            assert_eq!(plan.url, "https://host/org/project.git");
        }
        other => panic!("{:?}", other),
    }

    let r = handle_package_cmd(PackageCmd::Remove { name: "host/org/project".to_string() });
    assert_eq!(r, Ok(Task::Remove { name: "host/org/project".to_string() }));
}

#[test]
fn tidy_is_not_supported() {
    assert_eq!(handle_package_cmd(PackageCmd::Tidy), Err(PackageError::NotSupported));
}

#[test]
fn accepted_commands() {
    assert!(accepts(&PackageCmd::Tidy));
    assert!(accepts(&PackageCmd::Init { name: "x".to_string() }));
    assert!(accepts(&PackageCmd::Remove { name: "a/b".to_string() }));
    assert!(accepts(&PackageCmd::Remove { name: "b".to_string() }));
    assert!(accepts(&PackageCmd::Get { name: "b".to_string(), version: None, alias: Some("x".to_string()) }));
    assert!(!accepts(&PackageCmd::Get { name: "b".to_string(), version: None, alias: None }));
    assert!(accepts(&PackageCmd::Get { name: "a/b".to_string(), version: None, alias: None }));
}

#[test]
fn error_messages() {
    assert_eq!(PackageError::NoTagsFound.message(), "No tags found");
    assert_eq!(PackageError::InvalidManifest.message(), "invalid 'mod.toml' format");
    assert_eq!(
        PackageError::DependencyNotFound { name: "a/b".to_string() }.message(),
        "Dependency 'a/b' not found"
    );
    assert_eq!(
        PackageError::VersionNotFound { version: "1.0.0".to_string(), url: "https://a/b.git".to_string() }
            .message(),
        "Version '1.0.0' not found on 'https://a/b.git'"
    );
    assert_eq!(PackageError::Infrastructure { message: "boom".to_string() }.message(), "boom");
    assert_eq!(PackageError::ManifestAlreadyExists.message(), "'mod.toml' already exists");
    assert_eq!(PackageError::NotSupported.message(), "tidy is not supported");
}

#[test]
fn remove_of_an_aliased_dependency_hands_out_the_folder_of_the_alias() {
    let text = "[dependencies]\n\"host/org/project\" = { version = \"1.0.0\", alias = \"p\" }\n\"host/other/p\" = \"2.0.0\"\n";
    let removal = remove(text, "host/org/project").unwrap();
    assert_eq!(removal.folder, ".bend/p");
    assert_eq!(removal.manifest, "[dependencies]\n\"host/other/p\" = \"2.0.0\"\n");
}

#[test]
fn remove_of_a_table_without_alias_uses_the_default_alias() {
    let text = "[dependencies]\n\"host/org/project\" = { version = \"1.0.0\" }\n";
    assert_eq!(remove(text, "host/org/project").unwrap().folder, ".bend/project");
    let text = "[dependencies]\n\"host/org/project\" = { version = \"1.0.0\", alias = 3 }\n";
    assert_eq!(remove(text, "host/org/project").unwrap().folder, ".bend/project");
    let text = "[dependencies.\"host/org/project\"]\nversion = \"1.0.0\"\nalias = \"sub\"\n";
    assert_eq!(remove(text, "host/org/project").unwrap().folder, ".bend/sub");
}

#[test]
fn try_remove_needs_a_folder_to_name() {
    let text = "[dependencies]\nplain = \"1.0.0\"\naliased = { version = \"1.0.0\", alias = \"a\" }\n";
    assert_eq!(try_remove(text, "plain"), None);
    let removal = try_remove(text, "aliased").unwrap().unwrap();
    assert_eq!(removal.folder, ".bend/a");
    assert_eq!(removal.manifest, "[dependencies]\nplain = \"1.0.0\"\n");
    assert_eq!(
        try_remove(text, "unknown"),
        Some(Err(PackageError::DependencyNotFound { name: "unknown".to_string() }))
    );
    assert_eq!(try_remove("[[", "plain"), Some(Err(PackageError::InvalidManifest)));
    assert_eq!(try_remove("dependencies = 1", "plain"), Some(Err(PackageError::InvalidManifest)));
}

#[test]
fn try_remove_is_remove_where_the_name_has_a_default_alias() {
    let text = "[dependencies]\n\"host/org/project\" = \"1.0.0\"\n";
    assert_eq!(try_remove(text, "host/org/project"), Some(remove(text, "host/org/project")));
    assert_eq!(try_remove(text, "host/org/project").unwrap().unwrap().folder, ".bend/project");
}

#[test]
fn mirror_is_removed_from_where_it_was_fetched() {
    let plan = get("host/org/project", None, Some("mine".to_string()));
    let text = update_mod("module = \"m\"\n", &plan.name, "1.0.0", &plan.alias).unwrap();
    let removal = remove(&text, "host/org/project").unwrap();
    assert_eq!(removal.folder, plan.folder);
    assert_eq!(removal.folder, ".bend/mine");

    let plan = get("host/org/project", None, None);
    let text = update_mod("module = \"m\"\n", &plan.name, "1.0.0", &plan.alias).unwrap();
    let removal = remove(&text, "host/org/project").unwrap();
    assert_eq!(removal.folder, plan.folder);
    assert_eq!(removal.folder, ".bend/project");
}
