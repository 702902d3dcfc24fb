use amp::cleaner::{setup_signal_handler, try_cleanup_playbook, NO_CONTENT};
use amp::client::errors::ClientError;
use amp::cmd::{
    clean, create_context, delete_context, dev_options, init_name, list, may_init, run_options, run_source,
    select_context, use_context, version, wants_new_context, CleanStep, OptionItem, PlaybookTable, Source,
};
use amp::config::{Cluster, Config, Configuration, ContextConfiguration, LevelFilter};
use amp::context::{get_context, Context, Session};
use amp::errors::Errors;
use amp::globals::{
    config, contexts, set_global_config, set_global_contexts, set_global_verbosity, verbosity, Globals,
};
use amp::logger::{event_of, tail, LogEvent, TailAction};
use amp::pipeline::{create, fetch, lead, lead_name, load, pull, run, Options, Step};
use amp::resource::{CharacterSpec, GitReference, Metadata, PlaybookSpec, Preface, RegistryReference};
use amp::schema::character::Character;
use amp::schema::manifest::Manifest;
use amp::schema::playbook::Playbook;
use amp::schema::workspace::Workspace;
use amp::text::{eq_ignore_ascii_case, number, same, split_lines, split_lines_without_bom};

fn character(name: &str, repository: &str) -> CharacterSpec {
    CharacterSpec {
        meta: Metadata { name: name.to_string(), repository: repository.to_string() },
        live: false,
        once: false,
    }
}

fn spec(id: &str, title: &str, preface: Preface, characters: Option<Vec<CharacterSpec>>) -> PlaybookSpec {
    PlaybookSpec { id: id.to_string(), title: title.to_string(), description: None, preface, characters }
}

fn cluster(title: &str) -> Cluster {
    Cluster { title: title.to_string(), server: format!("https://{}.example.com", title), token: Some("t".to_string()) }
}

#[test]
fn numbers_are_written_in_decimal() {
    assert_eq!(number(0), "0");
    assert_eq!(number(7), "7");
    assert_eq!(number(10), "10");
    assert_eq!(number(204), "204");
    assert_eq!(number(1234567890), "1234567890");
    assert_eq!(number(u64::MAX), "18446744073709551615");
}

#[test]
fn texts_are_compared() {
    assert!(same("abc", "abc"));
    assert!(!same("abc", "abd"));
    assert!(!same("abc", "ab"));
    assert!(same("", ""));
    assert!(eq_ignore_ascii_case("X-RateLimit-Limit", "x-ratelimit-limit"));
    assert!(eq_ignore_ascii_case("abc", "ABC"));
    assert!(!eq_ignore_ascii_case("abc", "abd"));
    assert!(!eq_ignore_ascii_case("@", "`"));
    assert!(!eq_ignore_ascii_case("[", "{"));
    assert!(!eq_ignore_ascii_case("a", "aa"));
    assert!(eq_ignore_ascii_case("é", "é"));
    assert!(!eq_ignore_ascii_case("é", "É"));
}

#[test]
fn texts_are_split_into_lines() {
    assert_eq!(split_lines(""), Vec::<String>::new());
    assert_eq!(split_lines("a"), vec!["a"]);
    assert_eq!(split_lines("a\n"), vec!["a"]);
    assert_eq!(split_lines("a\n\n"), vec!["a", ""]);
    assert_eq!(split_lines("a\r\nb"), vec!["a", "b"]);
    assert_eq!(split_lines("a\rb\r"), vec!["a\rb\r"]);
    assert_eq!(split_lines("\n"), vec![""]);
    assert_eq!(split_lines("one\ntwo\r\nthree"), vec!["one", "two", "three"]);
    for text in ["", "a", "a\n", "a\n\nb", "a\r\nb\r\n", "\r\n", "x\r", "\n\n\n", "a\r\r\nb"] {
        let expected: Vec<String> = text.lines().map(String::from).collect();
        assert_eq!(split_lines(text), expected);
    }
    assert_eq!(split_lines_without_bom("\u{feff}\u{feff}a\nb"), vec!["a", "b"]);
    assert_eq!(split_lines_without_bom("a\n\u{feff}b"), vec!["a", "\u{feff}b"]);
    assert_eq!(split_lines_without_bom("\u{feff}"), Vec::<String>::new());
}

#[test]
fn a_session_takes_its_steps_in_order() {
    let all = Options { cleanup: true, tail: true, live: true, once: false };
    assert_eq!(run(all), vec![Step::Wait(10), Step::Resolve, Step::Upload, Step::Watch, Step::Tail, Step::Cleanup]);
    let none = Options { cleanup: false, tail: false, live: false, once: true };
    assert_eq!(run(none), vec![Step::Wait(10), Step::Resolve]);
    let once = Options { cleanup: true, tail: true, live: true, once: true };
    assert_eq!(run(once), vec![Step::Wait(10), Step::Resolve, Step::Upload, Step::Tail, Step::Cleanup]);
    let watch_only = Options { cleanup: false, tail: false, live: false, once: false };
    assert_eq!(run(watch_only), vec![Step::Wait(10), Step::Resolve, Step::Watch]);
}

#[test]
fn playbooks_are_created_untitled() {
    let payload = pull("https://github.com/amphitheatre-app/amp-example-go");
    assert_eq!(payload.title, "Untitled");
    assert_eq!(payload.description, "");
    assert_eq!(payload.preface, Preface::repository("https://github.com/amphitheatre-app/amp-example-go"));
    assert_eq!(
        payload.preface.repository,
        Some(GitReference { repo: "https://github.com/amphitheatre-app/amp-example-go".to_string() })
    );
    assert_eq!(payload.preface.name, None);

    let payload = fetch("amp-example-go");
    assert_eq!(payload.title, "Untitled");
    assert_eq!(payload.description, "");
    assert_eq!(payload.preface.name, Some("amp-example-go".to_string()));
    assert_eq!(
        payload.preface.registry,
        Some(RegistryReference {
            name: "amp-example-go".to_string(),
            registry: "hub".to_string(),
            version: "latest".to_string(),
        })
    );
    assert_eq!(payload.preface.repository, None);
    assert_eq!(payload.preface.manifest, None);

    let manifest = Character { name: "lead".to_string(), repository: "https://example.com/r".to_string(), ..Character::default() };
    for once in [true, false] {
        let payload = load(&manifest, once);
        assert_eq!(payload.title, "Untitled");
        assert_eq!(payload.description, "");
        assert_eq!(payload.preface.name, Some("lead".to_string()));
        let mut expected = character("lead", "https://example.com/r");
        expected.live = true;
        expected.once = once;
        assert_eq!(payload.preface.manifest, Some(expected));
    }
    assert_eq!(CharacterSpec::from(&manifest), character("lead", "https://example.com/r"));
}

#[test]
fn the_answer_to_a_creation_is_read() {
    let playbook = spec("p1", "Untitled", Preface::repository("r"), None);
    assert_eq!(create(Ok(playbook.clone())), Ok(playbook));
    assert_eq!(create(Err(ClientError::BadGateway)), Err(Errors::FailedCreatePlaybook(ClientError::BadGateway)));
}

#[test]
fn the_lead_is_named_by_the_preface_or_found_by_its_repository() {
    let from_registry = spec("p", "t", Preface::registry("lead", "hub", "latest"), None);
    assert_eq!(lead_name(&from_registry), Some("lead".to_string()));
    let from_manifest = spec("p", "t", Preface::manifest(character("local", "r")), None);
    assert_eq!(lead_name(&from_manifest), Some("local".to_string()));
    assert_eq!(lead(&from_manifest), Ok("local".to_string()));

    let characters = vec![character("a", "https://x/a"), character("b", "https://x/b"), character("c", "https://x/b")];
    let from_repository = spec("p", "t", Preface::repository("https://x/b"), Some(characters.clone()));
    assert_eq!(lead_name(&from_repository), Some("b".to_string()));
    let unknown = spec("p", "t", Preface::repository("https://x/z"), Some(characters));
    assert_eq!(lead_name(&unknown), None);
    assert_eq!(lead(&unknown), Err(Errors::InvalidCharacter));
    let unresolved = spec("p", "t", Preface::repository("https://x/b"), None);
    assert_eq!(lead_name(&unresolved), None);
    let nothing = Preface { name: Some("n".to_string()), repository: None, registry: None, manifest: None };
    assert_eq!(lead_name(&spec("p", "t", nothing, Some(Vec::new()))), None);
    // a preface from the registry without a name has no lead
    let mut nameless = Preface::registry("lead", "hub", "latest");
    nameless.name = None;
    assert_eq!(lead_name(&spec("p", "t", nameless, None)), None);
}

#[test]
fn an_interrupt_deletes_the_playbook_of_the_session() {
    let playbook = spec("p1", "t", Preface::repository("r"), None);
    assert_eq!(setup_signal_handler(true, &Some(playbook.clone())), Some("p1".to_string()));
    assert_eq!(setup_signal_handler(false, &Some(playbook)), None);
    assert_eq!(setup_signal_handler(true, &None), None);
    assert_eq!(setup_signal_handler(false, &None), None);
}

#[test]
fn only_no_content_means_deleted() {
    assert_eq!(NO_CONTENT, 204);
    assert_eq!(try_cleanup_playbook("p1", Ok(204)), Ok(()));
    assert_eq!(try_cleanup_playbook("p1", Ok(200)), Err(Errors::FailedDeletePlaybook("p1".to_string())));
    assert_eq!(try_cleanup_playbook("p1", Ok(404)), Err(Errors::FailedDeletePlaybook("p1".to_string())));
    assert_eq!(
        try_cleanup_playbook("p1", Err(ClientError::Unauthorized)),
        Err(Errors::ClientError(ClientError::Unauthorized))
    );
}

#[test]
fn log_messages_are_printed_verbatim() {
    assert_eq!(tail(LogEvent::Open), TailAction::Announce);
    assert_eq!(tail(LogEvent::Message("  line 1\t\n".to_string())), TailAction::Print("  line 1\t\n".to_string()));
    assert_eq!(tail(LogEvent::Message(String::new())), TailAction::Print(String::new()));
    assert_eq!(tail(LogEvent::Failed("stream ended".to_string())), TailAction::Close("stream ended".to_string()));
}

#[test]
fn run_decides_where_the_playbook_comes_from() {
    let git = Some("https://x/r".to_string());
    let name = Some("lead".to_string());
    let file = Some("a/.amp.toml".to_string());
    assert_eq!(run_source(git.clone(), name.clone(), file.clone()), Source::Repository("https://x/r".to_string()));
    assert_eq!(run_source(None, name, file.clone()), Source::Registry("lead".to_string()));
    assert_eq!(run_source(None, None, file.clone()), Source::Manifest(file));
    assert_eq!(run_source(None, None, None), Source::Manifest(None));

    assert_eq!(
        run_options(true, false, &Source::Repository("r".to_string())),
        Options { cleanup: true, tail: false, live: false, once: true }
    );
    assert_eq!(
        run_options(false, true, &Source::Registry("n".to_string())),
        Options { cleanup: false, tail: true, live: false, once: true }
    );
    assert_eq!(
        run_options(true, true, &Source::Manifest(None)),
        Options { cleanup: true, tail: true, live: true, once: true }
    );
    assert_eq!(dev_options(true, false), Options { cleanup: true, tail: false, live: true, once: false });
}

#[test]
fn clean_decides_what_to_delete() {
    let playbooks = vec![
        spec("1", "first", Preface::repository("r"), None),
        spec("2", "second", Preface::repository("r"), None),
    ];
    assert_eq!(clean(true, false, &Vec::new()), CleanStep::Report("No playbooks found".to_string()));
    assert_eq!(clean(false, false, &Vec::new()), CleanStep::Report("No playbooks found".to_string()));
    assert_eq!(clean(true, true, &playbooks), CleanStep::Report("Would delete all playbooks".to_string()));
    assert_eq!(clean(true, false, &playbooks), CleanStep::Delete(vec!["1".to_string(), "2".to_string()]));
    let items = vec![
        OptionItem("1".to_string(), "first".to_string()),
        OptionItem("2".to_string(), "second".to_string()),
    ];
    assert_eq!(clean(false, false, &playbooks), CleanStep::Select(items.clone()));
    assert_eq!(clean(false, true, &playbooks), CleanStep::Select(items.clone()));
    assert_eq!(items[0].playbook_label(), "#1 first");
    assert_eq!(items[1].context_label(), "second");
}

#[test]
fn playbooks_are_listed_as_rows() {
    assert_eq!(list(&Vec::new()), None);
    let mut described = spec("2", "second", Preface::repository("r"), None);
    described.description = Some("what it does".to_string());
    let playbooks = vec![spec("1", "first", Preface::repository("r"), None), described];
    assert_eq!(
        list(&playbooks),
        Some(vec![
            PlaybookTable { id: "1".to_string(), title: "first".to_string(), description: String::new() },
            PlaybookTable { id: "2".to_string(), title: "second".to_string(), description: "what it does".to_string() },
        ])
    );
    assert_eq!(
        PlaybookTable::from(&playbooks[1]),
        PlaybookTable { id: "2".to_string(), title: "second".to_string(), description: "what it does".to_string() }
    );
}

#[test]
fn contexts_are_added_selected_and_deleted() {
    let mut contexts = ContextConfiguration::new();
    assert_eq!(contexts.current(), None);
    assert!(contexts.select("dev").is_err());
    assert_eq!(contexts.add("dev", cluster("dev")), Ok(()));
    assert_eq!(contexts.add("prod", cluster("prod")), Ok(()));
    assert!(contexts.add("dev", cluster("other")).is_err());
    assert_eq!(contexts.titles(), vec![("dev".to_string(), "dev".to_string()), ("prod".to_string(), "prod".to_string())]);
    assert_eq!(contexts.current(), None);
    assert_eq!(contexts.select("prod"), Ok(()));
    assert_eq!(contexts.current(), Some((&"prod".to_string(), &cluster("prod"))));
    assert!(contexts.select("staging").is_err());
    assert_eq!(contexts.current(), Some((&"prod".to_string(), &cluster("prod"))));
    assert!(contexts.delete("staging").is_err());
    assert_eq!(contexts.delete("dev"), Ok(()));
    assert_eq!(contexts.current(), Some((&"prod".to_string(), &cluster("prod"))));
    assert_eq!(contexts.delete("prod"), Ok(()));
    assert_eq!(contexts.current(), None);
    assert!(contexts.titles().is_empty());
    assert_eq!(cluster("a").duplicate(), cluster("a"));
}

#[test]
fn contexts_are_offered_for_choice() {
    let mut contexts = ContextConfiguration::new();
    contexts.add("dev", cluster("Development")).unwrap();
    contexts.add("prod", cluster("Production")).unwrap();
    let items = select_context(&contexts, false);
    assert_eq!(
        items,
        vec![
            OptionItem("dev".to_string(), "Development".to_string()),
            OptionItem("prod".to_string(), "Production".to_string()),
        ]
    );
    let items = select_context(&contexts, true);
    assert_eq!(items.len(), 3);
    assert_eq!(items[2], OptionItem("$$CREATE$$".to_string(), "Create new context".to_string()));
    assert!(wants_new_context(&items[2]));
    assert!(!wants_new_context(&items[0]));
    assert_eq!(select_context(&ContextConfiguration::new(), true).len(), 1);
}

#[test]
fn the_context_in_use_is_found() {
    assert_eq!(get_context(&Configuration { context: None }), Err(Errors::NotFoundCurrentContext));
    let mut contexts = ContextConfiguration::new();
    contexts.add("dev", cluster("dev")).unwrap();
    assert_eq!(
        get_context(&Configuration { context: Some(contexts.clone()) }),
        Err(Errors::NotFoundCurrentContext)
    );
    contexts.select("dev").unwrap();
    let configuration = Configuration { context: Some(contexts) };
    assert_eq!(get_context(&configuration), Ok(cluster("dev")));

    let context = match Context::init(configuration.clone()) {
        Ok(context) => context,
        Err(error) => panic!("no context: {:?}", error),
    };
    assert_eq!(context.cluster, cluster("dev"));
    assert_eq!(context.configuration, configuration);
    assert_eq!(context.client.base_url(), "https://dev.example.com");
    assert_eq!(context.client.url("/playbooks"), "https://dev.example.com/v1/playbooks");
    assert_eq!(context.client.auth_token(), "t");
    assert_eq!(context.session.workspace, None);
    assert!(matches!(Context::init(Configuration { context: None }), Err(Errors::NotFoundCurrentContext)));
}

#[test]
fn a_cluster_without_a_token_signs_with_nothing() {
    let mut contexts = ContextConfiguration::new();
    let open = Cluster { title: "open".to_string(), server: "http://localhost:8170".to_string(), token: None };
    contexts.add("open", open).unwrap();
    contexts.select("open").unwrap();
    let context = match Context::init(Configuration { context: Some(contexts) }) {
        Ok(context) => context,
        Err(error) => panic!("no context: {:?}", error),
    };
    assert_eq!(context.client.base_url(), "http://localhost:8170");
    assert_eq!(context.client.auth_token(), "");
}

#[test]
fn a_session_takes_the_loaded_character() {
    let manifest = Character { name: "lead".to_string(), ..Character::default() };
    let mut session = Session::new();
    assert_eq!(session.try_load("/ws/project/.amp.toml", Ok(manifest.clone())), Some(Ok(())));
    assert_eq!(session.workspace, Some("/ws/project".to_string()));
    assert_eq!(session.character, Some(manifest.clone()));
    assert_eq!(
        session.try_load("/elsewhere/.amp.toml", Err("no such file".to_string())),
        Some(Err(Errors::FailedLoadManifest("no such file".to_string())))
    );
    assert_eq!(session.workspace, Some("/ws/project".to_string()));
    assert_eq!(session.try_load("/", Ok(manifest.clone())), None);
    assert_eq!(session.workspace, Some("/ws/project".to_string()));
    assert_eq!(session.load(".amp.toml", Ok(manifest)), Ok(()));
    assert_eq!(session.workspace, Some(String::new()));
}

#[test]
fn globals_are_set_once_and_read_after() {
    let mut globals = Globals::new();
    assert!(!globals.has_config());
    assert!(!globals.has_contexts());
    assert!(!globals.has_verbosity());
    set_global_config(&mut globals, Config { repo: "r".to_string() });
    assert!(globals.has_config());
    assert!(!globals.has_contexts());
    assert_eq!(config(&globals), &Config { repo: "r".to_string() });
    set_global_verbosity(&mut globals, LevelFilter::Debug);
    assert_eq!(verbosity(&globals), &LevelFilter::Debug);
    let mut known = ContextConfiguration::new();
    known.add("dev", cluster("dev")).unwrap();
    set_global_contexts(&mut globals, known.clone());
    assert_eq!(contexts(&globals), &known);
    assert_eq!(config(&globals), &Config { repo: "r".to_string() });
    assert_eq!(Config::default(), Config { repo: String::new() });
}

#[test]
fn init_decides_whether_and_under_which_name() {
    assert_eq!(init_name(Some("given".to_string()), "directory".to_string()), "given");
    assert_eq!(init_name(None, "directory".to_string()), "directory");
    assert!(may_init(false, false));
    assert!(!may_init(false, true));
    assert!(may_init(true, true));
    assert!(may_init(true, false));
    assert_eq!(version(), "amp 0.1.0");
}

#[test]
fn characters_and_playbooks_display() {
    let lead = Character { name: "lead".to_string(), repository: "https://x/r".to_string(), ..Character::default() };
    assert_eq!(lead.to_string(), "lead https://x/r");
    assert_eq!(Character::default().to_string(), " ");
    let playbook = Playbook { id: 1, title: "Default".to_string(), description: "First".to_string(), lead: lead.clone() };
    assert_eq!(playbook.to_string(), "Playbook (Default, First)");
    assert_eq!(Playbook::default().to_string(), "Playbook (, )");
    assert_eq!(Manifest::default().character, Character::default());
    assert_eq!(Manifest { character: lead.clone() }.character.name, "lead");
}

#[test]
fn a_new_workspace_is_empty() {
    let workspace = match Workspace::new() {
        Ok(workspace) => workspace,
        Err(error) => panic!("no workspace: {:?}", error),
    };
    assert_eq!(workspace.root_manifest(), "");
    assert_eq!(workspace.try_root(), None);
    assert!(workspace.try_current().is_none());
    assert_eq!(workspace.try_members(), Some(Vec::new()));
    assert!(workspace.members().is_empty());
}

#[test]
fn only_some_steps_end_the_session() {
    assert!(Step::Resolve.is_fatal());
    assert!(Step::Upload.is_fatal());
    assert!(!Step::Wait(10).is_fatal());
    assert!(!Step::Watch.is_fatal());
    assert!(!Step::Tail.is_fatal());
    assert!(!Step::Cleanup.is_fatal());
}

#[test]
fn lines_of_the_stream_are_read() {
    assert_eq!(event_of("data: hello"), Some(LogEvent::Message("hello".to_string())));
    assert_eq!(event_of("data:hello"), Some(LogEvent::Message("hello".to_string())));
    assert_eq!(event_of("data:  two spaces"), Some(LogEvent::Message(" two spaces".to_string())));
    assert_eq!(event_of("data:"), Some(LogEvent::Message(String::new())));
    assert_eq!(event_of("data: "), Some(LogEvent::Message(String::new())));
    assert_eq!(event_of(""), None);
    assert_eq!(event_of(": keep-alive"), None);
    assert_eq!(event_of("event: message"), None);
    assert_eq!(event_of("data"), None);
    assert_eq!(event_of("Data: x"), None);
    assert_eq!(event_of(" data: x"), None);
    assert_eq!(event_of("id: 7"), None);
}

#[test]
fn contexts_of_a_configuration_are_changed() {
    let mut nothing = Configuration { context: None };
    assert_eq!(use_context(&mut nothing, "dev"), Err(Errors::NotFoundContexts));
    assert_eq!(delete_context(&mut nothing, "dev"), Err(Errors::NotFoundContexts));
    assert_eq!(create_context(&mut nothing, "dev", cluster("dev")), Err(Errors::NotFoundContexts));
    assert_eq!(nothing, Configuration { context: None });

    let mut configuration = Configuration { context: Some(ContextConfiguration::new()) };
    assert_eq!(create_context(&mut configuration, "dev", cluster("dev")), Ok(()));
    assert!(matches!(
        create_context(&mut configuration, "dev", cluster("again")),
        Err(Errors::FailedAddContext(_))
    ));
    assert!(matches!(use_context(&mut configuration, "prod"), Err(Errors::FailedSelectContext(_))));
    assert_eq!(use_context(&mut configuration, "dev"), Ok(()));
    assert_eq!(get_context(&configuration), Ok(cluster("dev")));
    assert!(matches!(delete_context(&mut configuration, "prod"), Err(Errors::FailedDeleteContext(_))));
    assert_eq!(delete_context(&mut configuration, "dev"), Ok(()));
    assert_eq!(get_context(&configuration), Err(Errors::NotFoundCurrentContext));
    let contexts = configuration.context.unwrap();
    assert!(contexts.entries().is_empty());
    assert_eq!(contexts.chosen_name(), None);
}

#[test]
fn contexts_hand_their_clusters_out() {
    let mut contexts = ContextConfiguration::new();
    contexts.add("dev", cluster("dev")).unwrap();
    contexts.add("prod", cluster("prod")).unwrap();
    contexts.select("prod").unwrap();
    assert_eq!(contexts.entries(), vec![("dev".to_string(), cluster("dev")), ("prod".to_string(), cluster("prod"))]);
    assert_eq!(contexts.chosen_name(), Some("prod".to_string()));
}

#[test]
fn failures_display_as_their_messages() {
    let io = amp::filesystem::errors::IoError {
        kind: amp::filesystem::errors::IoErrorKind::NotFound,
        message: "path not found".to_string(),
    };
    let cases = vec![
        (Errors::InvalidConfigPath("x".to_string()), "Invalid configuration path".to_string()),
        (Errors::FailedLoadConfiguration("x".to_string()), "Failed to load configuration".to_string()),
        (Errors::NotFoundCurrentContext, "Not found current context".to_string()),
        (Errors::ClientError(ClientError::BadGateway), "Client error: Bad Gateway".to_string()),
        (Errors::FailedLoadManifest("no such file".to_string()), "Failed to load manifest: no such file".to_string()),
        (
            Errors::NotFoundManifest(amp::filesystem::errors::Error::Io(io)),
            "Could not find `.amp.toml` in current directory or any parent directory".to_string(),
        ),
        (Errors::FailedDeletePlaybook("p1".to_string()), "Failed to delete playbook: p1".to_string()),
        (Errors::FailedDeleteContext("gone".to_string()), "Failed to delete context: gone".to_string()),
        (Errors::NotFoundContext("dev".to_string()), "Not found context: dev".to_string()),
        (Errors::FailedSaveConfiguration("x".to_string()), "Failed to save configuration".to_string()),
        (Errors::TomlSerializeError("x".to_string()), "Failed to serialize toml".to_string()),
        (Errors::FailedSaveManifest("disk full".to_string()), "Failed to save manifest: disk full".to_string()),
        (Errors::NotFoundContexts, "Not found available contexts".to_string()),
        (Errors::InvalidManifest("x".to_string()), "Invalid manifest: x".to_string()),
        (Errors::WalkError("x".to_string()), "Failed to walk the workspace: x".to_string()),
        (Errors::FailedCreateWatcher("x".to_string()), "Failed to create watcher: x".to_string()),
        (Errors::FailedWatchDirectory("x".to_string()), "Failed to watch directory: x".to_string()),
        (Errors::InquireError("x".to_string()), "Failed to inquire: x".to_string()),
        (Errors::FailedSelectContext("x".to_string()), "Failed to select context: x".to_string()),
        (Errors::FailedAddContext("x".to_string()), "Failed to add context: x".to_string()),
        (Errors::FailedStripPrefix, "Failed to strip prefix".to_string()),
        (Errors::FailedAppendPath("../x".to_string()), "Failed to append path: ../x".to_string()),
        (Errors::FailedFinishTar, "Failed to finish tar".to_string()),
        (
            Errors::FailedCreatePlaybook(ClientError::NotFound("nope".to_string())),
            "Failed to create playbook: nope".to_string(),
        ),
        (Errors::InvalidCharacter, "Invalid character".to_string()),
        (
            Errors::VirtualManifest("/ws/.amp.toml".to_string()),
            "manifest path `/ws/.amp.toml` is a virtual manifest, but this command requires running against an actual character in this workspace".to_string(),
        ),
    ];
    for (error, text) in cases {
        assert_eq!(error.to_string(), text);
    }
}
