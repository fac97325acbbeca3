use std::collections::HashMap;
use std::path::PathBuf;

use kamu::env_vars::{
    DatasetEnvVar, DatasetEnvVarNotFoundError, DatasetEnvVarValue, DatasetKeyValueService,
    FindDatasetEnvVarError,
};
use kamu::error::InternalError;
use kamu::event_store::{
    EventOwner, EventQuery, EventRecord, EventRow, GetEventsOpts, SaveEventsError,
    SqliteFlowSystemEventStore,
};
use kamu::explore::notebook_server_impl::{
    started_url, ContainerRuntimeType, JupyterConfig, NotebookServerImpl, ShellContainerSpec,
    VolumeSource,
};
use kamu::explore::token_extractor::TokenExtractor;
use kamu::flow::types::{
    DatasetFlowType, FlowKey, FlowKeyDataset, FlowKeySystem, SystemFlowType,
};
use kamu::ids::{DatasetID, EventID};
use kamu::object_store_builder_s3::{
    store_or_error, Credentials, ObjectStoreBuilderS3, S3Context, S3StoreConfig,
};
use kamu::tail_command::TailCommand;
use kamu::text::to_decimal;
use kamu::time::DateTime;
use kamu::workspace_layout::{is_plain_name, CreateStep, DatasetAlias, WorkspaceLayout};

#[test]
fn test_decimal_notation() {
    assert_eq!(to_decimal(0), "0");
    assert_eq!(to_decimal(7), "7");
    assert_eq!(to_decimal(10), "10");
    assert_eq!(to_decimal(8080), "8080");
    assert_eq!(to_decimal(u64::MAX), "18446744073709551615");
    for n in 0..2000u64 {
        assert_eq!(to_decimal(n).parse::<u64>(), Ok(n));
    }
}

#[test]
fn test_layout_of_a_workspace() {
    let layout = WorkspaceLayout::new("/ws/.kamu");
    assert_eq!(layout.root_dir, PathBuf::from("/ws/.kamu"));
    assert_eq!(layout.datasets_dir, PathBuf::from("/ws/.kamu/datasets"));
    assert_eq!(layout.repos_dir, PathBuf::from("/ws/.kamu/repos"));
    assert_eq!(layout.cache_dir, PathBuf::from("/ws/.kamu/cache"));
    assert_eq!(layout.run_info_dir, PathBuf::from("/ws/.kamu/run"));
    assert_eq!(layout.version_path, PathBuf::from("/ws/.kamu/version"));
    assert_eq!(WorkspaceLayout::VERSION, 1);
    assert_eq!(layout.clone().cache_dir, layout.cache_dir);
}

fn described(steps: Vec<CreateStep<'_>>) -> Vec<String> {
    steps
        .iter()
        .map(|step| match step {
            CreateStep::CreateDir(path) => format!("mkdir {}", path.display()),
            CreateStep::WriteFile(path, text) => format!("write {} {}", path.display(), text),
        })
        .collect()
}

#[test]
fn test_creation_of_a_workspace() {
    let layout = WorkspaceLayout::new(PathBuf::from("w"));
    let rest = ["mkdir w/datasets", "mkdir w/repos", "mkdir w/cache", "mkdir w/run", "write w/version 1"];
    assert_eq!(described(layout.creation_steps(true, false)), rest);
    for (exists, entries) in [(false, false), (true, true)] {
        let steps = described(layout.creation_steps(exists, entries));
        assert_eq!(steps[0], "mkdir w");
        assert_eq!(&steps[1..], rest);
    }
}

#[test]
fn test_layout_of_a_dataset() {
    let layout = WorkspaceLayout::new("w");
    let alias = DatasetAlias { account_name: None, dataset_name: "my.data-set".to_owned() };
    assert_eq!(layout.dataset_layout(&alias).root_dir, PathBuf::from("w/datasets/my.data-set"));
}

#[test]
fn test_plain_names() {
    for name in ["a", "my.data-set", "...", ".a", "\u{e9}"] {
        assert!(is_plain_name(name), "{}", name);
    }
    for name in ["", ".", "..", "a/b", "/a", "a\\b", "c:"] {
        assert!(!is_plain_name(name), "{}", name);
    }
}

fn server() -> NotebookServerImpl<()> {
    NotebookServerImpl::new(
        (),
        JupyterConfig { image: Some("jupyter:1".to_owned()), livy_image: Some("livy:2".to_owned()) },
    )
}

#[test]
fn test_images_of_the_notebook_server() {
    assert!(server().is_configured());
    assert_eq!(server().ensure_images(), vec!["livy:2", "jupyter:1"]);
    let bare = NotebookServerImpl::new((), JupyterConfig { image: None, livy_image: None });
    assert!(!bare.is_configured());
}

#[test]
fn test_livy_container() {
    let c = server().livy_container();
    assert_eq!(c.image, "livy:2");
    assert_eq!(c.container_name, "kamu-livy");
    assert_eq!(c.hostname, Some("kamu-livy".to_owned()));
    assert_eq!(c.network, "kamu");
    assert_eq!(c.user, "root");
    assert_eq!(c.work_dir, "/opt/bitnami/spark/work-dir");
    assert_eq!(c.volume_source, VolumeSource::Datasets);
    assert_eq!(c.entry_point, Some("/opt/livy/bin/livy-server".to_owned()));
    assert_eq!(c.expose_port, None);
}

#[test]
fn test_jupyter_container() {
    let env = vec![("A".to_owned(), "1".to_owned())];
    let c = server().jupyter_container(None, env.clone());
    assert_eq!(c.image, "jupyter:1");
    assert_eq!(c.environment_vars, env);
    assert_eq!(c.expose_port, Some(80));
    assert_eq!(
        c.args,
        vec!["jupyter", "notebook", "--allow-root", "--ip", "0.0.0.0", "--port", "80"]
    );
    let c = server().jupyter_container(Some(8888), vec![]);
    assert_eq!(c.args[6], "8888");
    assert_eq!(c.expose_port, Some(80));
    assert_eq!(c.volume_source, VolumeSource::WorkingDir);
}

#[test]
fn test_logs_of_the_notebook_server() {
    let logs = server().log_paths(&WorkspaceLayout::new("w"));
    assert_eq!(logs.livy_stdout, PathBuf::from("w/run/livy.out.txt"));
    assert_eq!(logs.livy_stderr, PathBuf::from("w/run/livy.err.txt"));
    assert_eq!(logs.jupyter_stdout, PathBuf::from("w/run/jupyter.out.txt"));
    assert_eq!(logs.jupyter_stderr, PathBuf::from("w/run/jupyter.err.txt"));
}

#[test]
fn test_address_of_the_notebook_server() {
    assert_eq!(
        started_url("127.0.0.1", 32768, "abc123"),
        "http://127.0.0.1:32768/?token=abc123"
    );
}

#[test]
fn test_permissions_are_fixed_under_docker() {
    let image = server().jupyter_container(None, vec![]).image;
    assert_eq!(
        server().fix_permissions_container(ContainerRuntimeType::Docker, 1000, 985),
        Some(ShellContainerSpec {
            image,
            shell_cmd: "chown -Rf 1000:985 /opt/workdir".to_owned(),
            user: "root".to_owned(),
            volume_source: VolumeSource::WorkingDir,
            volume_target: "/opt/workdir".to_owned(),
        })
    );
    assert_eq!(server().fix_permissions_container(ContainerRuntimeType::Podman, 1000, 985), None);
}

#[test]
fn test_token_is_reported_once() {
    let mut extractor = TokenExtractor::new();
    assert_eq!(extractor.on_line("[I] Serving notebooks\n"), None);
    assert_eq!(extractor.on_line("token=\n"), None);
    assert_eq!(extractor.on_line("token=ABC\n"), None);
    assert_eq!(
        extractor.on_line("http://localhost/?token=abc123DEF or token=zzz\n"),
        Some("abc123".to_owned())
    );
    assert_eq!(extractor.on_line("token=second\n"), None);
}

#[test]
fn test_leftmost_token_counts() {
    let token = |line: &str| TokenExtractor::new().on_line(line);
    assert_eq!(token("token=token=a1"), Some("token".to_owned()));
    assert_eq!(token("token==x token=9z!"), Some("9z".to_owned()));
    assert_eq!(token("tokentoken=q"), Some("q".to_owned()));
    assert_eq!(token("\u{e9}token=\u{e9} token=0"), Some("0".to_owned()));
    assert_eq!(token(""), None);
    assert_eq!(token("Token=abc"), None);
}

fn store(bucket: &str) -> ObjectStoreBuilderS3 {
    ObjectStoreBuilderS3::new(
        S3Context {
            endpoint: Some("http://localhost:9000".to_owned()),
            bucket: bucket.to_owned(),
            region: Some("us-east-1".to_owned()),
        },
        Credentials {
            access_key_id: "key-id".to_owned(),
            secret_access_key: "key".to_owned(),
        },
        true,
    )
}

#[test]
fn test_address_of_a_bucket() {
    assert_eq!(store("my-bucket").object_store_url(), "s3://my-bucket/");
    assert_eq!(store("my-bucket").try_object_store_url(), Some("s3://my-bucket/".to_owned()));
    assert_eq!(store("a b").try_object_store_url(), None);
    assert_eq!(store("x/../y").try_object_store_url(), Some("s3://x/y/".to_owned()));
}

#[test]
fn test_settings_of_a_store() {
    let s = store("b");
    assert!(s.is_reachable());
    assert_eq!(
        s.store_config(),
        S3StoreConfig {
            endpoint: "http://localhost:9000".to_owned(),
            region: "us-east-1".to_owned(),
            access_key_id: "key-id".to_owned(),
            secret_access_key: "key".to_owned(),
            bucket_name: "b".to_owned(),
            allow_http: true,
        }
    );
    let nowhere = ObjectStoreBuilderS3::new(
        S3Context { endpoint: None, bucket: "b".to_owned(), region: None },
        Credentials { access_key_id: String::new(), secret_access_key: String::new() },
        false,
    );
    assert!(!nowhere.is_reachable());
}

#[test]
fn test_client_of_a_store() {
    match store("my-bucket").build_object_store() {
        Ok(client) => assert_eq!(client.to_string(), "AmazonS3(my-bucket)"),
        Err(e) => panic!("{:?}", e),
    }
}

#[test]
fn test_client_holds_its_settings() {
    let described = match store("my-bucket").build_object_store() {
        Ok(client) => format!("{:?}", client),
        Err(e) => panic!("{:?}", e),
    };
    for setting in ["http://localhost:9000", "us-east-1", "my-bucket", "key-id"] {
        assert!(described.contains(setting), "{}", setting);
    }
}

#[test]
fn test_failed_attempt_gives_its_text() {
    match store_or_error(Err("no certificates".to_owned())) {
        Ok(_) => panic!("There is no client"),
        Err(e) => assert_eq!(e, InternalError::Message("no certificates".to_owned())),
    }
    match store("b").build_object_store() {
        Ok(client) => assert!(store_or_error(Ok(client)).is_ok()),
        Err(e) => panic!("{:?}", e),
    }
}

fn dataset_key() -> FlowKey {
    FlowKey::Dataset(FlowKeyDataset {
        dataset_id: DatasetID { did: "did:odf:a".to_owned() },
        flow_type: DatasetFlowType::Ingest,
    })
}

fn record(n: i64) -> EventRecord<i64> {
    EventRecord {
        event_type: "FlowConfigurationEventCreated".to_owned(),
        event_time: DateTime::from_timestamp(n, 0).unwrap(),
        payload: n,
    }
}

#[test]
fn test_queries_for_events() {
    let store = SqliteFlowSystemEventStore::new("tx");
    assert_eq!(*store.transaction(), "tx");
    assert_eq!(
        store.get_events(
            &dataset_key(),
            GetEventsOpts { from: Some(EventID { id: 3 }), to: None }
        ),
        EventQuery {
            owner: EventOwner::Dataset("did:odf:a".to_owned(), DatasetFlowType::Ingest),
            from_id: Some(3),
            to_id: None,
        }
    );
    let system = FlowKey::System(FlowKeySystem { flow_type: SystemFlowType::GC });
    assert_eq!(
        store.get_events(&system, GetEventsOpts { from: None, to: Some(EventID { id: 9 }) }),
        EventQuery { owner: EventOwner::System(SystemFlowType::GC), from_id: None, to_id: Some(9) }
    );
}

#[test]
fn test_events_are_saved_under_their_numbers() {
    let store = SqliteFlowSystemEventStore::new(());
    assert_eq!(store.ids_needed(0), Err(SaveEventsError::NothingToSave));
    assert_eq!(store.ids_needed(2), Ok(2));
    let rows = store.save_events(&dataset_key(), vec![record(1), record(2)], &vec![41, 42]);
    assert_eq!(rows.len(), 2);
    assert_eq!(rows[0].event_id, 41);
    assert_eq!(rows[0].event, record(1));
    assert_eq!(rows[1].event_id, 42);
    assert_eq!(rows[1].event, record(2));
    assert_eq!(
        rows[1].owner,
        EventOwner::Dataset("did:odf:a".to_owned(), DatasetFlowType::Ingest)
    );
    assert_eq!(store.save_events(&dataset_key(), vec![record(1), record(2)], &vec![41]).len(), 1);
    assert_eq!(store.last_event_id(&vec![41, 42]), EventID { id: 42 });
}

/// What the database answers to a query.
fn answer<'a>(table: &'a [EventRow<i64>], query: &EventQuery) -> Vec<&'a EventRow<i64>> {
    table
        .iter()
        .filter(|row| row.owner == query.owner)
        .filter(|row| match query.from_id {
            Some(from) => row.event_id > from,
            None => true,
        })
        .filter(|row| match query.to_id {
            Some(to) => row.event_id <= to,
            None => true,
        })
        .collect()
}

fn numbers(rows: Vec<&EventRow<i64>>) -> Vec<i64> {
    rows.iter().map(|row| row.event_id).collect()
}

#[test]
fn test_saved_events_are_read_back() {
    let store = SqliteFlowSystemEventStore::new(());
    let system = FlowKey::System(FlowKeySystem { flow_type: SystemFlowType::GC });
    let all = || GetEventsOpts { from: None, to: None };
    let mut table = store.save_events(&dataset_key(), vec![record(1)], &vec![1]);
    table.extend(store.save_events(&system, vec![record(2), record(3)], &vec![2, 3]));
    table.extend(store.save_events(&dataset_key(), vec![record(4), record(5)], &vec![4, 5]));
    assert_eq!(table.len(), 5);

    let own = answer(&table, &store.get_events(&dataset_key(), all()));
    assert_eq!(numbers(own), vec![1, 4, 5]);
    let of_system = answer(&table, &store.get_events(&system, all()));
    assert_eq!(of_system[1].event, record(3));
    assert_eq!(numbers(of_system), vec![2, 3]);
}

#[test]
fn test_adjacent_intervals_join() {
    let store = SqliteFlowSystemEventStore::new(());
    let system = FlowKey::System(FlowKeySystem { flow_type: SystemFlowType::GC });
    for key in [dataset_key(), system] {
        let events = vec![record(1), record(2), record(3), record(4)];
        let table = store.save_events(&key, events, &vec![1, 2, 3, 4]);
        let read = |from: i64, to: i64| {
            let opts =
                GetEventsOpts { from: Some(EventID { id: from }), to: Some(EventID { id: to }) };
            numbers(answer(&table, &store.get_events(&key, opts)))
        };
        assert_eq!(read(1, 2), vec![2]);
        assert_eq!(read(2, 4), vec![3, 4]);
        assert_eq!(read(1, 4), vec![2, 3, 4]);
        assert!(read(2, 2).is_empty());
    }
}

#[test]
fn test_number_of_events() {
    let store = SqliteFlowSystemEventStore::new(());
    assert_eq!(store.len(5), Ok(5));
    assert_eq!(
        store.len(-1),
        Err(InternalError::Message(
            "out of range integral type conversion attempted".to_owned()
        ))
    );
}

struct PlainVars;

impl DatasetKeyValueService for PlainVars {
    fn find_dataset_env_var_value_by_key(
        &self,
        dataset_env_var_key: &str,
        dataset_env_vars: &HashMap<String, DatasetEnvVar>,
    ) -> Result<DatasetEnvVarValue, FindDatasetEnvVarError> {
        match dataset_env_vars.get(dataset_env_var_key) {
            Some(var) => match String::from_utf8(var.value.clone()) {
                Ok(value) => Ok(DatasetEnvVarValue::Regular(value)),
                Err(_) => Err(InternalError::Message("not text".to_owned()).into()),
            },
            None => Err(DatasetEnvVarNotFoundError {
                dataset_env_var_key: dataset_env_var_key.to_owned(),
            }
            .into()),
        }
    }
}

#[test]
fn test_env_var_errors() {
    let mut vars = HashMap::new();
    for (key, value) in [("a", vec![104, 105]), ("b", vec![0xff])] {
        vars.insert(
            key.to_owned(),
            DatasetEnvVar { key: key.to_owned(), value, secret_nonce: None },
        );
    }
    let svc = PlainVars;
    assert_eq!(
        svc.find_dataset_env_var_value_by_key("a", &vars),
        Ok(DatasetEnvVarValue::Regular("hi".to_owned()))
    );
    assert_eq!(
        svc.find_dataset_env_var_value_by_key("b", &vars),
        Err(FindDatasetEnvVarError::Internal(InternalError::Message("not text".to_owned())))
    );
    assert_eq!(
        svc.find_dataset_env_var_value_by_key("c", &vars),
        Err(FindDatasetEnvVarError::NotFound(DatasetEnvVarNotFoundError {
            dataset_env_var_key: "c".to_owned(),
        }))
    );
}

#[test]
fn test_tail_request() {
    let id = DatasetID { did: "did:odf:a".to_owned() };
    let command = TailCommand::new(1u8, id.clone(), 10, 2u8);
    assert_eq!(command.request(), (&id, 10));
    assert_eq!(*command.query_svc(), 1);
    assert_eq!(*command.output_cfg(), 2);
}
