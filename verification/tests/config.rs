use web_scaffolding::config::{
    config_file, merge_config, read_failure, Config, RuntimeConfig, Settings, Source,
};
use web_scaffolding::database::{database_url, DatabaseStep, MissingUrl};
use web_scaffolding::json::{Json, Number, Object};
use web_scaffolding::network::ReverseProxy;
use web_scaffolding::startup::{Event, Stage, Step};

fn document(members: &[(&str, Json)]) -> Json {
    let mut object = Object::new();
    for (key, value) in members {
        object.insert(key.to_string(), value.clone());
    }
    Json::Object(object)
}

fn number(value: u64) -> Json {
    Json::Number(Number::Unsigned(value))
}

fn source(members: &[(&str, Json)]) -> Source {
    Some(Ok(document(members)))
}

fn field(json: &Json, key: &str) -> Option<u64> {
    match json {
        Json::Object(object) => match object.get(key) {
            Some(Json::Number(Number::Unsigned(value))) => Some(*value),
            _ => None,
        },
        _ => None,
    }
}

#[test]
fn sources_are_merged_by_priority() {
    let default =
        document(&[("a", number(0)), ("b", number(0)), ("c", number(0)), ("d", number(0))]);
    let from_file = source(&[("a", number(1)), ("b", number(1)), ("c", number(1))]);
    let from_cli = source(&[("a", number(2)), ("b", number(2)), ("c", Json::Null)]);
    let from_compile_time = source(&[("a", number(3)), ("b", Json::Null)]);
    let json = merge_config(Ok(default), from_file, from_cli, from_compile_time).unwrap();
    assert_eq!(field(&json, "a"), Some(3));
    assert_eq!(field(&json, "b"), Some(2));
    assert_eq!(field(&json, "c"), Some(1));
    assert_eq!(field(&json, "d"), Some(0));
}

#[test]
fn absent_sources_are_passed_over() {
    let json = merge_config(Ok(document(&[("a", number(5))])), None, None, None).unwrap();
    assert_eq!(field(&json, "a"), Some(5));
}

#[test]
fn sources_that_cannot_be_written_down_are_reported() {
    fn broken() -> Source {
        Some(Err("broken".to_string()))
    }
    let names = [
        merge_config(Err("broken".to_string()), broken(), None, None),
        merge_config(Ok(Json::Null), broken(), broken(), None),
        merge_config(Ok(Json::Null), None, broken(), broken()),
        merge_config(Ok(Json::Null), None, None, broken()),
    ]
    .map(|result| result.err().unwrap().name);
    assert_eq!(names, ["target", "from_file", "from_cli", "from_compile_time"]);
    let error = merge_config(Ok(Json::Null), None, broken(), None).err().unwrap();
    assert_eq!(error.cause, "broken");
    assert_eq!(error.message(), "Cannot represent `from_cli` as a dynamic value");
}

#[test]
fn configurations_have_defaults() {
    let config = Config::<u8>::default();
    assert_eq!(config.runtime.reverse_proxy, ReverseProxy::NoProxy);
    assert_eq!(config.runtime.network.https_address.port, 443);
    assert!(config.runtime.db.is_none());
    assert!(config.runtime.session_key_file.is_none());
    assert!(config.user_defined.is_none());
}

#[test]
fn user_configuration_falls_back_to_its_default() {
    let mut runtime = RuntimeConfig::default();
    runtime.db = Some("sqlite:data".to_string());
    let config = Config::<u8>::from_override(runtime);
    assert!(config.user_defined.is_none());
    let (runtime, user) = config.into_parts();
    assert_eq!(runtime.db.as_deref(), Some("sqlite:data"));
    assert_eq!(user, 0);
    let config = Config { runtime: RuntimeConfig::default(), user_defined: Some(9u8) };
    assert_eq!(config.into_parts().1, 9);
}

#[test]
fn overrides_are_taken_out_of_the_settings() {
    let mut runtime = RuntimeConfig::default();
    runtime.db = Some("sqlite:data".to_string());
    let mut settings = Settings { config_override: Some(runtime), rest: "tracing" };
    let taken = settings.take_override::<u8>().unwrap();
    assert_eq!(taken.runtime.db.as_deref(), Some("sqlite:data"));
    assert!(taken.user_defined.is_none());
    assert!(settings.config_override.is_none());
    assert_eq!(settings.rest, "tracing");
    assert!(settings.take_override::<u8>().is_none());
    assert_eq!(settings.rest, "tracing");
}

#[test]
fn overrides_leave_other_fields_alone() {
    let default = || Ok(document(&[("db", number(0)), ("user", number(0))]));
    let from_file = || source(&[("user", number(7))]);
    let overridden = merge_config(default(), from_file(), None, source(&[("db", number(3))]));
    let plain = merge_config(default(), from_file(), None, None);
    assert_eq!(field(&overridden.unwrap(), "user"), Some(7));
    assert_eq!(field(&plain.unwrap(), "user"), Some(7));
}

#[test]
fn configuration_files_are_named_once() {
    let file = || Some("a.json".to_string());
    let environment = || Some("b.json".to_string());
    assert_eq!(config_file(Some(file()), environment()), file());
    assert_eq!(config_file(Some(None), environment()), None);
    assert_eq!(config_file(None, environment()), environment());
    assert_eq!(config_file(None, None), None);
}

#[test]
fn unreadable_files_are_named() {
    assert_eq!(read_failure("a\\b.json"), r#"Failed to read config from "a\\b.json""#);
}

#[test]
fn databases_fall_back_to_memory() {
    let named = Some("postgresql://db".to_string());
    assert_eq!(database_url(named.clone(), false), Ok("postgresql://db".to_string()));
    assert_eq!(database_url(named, true), Ok("postgresql://db".to_string()));
    assert_eq!(database_url(None, true), Ok("sqlite::memory:".to_string()));
    assert_eq!(database_url(None, false), Err(MissingUrl));
    assert_eq!(
        MissingUrl.message(),
        "No database URL was provided. Use db-sqlite driver for an in-memory database.",
    );
    assert_eq!(DatabaseStep::Connect.failure(), "Failed to connect to database");
    assert_eq!(DatabaseStep::PushSchema.failure(), "Failed to push schema to database");
}

#[test]
fn servers_start_in_order() {
    let expected = [
        Step::LoadConfig,
        Step::StartTracing { custom: true },
        Step::InitServer,
        Step::ConnectDatabase,
        Step::SetUpSessions,
        Step::ConnectNetwork,
        Step::Serve,
        Step::Finished,
    ];
    let mut step = Step::first();
    assert_eq!(step, Step::InstallReports);
    for next in expected {
        step = match step {
            Step::LoadConfig => step.next(Event::Configured { custom_tracing: true }),
            _ => step.next(Event::Succeeded),
        };
        assert_eq!(step, next);
    }
    assert_eq!(step.next(Event::Succeeded), Step::Finished);
    assert_eq!(step.next(Event::Failed), Step::Finished);
    let usual = Step::LoadConfig.next(Event::Configured { custom_tracing: false });
    assert_eq!(usual, Step::StartTracing { custom: false });
}

#[test]
fn failed_steps_end_the_server() {
    let stages = [
        (Step::InstallReports, Stage::InstallReports, None),
        (Step::LoadConfig, Stage::LoadConfig, Some("Failed to load config")),
        (Step::StartTracing { custom: true }, Stage::StartTracing, None),
        (Step::InitServer, Stage::InitServer, None),
        (Step::ConnectDatabase, Stage::ConnectDatabase, None),
        (Step::SetUpSessions, Stage::SetUpSessions, None),
        (Step::ConnectNetwork, Stage::ConnectNetwork, Some("Failed to connect to network")),
        (Step::Serve, Stage::Serve, None),
    ];
    for (step, during, context) in stages {
        let failed = step.next(Event::Failed);
        assert_eq!(failed, Step::Failed { during });
        assert_eq!(failed.next(Event::Succeeded), failed);
        assert_eq!(during.context(), context);
    }
}
