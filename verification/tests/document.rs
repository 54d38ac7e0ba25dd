use blot::descriptor::{
    build_descriptor, DeploymentDescriptor, DescriptorSpec, Difficulty, HealthCheck,
    ModpackPlacement,
};
use blot::document::{render, to_mapping};
use serde_yml::{Mapping, Value};

fn full() -> DescriptorSpec {
    DescriptorSpec {
        port: 25565,
        id: 7,
        version: Some("1.20.1".to_string()),
        difficulty: Some(Difficulty::Hard),
        world: Some("abc-def".to_string()),
        modpack: ModpackPlacement::Archive("zip-token".to_string()),
        admin_player: "Steve".to_string(),
        max_memory: "4G".to_string(),
        cf_api_key: "$2a$10$key".to_string(),
    }
}

fn text(s: &str) -> Value {
    Value::String(s.to_string())
}

fn get<'a>(m: &'a Mapping, key: &str) -> &'a Value {
    m.get(&text(key)).unwrap()
}

#[test]
fn rendered_text_is_exact() {
    let rendered = render(&build_descriptor(&full())).unwrap();
    let expected = "services:\n  mc:\n    image: itzg/minecraft-server\n    tty: true\n    stdin_open: true\n    ports:\n    - '25565:25565'\n    volumes:\n    - /worlds/7/data:/data\n    - /worlds/7/world:/world\n    healthcheck:\n      test: mc-health\n      start_period: '1m'\n      interval: '5s'\n      retries: '20'\n    environment:\n      EULA: 'TRUE'\n      OPS: Steve\n      VERSION: '1.20.1'\n      DIFFICULTY: hard\n      MAX_MEMORY: '4G'\n      WORLD: /world/abc-def\n      MODPACK_PLATFORM: AUTO_CURSEFORGE\n      CF_API_KEY: $2a$10$key\n      CF_SLUG: custom\n      CF_MODPACK_ZIP: /world/zip-token\n";
    assert_eq!(rendered, expected);
}

#[test]
fn mapping_has_the_documented_shape_and_scalar_types() {
    let root = to_mapping(&build_descriptor(&full()));
    assert_eq!(root.len(), 1);
    let services = get(&root, "services").as_mapping().unwrap();
    assert_eq!(services.len(), 1);
    let mc = get(services, "mc").as_mapping().unwrap();
    let keys: Vec<&str> = mc.iter().map(|(k, _)| k.as_str().unwrap()).collect();
    assert_eq!(
        keys,
        vec!["image", "tty", "stdin_open", "ports", "volumes", "healthcheck", "environment"]
    );
    assert_eq!(get(mc, "image"), &text("itzg/minecraft-server"));
    assert_eq!(get(mc, "tty"), &Value::Bool(true));
    assert_eq!(get(mc, "stdin_open"), &Value::Bool(true));
    assert_eq!(get(mc, "ports"), &Value::Sequence(vec![text("25565:25565")]));
    assert_eq!(
        get(mc, "volumes"),
        &Value::Sequence(vec![text("/worlds/7/data:/data"), text("/worlds/7/world:/world")])
    );
    let health = get(mc, "healthcheck").as_mapping().unwrap();
    let keys: Vec<&str> = health.iter().map(|(k, _)| k.as_str().unwrap()).collect();
    assert_eq!(keys, vec!["test", "start_period", "interval", "retries"]);
    assert_eq!(get(health, "test"), &text("mc-health"));
    assert_eq!(get(health, "start_period"), &text("1m"));
    assert_eq!(get(health, "interval"), &text("5s"));
    assert_eq!(get(health, "retries"), &text("20"));
    let env = get(mc, "environment").as_mapping().unwrap();
    assert_eq!(env.len(), 10);
    assert_eq!(get(env, "EULA"), &text("TRUE"));
    assert_eq!(get(env, "CF_SLUG"), &text("custom"));
    assert_eq!(get(env, "CF_MODPACK_ZIP"), &text("/world/zip-token"));
}

#[test]
fn rendered_text_reads_back_as_the_mapping() {
    let descriptor = build_descriptor(&full());
    let rendered = render(&descriptor).unwrap();
    let back: Value = serde_yml::from_str(&rendered).unwrap();
    assert_eq!(back, Value::Mapping(to_mapping(&descriptor)));
}

#[test]
fn scalars_keep_their_types_when_read_back() {
    let rendered = render(&build_descriptor(&full())).unwrap();
    let back: Value = serde_yml::from_str(&rendered).unwrap();
    let mc = back.get("services").unwrap().get("mc").unwrap();
    assert!(mc.get("tty").unwrap().is_bool());
    assert!(mc.get("stdin_open").unwrap().is_bool());
    assert!(mc.get("healthcheck").unwrap().get("retries").unwrap().is_string());
    assert!(mc.get("environment").unwrap().get("EULA").unwrap().is_string());
    assert!(mc.get("environment").unwrap().get("VERSION").unwrap().is_string());
}

#[test]
fn a_key_set_twice_keeps_its_place_and_takes_the_last_value() {
    let descriptor = DeploymentDescriptor {
        service: "mc".to_string(),
        image: "img".to_string(),
        tty: false,
        stdin_open: true,
        ports: vec![],
        volumes: vec![],
        healthcheck: HealthCheck {
            test: "t".to_string(),
            start_period: "s".to_string(),
            interval: "i".to_string(),
            retries: "r".to_string(),
        },
        environment: vec![
            ("A".to_string(), "1".to_string()),
            ("B".to_string(), "2".to_string()),
            ("A".to_string(), "3".to_string()),
        ],
    };
    let root = to_mapping(&descriptor);
    let mc = get(get(&root, "services").as_mapping().unwrap(), "mc").as_mapping().unwrap();
    assert_eq!(get(mc, "tty"), &Value::Bool(false));
    assert_eq!(get(mc, "ports"), &Value::Sequence(vec![]));
    let env = get(mc, "environment").as_mapping().unwrap();
    let entries: Vec<(&str, &str)> =
        env.iter().map(|(k, v)| (k.as_str().unwrap(), v.as_str().unwrap())).collect();
    assert_eq!(entries, vec![("A", "3"), ("B", "2")]);
}

#[test]
fn service_name_is_the_key_under_services() {
    let mut descriptor = build_descriptor(&full());
    descriptor.service = "other".to_string();
    let rendered = render(&descriptor).unwrap();
    assert!(rendered.starts_with("services:\n  other:\n"));
}

#[test]
fn serializer_outcome_is_passed_on_or_becomes_internal() {
    assert_eq!(blot::document::rendered(Ok("a: b\n".to_string())), Ok("a: b\n".to_string()));
    let error = serde_yml::from_str::<Vec<u8>>("not: a list").unwrap_err();
    assert_eq!(blot::document::rendered(Err(error)), Err(blot::error::ProvisionError::Internal));
}
