use ecom_engine::docker::{
    Build, CommandStep, CopyStep, DockerConfig, Dockerfile, ExecutionOrder, Network, Schema,
    Service, ServiceDefinition, TagStep, Volume, WorkdirStep,
};

fn bare() -> ServiceDefinition {
    ServiceDefinition {
        image: None,
        build: None,
        ports: None,
        env_file: None,
        networks: None,
        depends_on: None,
        restart: None,
        volumes: None,
        dockerfile_actions: None,
    }
}

fn built(path: &str) -> ServiceDefinition {
    let mut service = bare();
    service.build = Some(Build { context: ".".to_string(), dockerfile: path.to_string() });
    service
}

fn empty_dockerfile() -> Dockerfile {
    Dockerfile {
        schema: Schema {
            set_tag: TagStep { image: Vec::new(), stage: Vec::new() },
            copy: CopyStep { current: Vec::new(), from: Vec::new() },
            set_workdir: WorkdirStep { step_1: Vec::new() },
            run_command: CommandStep { step_1: Vec::new() },
            set_entrypoint: Vec::new(),
        },
        execution_order: Vec::new(),
    }
}

fn rows(rows: &[[&str; 2]]) -> Vec<Vec<String>> {
    rows.iter().map(|row| row.iter().map(|text| text.to_string()).collect()).collect()
}

#[test]
fn standard_actions_for_default_image() {
    let actions = DockerConfig::generate_dockerfile_actions("rest_api", &bare());
    assert_eq!(
        actions,
        rows(&[
            ["FROM", "rust:latest as builder"],
            ["WORKDIR", "/usr/src/rest_api"],
            ["COPY", "Cargo.toml Cargo.lock ./"],
            ["COPY", "src ./src"],
            ["RUN", "cargo build --release --bin rest_api"],
            ["FROM", "rust:latest"],
            ["WORKDIR", "/usr/src/rest_api"],
            [
                "COPY",
                "--from=builder /usr/src/rest_api/target/release/rest_api /usr/local/bin/rest_api"
            ],
            ["COPY", ".env ./"],
            ["COPY", "../config.json ./"],
            ["ENTRYPOINT", "[\"rest_api\"]"],
        ])
    );
}

#[test]
fn standard_actions_for_given_image() {
    let mut service = bare();
    service.image = Some("rust:1.80".to_string());
    let actions = DockerConfig::generate_dockerfile_actions("s", &service);
    assert_eq!(actions.len(), 11);
    assert_eq!(actions[0], vec!["FROM".to_string(), "rust:1.80 as builder".to_string()]);
    assert_eq!(actions[5], vec!["FROM".to_string(), "rust:1.80".to_string()]);
    assert_eq!(
        actions[7],
        vec!["COPY".to_string(), "--from=builder /usr/src/s/target/release/s /usr/local/bin/s".to_string()]
    );
}

#[test]
fn given_actions_are_returned_as_they_are() {
    let mut service = bare();
    service.image = Some("rust:1.80".to_string());
    service.dockerfile_actions = Some(rows(&[["FROM", "scratch"], ["CMD", "run"]]));
    let actions = DockerConfig::generate_dockerfile_actions("s", &service);
    assert_eq!(actions, rows(&[["FROM", "scratch"], ["CMD", "run"]]));
    service.dockerfile_actions = Some(Vec::new());
    assert_eq!(DockerConfig::generate_dockerfile_actions("s", &service), Vec::<Vec<String>>::new());
}

#[test]
fn schema_and_order_for_built_services() {
    let mut given = built("./Docker/Dockerfile.given");
    given.dockerfile_actions = Some(rows(&[["FROM", "scratch"]]));
    let mut config = DockerConfig {
        services: vec![
            ("api".to_string(), built("./Docker/Dockerfile.api")),
            ("db".to_string(), bare()),
            ("given".to_string(), given),
        ],
        networks: vec![("inner".to_string(), Network { internal: Some(true) })],
        volumes: vec![("data".to_string(), Volume {})],
        dockerfile: empty_dockerfile(),
    };
    config.generate_dockerfile_schema_and_order();

    assert_eq!(config.services.len(), 3);
    assert_eq!(config.services[0].0, "api");
    assert_eq!(
        config.services[0].1.dockerfile_actions,
        Some(DockerConfig::generate_dockerfile_actions("api", &built("x")))
    );
    assert_eq!(config.services[1].0, "db");
    assert_eq!(config.services[1].1.dockerfile_actions, None);
    assert_eq!(config.services[2].1.dockerfile_actions, Some(rows(&[["FROM", "scratch"]])));
    assert_eq!(config.networks.len(), 1);
    assert_eq!(config.volumes.len(), 1);

    let schema = &config.dockerfile.schema;
    assert_eq!(
        schema.set_tag.image,
        vec![(
            "step_1".to_string(),
            vec!["Setting tag for api".to_string(), "Setting tag for given".to_string()]
        )]
    );
    assert!(schema.set_tag.stage.is_empty());
    assert_eq!(
        schema.copy.current,
        vec![(
            "step_1".to_string(),
            vec!["Copying files for api".to_string(), "Copying files for given".to_string()]
        )]
    );
    assert!(schema.copy.from.is_empty());
    assert_eq!(schema.set_workdir.step_1, vec!["Setting workdir for api", "Setting workdir for given"]);
    assert_eq!(
        schema.run_command.step_1,
        vec!["Running commands for api", "Running commands for given"]
    );
    assert_eq!(
        schema.set_entrypoint,
        vec!["Setting entrypoint for api", "Setting entrypoint for given"]
    );

    let order = &config.dockerfile.execution_order;
    assert_eq!(order.len(), 2);
    assert_eq!(order[0].service, "api");
    assert_eq!(order[0].dockerfile, "./Docker/Dockerfile.api");
    assert_eq!(order[0].steps, vec!["set_tag", "set_workdir", "copy", "run_command", "set_entrypoint"]);
    assert_eq!(order[1].service, "given");
    assert_eq!(order[1].dockerfile, "./Docker/Dockerfile.given");
}

#[test]
fn schema_without_built_services_has_no_steps() {
    let mut config = DockerConfig {
        services: vec![("db".to_string(), bare())],
        networks: Vec::new(),
        volumes: Vec::new(),
        dockerfile: Dockerfile {
            schema: Schema {
                set_tag: TagStep {
                    image: vec![("step_9".to_string(), vec!["old".to_string()])],
                    stage: Vec::new(),
                },
                copy: CopyStep { current: Vec::new(), from: Vec::new() },
                set_workdir: WorkdirStep { step_1: vec!["old".to_string()] },
                run_command: CommandStep { step_1: Vec::new() },
                set_entrypoint: Vec::new(),
            },
            execution_order: vec![ExecutionOrder {
                service: "old".to_string(),
                dockerfile: "old".to_string(),
                steps: Vec::new(),
            }],
        },
    };
    config.generate_dockerfile_schema_and_order();
    assert!(config.dockerfile.schema.set_tag.image.is_empty());
    assert!(config.dockerfile.schema.copy.current.is_empty());
    assert!(config.dockerfile.schema.set_workdir.step_1.is_empty());
    assert!(config.dockerfile.schema.run_command.step_1.is_empty());
    assert!(config.dockerfile.schema.set_entrypoint.is_empty());
    assert!(config.dockerfile.execution_order.is_empty());
    assert_eq!(config.services[0].1.dockerfile_actions, None);
}

#[test]
fn service_is_the_definition_without_its_actions() {
    let mut definition = built("./Docker/Dockerfile.api");
    definition.image = Some("rust:1.80".to_string());
    definition.ports = Some(vec!["8080:8080".to_string()]);
    definition.env_file = Some(vec![".env".to_string()]);
    definition.networks = Some(vec!["inner".to_string()]);
    definition.depends_on = Some(vec!["db".to_string()]);
    definition.restart = Some("always".to_string());
    definition.volumes = Some(vec!["data:/data".to_string()]);
    definition.dockerfile_actions = Some(rows(&[["FROM", "scratch"]]));
    let service = Service::from(definition);
    assert_eq!(service.image, Some("rust:1.80".to_string()));
    let build = service.build.expect("the build is carried over");
    assert_eq!(build.context, ".");
    assert_eq!(build.clone().dockerfile, "./Docker/Dockerfile.api");
    assert_eq!(service.ports, Some(vec!["8080:8080".to_string()]));
    assert_eq!(service.env_file, Some(vec![".env".to_string()]));
    assert_eq!(service.networks, Some(vec!["inner".to_string()]));
    assert_eq!(service.depends_on, Some(vec!["db".to_string()]));
    assert_eq!(service.restart, Some("always".to_string()));
    assert_eq!(service.volumes, Some(vec!["data:/data".to_string()]));
    assert_eq!(Network { internal: None }.clone().internal, None);
    let _volume = Volume {}.clone();
}

#[test]
fn dockerfile_text_has_one_line_for_each_instruction() {
    let actions = rows(&[["FROM", "rust:latest"], ["WORKDIR", "/usr/src/api"], ["COPY", ". ."]]);
    assert_eq!(
        DockerConfig::render_dockerfile(&actions),
        "FROM rust:latest\nWORKDIR /usr/src/api\nCOPY . ."
    );
    assert_eq!(DockerConfig::render_dockerfile(&rows(&[["FROM", "scratch"]])), "FROM scratch");
    assert_eq!(DockerConfig::render_dockerfile(&Vec::new()), "");
    let long = vec![vec!["RUN".to_string(), "make".to_string(), "ignored".to_string()]];
    assert_eq!(DockerConfig::render_dockerfile(&long), "RUN make");
}

#[test]
fn dockerfiles_for_services_with_instructions() {
    let mut api = built("./Docker/Dockerfile.api");
    api.dockerfile_actions = Some(rows(&[["FROM", "scratch"], ["CMD", "api"]]));
    let mut worker = bare();
    worker.dockerfile_actions = Some(Vec::new());
    let config = DockerConfig {
        services: vec![
            ("api".to_string(), api),
            ("db".to_string(), bare()),
            ("worker".to_string(), worker),
        ],
        networks: Vec::new(),
        volumes: Vec::new(),
        dockerfile: empty_dockerfile(),
    };
    assert_eq!(
        config.dockerfiles(),
        vec![
            ("./Docker/Dockerfile.api".to_string(), "FROM scratch\nCMD api".to_string()),
            ("./Docker/Dockerfile.worker".to_string(), String::new()),
        ]
    );
}

#[test]
fn definition_from_named_services() {
    let mut first = Service::from(bare());
    first.image = Some("rust:1.80".to_string());
    first.restart = Some("never".to_string());
    let mut ports = Service::from(bare());
    ports.ports = Some(vec!["80:80".to_string()]);
    ports.image = Some("ignored".to_string());
    let mut second = Service::from(bare());
    second.image = Some("rust:1.81".to_string());
    let mut other = Service::from(bare());
    other.volumes = Some(vec!["data:/data".to_string()]);
    let definition = ServiceDefinition::from_entries(vec![
        ("image".to_string(), first),
        ("ports".to_string(), ports),
        ("image".to_string(), second),
        ("unknown".to_string(), other),
        ("restart".to_string(), Service::from(bare())),
    ]);
    assert_eq!(definition.image, Some("rust:1.81".to_string()));
    assert_eq!(definition.ports, Some(vec!["80:80".to_string()]));
    assert_eq!(definition.restart, None);
    assert_eq!(definition.volumes, None);
    assert_eq!(definition.env_file, None);
    assert_eq!(definition.networks, None);
    assert_eq!(definition.depends_on, None);
    assert!(definition.build.is_none());
    assert_eq!(definition.dockerfile_actions, Some(Vec::new()));
    let empty = ServiceDefinition::from_entries(Vec::new());
    assert_eq!(empty.image, None);
    assert_eq!(empty.dockerfile_actions, Some(Vec::new()));
}

#[test]
fn service_from_named_definitions() {
    let mut build = built("./Docker/Dockerfile.api");
    build.image = Some("ignored".to_string());
    let mut env = bare();
    env.env_file = Some(vec![".env".to_string()]);
    let mut networks = bare();
    networks.networks = Some(vec!["inner".to_string()]);
    let mut depends = bare();
    depends.depends_on = Some(vec!["db".to_string()]);
    let mut volumes = bare();
    volumes.volumes = Some(vec!["data:/data".to_string()]);
    let mut actions = bare();
    actions.image = Some("ignored".to_string());
    let service = Service::from_entries(vec![
        ("build".to_string(), build),
        ("env_file".to_string(), env),
        ("networks".to_string(), networks),
        ("depends_on".to_string(), depends),
        ("volumes".to_string(), volumes),
        ("dockerfile_actions".to_string(), actions),
    ]);
    assert_eq!(service.image, None);
    assert_eq!(service.build.map(|build| build.dockerfile), Some("./Docker/Dockerfile.api".to_string()));
    assert_eq!(service.env_file, Some(vec![".env".to_string()]));
    assert_eq!(service.networks, Some(vec!["inner".to_string()]));
    assert_eq!(service.depends_on, Some(vec!["db".to_string()]));
    assert_eq!(service.volumes, Some(vec!["data:/data".to_string()]));
    assert_eq!(service.ports, None);
    assert_eq!(service.restart, None);
}
