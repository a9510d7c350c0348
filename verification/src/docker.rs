//! The container set-up of the services: what is configured, and the
//! Dockerfile instructions and build schema that follow from it.
//!
//! Tables that are keyed by a name are kept as lists of named entries in the
//! order in which they were written; `DockerConfig::names_distinct` says
//! that no name occurs twice.
use crate::same_text;
use vstd::prelude::*;

verus! {

/// How a service's image is built.
#[derive(Debug)]
pub struct Build {
    pub context: String,
    pub dockerfile: String,
}

impl Clone for Build {
    fn clone(&self) -> (copy: Self)
        ensures
            copy == *self,
    {
        Build { context: self.context.clone(), dockerfile: self.dockerfile.clone() }
    }
}

/// A network of the composition.
#[derive(Debug)]
pub struct Network {
    pub internal: Option<bool>,
}

impl Clone for Network {
    fn clone(&self) -> (copy: Self)
        ensures
            copy == *self,
    {
        Network { internal: self.internal }
    }
}

/// A volume of the composition.
#[derive(Debug)]
pub struct Volume {}

impl Clone for Volume {
    fn clone(&self) -> (copy: Self)
        ensures
            copy == *self,
    {
        Volume {  }
    }
}

/// A service as the configuration describes it.
#[derive(Debug)]
pub struct ServiceDefinition {
    pub image: Option<String>,
    pub build: Option<Build>,
    pub ports: Option<Vec<String>>,
    pub env_file: Option<Vec<String>>,
    pub networks: Option<Vec<String>>,
    pub depends_on: Option<Vec<String>>,
    pub restart: Option<String>,
    pub volumes: Option<Vec<String>>,
    /// The instructions of the service's Dockerfile, each a pair of the
    /// instruction's word and its argument.
    pub dockerfile_actions: Option<Vec<Vec<String>>>,
}

/// A service as the composition file lists it.
#[derive(Debug)]
pub struct Service {
    pub image: Option<String>,
    pub build: Option<Build>,
    pub ports: Option<Vec<String>>,
    pub env_file: Option<Vec<String>>,
    pub networks: Option<Vec<String>>,
    pub depends_on: Option<Vec<String>>,
    pub restart: Option<String>,
    pub volumes: Option<Vec<String>>,
}

impl Service {
    /// The entry of the composition file for a configured service: all of
    /// the definition but its Dockerfile instructions.
    pub open spec fn of(definition: ServiceDefinition) -> Service {
        Service {
            image: definition.image,
            build: definition.build,
            ports: definition.ports,
            env_file: definition.env_file,
            networks: definition.networks,
            depends_on: definition.depends_on,
            restart: definition.restart,
            volumes: definition.volumes,
        }
    }
}

impl vstd::std_specs::convert::FromSpecImpl<ServiceDefinition> for Service {
    open spec fn obeys_from_spec() -> bool {
        true
    }

    open spec fn from_spec(service_def: ServiceDefinition) -> Service {
        Service::of(service_def)
    }
}

impl From<ServiceDefinition> for Service {
    fn from(service_def: ServiceDefinition) -> (service: Service) {
        Service {
            image: service_def.image,
            build: service_def.build,
            ports: service_def.ports,
            env_file: service_def.env_file,
            networks: service_def.networks,
            depends_on: service_def.depends_on,
            restart: service_def.restart,
            volumes: service_def.volumes,
        }
    }
}

/// The value of the last of the first `upto` entries that is named `name`.
pub open spec fn last_named<T>(entries: Seq<(String, T)>, name: Seq<char>, upto: int) -> Option<T>
    decreases upto,
{
    if upto <= 0 {
        None
    } else if entries[upto - 1].0@ == name {
        Some(entries[upto - 1].1)
    } else {
        last_named(entries, name, upto - 1)
    }
}

impl ServiceDefinition {
    /// A definition put together from services that are filed under the
    /// names of its parts: the image is that of the service named "image",
    /// the build that of the service named "build", and so on for each part.
    /// Where one name occurs more than once, the last entry counts; a part
    /// without an entry is left out. The list of Dockerfile instructions is
    /// empty.
    pub fn from_entries(entries: Vec<(String, Service)>) -> (definition: ServiceDefinition)
        ensures
            definition.image == (match last_named(entries@, "image"@, entries@.len() as int) {
                Some(entry) => entry.image,
                None => None,
            }),
            definition.build == (match last_named(entries@, "build"@, entries@.len() as int) {
                Some(entry) => entry.build,
                None => None,
            }),
            definition.ports == (match last_named(entries@, "ports"@, entries@.len() as int) {
                Some(entry) => entry.ports,
                None => None,
            }),
            definition.env_file == (match last_named(entries@, "env_file"@, entries@.len() as int) {
                Some(entry) => entry.env_file,
                None => None,
            }),
            definition.networks == (match last_named(entries@, "networks"@, entries@.len() as int) {
                Some(entry) => entry.networks,
                None => None,
            }),
            definition.depends_on == (match last_named(entries@, "depends_on"@, entries@.len() as int) {
                Some(entry) => entry.depends_on,
                None => None,
            }),
            definition.restart == (match last_named(entries@, "restart"@, entries@.len() as int) {
                Some(entry) => entry.restart,
                None => None,
            }),
            definition.volumes == (match last_named(entries@, "volumes"@, entries@.len() as int) {
                Some(entry) => entry.volumes,
                None => None,
            }),
            definition.dockerfile_actions is Some,
            definition.dockerfile_actions->0@.len() == 0,
    {
        let mut definition = ServiceDefinition {
            image: None,
            build: None,
            ports: None,
            env_file: None,
            networks: None,
            depends_on: None,
            restart: None,
            volumes: None,
            dockerfile_actions: Some(Vec::new()),
        };
        let ghost given = entries@;
        for entry in iter: entries.into_iter()
            invariant
                iter.seq() == given,
                definition.image == (match last_named(given, "image"@, iter.index()) {
                    Some(entry) => entry.image,
                    None => None,
                }),
                definition.build == (match last_named(given, "build"@, iter.index()) {
                    Some(entry) => entry.build,
                    None => None,
                }),
                definition.ports == (match last_named(given, "ports"@, iter.index()) {
                    Some(entry) => entry.ports,
                    None => None,
                }),
                definition.env_file == (match last_named(given, "env_file"@, iter.index()) {
                    Some(entry) => entry.env_file,
                    None => None,
                }),
                definition.networks == (match last_named(given, "networks"@, iter.index()) {
                    Some(entry) => entry.networks,
                    None => None,
                }),
                definition.depends_on == (match last_named(given, "depends_on"@, iter.index()) {
                    Some(entry) => entry.depends_on,
                    None => None,
                }),
                definition.restart == (match last_named(given, "restart"@, iter.index()) {
                    Some(entry) => entry.restart,
                    None => None,
                }),
                definition.volumes == (match last_named(given, "volumes"@, iter.index()) {
                    Some(entry) => entry.volumes,
                    None => None,
                }),
                definition.dockerfile_actions is Some,
                definition.dockerfile_actions->0@.len() == 0,
        {
            proof {
                reveal_strlit("image");
                reveal_strlit("build");
                reveal_strlit("ports");
                reveal_strlit("env_file");
                reveal_strlit("networks");
                reveal_strlit("depends_on");
                reveal_strlit("restart");
                reveal_strlit("volumes");
                assert("image"@[0] == 'i' && "build"@[0] == 'b' && "ports"@[0] == 'p');
                assert("env_file"@[0] == 'e' && "networks"@[0] == 'n');
                assert("restart"@[0] == 'r' && "volumes"@[0] == 'v');
                reveal_strlit("dockerfile_actions");
            }
            let (key, value) = entry;
            if same_text(key.as_str(), "image") {
                definition.image = value.image;
            } else if same_text(key.as_str(), "build") {
                definition.build = value.build;
            } else if same_text(key.as_str(), "ports") {
                definition.ports = value.ports;
            } else if same_text(key.as_str(), "env_file") {
                definition.env_file = value.env_file;
            } else if same_text(key.as_str(), "networks") {
                definition.networks = value.networks;
            } else if same_text(key.as_str(), "depends_on") {
                definition.depends_on = value.depends_on;
            } else if same_text(key.as_str(), "restart") {
                definition.restart = value.restart;
            } else if same_text(key.as_str(), "volumes") {
                definition.volumes = value.volumes;
            } else if same_text(key.as_str(), "dockerfile_actions") {
                definition.dockerfile_actions = Some(Vec::new());
            }
        }
        definition
    }
}

impl Service {
    /// A service put together from definitions that are filed under the
    /// names of its parts: the image is that of the definition named "image",
    /// the build that of the definition named "build", and so on for each
    /// part. Where one name occurs more than once, the last entry counts; a
    /// part without an entry is left out.
    pub fn from_entries(entries: Vec<(String, ServiceDefinition)>) -> (service: Service)
        ensures
            service.image == (match last_named(entries@, "image"@, entries@.len() as int) {
                Some(entry) => entry.image,
                None => None,
            }),
            service.build == (match last_named(entries@, "build"@, entries@.len() as int) {
                Some(entry) => entry.build,
                None => None,
            }),
            service.ports == (match last_named(entries@, "ports"@, entries@.len() as int) {
                Some(entry) => entry.ports,
                None => None,
            }),
            service.env_file == (match last_named(entries@, "env_file"@, entries@.len() as int) {
                Some(entry) => entry.env_file,
                None => None,
            }),
            service.networks == (match last_named(entries@, "networks"@, entries@.len() as int) {
                Some(entry) => entry.networks,
                None => None,
            }),
            service.depends_on == (match last_named(entries@, "depends_on"@, entries@.len() as int) {
                Some(entry) => entry.depends_on,
                None => None,
            }),
            service.restart == (match last_named(entries@, "restart"@, entries@.len() as int) {
                Some(entry) => entry.restart,
                None => None,
            }),
            service.volumes == (match last_named(entries@, "volumes"@, entries@.len() as int) {
                Some(entry) => entry.volumes,
                None => None,
            }),
    {
        let mut service = Service {
            image: None,
            build: None,
            ports: None,
            env_file: None,
            networks: None,
            depends_on: None,
            restart: None,
            volumes: None,
        };
        let ghost given = entries@;
        for entry in iter: entries.into_iter()
            invariant
                iter.seq() == given,
                service.image == (match last_named(given, "image"@, iter.index()) {
                    Some(entry) => entry.image,
                    None => None,
                }),
                service.build == (match last_named(given, "build"@, iter.index()) {
                    Some(entry) => entry.build,
                    None => None,
                }),
                service.ports == (match last_named(given, "ports"@, iter.index()) {
                    Some(entry) => entry.ports,
                    None => None,
                }),
                service.env_file == (match last_named(given, "env_file"@, iter.index()) {
                    Some(entry) => entry.env_file,
                    None => None,
                }),
                service.networks == (match last_named(given, "networks"@, iter.index()) {
                    Some(entry) => entry.networks,
                    None => None,
                }),
                service.depends_on == (match last_named(given, "depends_on"@, iter.index()) {
                    Some(entry) => entry.depends_on,
                    None => None,
                }),
                service.restart == (match last_named(given, "restart"@, iter.index()) {
                    Some(entry) => entry.restart,
                    None => None,
                }),
                service.volumes == (match last_named(given, "volumes"@, iter.index()) {
                    Some(entry) => entry.volumes,
                    None => None,
                }),
        {
            proof {
                reveal_strlit("image");
                reveal_strlit("build");
                reveal_strlit("ports");
                reveal_strlit("env_file");
                reveal_strlit("networks");
                reveal_strlit("depends_on");
                reveal_strlit("restart");
                reveal_strlit("volumes");
                assert("image"@[0] == 'i' && "build"@[0] == 'b' && "ports"@[0] == 'p');
                assert("env_file"@[0] == 'e' && "networks"@[0] == 'n');
                assert("restart"@[0] == 'r' && "volumes"@[0] == 'v');
            }
            let (key, value) = entry;
            if same_text(key.as_str(), "image") {
                service.image = value.image;
            } else if same_text(key.as_str(), "build") {
                service.build = value.build;
            } else if same_text(key.as_str(), "ports") {
                service.ports = value.ports;
            } else if same_text(key.as_str(), "env_file") {
                service.env_file = value.env_file;
            } else if same_text(key.as_str(), "networks") {
                service.networks = value.networks;
            } else if same_text(key.as_str(), "depends_on") {
                service.depends_on = value.depends_on;
            } else if same_text(key.as_str(), "restart") {
                service.restart = value.restart;
            } else if same_text(key.as_str(), "volumes") {
                service.volumes = value.volumes;
            }
        }
        service
    }
}

/// The notes on setting the tag, by step.
#[derive(Debug)]
pub struct TagStep {
    pub image: Vec<(String, Vec<String>)>,
    pub stage: Vec<(String, Vec<String>)>,
}

/// The notes on copying files, by step.
#[derive(Debug)]
pub struct CopyStep {
    pub current: Vec<(String, Vec<String>)>,
    pub from: Vec<(String, Vec<String>)>,
}

/// The notes on setting the working directory.
#[derive(Debug)]
pub struct WorkdirStep {
    pub step_1: Vec<String>,
}

/// The notes on running commands.
#[derive(Debug)]
pub struct CommandStep {
    pub step_1: Vec<String>,
}

/// The notes on every kind of step that the Dockerfiles take.
#[derive(Debug)]
pub struct Schema {
    pub set_tag: TagStep,
    pub copy: CopyStep,
    pub set_workdir: WorkdirStep,
    pub run_command: CommandStep,
    pub set_entrypoint: Vec<String>,
}

/// The steps that one service's Dockerfile takes, in order.
#[derive(Debug)]
pub struct ExecutionOrder {
    pub service: String,
    pub dockerfile: String,
    pub steps: Vec<String>,
}

/// The build schema: the notes by kind of step, and the order of the steps
/// for each service that is built.
#[derive(Debug)]
pub struct Dockerfile {
    pub schema: Schema,
    pub execution_order: Vec<ExecutionOrder>,
}

/// The whole configuration.
#[derive(Debug)]
pub struct DockerConfig {
    pub services: Vec<(String, ServiceDefinition)>,
    pub networks: Vec<(String, Network)>,
    pub volumes: Vec<(String, Volume)>,
    pub dockerfile: Dockerfile,
}

/// The lines of a list as texts.
pub open spec fn texts(lines: Seq<String>) -> Seq<Seq<char>> {
    lines.map_values(|line: String| line@)
}

/// The rows of a table as lists of texts.
pub open spec fn table(rows: Seq<Vec<String>>) -> Seq<Seq<Seq<char>>> {
    rows.map_values(|row: Vec<String>| texts(row@))
}

/// The notes of one step as texts.
pub open spec fn step_notes(steps: Seq<(String, Vec<String>)>) -> Seq<(Seq<char>, Seq<Seq<char>>)> {
    steps.map_values(|step: (String, Vec<String>)| (step.0@, texts(step.1@)))
}

/// The image that a service is built from where the configuration names
/// none.
pub open spec fn default_image() -> Seq<char> {
    "rust:latest"@
}

/// The Dockerfile of a service called `name` that is built from `image`: a
/// builder stage that compiles the service's program, and a runtime stage
/// that takes the program over and starts it.
pub open spec fn standard_actions(name: Seq<char>, image: Seq<char>) -> Seq<Seq<Seq<char>>> {
    seq![
        seq!["FROM"@, image + " as builder"@],
        seq!["WORKDIR"@, "/usr/src/"@ + name],
        seq!["COPY"@, "Cargo.toml Cargo.lock ./"@],
        seq!["COPY"@, "src ./src"@],
        seq!["RUN"@, "cargo build --release --bin "@ + name],
        seq!["FROM"@, image],
        seq!["WORKDIR"@, "/usr/src/"@ + name],
        seq![
            "COPY"@,
            "--from=builder /usr/src/"@ + name + "/target/release/"@ + name + " /usr/local/bin/"@
                + name,
        ],
        seq!["COPY"@, ".env ./"@],
        seq!["COPY"@, "../config.json ./"@],
        seq!["ENTRYPOINT"@, "[\""@ + name + "\"]"@],
    ]
}

/// The Dockerfile instructions of a service: those that the configuration
/// gives, and the standard ones where it gives none.
pub open spec fn actions_of(name: Seq<char>, service: ServiceDefinition) -> Seq<Seq<Seq<char>>> {
    match service.dockerfile_actions {
        Some(given) => table(given@),
        None => standard_actions(
            name,
            match service.image {
                Some(image) => image@,
                None => default_image(),
            },
        ),
    }
}

/// The names of the five kinds of step, in the order in which a Dockerfile
/// takes them.
pub open spec fn step_names() -> Seq<Seq<char>> {
    seq!["set_tag"@, "set_workdir"@, "copy"@, "run_command"@, "set_entrypoint"@]
}

/// One note for each of the first `upto` services that is built: `prefix`
/// followed by the service's name.
pub open spec fn notes_for(
    services: Seq<(String, ServiceDefinition)>,
    upto: int,
    prefix: Seq<char>,
) -> Seq<Seq<char>>
    decreases upto,
{
    if upto <= 0 {
        Seq::empty()
    } else {
        let before = notes_for(services, upto - 1, prefix);
        if services[upto - 1].1.build is Some {
            before.push(prefix + services[upto - 1].0@)
        } else {
            before
        }
    }
}

/// The notes of a step as the schema keeps them: all under "step_1", and
/// no step at all where there is no note.
pub open spec fn single_step(notes: Seq<Seq<char>>) -> Seq<(Seq<char>, Seq<Seq<char>>)> {
    if notes.len() == 0 {
        Seq::empty()
    } else {
        seq![("step_1"@, notes)]
    }
}

/// The steps of a service as texts.
pub open spec fn order_of(order: ExecutionOrder) -> (Seq<char>, Seq<char>, Seq<Seq<char>>) {
    (order.service@, order.dockerfile@, texts(order.steps@))
}

/// For each of the first `upto` services that is built: its name, the path
/// of its Dockerfile, and the five steps.
pub open spec fn orders_for(services: Seq<(String, ServiceDefinition)>, upto: int) -> Seq<
    (Seq<char>, Seq<char>, Seq<Seq<char>>),
>
    decreases upto,
{
    if upto <= 0 {
        Seq::empty()
    } else {
        let before = orders_for(services, upto - 1);
        match services[upto - 1].1.build {
            Some(build) => before.push((services[upto - 1].0@, build.dockerfile@, step_names())),
            None => before,
        }
    }
}

/// One instruction as a line of a Dockerfile: the word, a blank, the
/// argument.
pub open spec fn instruction_line(row: Seq<Seq<char>>) -> Seq<char> {
    row[0] + " "@ + row[1]
}

/// The first `upto` instructions as the text of a Dockerfile: one line each,
/// with a line feed between two lines and none at the end.
pub open spec fn dockerfile_text(actions: Seq<Seq<Seq<char>>>, upto: int) -> Seq<char>
    decreases upto,
{
    if upto <= 0 {
        Seq::empty()
    } else if upto == 1 {
        instruction_line(actions[0])
    } else {
        dockerfile_text(actions, upto - 1) + "\n"@ + instruction_line(actions[upto - 1])
    }
}

/// Every instruction has its word and its argument.
pub open spec fn instructions_complete(actions: Seq<Vec<String>>) -> bool {
    forall|i: int| 0 <= i < actions.len() ==> (#[trigger] actions[i])@.len() >= 2
}

/// Where the Dockerfile of a service is kept.
pub open spec fn dockerfile_path(name: Seq<char>) -> Seq<char> {
    "./Docker/Dockerfile."@ + name
}

/// For each of the first `upto` services that has Dockerfile instructions:
/// the path of its Dockerfile and the text to write there.
pub open spec fn dockerfiles_for(services: Seq<(String, ServiceDefinition)>, upto: int) -> Seq<
    (Seq<char>, Seq<char>),
>
    decreases upto,
{
    if upto <= 0 {
        Seq::empty()
    } else {
        let before = dockerfiles_for(services, upto - 1);
        match services[upto - 1].1.dockerfile_actions {
            Some(actions) => before.push(
                (
                    dockerfile_path(services[upto - 1].0@),
                    dockerfile_text(table(actions@), actions@.len() as int),
                ),
            ),
            None => before,
        }
    }
}

/// `prefix` followed by `name`.
fn joined(prefix: &str, name: &str) -> (text: String)
    ensures
        text@ == prefix@ + name@,
{
    String::from_str(prefix).concat(name)
}

/// One instruction of a Dockerfile.
fn instruction(word: &str, argument: String) -> (line: Vec<String>)
    ensures
        texts(line@) == seq![word@, argument@],
{
    let mut line: Vec<String> = Vec::new();
    line.push(String::from_str(word));
    line.push(argument);
    line
}

/// A copy of a list of texts.
fn copy_texts(lines: &Vec<String>) -> (copy: Vec<String>)
    ensures
        copy@ == lines@,
{
    let mut copy: Vec<String> = Vec::new();
    let mut i: usize = 0;
    while i < lines.len()
        invariant
            i <= lines.len(),
            copy@ == lines@.take(i as int),
        decreases lines.len() - i,
    {
        copy.push(lines[i].clone());
        i = i + 1;
    }
    copy
}

/// A copy of a table of texts.
fn copy_table(rows: &Vec<Vec<String>>) -> (copy: Vec<Vec<String>>)
    ensures
        table(copy@) == table(rows@),
{
    let mut copy: Vec<Vec<String>> = Vec::new();
    let mut i: usize = 0;
    while i < rows.len()
        invariant
            i <= rows.len(),
            copy@.len() == i,
            forall|j: int| 0 <= j < i ==> (#[trigger] copy@[j])@ == rows@[j]@,
        decreases rows.len() - i,
    {
        copy.push(copy_texts(&rows[i]));
        i = i + 1;
    }
    copy
}

/// The five kinds of step, in the order in which a Dockerfile takes them.
fn five_steps() -> (steps: Vec<String>)
    ensures
        texts(steps@) == step_names(),
{
    let mut steps: Vec<String> = Vec::new();
    steps.push(String::from_str("set_tag"));
    steps.push(String::from_str("set_workdir"));
    steps.push(String::from_str("copy"));
    steps.push(String::from_str("run_command"));
    steps.push(String::from_str("set_entrypoint"));
    steps
}

/// Files `notes` under "step_1", or nowhere where there is none.
fn under_step_1(notes: Vec<String>) -> (steps: Vec<(String, Vec<String>)>)
    ensures
        step_notes(steps@) == single_step(texts(notes@)),
{
    let mut steps: Vec<(String, Vec<String>)> = Vec::new();
    if notes.len() > 0 {
        steps.push((String::from_str("step_1"), notes));
    }
    steps
}

/// Adds the note on `name` to `notes`.
fn note(notes: &mut Vec<String>, prefix: &str, name: &str)
    ensures
        texts(final(notes)@) == texts(old(notes)@).push(prefix@ + name@),
{
    notes.push(joined(prefix, name));
}

impl DockerConfig {
    /// No two services, no two networks and no two volumes have one name.
    pub open spec fn names_distinct(self) -> bool {
        &&& forall|i: int, j: int|
            0 <= i < j < self.services.len() ==> (#[trigger] self.services[i]).0@
                != (#[trigger] self.services[j]).0@
        &&& forall|i: int, j: int|
            0 <= i < j < self.networks.len() ==> (#[trigger] self.networks[i]).0@
                != (#[trigger] self.networks[j]).0@
        &&& forall|i: int, j: int|
            0 <= i < j < self.volumes.len() ==> (#[trigger] self.volumes[i]).0@
                != (#[trigger] self.volumes[j]).0@
    }

    /// The Dockerfile instructions of `service`: those that the
    /// configuration gives, else the standard ones, built from the service's
    /// image or, where it names none, from "rust:latest".
    pub fn generate_dockerfile_actions(service_name: &str, service: &ServiceDefinition) -> (actions:
        Vec<Vec<String>>)
        ensures
            table(actions@) == actions_of(service_name@, *service),
    {
        if let Some(service_actions) = &service.dockerfile_actions {
            return copy_table(service_actions);
        }
        let image: &str = match &service.image {
            Some(given) => given.as_str(),
            None => "rust:latest",
        };
        let mut actions: Vec<Vec<String>> = Vec::new();
        actions.push(instruction("FROM", joined(image, " as builder")));
        actions.push(instruction("WORKDIR", joined("/usr/src/", service_name)));
        actions.push(instruction("COPY", String::from_str("Cargo.toml Cargo.lock ./")));
        actions.push(instruction("COPY", String::from_str("src ./src")));
        actions.push(instruction("RUN", joined("cargo build --release --bin ", service_name)));
        actions.push(instruction("FROM", String::from_str(image)));
        actions.push(instruction("WORKDIR", joined("/usr/src/", service_name)));
        let mut program = joined("--from=builder /usr/src/", service_name);
        program.append("/target/release/");
        program.append(service_name);
        program.append(" /usr/local/bin/");
        program.append(service_name);
        actions.push(instruction("COPY", program));
        actions.push(instruction("COPY", String::from_str(".env ./")));
        actions.push(instruction("COPY", String::from_str("../config.json ./")));
        let mut entrypoint = joined("[\"", service_name);
        entrypoint.append("\"]");
        actions.push(instruction("ENTRYPOINT", entrypoint));
        actions
    }

    /// The text of the Dockerfile that holds `actions`.
    pub fn render_dockerfile(actions: &Vec<Vec<String>>) -> (text: String)
        requires
            instructions_complete(actions@),
        ensures
            text@ == dockerfile_text(table(actions@), actions@.len() as int),
    {
        let mut text = String::new();
        let mut i: usize = 0;
        while i < actions.len()
            invariant
                i <= actions.len(),
                instructions_complete(actions@),
                text@ == dockerfile_text(table(actions@), i as int),
            decreases actions.len() - i,
        {
            let row = &actions[i];
            if i > 0 {
                text.append("\n");
            }
            text.append(row[0].as_str());
            text.append(" ");
            text.append(row[1].as_str());
            i = i + 1;
        }
        text
    }

    /// The Dockerfiles to write: for each service that has Dockerfile
    /// instructions, in the order in which the services are listed, the path
    /// "./Docker/Dockerfile." followed by the service's name, and the text.
    pub fn dockerfiles(&self) -> (files: Vec<(String, String)>)
        requires
            forall|i: int|
                0 <= i < self.services@.len() && (
                #[trigger] self.services@[i]).1.dockerfile_actions is Some
                    ==> instructions_complete(self.services@[i].1.dockerfile_actions->0@),
        ensures
            files@.map_values(|file: (String, String)| (file.0@, file.1@)) == dockerfiles_for(
                self.services@,
                self.services@.len() as int,
            ),
    {
        let mut files: Vec<(String, String)> = Vec::new();
        let mut i: usize = 0;
        while i < self.services.len()
            invariant
                i <= self.services.len(),
                forall|j: int|
                    0 <= j < self.services@.len() && (
                    #[trigger] self.services@[j]).1.dockerfile_actions is Some
                        ==> instructions_complete(self.services@[j].1.dockerfile_actions->0@),
                files@.map_values(|file: (String, String)| (file.0@, file.1@)) == dockerfiles_for(
                    self.services@,
                    i as int,
                ),
            decreases self.services.len() - i,
        {
            if let Some(actions) = &self.services[i].1.dockerfile_actions {
                let path = joined("./Docker/Dockerfile.", self.services[i].0.as_str());
                let text = Self::render_dockerfile(actions);
                files.push((path, text));
            }
            i = i + 1;
        }
        files
    }

    /// What `generate_dockerfile_schema_and_order` makes of one service: a
    /// service that is built is given its Dockerfile instructions, and any
    /// other is left as it is.
    pub open spec fn service_generated(
        before: (String, ServiceDefinition),
        after: (String, ServiceDefinition),
    ) -> bool {
        &&& after.0 == before.0
        &&& if before.1.build is Some {
            &&& after.1.dockerfile_actions is Some
            &&& table(after.1.dockerfile_actions->0@) == actions_of(before.0@, before.1)
            &&& after.1 == (ServiceDefinition {
                dockerfile_actions: after.1.dockerfile_actions,
                ..before.1
            })
        } else {
            after.1 == before.1
        }
    }

    /// Works out the Dockerfile instructions of every service that is
    /// built, and replaces the build schema by one that holds a note on each
    /// kind of step and the order of the steps for each of these services, in
    /// the order in which the services are listed. A step without notes is
    /// left out of the schema.
    pub fn generate_dockerfile_schema_and_order(&mut self)
        ensures
            final(self).services@.len() == old(self).services@.len(),
            forall|i: int|
                0 <= i < old(self).services@.len() ==> Self::service_generated(
                    old(self).services@[i],
                    #[trigger] final(self).services@[i],
                ),
            final(self).networks == old(self).networks,
            final(self).volumes == old(self).volumes,
            old(self).names_distinct() ==> final(self).names_distinct(),
            step_notes(final(self).dockerfile.schema.set_tag.image@) == single_step(
                notes_for(
                    old(self).services@,
                    old(self).services@.len() as int,
                    "Setting tag for "@,
                ),
            ),
            final(self).dockerfile.schema.set_tag.stage@.len() == 0,
            step_notes(final(self).dockerfile.schema.copy.current@) == single_step(
                notes_for(
                    old(self).services@,
                    old(self).services@.len() as int,
                    "Copying files for "@,
                ),
            ),
            final(self).dockerfile.schema.copy.from@.len() == 0,
            texts(final(self).dockerfile.schema.set_workdir.step_1@) == notes_for(
                old(self).services@,
                old(self).services@.len() as int,
                "Setting workdir for "@,
            ),
            texts(final(self).dockerfile.schema.run_command.step_1@) == notes_for(
                old(self).services@,
                old(self).services@.len() as int,
                "Running commands for "@,
            ),
            texts(final(self).dockerfile.schema.set_entrypoint@) == notes_for(
                old(self).services@,
                old(self).services@.len() as int,
                "Setting entrypoint for "@,
            ),
            final(self).dockerfile.execution_order@.map_values(|order: ExecutionOrder| order_of(order))
                == orders_for(old(self).services@, old(self).services@.len() as int),
    {
        let ghost before = self.services@;
        let count = self.services.len();
        let mut tags: Vec<String> = Vec::new();
        let mut workdirs: Vec<String> = Vec::new();
        let mut copies: Vec<String> = Vec::new();
        let mut commands: Vec<String> = Vec::new();
        let mut entrypoints: Vec<String> = Vec::new();
        let mut execution_order: Vec<ExecutionOrder> = Vec::new();
        let mut i: usize = 0;
        while i < count
            invariant
                i <= count,
                before == old(self).services@,
                self.services@.len() == count,
                before.len() == count,
                self.networks == old(self).networks,
                self.volumes == old(self).volumes,
                forall|j: int|
                    0 <= j < i ==> Self::service_generated(before[j], #[trigger] self.services@[j]),
                forall|j: int| i <= j < count ==> #[trigger] self.services@[j] == before[j],
                texts(tags@) == notes_for(before, i as int, "Setting tag for "@),
                texts(workdirs@) == notes_for(before, i as int, "Setting workdir for "@),
                texts(copies@) == notes_for(before, i as int, "Copying files for "@),
                texts(commands@) == notes_for(before, i as int, "Running commands for "@),
                texts(entrypoints@) == notes_for(before, i as int, "Setting entrypoint for "@),
                execution_order@.map_values(|order: ExecutionOrder| order_of(order)) == orders_for(
                    before,
                    i as int,
                ),
            decreases count - i,
        {
            let built: Option<String> = match &self.services[i].1.build {
                Some(build) => Some(build.dockerfile.clone()),
                None => None,
            };
            if let Some(dockerfile) = built {
                let name = self.services[i].0.clone();
                let actions = Self::generate_dockerfile_actions(
                    name.as_str(),
                    &self.services[i].1,
                );
                self.services[i].1.dockerfile_actions = Some(actions);
                note(&mut tags, "Setting tag for ", name.as_str());
                note(&mut workdirs, "Setting workdir for ", name.as_str());
                note(&mut copies, "Copying files for ", name.as_str());
                note(&mut commands, "Running commands for ", name.as_str());
                note(&mut entrypoints, "Setting entrypoint for ", name.as_str());
                execution_order.push(
                    ExecutionOrder { service: name, dockerfile, steps: five_steps() },
                );
            }
            i = i + 1;
        }
        self.dockerfile = Dockerfile {
            schema: Schema {
                set_tag: TagStep { image: under_step_1(tags), stage: Vec::new() },
                copy: CopyStep { current: under_step_1(copies), from: Vec::new() },
                set_workdir: WorkdirStep { step_1: workdirs },
                run_command: CommandStep { step_1: commands },
                set_entrypoint: entrypoints,
            },
            execution_order,
        };
    }
}

} // verus!
