use vstd::prelude::*;
use vstd::string::*;
use crate::text::{decimal, decimal_text, join2, join3};

verus! {

/// How hard the game is.
#[derive(Clone, Copy, Debug, PartialEq, Eq, Structural)]
pub enum Difficulty {
    Peaceful,
    Easy,
    Normal,
    Hard,
}

/// The name under which a difficulty is stored and handed to the server.
pub open spec fn difficulty_name(d: Difficulty) -> Seq<char> {
    match d {
        Difficulty::Peaceful => "peaceful"@,
        Difficulty::Easy => "easy"@,
        Difficulty::Normal => "normal"@,
        Difficulty::Hard => "hard"@,
    }
}

impl Difficulty {
    /// The difficulty's name.
    pub fn name(&self) -> (r: &'static str)
        ensures
            r@ == difficulty_name(*self),
    {
        match self {
            Difficulty::Peaceful => "peaceful",
            Difficulty::Easy => "easy",
            Difficulty::Normal => "normal",
            Difficulty::Hard => "hard",
        }
    }
}

/// Where the modpack of an instance comes from, once that is settled.
#[derive(Clone, Debug, PartialEq, Eq)]
pub enum ModpackPlacement {
    /// No modpack.
    Absent,
    /// The modpack's page, by URL.
    Page(String),
    /// An uploaded archive, stored under this file name in the world volume.
    Archive(String),
}

/// A modpack placement with its texts as sequences of characters.
pub enum ModpackPlacementView {
    Absent,
    Page(Seq<char>),
    Archive(Seq<char>),
}

impl View for ModpackPlacement {
    type V = ModpackPlacementView;

    open spec fn view(&self) -> ModpackPlacementView {
        match self {
            ModpackPlacement::Absent => ModpackPlacementView::Absent,
            ModpackPlacement::Page(url) => ModpackPlacementView::Page(url@),
            ModpackPlacement::Archive(file) => ModpackPlacementView::Archive(file@),
        }
    }
}

/// The view of an optional text.
pub open spec fn optional_text(t: Option<String>) -> Option<Seq<char>> {
    match t {
        Some(s) => Some(s@),
        None => None,
    }
}

/// All that a deployment descriptor is made from.
#[derive(Clone, Debug, PartialEq, Eq)]
pub struct DescriptorSpec {
    /// The port on the host that leads to the instance.
    pub port: i64,
    /// The identifier of the server record, which names the storage directory.
    pub id: i64,
    /// The game version, where the requester chose one.
    pub version: Option<String>,
    /// The difficulty, where the requester chose one.
    pub difficulty: Option<Difficulty>,
    /// The file name of the ingested world asset, if there is one.
    pub world: Option<String>,
    /// The modpack, if there is one.
    pub modpack: ModpackPlacement,
    /// The operator of every instance.
    pub admin_player: String,
    /// The memory ceiling of every instance.
    pub max_memory: String,
    /// The key for the modpack platform.
    pub cf_api_key: String,
}

/// A specification with its texts as sequences of characters.
pub struct DescriptorSpecView {
    pub port: int,
    pub id: int,
    pub version: Option<Seq<char>>,
    pub difficulty: Option<Difficulty>,
    pub world: Option<Seq<char>>,
    pub modpack: ModpackPlacementView,
    pub admin_player: Seq<char>,
    pub max_memory: Seq<char>,
    pub cf_api_key: Seq<char>,
}

impl View for DescriptorSpec {
    type V = DescriptorSpecView;

    open spec fn view(&self) -> DescriptorSpecView {
        DescriptorSpecView {
            port: self.port as int,
            id: self.id as int,
            version: optional_text(self.version),
            difficulty: self.difficulty,
            world: optional_text(self.world),
            modpack: self.modpack@,
            admin_player: self.admin_player@,
            max_memory: self.max_memory@,
            cf_api_key: self.cf_api_key@,
        }
    }
}

/// The health-check policy of a service; every field is a string scalar.
#[derive(Clone, Debug, PartialEq, Eq)]
pub struct HealthCheck {
    pub test: String,
    pub start_period: String,
    pub interval: String,
    pub retries: String,
}

/// A health check with its texts as sequences of characters.
pub struct HealthCheckView {
    pub test: Seq<char>,
    pub start_period: Seq<char>,
    pub interval: Seq<char>,
    pub retries: Seq<char>,
}

impl View for HealthCheck {
    type V = HealthCheckView;

    open spec fn view(&self) -> HealthCheckView {
        HealthCheckView {
            test: self.test@,
            start_period: self.start_period@,
            interval: self.interval@,
            retries: self.retries@,
        }
    }
}

/// The views of a list of texts, one for one.
pub open spec fn texts_view(v: Seq<String>) -> Seq<Seq<char>> {
    Seq::new(v.len(), |i: int| v[i]@)
}

/// The views of a list of pairs of texts, one for one.
pub open spec fn pairs_view(v: Seq<(String, String)>) -> Seq<(Seq<char>, Seq<char>)> {
    Seq::new(v.len(), |i: int| (v[i].0@, v[i].1@))
}

/// The description of one service for the orchestrator: its name, and under
/// it the image, the terminal flags (booleans), the port mappings and volume
/// mounts (lists of strings), the health check and the environment (strings).
#[derive(Clone, Debug, PartialEq, Eq)]
pub struct DeploymentDescriptor {
    pub service: String,
    pub image: String,
    pub tty: bool,
    pub stdin_open: bool,
    pub ports: Vec<String>,
    pub volumes: Vec<String>,
    pub healthcheck: HealthCheck,
    pub environment: Vec<(String, String)>,
}

/// A descriptor with its texts as sequences of characters.
pub struct DeploymentDescriptorView {
    pub service: Seq<char>,
    pub image: Seq<char>,
    pub tty: bool,
    pub stdin_open: bool,
    pub ports: Seq<Seq<char>>,
    pub volumes: Seq<Seq<char>>,
    pub healthcheck: HealthCheckView,
    pub environment: Seq<(Seq<char>, Seq<char>)>,
}

impl View for DeploymentDescriptor {
    type V = DeploymentDescriptorView;

    open spec fn view(&self) -> DeploymentDescriptorView {
        DeploymentDescriptorView {
            service: self.service@,
            image: self.image@,
            tty: self.tty,
            stdin_open: self.stdin_open,
            ports: texts_view(self.ports@),
            volumes: texts_view(self.volumes@),
            healthcheck: self.healthcheck@,
            environment: pairs_view(self.environment@),
        }
    }
}

/// The port mapping of an instance: its host port to the game's port.
pub open spec fn port_mapping(port: int) -> Seq<char> {
    decimal(port) + ":25565"@
}

/// The mount of the instance's `data` directory.
pub open spec fn data_mount(id: int) -> Seq<char> {
    "/worlds/"@ + decimal(id) + "/data:/data"@
}

/// The mount of the instance's `world` directory.
pub open spec fn world_mount(id: int) -> Seq<char> {
    "/worlds/"@ + decimal(id) + "/world:/world"@
}

/// Where a file of the world volume is found inside the container.
pub open spec fn asset_location(file: Seq<char>) -> Seq<char> {
    "/world/"@ + file
}

/// The entries that every environment starts with.
pub open spec fn fixed_environment(s: DescriptorSpecView) -> Seq<(Seq<char>, Seq<char>)> {
    seq![("EULA"@, "TRUE"@), ("OPS"@, s.admin_player)]
}

/// The entries for what the requester chose, followed by the memory ceiling.
pub open spec fn chosen_environment(s: DescriptorSpecView) -> Seq<(Seq<char>, Seq<char>)> {
    (match s.version {
        Some(v) => seq![("VERSION"@, v)],
        None => seq![],
    }) + (match s.difficulty {
        Some(d) => seq![("DIFFICULTY"@, difficulty_name(d))],
        None => seq![],
    }) + seq![("MAX_MEMORY"@, s.max_memory)]
}

/// The entry for an ingested world, if there is one.
pub open spec fn world_environment(s: DescriptorSpecView) -> Seq<(Seq<char>, Seq<char>)> {
    match s.world {
        Some(file) => seq![("WORLD"@, asset_location(file))],
        None => seq![],
    }
}

/// The entries for a modpack, if there is one.
pub open spec fn modpack_environment(s: DescriptorSpecView) -> Seq<(Seq<char>, Seq<char>)> {
    match s.modpack {
        ModpackPlacementView::Absent => seq![],
        ModpackPlacementView::Page(url) => seq![
            ("MODPACK_PLATFORM"@, "AUTO_CURSEFORGE"@),
            ("CF_API_KEY"@, s.cf_api_key),
            ("CF_PAGE_URL"@, url),
        ],
        ModpackPlacementView::Archive(file) => seq![
            ("MODPACK_PLATFORM"@, "AUTO_CURSEFORGE"@),
            ("CF_API_KEY"@, s.cf_api_key),
            ("CF_SLUG"@, "custom"@),
            ("CF_MODPACK_ZIP"@, asset_location(file)),
        ],
    }
}

/// The environment of an instance.
pub open spec fn environment_of(s: DescriptorSpecView) -> Seq<(Seq<char>, Seq<char>)> {
    fixed_environment(s) + chosen_environment(s) + world_environment(s) + modpack_environment(s)
}

/// The descriptor of an instance.
pub open spec fn descriptor_of(s: DescriptorSpecView) -> DeploymentDescriptorView {
    DeploymentDescriptorView {
        service: "mc"@,
        image: "itzg/minecraft-server"@,
        tty: true,
        stdin_open: true,
        ports: seq![port_mapping(s.port)],
        volumes: seq![data_mount(s.id), world_mount(s.id)],
        healthcheck: HealthCheckView {
            test: "mc-health"@,
            start_period: "1m"@,
            interval: "5s"@,
            retries: "20"@,
        },
        environment: environment_of(s),
    }
}

/// No key comes twice among `pairs`.
pub open spec fn distinct_keys(pairs: Seq<(Seq<char>, Seq<char>)>) -> bool {
    forall|i: int, j: int|
        0 <= i < j < pairs.len() ==> (#[trigger] pairs[i]).0 != (#[trigger] pairs[j]).0
}

/// The descriptor is a function of the specification's values: two
/// specifications that hold the same values give the same descriptor, field
/// by field.
pub proof fn lemma_descriptor_deterministic(a: DescriptorSpec, b: DescriptorSpec)
    requires
        a@ == b@,
    ensures
        descriptor_of(a@) == descriptor_of(b@),
{
}

/// No variable is set twice in the environment of an instance, so the
/// environment can be compared entry by entry, whatever the order.
pub proof fn lemma_environment_keys_distinct(s: DescriptorSpecView)
    ensures
        distinct_keys(environment_of(s)),
{
    reveal_strlit("EULA");
    reveal_strlit("OPS");
    reveal_strlit("VERSION");
    reveal_strlit("DIFFICULTY");
    reveal_strlit("MAX_MEMORY");
    reveal_strlit("WORLD");
    reveal_strlit("MODPACK_PLATFORM");
    reveal_strlit("CF_API_KEY");
    reveal_strlit("CF_PAGE_URL");
    reveal_strlit("CF_SLUG");
    reveal_strlit("CF_MODPACK_ZIP");
    assert("EULA"@.len() == 4 && "OPS"@.len() == 3 && "WORLD"@.len() == 5);
    assert("VERSION"@.len() == 7 && "VERSION"@[0] == 'V');
    assert("CF_SLUG"@.len() == 7 && "CF_SLUG"@[0] == 'C');
    assert("DIFFICULTY"@.len() == 10 && "DIFFICULTY"@[0] == 'D');
    assert("MAX_MEMORY"@.len() == 10 && "MAX_MEMORY"@[0] == 'M');
    assert("CF_API_KEY"@.len() == 10 && "CF_API_KEY"@[0] == 'C');
    assert("MODPACK_PLATFORM"@.len() == 16 && "CF_PAGE_URL"@.len() == 11);
    assert("CF_MODPACK_ZIP"@.len() == 14);
    let env = environment_of(s);
    assert forall|i: int, j: int| 0 <= i < j < env.len() implies (#[trigger] env[i]).0 != (
    #[trigger] env[j]).0 by {}
}

/// Adds one entry to an environment.
fn push_entry(env: &mut Vec<(String, String)>, key: &str, value: String)
    ensures
        pairs_view(final(env)@) == pairs_view(old(env)@).push((key@, value@)),
{
    env.push((key.to_owned(), value));
    assert(pairs_view(env@) =~= pairs_view(old(env)@).push((key@, value@)));
}

/// Builds the descriptor of an instance from its specification.
pub fn build_descriptor(spec: &DescriptorSpec) -> (d: DeploymentDescriptor)
    ensures
        d@ == descriptor_of(spec@),
{
    let port_text = decimal_text(spec.port);
    let id_text = decimal_text(spec.id);
    let mut ports: Vec<String> = Vec::new();
    ports.push(join2(port_text.as_str(), ":25565"));
    let mut volumes: Vec<String> = Vec::new();
    volumes.push(join3("/worlds/", id_text.as_str(), "/data:/data"));
    volumes.push(join3("/worlds/", id_text.as_str(), "/world:/world"));

    let mut env: Vec<(String, String)> = Vec::new();
    push_entry(&mut env, "EULA", "TRUE".to_owned());
    push_entry(&mut env, "OPS", spec.admin_player.clone());
    assert(pairs_view(env@) =~= fixed_environment(spec@));
    let ghost fixed = pairs_view(env@);
    match &spec.version {
        Some(version) => {
            push_entry(&mut env, "VERSION", version.clone());
        },
        None => {},
    }
    match spec.difficulty {
        Some(difficulty) => {
            push_entry(&mut env, "DIFFICULTY", difficulty.name().to_owned());
        },
        None => {},
    }
    push_entry(&mut env, "MAX_MEMORY", spec.max_memory.clone());
    assert(pairs_view(env@) =~= fixed + chosen_environment(spec@));
    let ghost chosen = pairs_view(env@);
    match &spec.world {
        Some(file) => {
            push_entry(&mut env, "WORLD", join2("/world/", file.as_str()));
        },
        None => {},
    }
    assert(pairs_view(env@) =~= chosen + world_environment(spec@));
    let ghost with_world = pairs_view(env@);
    match &spec.modpack {
        ModpackPlacement::Absent => {},
        ModpackPlacement::Page(url) => {
            push_entry(&mut env, "MODPACK_PLATFORM", "AUTO_CURSEFORGE".to_owned());
            push_entry(&mut env, "CF_API_KEY", spec.cf_api_key.clone());
            push_entry(&mut env, "CF_PAGE_URL", url.clone());
        },
        ModpackPlacement::Archive(file) => {
            push_entry(&mut env, "MODPACK_PLATFORM", "AUTO_CURSEFORGE".to_owned());
            push_entry(&mut env, "CF_API_KEY", spec.cf_api_key.clone());
            push_entry(&mut env, "CF_SLUG", "custom".to_owned());
            push_entry(&mut env, "CF_MODPACK_ZIP", join2("/world/", file.as_str()));
        },
    }
    assert(pairs_view(env@) =~= with_world + modpack_environment(spec@));

    let d = DeploymentDescriptor {
        service: "mc".to_owned(),
        image: "itzg/minecraft-server".to_owned(),
        tty: true,
        stdin_open: true,
        ports,
        volumes,
        healthcheck: HealthCheck {
            test: "mc-health".to_owned(),
            start_period: "1m".to_owned(),
            interval: "5s".to_owned(),
            retries: "20".to_owned(),
        },
        environment: env,
    };
    assert(d@.ports =~= descriptor_of(spec@).ports);
    assert(d@.volumes =~= descriptor_of(spec@).volumes);
    assert(d@.environment =~= environment_of(spec@));
    d
}

} // verus!
