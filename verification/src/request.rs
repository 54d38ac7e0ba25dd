use vstd::prelude::*;
use vstd::string::*;
use crate::descriptor::{difficulty_name, optional_text, Difficulty};

verus! {

/// The most characters that a server's name may have; the transport holds
/// the requester to it.
pub const NAME_LIMIT: u16 = 25;

/// Where the requester's modpack comes from.
#[derive(Clone, Copy, Debug, PartialEq, Eq, Structural)]
pub enum ModpackSource {
    /// The requester names the modpack's page in a follow-up message.
    Page,
    /// The requester uploads the modpack's archive through the broker.
    Archive,
}

/// The word of the request's `modpack` option that stands for a source.
pub open spec fn source_choice(source: ModpackSource) -> Seq<char> {
    match source {
        ModpackSource::Page => "cf"@,
        ModpackSource::Archive => "file"@,
    }
}

/// The source that a word of the request's `modpack` option stands for:
/// `cf` for the page, `file` for the upload, and none for any other word.
pub open spec fn source_of_choice(choice: Seq<char>) -> Option<ModpackSource> {
    if choice == "cf"@ {
        Some(ModpackSource::Page)
    } else if choice == "file"@ {
        Some(ModpackSource::Archive)
    } else {
        None
    }
}

/// The difficulty that a name stands for, if it is one of the four names.
pub open spec fn difficulty_of_name(name: Seq<char>) -> Option<Difficulty> {
    if name == "peaceful"@ {
        Some(Difficulty::Peaceful)
    } else if name == "easy"@ {
        Some(Difficulty::Easy)
    } else if name == "normal"@ {
        Some(Difficulty::Normal)
    } else if name == "hard"@ {
        Some(Difficulty::Hard)
    } else {
        None
    }
}

/// Whether two texts are the same.
fn same_text(a: &str, b: &str) -> (r: bool)
    ensures
        r == (a@ == b@),
{
    a.to_owned() == b.to_owned()
}

impl ModpackSource {
    /// The word that stands for the source in the request.
    pub fn choice(&self) -> (r: &'static str)
        ensures
            r@ == source_choice(*self),
    {
        match self {
            ModpackSource::Page => "cf",
            ModpackSource::Archive => "file",
        }
    }

    /// Reads the request's `modpack` option.
    pub fn from_choice(choice: &str) -> (r: Option<ModpackSource>)
        ensures
            r == source_of_choice(choice@),
    {
        if same_text(choice, "cf") {
            Some(ModpackSource::Page)
        } else if same_text(choice, "file") {
            Some(ModpackSource::Archive)
        } else {
            None
        }
    }
}

impl Difficulty {
    /// Reads the request's `difficulty` option.
    pub fn from_name(name: &str) -> (r: Option<Difficulty>)
        ensures
            r == difficulty_of_name(name@),
    {
        if same_text(name, "peaceful") {
            Some(Difficulty::Peaceful)
        } else if same_text(name, "easy") {
            Some(Difficulty::Easy)
        } else if same_text(name, "normal") {
            Some(Difficulty::Normal)
        } else if same_text(name, "hard") {
            Some(Difficulty::Hard)
        } else {
            None
        }
    }
}

/// Reading a difficulty's name gives the difficulty back.
pub proof fn lemma_difficulty_names_round_trip(d: Difficulty)
    ensures
        difficulty_of_name(difficulty_name(d)) == Some(d),
{
    reveal_strlit("peaceful");
    reveal_strlit("easy");
    reveal_strlit("normal");
    reveal_strlit("hard");
    assert("peaceful"@.len() == 8 && "easy"@.len() == 4);
    assert("normal"@.len() == 6 && "hard"@.len() == 4);
    assert("easy"@[0] == 'e' && "hard"@[0] == 'h');
}

/// Reading a source's word gives the source back.
pub proof fn lemma_source_choices_round_trip(source: ModpackSource)
    ensures
        source_of_choice(source_choice(source)) == Some(source),
{
    reveal_strlit("cf");
    reveal_strlit("file");
    assert("cf"@.len() == 2 && "file"@.len() == 4);
}

/// What a requester asks for.
#[derive(Clone, Debug, PartialEq, Eq)]
pub struct ProvisionRequest {
    /// The server's name, as the requester wrote it.
    pub name: String,
    /// The game version, if the requester chose one.
    pub version: Option<String>,
    /// The difficulty, if the requester chose one.
    pub difficulty: Option<Difficulty>,
    /// Whether the requester brings a world.
    pub include_world: bool,
    /// Where the modpack comes from, if the requester wants one.
    pub modpack: Option<ModpackSource>,
}

/// A request with its texts as sequences of characters.
pub struct ProvisionRequestView {
    pub name: Seq<char>,
    pub version: Option<Seq<char>>,
    pub difficulty: Option<Difficulty>,
    pub include_world: bool,
    pub modpack: Option<ModpackSource>,
}

impl View for ProvisionRequest {
    type V = ProvisionRequestView;

    open spec fn view(&self) -> ProvisionRequestView {
        ProvisionRequestView {
            name: self.name@,
            version: optional_text(self.version),
            difficulty: self.difficulty,
            include_world: self.include_world,
            modpack: self.modpack,
        }
    }
}

/// The configuration that provisioning reads.
#[derive(Clone, Debug, PartialEq, Eq)]
pub struct Settings {
    /// The first port in the range.
    pub min_port: i64,
    /// The end of the range: the first port behind it.
    pub max_port: i64,
    /// The operator of every instance.
    pub admin_player: String,
    /// The memory ceiling of every instance.
    pub max_memory: String,
    /// The key for the modpack platform.
    pub cf_api_key: String,
    /// The directory under which each instance has its own.
    pub storage_root: String,
}

/// The configuration with its texts as sequences of characters.
pub struct SettingsView {
    pub min_port: int,
    pub max_port: int,
    pub admin_player: Seq<char>,
    pub max_memory: Seq<char>,
    pub cf_api_key: Seq<char>,
    pub storage_root: Seq<char>,
}

impl View for Settings {
    type V = SettingsView;

    open spec fn view(&self) -> SettingsView {
        SettingsView {
            min_port: self.min_port as int,
            max_port: self.max_port as int,
            admin_player: self.admin_player@,
            max_memory: self.max_memory@,
            cf_api_key: self.cf_api_key@,
            storage_root: self.storage_root@,
        }
    }
}

/// A server as it is handed to the store, which gives it its identifier.
#[derive(Clone, Debug, PartialEq, Eq)]
pub struct ServerRecord {
    pub name: String,
    pub version: String,
    pub difficulty: Difficulty,
    pub port: i64,
    pub started: bool,
}

/// A record with its texts as sequences of characters.
pub struct ServerRecordView {
    pub name: Seq<char>,
    pub version: Seq<char>,
    pub difficulty: Difficulty,
    pub port: int,
    pub started: bool,
}

impl View for ServerRecord {
    type V = ServerRecordView;

    open spec fn view(&self) -> ServerRecordView {
        ServerRecordView {
            name: self.name@,
            version: self.version@,
            difficulty: self.difficulty,
            port: self.port as int,
            started: self.started,
        }
    }
}

/// The record of a new server: the version is `latest` and the difficulty
/// `easy` where the requester chose none, and the server is not started.
pub open spec fn record_of(request: ProvisionRequestView, name: Seq<char>, port: int)
    -> ServerRecordView {
    ServerRecordView {
        name,
        version: match request.version {
            Some(v) => v,
            None => "latest"@,
        },
        difficulty: match request.difficulty {
            Some(d) => d,
            None => Difficulty::Easy,
        },
        port,
        started: false,
    }
}

/// Makes the record of a new server.
pub fn new_record(request: &ProvisionRequest, name: &String, port: i64) -> (r: ServerRecord)
    ensures
        r@ == record_of(request@, name@, port as int),
{
    ServerRecord {
        name: name.clone(),
        version: match &request.version {
            Some(v) => v.clone(),
            None => "latest".to_owned(),
        },
        difficulty: match request.difficulty {
            Some(d) => d,
            None => Difficulty::Easy,
        },
        port,
        started: false,
    }
}

} // verus!
