use vstd::prelude::*;
use vstd::string::*;
use crate::descriptor::{
    build_descriptor,
    descriptor_of,
    optional_text,
    texts_view,
    DescriptorSpec,
    DescriptorSpecView,
    ModpackPlacement,
    ModpackPlacementView,
};
use crate::document::{document, render};
use crate::error::ProvisionError;
use crate::fetcher::{
    next_action,
    next_session,
    FetchAction,
    FetchActionView,
    FetchEvent,
    FetchEventView,
    FetchPhase,
    UploadSession,
    UploadSessionView,
};
use crate::ports::{allocate_port, lowest_free, used_set};
use crate::request::{
    new_record,
    record_of,
    ModpackSource,
    ProvisionRequest,
    ProvisionRequestView,
    ServerRecord,
    ServerRecordView,
    Settings,
    SettingsView,
};
use crate::text::{decimal, decimal_text, join2, join3, lowercase, to_lowercase};
use crate::versions::{json_string_list, validate_version, version_verdict};
use crate::yaml::yaml_text;

verus! {

/// The seconds that the requester has to name the modpack's page.
pub const URL_TIMEOUT: u64 = 60;

/// Where a provisioning stands: what it waits for.
#[derive(Clone, Copy, Debug, PartialEq, Eq, Structural)]
pub enum Stage {
    /// Whether the name is taken.
    CheckingName,
    /// The ports in use.
    ReadingPorts,
    /// The requester being told that the work has begun.
    AnnouncingStart,
    /// The known-versions document.
    LoadingVersions,
    /// The record's identifier.
    InsertingRecord,
    /// The instance's directories.
    CreatingDirectories,
    /// The world, from the broker.
    FetchingWorld,
    /// The requester's message with the modpack's page.
    AwaitingUrl,
    /// That message being deleted.
    DeletingReply,
    /// The modpack, from the broker.
    FetchingModpack,
    /// The descriptor being written.
    WritingDescriptor,
    /// The requester being told that the server exists.
    AnnouncingCreated,
    /// Nothing: the server is provisioned.
    Done,
    /// Nothing: the provisioning has failed.
    Failed(ProvisionError),
}

/// One provisioning: the request and the configuration it started with, and
/// what has been settled since.
#[derive(Clone, Debug, PartialEq, Eq)]
pub struct Provisioning {
    pub stage: Stage,
    pub request: ProvisionRequest,
    pub settings: Settings,
    /// The name in lowercase.
    pub name: String,
    /// The port, once one is allocated.
    pub port: i64,
    /// The record's identifier, once the store has given one.
    pub id: i64,
    /// The file name of the world, once it is stored.
    pub world: Option<String>,
    /// The modpack, once it is settled.
    pub modpack: ModpackPlacement,
    /// The fetch that is under way, or the last one.
    pub fetch: UploadSession,
}

/// A provisioning with its texts as sequences of characters.
pub struct ProvisioningView {
    pub stage: Stage,
    pub request: ProvisionRequestView,
    pub settings: SettingsView,
    pub name: Seq<char>,
    pub port: int,
    pub id: int,
    pub world: Option<Seq<char>>,
    pub modpack: ModpackPlacementView,
    pub fetch: UploadSessionView,
}

impl View for Provisioning {
    type V = ProvisioningView;

    open spec fn view(&self) -> ProvisioningView {
        ProvisioningView {
            stage: self.stage,
            request: self.request@,
            settings: self.settings@,
            name: self.name@,
            port: self.port as int,
            id: self.id as int,
            world: optional_text(self.world),
            modpack: self.modpack@,
            fetch: self.fetch@,
        }
    }
}

/// What happened since the last action.
#[derive(Clone, Debug, PartialEq, Eq)]
pub enum Event {
    /// The store said whether a server of that name exists.
    NameChecked { exists: bool },
    /// The store listed the ports of all servers.
    PortsListed { ports: Vec<i64> },
    /// The requester has been told.
    Notified,
    /// The known-versions document was read.
    VersionsLoaded { text: String },
    /// The store took the record and gave it this identifier.
    RecordInserted { id: i64 },
    /// The store refused the record: a server of that name exists by now.
    NameTaken,
    /// The directories exist.
    DirectoriesCreated,
    /// Something happened in the fetch that is under way.
    Fetch(FetchEvent),
    /// The requester named the modpack's page.
    UrlReceived { url: String },
    /// The requester did not answer in time.
    UrlTimedOut,
    /// The requester's message is deleted.
    ReplyDeleted,
    /// The descriptor is written.
    DescriptorWritten,
    /// A directory or file could not be written.
    StorageFailed,
    /// The store, the requester or the configuration could not be reached.
    CollaboratorFailed,
}

/// An event with its texts as sequences of characters.
pub enum EventView {
    NameChecked { exists: bool },
    PortsListed { ports: Seq<i64> },
    Notified,
    VersionsLoaded { text: Seq<char> },
    RecordInserted { id: int },
    NameTaken,
    DirectoriesCreated,
    Fetch(FetchEventView),
    UrlReceived { url: Seq<char> },
    UrlTimedOut,
    ReplyDeleted,
    DescriptorWritten,
    StorageFailed,
    CollaboratorFailed,
}

impl View for Event {
    type V = EventView;

    open spec fn view(&self) -> EventView {
        match self {
            Event::NameChecked { exists } => EventView::NameChecked { exists: *exists },
            Event::PortsListed { ports } => EventView::PortsListed { ports: ports@ },
            Event::Notified => EventView::Notified,
            Event::VersionsLoaded { text } => EventView::VersionsLoaded { text: text@ },
            Event::RecordInserted { id } => EventView::RecordInserted { id: *id as int },
            Event::NameTaken => EventView::NameTaken,
            Event::DirectoriesCreated => EventView::DirectoriesCreated,
            Event::Fetch(e) => EventView::Fetch(e@),
            Event::UrlReceived { url } => EventView::UrlReceived { url: url@ },
            Event::UrlTimedOut => EventView::UrlTimedOut,
            Event::ReplyDeleted => EventView::ReplyDeleted,
            Event::DescriptorWritten => EventView::DescriptorWritten,
            Event::StorageFailed => EventView::StorageFailed,
            Event::CollaboratorFailed => EventView::CollaboratorFailed,
        }
    }
}

/// What is to be done next.
#[derive(Clone, Debug, PartialEq, Eq)]
pub enum Action {
    /// Ask the store whether a server of this name exists.
    CheckName { name: String },
    /// Ask the store for the ports of all servers, in ascending order.
    ListPorts,
    /// Tell the requester that the work has begun.
    NotifyStarted,
    /// Read the known-versions document.
    LoadVersions,
    /// Hand the record to the store.
    InsertRecord { record: ServerRecord },
    /// Create these directories, with their parents.
    CreateDirectories { paths: Vec<String> },
    /// Do this for the fetch that is under way.
    Fetch(FetchAction),
    /// Ask the requester for the modpack's page and wait so many seconds.
    AskForUrl { seconds: u64 },
    /// Delete the requester's message.
    DeleteReply,
    /// Write the descriptor's text to this path.
    WriteDescriptor { path: String, text: String },
    /// Tell the requester that the server of this name exists.
    NotifyCreated { name: String },
    /// Nothing more: the server is provisioned.
    Finish,
    /// Nothing more: tell the requester of this error.
    Fail { error: ProvisionError },
    /// Nothing: the provisioning had ended before.
    Idle,
}

/// An action with its texts as sequences of characters.
pub enum ActionView {
    CheckName { name: Seq<char> },
    ListPorts,
    NotifyStarted,
    LoadVersions,
    InsertRecord { record: ServerRecordView },
    CreateDirectories { paths: Seq<Seq<char>> },
    Fetch(FetchActionView),
    AskForUrl { seconds: int },
    DeleteReply,
    WriteDescriptor { path: Seq<char>, text: Seq<char> },
    NotifyCreated { name: Seq<char> },
    Finish,
    Fail { error: ProvisionError },
    Idle,
}

impl View for Action {
    type V = ActionView;

    open spec fn view(&self) -> ActionView {
        match self {
            Action::CheckName { name } => ActionView::CheckName { name: name@ },
            Action::ListPorts => ActionView::ListPorts,
            Action::NotifyStarted => ActionView::NotifyStarted,
            Action::LoadVersions => ActionView::LoadVersions,
            Action::InsertRecord { record } => ActionView::InsertRecord { record: record@ },
            Action::CreateDirectories { paths } => ActionView::CreateDirectories {
                paths: texts_view(paths@),
            },
            Action::Fetch(a) => ActionView::Fetch(a@),
            Action::AskForUrl { seconds } => ActionView::AskForUrl { seconds: *seconds as int },
            Action::DeleteReply => ActionView::DeleteReply,
            Action::WriteDescriptor { path, text } => ActionView::WriteDescriptor {
                path: path@,
                text: text@,
            },
            Action::NotifyCreated { name } => ActionView::NotifyCreated { name: name@ },
            Action::Finish => ActionView::Finish,
            Action::Fail { error } => ActionView::Fail { error: *error },
            Action::Idle => ActionView::Idle,
        }
    }
}

/// The directory of the instance: under the storage root, named by the
/// record's identifier.
pub open spec fn instance_dir(s: ProvisioningView) -> Seq<char> {
    s.settings.storage_root + "/"@ + decimal(s.id)
}

/// The directories of a new instance.
pub open spec fn instance_dirs(s: ProvisioningView) -> Seq<Seq<char>> {
    seq![instance_dir(s) + "/data"@, instance_dir(s) + "/world"@]
}

/// Where the descriptor of the instance is written.
pub open spec fn descriptor_path(s: ProvisioningView) -> Seq<char> {
    instance_dir(s) + "/docker-compose.yml"@
}

/// What the descriptor is built from, as things stand.
pub open spec fn descriptor_spec(s: ProvisioningView) -> DescriptorSpecView {
    DescriptorSpecView {
        port: s.port,
        id: s.id,
        version: s.request.version,
        difficulty: s.request.difficulty,
        world: s.world,
        modpack: s.modpack,
        admin_player: s.settings.admin_player,
        max_memory: s.settings.max_memory,
        cf_api_key: s.settings.cf_api_key,
    }
}

/// The text of the descriptor, as things stand, where the serializer gives
/// one.
pub open spec fn descriptor_text(s: ProvisioningView) -> Option<Seq<char>> {
    yaml_text(document(descriptor_of(descriptor_spec(s))))
}

/// The provisioning ends with `error`.
pub open spec fn fail(s: ProvisioningView, error: ProvisionError) -> (ProvisioningView, ActionView) {
    (ProvisioningView { stage: Stage::Failed(error), ..s }, ActionView::Fail { error })
}

/// The record goes to the store.
pub open spec fn insert(s: ProvisioningView) -> (ProvisioningView, ActionView) {
    (
        ProvisioningView { stage: Stage::InsertingRecord, ..s },
        ActionView::InsertRecord { record: record_of(s.request, s.name, s.port) },
    )
}

/// A text for the descriptor goes to storage; where there is none, the
/// provisioning fails with `Internal`.
pub open spec fn concluded(s: ProvisioningView, text: Option<Seq<char>>) -> (
    ProvisioningView,
    ActionView,
) {
    match text {
        Some(text) => (
            ProvisioningView { stage: Stage::WritingDescriptor, ..s },
            ActionView::WriteDescriptor { path: descriptor_path(s), text },
        ),
        None => fail(s, ProvisionError::Internal),
    }
}

/// The descriptor is built and its text goes to storage; where the
/// serializer gives no text, the provisioning fails with `Internal`.
pub open spec fn conclude(s: ProvisioningView) -> (ProvisioningView, ActionView) {
    concluded(s, descriptor_text(s))
}

/// A fetch into the instance's directory begins.
pub open spec fn begin_fetch(s: ProvisioningView, stage: Stage) -> (ProvisioningView, ActionView) {
    (
        ProvisioningView { stage, fetch: UploadSession::fresh(instance_dir(s)), ..s },
        ActionView::Fetch(FetchActionView::Generate),
    )
}

/// The modpack is seen to, if one was asked for.
pub open spec fn begin_modpack(s: ProvisioningView) -> (ProvisioningView, ActionView) {
    match s.request.modpack {
        None => conclude(s),
        Some(ModpackSource::Page) => (
            ProvisioningView { stage: Stage::AwaitingUrl, ..s },
            ActionView::AskForUrl { seconds: URL_TIMEOUT as int },
        ),
        Some(ModpackSource::Archive) => begin_fetch(s, Stage::FetchingModpack),
    }
}

/// The assets are seen to: first the world, then the modpack.
pub open spec fn begin_assets(s: ProvisioningView) -> (ProvisioningView, ActionView) {
    if s.request.include_world {
        begin_fetch(s, Stage::FetchingWorld)
    } else {
        begin_modpack(s)
    }
}

/// The fetch that is under way takes the event. Its actions are handed on
/// until it ends: with the asset stored the provisioning goes on, with an
/// error it fails with that error.
pub open spec fn fetch_step(s: ProvisioningView, event: FetchEventView) -> (
    ProvisioningView,
    ActionView,
) {
    let session = next_session(s.fetch, event);
    let moved = ProvisioningView { fetch: session, ..s };
    match session.phase {
        FetchPhase::Done => if s.stage == Stage::FetchingWorld {
            begin_modpack(ProvisioningView { world: Some(session.token), ..moved })
        } else {
            conclude(
                ProvisioningView { modpack: ModpackPlacementView::Archive(session.token), ..moved },
            )
        },
        FetchPhase::Failed(error) => fail(moved, error),
        _ => (moved, ActionView::Fetch(next_action(s.fetch, event))),
    }
}

/// The provisioning after `event`, and the action that the event calls
/// for.
pub open spec fn transition(s: ProvisioningView, event: EventView) -> (
    ProvisioningView,
    ActionView,
) {
    match (s.stage, event) {
        (Stage::Done, _) => (s, ActionView::Idle),
        (Stage::Failed(_), _) => (s, ActionView::Idle),
        (Stage::CheckingName, EventView::NameChecked { exists }) => if exists {
            fail(s, ProvisionError::DuplicateName)
        } else {
            (ProvisioningView { stage: Stage::ReadingPorts, ..s }, ActionView::ListPorts)
        },
        (Stage::ReadingPorts, EventView::PortsListed { ports }) => match lowest_free(
            used_set(ports),
            s.settings.min_port,
            s.settings.max_port,
        ) {
            Some(port) => (
                ProvisioningView { stage: Stage::AnnouncingStart, port, ..s },
                ActionView::NotifyStarted,
            ),
            None => fail(s, ProvisionError::NoPortAvailable),
        },
        (Stage::AnnouncingStart, EventView::Notified) => match s.request.version {
            Some(_) => (
                ProvisioningView { stage: Stage::LoadingVersions, ..s },
                ActionView::LoadVersions,
            ),
            None => insert(s),
        },
        (Stage::LoadingVersions, EventView::VersionsLoaded { text }) => match s.request.version {
            Some(version) => match version_verdict(json_string_list(text), version) {
                Ok(_) => insert(s),
                Err(error) => fail(s, error),
            },
            None => insert(s),
        },
        (Stage::InsertingRecord, EventView::RecordInserted { id }) => {
            let stored = ProvisioningView { stage: Stage::CreatingDirectories, id, ..s };
            (stored, ActionView::CreateDirectories { paths: instance_dirs(stored) })
        },
        (Stage::InsertingRecord, EventView::NameTaken) => fail(s, ProvisionError::DuplicateName),
        (Stage::CreatingDirectories, EventView::DirectoriesCreated) => begin_assets(s),
        (Stage::CreatingDirectories, EventView::StorageFailed) => fail(
            s,
            ProvisionError::StorageFailure,
        ),
        (Stage::FetchingWorld, EventView::Fetch(e)) => fetch_step(s, e),
        (Stage::FetchingModpack, EventView::Fetch(e)) => fetch_step(s, e),
        (Stage::AwaitingUrl, EventView::UrlReceived { url }) => (
            ProvisioningView {
                stage: Stage::DeletingReply,
                modpack: ModpackPlacementView::Page(url),
                ..s
            },
            ActionView::DeleteReply,
        ),
        (Stage::AwaitingUrl, EventView::UrlTimedOut) => fail(s, ProvisionError::NoInputProvided),
        (Stage::DeletingReply, EventView::ReplyDeleted) => conclude(s),
        (Stage::WritingDescriptor, EventView::DescriptorWritten) => (
            ProvisioningView { stage: Stage::AnnouncingCreated, ..s },
            ActionView::NotifyCreated { name: s.name },
        ),
        (Stage::WritingDescriptor, EventView::StorageFailed) => fail(
            s,
            ProvisionError::StorageFailure,
        ),
        (Stage::AnnouncingCreated, EventView::Notified) => (
            ProvisioningView { stage: Stage::Done, ..s },
            ActionView::Finish,
        ),
        _ => fail(s, ProvisionError::Internal),
    }
}

/// A provisioning as it begins.
pub open spec fn initial(request: ProvisionRequestView, settings: SettingsView) -> ProvisioningView {
    ProvisioningView {
        stage: Stage::CheckingName,
        request,
        settings,
        name: lowercase(request.name),
        port: 0,
        id: 0,
        world: None,
        modpack: ModpackPlacementView::Absent,
        fetch: UploadSession::fresh(Seq::empty()),
    }
}

impl Provisioning {
    /// The fetch inside is well formed.
    pub open spec fn well_formed(&self) -> bool {
        self.fetch.well_formed()
    }

    /// Begins a provisioning: the name is put in lowercase, and the first
    /// thing to do is to ask the store whether it is taken.
    pub fn begin(request: ProvisionRequest, settings: Settings) -> (r: (Provisioning, Action))
        ensures
            r.0.well_formed(),
            r.0@ == initial(request@, settings@),
            r.1@ == (ActionView::CheckName { name: lowercase(request.name@) }),
    {
        let name = to_lowercase(request.name.as_str());
        let action = Action::CheckName { name: name.clone() };
        let (fetch, _) = UploadSession::start(String::new());
        (
            Provisioning {
                stage: Stage::CheckingName,
                request,
                settings,
                name,
                port: 0,
                id: 0,
                world: None,
                modpack: ModpackPlacement::Absent,
                fetch,
            },
            action,
        )
    }

    /// The instance's directory.
    fn directory(&self) -> (r: String)
        ensures
            r@ == instance_dir(self@),
    {
        let id = decimal_text(self.id);
        join3(self.settings.storage_root.as_str(), "/", id.as_str())
    }

    /// Ends the provisioning with `error`.
    fn fail_with(&mut self, error: ProvisionError) -> (action: Action)
        ensures
            (final(self)@, action@) == fail(old(self)@, error),
            old(self).well_formed() ==> final(self).well_formed(),
    {
        self.stage = Stage::Failed(error);
        Action::Fail { error }
    }

    /// Hands the record to the store.
    fn insert_record(&mut self) -> (action: Action)
        ensures
            (final(self)@, action@) == insert(old(self)@),
            old(self).well_formed() ==> final(self).well_formed(),
    {
        self.stage = Stage::InsertingRecord;
        Action::InsertRecord { record: new_record(&self.request, &self.name, self.port) }
    }

    /// What the descriptor is built from, as things stand.
    fn descriptor_input(&self) -> (r: DescriptorSpec)
        ensures
            r@ == descriptor_spec(self@),
    {
        DescriptorSpec {
            port: self.port,
            id: self.id,
            version: match &self.request.version {
                Some(v) => Some(v.clone()),
                None => None,
            },
            difficulty: self.request.difficulty,
            world: match &self.world {
                Some(w) => Some(w.clone()),
                None => None,
            },
            modpack: match &self.modpack {
                ModpackPlacement::Absent => ModpackPlacement::Absent,
                ModpackPlacement::Page(url) => ModpackPlacement::Page(url.clone()),
                ModpackPlacement::Archive(file) => ModpackPlacement::Archive(file.clone()),
            },
            admin_player: self.settings.admin_player.clone(),
            max_memory: self.settings.max_memory.clone(),
            cf_api_key: self.settings.cf_api_key.clone(),
        }
    }

    /// Goes on with what rendering the descriptor gave: its text is handed
    /// to storage, and without a text the provisioning fails.
    pub fn conclude_with(&mut self, rendered: Result<String, ProvisionError>) -> (action: Action)
        ensures
            (final(self)@, action@) == concluded(
                old(self)@,
                match rendered {
                    Ok(text) => Some(text@),
                    Err(_) => None,
                },
            ),
            old(self).well_formed() ==> final(self).well_formed(),
    {
        match rendered {
            Ok(text) => {
                let dir = self.directory();
                self.stage = Stage::WritingDescriptor;
                Action::WriteDescriptor { path: join2(dir.as_str(), "/docker-compose.yml"), text }
            },
            Err(_) => self.fail_with(ProvisionError::Internal),
        }
    }

    /// Builds and renders the descriptor and hands it to storage.
    fn finish_descriptor(&mut self) -> (action: Action)
        ensures
            (final(self)@, action@) == conclude(old(self)@),
            old(self).well_formed() ==> final(self).well_formed(),
    {
        let descriptor = build_descriptor(&self.descriptor_input());
        self.conclude_with(render(&descriptor))
    }

    /// Begins a fetch into the instance's directory.
    fn start_fetch(&mut self, stage: Stage) -> (action: Action)
        ensures
            (final(self)@, action@) == begin_fetch(old(self)@, stage),
            final(self).well_formed(),
    {
        let (fetch, first) = UploadSession::start(self.directory());
        self.stage = stage;
        self.fetch = fetch;
        Action::Fetch(first)
    }

    /// Sees to the modpack, if one was asked for.
    fn start_modpack(&mut self) -> (action: Action)
        ensures
            (final(self)@, action@) == begin_modpack(old(self)@),
            old(self).well_formed() ==> final(self).well_formed(),
    {
        match self.request.modpack {
            None => self.finish_descriptor(),
            Some(ModpackSource::Page) => {
                self.stage = Stage::AwaitingUrl;
                Action::AskForUrl { seconds: URL_TIMEOUT }
            },
            Some(ModpackSource::Archive) => self.start_fetch(Stage::FetchingModpack),
        }
    }

    /// Hands the event to the fetch that is under way.
    fn advance_fetch(&mut self, event: FetchEvent) -> (action: Action)
        requires
            old(self).stage == Stage::FetchingWorld || old(self).stage == Stage::FetchingModpack,
        ensures
            (final(self)@, action@) == fetch_step(old(self)@, event@),
            old(self).well_formed() ==> final(self).well_formed(),
    {
        let action = self.fetch.step(event);
        match self.fetch.phase {
            FetchPhase::Done => {
                if self.stage == Stage::FetchingWorld {
                    self.world = Some(self.fetch.token.clone());
                    self.start_modpack()
                } else {
                    self.modpack = ModpackPlacement::Archive(self.fetch.token.clone());
                    self.finish_descriptor()
                }
            },
            FetchPhase::Failed(error) => self.fail_with(error),
            _ => Action::Fetch(action),
        }
    }

    fn on_name_checked(&mut self, event: Event) -> (action: Action)
        requires
            old(self).stage == Stage::CheckingName,
        ensures
            old(self).well_formed() ==> final(self).well_formed(),
            (final(self)@, action@) == transition(old(self)@, event@),
    {
        match event {
            Event::NameChecked { exists } => {
                if exists {
                    self.fail_with(ProvisionError::DuplicateName)
                } else {
                    self.stage = Stage::ReadingPorts;
                    Action::ListPorts
                }
            },
            _ => self.fail_with(ProvisionError::Internal),
        }
    }

    fn on_ports_listed(&mut self, event: Event) -> (action: Action)
        requires
            old(self).stage == Stage::ReadingPorts,
        ensures
            old(self).well_formed() ==> final(self).well_formed(),
            (final(self)@, action@) == transition(old(self)@, event@),
    {
        match event {
            Event::PortsListed { ports } => {
                match allocate_port(&ports, self.settings.min_port, self.settings.max_port) {
                    Ok(port) => {
                        self.stage = Stage::AnnouncingStart;
                        self.port = port;
                        Action::NotifyStarted
                    },
                    Err(_) => self.fail_with(ProvisionError::NoPortAvailable),
                }
            },
            _ => self.fail_with(ProvisionError::Internal),
        }
    }

    fn on_start_announced(&mut self, event: Event) -> (action: Action)
        requires
            old(self).stage == Stage::AnnouncingStart,
        ensures
            old(self).well_formed() ==> final(self).well_formed(),
            (final(self)@, action@) == transition(old(self)@, event@),
    {
        match event {
            Event::Notified => {
                if self.request.version.is_some() {
                    self.stage = Stage::LoadingVersions;
                    Action::LoadVersions
                } else {
                    self.insert_record()
                }
            },
            _ => self.fail_with(ProvisionError::Internal),
        }
    }

    fn on_versions_loaded(&mut self, event: Event) -> (action: Action)
        requires
            old(self).stage == Stage::LoadingVersions,
        ensures
            old(self).well_formed() ==> final(self).well_formed(),
            (final(self)@, action@) == transition(old(self)@, event@),
    {
        match event {
            Event::VersionsLoaded { text } => {
                let verdict = match &self.request.version {
                    Some(version) => validate_version(text.as_str(), version),
                    None => Ok(()),
                };
                match verdict {
                    Ok(_) => self.insert_record(),
                    Err(error) => self.fail_with(error),
                }
            },
            _ => self.fail_with(ProvisionError::Internal),
        }
    }

    fn on_record_inserted(&mut self, event: Event) -> (action: Action)
        requires
            old(self).stage == Stage::InsertingRecord,
        ensures
            old(self).well_formed() ==> final(self).well_formed(),
            (final(self)@, action@) == transition(old(self)@, event@),
    {
        match event {
            Event::RecordInserted { id } => {
                self.stage = Stage::CreatingDirectories;
                self.id = id;
                let dir = self.directory();
                let mut paths: Vec<String> = Vec::new();
                paths.push(join2(dir.as_str(), "/data"));
                paths.push(join2(dir.as_str(), "/world"));
                assert(texts_view(paths@) =~= instance_dirs(self@));
                Action::CreateDirectories { paths }
            },
            Event::NameTaken => self.fail_with(ProvisionError::DuplicateName),
            _ => self.fail_with(ProvisionError::Internal),
        }
    }

    fn on_directories_created(&mut self, event: Event) -> (action: Action)
        requires
            old(self).stage == Stage::CreatingDirectories,
        ensures
            old(self).well_formed() ==> final(self).well_formed(),
            (final(self)@, action@) == transition(old(self)@, event@),
    {
        match event {
            Event::DirectoriesCreated => {
                if self.request.include_world {
                    self.start_fetch(Stage::FetchingWorld)
                } else {
                    self.start_modpack()
                }
            },
            Event::StorageFailed => self.fail_with(ProvisionError::StorageFailure),
            _ => self.fail_with(ProvisionError::Internal),
        }
    }

    fn on_fetch(&mut self, event: Event) -> (action: Action)
        requires
            old(self).stage == Stage::FetchingWorld || old(self).stage == Stage::FetchingModpack,
        ensures
            old(self).well_formed() ==> final(self).well_formed(),
            (final(self)@, action@) == transition(old(self)@, event@),
    {
        match event {
            Event::Fetch(e) => self.advance_fetch(e),
            _ => self.fail_with(ProvisionError::Internal),
        }
    }

    fn on_url(&mut self, event: Event) -> (action: Action)
        requires
            old(self).stage == Stage::AwaitingUrl,
        ensures
            old(self).well_formed() ==> final(self).well_formed(),
            (final(self)@, action@) == transition(old(self)@, event@),
    {
        match event {
            Event::UrlReceived { url } => {
                self.stage = Stage::DeletingReply;
                self.modpack = ModpackPlacement::Page(url);
                Action::DeleteReply
            },
            Event::UrlTimedOut => self.fail_with(ProvisionError::NoInputProvided),
            _ => self.fail_with(ProvisionError::Internal),
        }
    }

    fn on_reply_deleted(&mut self, event: Event) -> (action: Action)
        requires
            old(self).stage == Stage::DeletingReply,
        ensures
            old(self).well_formed() ==> final(self).well_formed(),
            (final(self)@, action@) == transition(old(self)@, event@),
    {
        match event {
            Event::ReplyDeleted => self.finish_descriptor(),
            _ => self.fail_with(ProvisionError::Internal),
        }
    }

    fn on_descriptor_written(&mut self, event: Event) -> (action: Action)
        requires
            old(self).stage == Stage::WritingDescriptor,
        ensures
            old(self).well_formed() ==> final(self).well_formed(),
            (final(self)@, action@) == transition(old(self)@, event@),
    {
        match event {
            Event::DescriptorWritten => {
                self.stage = Stage::AnnouncingCreated;
                Action::NotifyCreated { name: self.name.clone() }
            },
            Event::StorageFailed => self.fail_with(ProvisionError::StorageFailure),
            _ => self.fail_with(ProvisionError::Internal),
        }
    }

    fn on_created_announced(&mut self, event: Event) -> (action: Action)
        requires
            old(self).stage == Stage::AnnouncingCreated,
        ensures
            old(self).well_formed() ==> final(self).well_formed(),
            (final(self)@, action@) == transition(old(self)@, event@),
    {
        match event {
            Event::Notified => {
                self.stage = Stage::Done;
                Action::Finish
            },
            _ => self.fail_with(ProvisionError::Internal),
        }
    }

    /// Takes in what happened and says what to do next.
    pub fn step(&mut self, event: Event) -> (action: Action)
        ensures
            old(self).well_formed() ==> final(self).well_formed(),
            (final(self)@, action@) == transition(old(self)@, event@),
    {
        match self.stage {
            Stage::Done => Action::Idle,
            Stage::Failed(_) => Action::Idle,
            Stage::CheckingName => self.on_name_checked(event),
            Stage::ReadingPorts => self.on_ports_listed(event),
            Stage::AnnouncingStart => self.on_start_announced(event),
            Stage::LoadingVersions => self.on_versions_loaded(event),
            Stage::InsertingRecord => self.on_record_inserted(event),
            Stage::CreatingDirectories => self.on_directories_created(event),
            Stage::FetchingWorld => self.on_fetch(event),
            Stage::FetchingModpack => self.on_fetch(event),
            Stage::AwaitingUrl => self.on_url(event),
            Stage::DeletingReply => self.on_reply_deleted(event),
            Stage::WritingDescriptor => self.on_descriptor_written(event),
            Stage::AnnouncingCreated => self.on_created_announced(event),
        }
    }
}

} // verus!
