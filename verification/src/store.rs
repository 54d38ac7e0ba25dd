use vstd::prelude::*;
use crate::error::ProvisionError;
use crate::ports::{is_free, lemma_lowest_free_is_minimum, lowest_free, used_set};
use crate::request::{record_of, ProvisionRequestView, ServerRecordView, SettingsView};
use crate::text::lowercase;
use crate::versions::{json_string_list, version_verdict};
use crate::workflow::{initial, transition, ActionView, EventView};

verus! {

/// Whether the store holds a server of this name.
pub open spec fn name_taken(store: Seq<ServerRecordView>, name: Seq<char>) -> bool {
    exists|i: int| 0 <= i < store.len() && (#[trigger] store[i]).name == name
}

/// The ports of the servers in the store.
pub open spec fn ports_of(store: Seq<ServerRecordView>) -> Set<int> {
    Set::new(|p: int| exists|i: int| 0 <= i < store.len() && (#[trigger] store[i]).port == p)
}

/// What holds of the records in the store: no two have the same name, no
/// two have the same port, and every port lies in `[lo, hi)`.
pub open spec fn store_well_formed(store: Seq<ServerRecordView>, lo: int, hi: int) -> bool {
    &&& forall|i: int, j: int|
        0 <= i < j < store.len() ==> (#[trigger] store[i]).name != (#[trigger] store[j]).name
    &&& forall|i: int, j: int|
        0 <= i < j < store.len() ==> (#[trigger] store[i]).port != (#[trigger] store[j]).port
    &&& forall|i: int| 0 <= i < store.len() ==> lo <= (#[trigger] store[i]).port < hi
}

/// What a request comes to against a store, up to the point where its
/// record goes to the store: the record, or the error that ends it. The
/// name is checked first, then a port is taken, then the version is held
/// against the known versions.
pub open spec fn admission(
    store: Seq<ServerRecordView>,
    request: ProvisionRequestView,
    settings: SettingsView,
    known: Option<Seq<Seq<char>>>,
) -> Result<ServerRecordView, ProvisionError> {
    let name = lowercase(request.name);
    if name_taken(store, name) {
        Err(ProvisionError::DuplicateName)
    } else {
        match lowest_free(ports_of(store), settings.min_port, settings.max_port) {
            None => Err(ProvisionError::NoPortAvailable),
            Some(port) => match request.version {
                None => Ok(record_of(request, name, port)),
                Some(version) => match version_verdict(known, version) {
                    Ok(_) => Ok(record_of(request, name, port)),
                    Err(error) => Err(error),
                },
            },
        }
    }
}

/// The action with which the first steps of a provisioning end, when the
/// store answers that the name is taken or not (`exists`), lists `ports`,
/// and the known-versions document reads `versions`: the record is handed
/// over, or the provisioning fails.
pub open spec fn first_steps(
    request: ProvisionRequestView,
    settings: SettingsView,
    exists: bool,
    ports: Seq<i64>,
    versions: Seq<char>,
) -> ActionView {
    let named = transition(initial(request, settings), EventView::NameChecked { exists });
    if named.1 is Fail {
        named.1
    } else {
        let allocated = transition(named.0, EventView::PortsListed { ports });
        if allocated.1 is Fail {
            allocated.1
        } else {
            let announced = transition(allocated.0, EventView::Notified);
            if announced.1 is InsertRecord {
                announced.1
            } else {
                transition(announced.0, EventView::VersionsLoaded { text: versions }).1
            }
        }
    }
}

/// The first steps of a provisioning hand over the record that `admission`
/// gives, or fail with the error that it gives, when the store's answers
/// are true of the store.
pub proof fn lemma_first_steps_admit(
    store: Seq<ServerRecordView>,
    request: ProvisionRequestView,
    settings: SettingsView,
    ports: Seq<i64>,
    versions: Seq<char>,
)
    requires
        used_set(ports) =~= ports_of(store),
    ensures
        first_steps(
            request,
            settings,
            name_taken(store, lowercase(request.name)),
            ports,
            versions,
        ) == match admission(store, request, settings, json_string_list(versions)) {
            Ok(record) => ActionView::InsertRecord { record },
            Err(error) => ActionView::Fail { error },
        },
{
}

/// A record that was admitted keeps the store well formed: its name is
/// new, its port is new and lies in the range.
pub proof fn lemma_admission_keeps_store_well_formed(
    store: Seq<ServerRecordView>,
    request: ProvisionRequestView,
    settings: SettingsView,
    known: Option<Seq<Seq<char>>>,
)
    requires
        store_well_formed(store, settings.min_port, settings.max_port),
        admission(store, request, settings, known) is Ok,
    ensures
        store_well_formed(
            store.push(admission(store, request, settings, known)->Ok_0),
            settings.min_port,
            settings.max_port,
        ),
        admission(store, request, settings, known)->Ok_0.port == lowest_free(
            ports_of(store),
            settings.min_port,
            settings.max_port,
        )->Some_0,
        !admission(store, request, settings, known)->Ok_0.started,
{
    let record = admission(store, request, settings, known)->Ok_0;
    let after = store.push(record);
    let lo = settings.min_port;
    let hi = settings.max_port;
    lemma_lowest_free_is_minimum(ports_of(store), lo, hi);
    assert(is_free(ports_of(store), lo, hi, record.port));
    assert forall|i: int, j: int| 0 <= i < j < after.len() implies (#[trigger] after[i]).name != (
    #[trigger] after[j]).name by {
        if j == store.len() {
            assert(store[i].name != record.name);
        } else {
            assert(after[i] == store[i] && after[j] == store[j]);
        }
    }
    assert forall|i: int, j: int| 0 <= i < j < after.len() implies (#[trigger] after[i]).port != (
    #[trigger] after[j]).port by {
        if j == store.len() {
            assert(ports_of(store).contains(store[i].port));
        } else {
            assert(after[i] == store[i] && after[j] == store[j]);
        }
    }
    assert forall|i: int| 0 <= i < after.len() implies lo <= (#[trigger] after[i]).port < hi by {
        if i < store.len() {
            assert(after[i] == store[i]);
        }
    }
}

/// Of two requests for the same name, in whichever order they reach the
/// store, the second is refused with `DuplicateName` once the first has
/// its record in the store; so at most one of them gets a record.
pub proof fn lemma_duplicate_name_is_refused(
    store: Seq<ServerRecordView>,
    first: ProvisionRequestView,
    second: ProvisionRequestView,
    settings: SettingsView,
    known: Option<Seq<Seq<char>>>,
)
    requires
        lowercase(first.name) == lowercase(second.name),
        admission(store, first, settings, known) is Ok,
    ensures
        admission(
            store.push(admission(store, first, settings, known)->Ok_0),
            second,
            settings,
            known,
        ) == Err::<ServerRecordView, ProvisionError>(ProvisionError::DuplicateName),
{
    let record = admission(store, first, settings, known)->Ok_0;
    let after = store.push(record);
    assert(after[store.len() as int].name == lowercase(second.name));
}

} // verus!
