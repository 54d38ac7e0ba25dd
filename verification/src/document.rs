use vstd::prelude::*;
use vstd::string::*;
use crate::descriptor::{
    distinct_keys,
    environment_of,
    lemma_environment_keys_distinct,
    DescriptorSpecView,
    pairs_view,
    texts_view,
    DeploymentDescriptor,
    DeploymentDescriptorView,
    HealthCheck,
    HealthCheckView,
};
use crate::error::ProvisionError;
use crate::yaml::{
    flag_value,
    is_plain,
    list_value,
    mapping_entries,
    mapping_insert,
    mapping_to_text,
    new_mapping,
    plain_entries,
    table_value,
    text_value,
    value_model,
    value_models,
    with_entry,
    yaml_text,
    Yaml,
};

verus! {

/// A list of string scalars.
pub open spec fn text_list(items: Seq<Seq<char>>) -> Yaml {
    Yaml::List(Seq::new(items.len(), |i: int| Yaml::Text(items[i])))
}

/// The mapping that results from setting the pairs one after the other,
/// each value a string scalar. A key that comes twice keeps its first place
/// and its last value.
pub open spec fn text_entries(pairs: Seq<(Seq<char>, Seq<char>)>) -> Seq<(Yaml, Yaml)>
    decreases pairs.len(),
{
    if pairs.len() == 0 {
        seq![]
    } else {
        with_entry(text_entries(pairs.drop_last()), pairs.last().0, Yaml::Text(pairs.last().1))
    }
}

/// The health check as a mapping of string scalars.
pub open spec fn healthcheck_entries(h: HealthCheckView) -> Seq<(Yaml, Yaml)> {
    seq![
        (Yaml::Text("test"@), Yaml::Text(h.test)),
        (Yaml::Text("start_period"@), Yaml::Text(h.start_period)),
        (Yaml::Text("interval"@), Yaml::Text(h.interval)),
        (Yaml::Text("retries"@), Yaml::Text(h.retries)),
    ]
}

/// What stands under the service's name: strings for the image, booleans
/// for the terminal flags, lists of strings for ports and volumes, mappings
/// of strings for the health check and the environment.
pub open spec fn service_entries(d: DeploymentDescriptorView) -> Seq<(Yaml, Yaml)> {
    seq![
        (Yaml::Text("image"@), Yaml::Text(d.image)),
        (Yaml::Text("tty"@), Yaml::Flag(d.tty)),
        (Yaml::Text("stdin_open"@), Yaml::Flag(d.stdin_open)),
        (Yaml::Text("ports"@), text_list(d.ports)),
        (Yaml::Text("volumes"@), text_list(d.volumes)),
        (Yaml::Text("healthcheck"@), Yaml::Table(healthcheck_entries(d.healthcheck))),
        (Yaml::Text("environment"@), Yaml::Table(text_entries(d.environment))),
    ]
}

/// The whole document: `services`, under it the service by its name.
pub open spec fn document(d: DeploymentDescriptorView) -> Seq<(Yaml, Yaml)> {
    seq![
        (
            Yaml::Text("services"@),
            Yaml::Table(seq![(Yaml::Text(d.service), Yaml::Table(service_entries(d)))]),
        ),
    ]
}

/// Setting a key that is not there adds the entry at the end.
pub proof fn lemma_fresh_key_goes_last(entries: Seq<(Yaml, Yaml)>, key: Seq<char>, value: Yaml)
    requires
        forall|i: int| 0 <= i < entries.len() ==> (#[trigger] entries[i]).0 != Yaml::Text(key),
    ensures
        with_entry(entries, key, value) == entries.push((Yaml::Text(key), value)),
{
}

/// Setting an entry keeps every key and value plain, and keeps the keys
/// that were there.
pub proof fn lemma_with_entry_plain(entries: Seq<(Yaml, Yaml)>, key: Seq<char>, value: Yaml)
    requires
        plain_entries(entries),
        is_plain(value),
    ensures
        plain_entries(with_entry(entries, key, value)),
{
    let after = with_entry(entries, key, value);
    assert forall|i: int| 0 <= i < after.len() implies is_plain((#[trigger] after[i]).0)
        && is_plain(after[i].1) by {
        if i < entries.len() {
            assert(is_plain(entries[i].0) && is_plain(entries[i].1));
        }
    }
}

/// A mapping of string scalars is plain.
pub proof fn lemma_text_entries_plain(pairs: Seq<(Seq<char>, Seq<char>)>)
    ensures
        plain_entries(text_entries(pairs)),
    decreases pairs.len(),
{
    if pairs.len() > 0 {
        lemma_text_entries_plain(pairs.drop_last());
        lemma_with_entry_plain(
            text_entries(pairs.drop_last()),
            pairs.last().0,
            Yaml::Text(pairs.last().1),
        );
    }
}

/// Where no key comes twice, the mapping holds the pairs one for one, in
/// their order.
pub proof fn lemma_text_entries_of_distinct_keys(pairs: Seq<(Seq<char>, Seq<char>)>)
    requires
        distinct_keys(pairs),
    ensures
        text_entries(pairs) == Seq::new(
            pairs.len(),
            |i: int| (Yaml::Text(pairs[i].0), Yaml::Text(pairs[i].1)),
        ),
    decreases pairs.len(),
{
    let direct = Seq::new(pairs.len(), |i: int| (Yaml::Text(pairs[i].0), Yaml::Text(pairs[i].1)));
    if pairs.len() > 0 {
        let front = pairs.drop_last();
        assert forall|i: int, j: int| 0 <= i < j < front.len() implies (#[trigger] front[i]).0 != (
        #[trigger] front[j]).0 by {
            assert(front[i] == pairs[i] && front[j] == pairs[j]);
        }
        lemma_text_entries_of_distinct_keys(front);
        let before = text_entries(front);
        assert forall|i: int| 0 <= i < before.len() implies (#[trigger] before[i]).0 != Yaml::Text(
            pairs.last().0,
        ) by {
            assert(front[i] == pairs[i]);
            assert(pairs[i].0 != pairs[pairs.len() - 1].0);
        }
        lemma_fresh_key_goes_last(before, pairs.last().0, Yaml::Text(pairs.last().1));
        assert(text_entries(pairs) =~= direct);
    } else {
        assert(text_entries(pairs) =~= direct);
    }
}

/// In the document of a built descriptor the environment holds the entries
/// of `environment_of`, each once, in their order, as string scalars.
pub proof fn lemma_environment_entries(s: DescriptorSpecView)
    ensures
        text_entries(environment_of(s)) == Seq::new(
            environment_of(s).len(),
            |i: int| (Yaml::Text(environment_of(s)[i].0), Yaml::Text(environment_of(s)[i].1)),
        ),
{
    lemma_environment_keys_distinct(s);
    lemma_text_entries_of_distinct_keys(environment_of(s));
}

/// A list of string scalars from a list of texts.
fn text_list_value(items: &Vec<String>) -> (r: serde_yml::Value)
    ensures
        value_model(r) == text_list(texts_view(items@)),
{
    let mut values: Vec<serde_yml::Value> = Vec::new();
    let mut i: usize = 0;
    while i < items.len()
        invariant
            i <= items.len(),
            values.len() == i,
            forall|j: int| 0 <= j < i ==> value_model(#[trigger] values@[j]) == Yaml::Text(items@[j]@),
        decreases items.len() - i,
    {
        values.push(text_value(items[i].clone()));
        i += 1;
    }
    let r = list_value(values);
    assert(value_models(values@) =~= Seq::new(
        texts_view(items@).len(),
        |i: int| Yaml::Text(texts_view(items@)[i]),
    ));
    r
}

/// A mapping of string scalars from a list of pairs.
fn text_table(pairs: &Vec<(String, String)>) -> (r: serde_yml::Mapping)
    ensures
        mapping_entries(r) == text_entries(pairs_view(pairs@)),
{
    let mut table = new_mapping();
    let mut i: usize = 0;
    assert(pairs_view(pairs@).take(0) =~= Seq::empty());
    while i < pairs.len()
        invariant
            i <= pairs.len(),
            mapping_entries(table) == text_entries(pairs_view(pairs@).take(i as int)),
        decreases pairs.len() - i,
    {
        let ghost before = pairs_view(pairs@).take(i as int);
        let ghost after = pairs_view(pairs@).take(i + 1);
        mapping_insert(&mut table, pairs[i].0.clone(), text_value(pairs[i].1.clone()));
        assert(after.drop_last() =~= before);
        assert(after.last() == (pairs@[i as int].0@, pairs@[i as int].1@));
        i += 1;
    }
    assert(pairs_view(pairs@).take(i as int) =~= pairs_view(pairs@));
    table
}

/// Adds an entry under a key that the mapping does not have yet.
fn insert_fresh(m: &mut serde_yml::Mapping, key: &str, value: serde_yml::Value)
    requires
        forall|i: int|
            0 <= i < mapping_entries(*old(m)).len() ==> (#[trigger] mapping_entries(*old(m))[i]).0
                != Yaml::Text(key@),
    ensures
        mapping_entries(*final(m)) == mapping_entries(*old(m)).push(
            (Yaml::Text(key@), value_model(value)),
        ),
{
    proof {
        lemma_fresh_key_goes_last(mapping_entries(*m), key@, value_model(value));
    }
    mapping_insert(m, key.to_owned(), value);
}

/// The health check as a mapping.
fn healthcheck_mapping(h: &HealthCheck) -> (r: serde_yml::Mapping)
    ensures
        mapping_entries(r) == healthcheck_entries(h@),
{
    proof {
        reveal_strlit("test");
        reveal_strlit("start_period");
        reveal_strlit("interval");
        reveal_strlit("retries");
        assert("test"@.len() == 4 && "start_period"@.len() == 12);
        assert("interval"@.len() == 8 && "retries"@.len() == 7);
    }
    let ghost want = healthcheck_entries(h@);
    let mut table = new_mapping();
    insert_fresh(&mut table, "test", text_value(h.test.clone()));
    assert(mapping_entries(table) =~= want.take(1));
    insert_fresh(&mut table, "start_period", text_value(h.start_period.clone()));
    assert(mapping_entries(table) =~= want.take(2));
    insert_fresh(&mut table, "interval", text_value(h.interval.clone()));
    assert(mapping_entries(table) =~= want.take(3));
    insert_fresh(&mut table, "retries", text_value(h.retries.clone()));
    assert(mapping_entries(table) =~= want);
    table
}

/// What stands under the service's name, as a mapping.
fn service_mapping(d: &DeploymentDescriptor) -> (r: serde_yml::Mapping)
    ensures
        mapping_entries(r) == service_entries(d@),
{
    proof {
        reveal_strlit("image");
        reveal_strlit("tty");
        reveal_strlit("stdin_open");
        reveal_strlit("ports");
        reveal_strlit("volumes");
        reveal_strlit("healthcheck");
        reveal_strlit("environment");
        assert("image"@.len() == 5 && "image"@[0] == 'i');
        assert("ports"@.len() == 5 && "ports"@[0] == 'p');
        assert("tty"@.len() == 3 && "stdin_open"@.len() == 10 && "volumes"@.len() == 7);
        assert("healthcheck"@.len() == 11 && "healthcheck"@[0] == 'h');
        assert("environment"@.len() == 11 && "environment"@[0] == 'e');
    }
    let ghost want = service_entries(d@);
    let mut table = new_mapping();
    insert_fresh(&mut table, "image", text_value(d.image.clone()));
    assert(mapping_entries(table) =~= want.take(1));
    insert_fresh(&mut table, "tty", flag_value(d.tty));
    assert(mapping_entries(table) =~= want.take(2));
    insert_fresh(&mut table, "stdin_open", flag_value(d.stdin_open));
    assert(mapping_entries(table) =~= want.take(3));
    insert_fresh(&mut table, "ports", text_list_value(&d.ports));
    assert(mapping_entries(table) =~= want.take(4));
    insert_fresh(&mut table, "volumes", text_list_value(&d.volumes));
    assert(mapping_entries(table) =~= want.take(5));
    insert_fresh(&mut table, "healthcheck", table_value(healthcheck_mapping(&d.healthcheck)));
    assert(mapping_entries(table) =~= want.take(6));
    insert_fresh(&mut table, "environment", table_value(text_table(&d.environment)));
    assert(mapping_entries(table) =~= want);
    table
}

/// The document of a descriptor is built from plain values alone.
pub proof fn lemma_document_plain(d: DeploymentDescriptorView)
    ensures
        plain_entries(document(d)),
{
    reveal_with_fuel(is_plain, 3);
    lemma_text_entries_plain(d.environment);
    let service = service_entries(d);
    assert(is_plain(text_list(d.ports)));
    assert(is_plain(text_list(d.volumes)));
    assert(is_plain(Yaml::Table(healthcheck_entries(d.healthcheck))));
    assert(plain_entries(service)) by {
        assert forall|i: int| 0 <= i < service.len() implies is_plain((#[trigger] service[i]).0)
            && is_plain(service[i].1) by {}
    }
    let services = seq![(Yaml::Text(d.service), Yaml::Table(service))];
    assert(plain_entries(services));
    assert(plain_entries(document(d))) by {
        assert(is_plain(Yaml::Table(services)));
    }
}

/// The descriptor as a YAML mapping.
pub fn to_mapping(d: &DeploymentDescriptor) -> (r: serde_yml::Mapping)
    ensures
        mapping_entries(r) == document(d@),
{
    let mut services = new_mapping();
    mapping_insert(&mut services, d.service.clone(), table_value(service_mapping(d)));
    let mut root = new_mapping();
    mapping_insert(&mut root, "services".to_owned(), table_value(services));
    assert(mapping_entries(root) =~= document(d@));
    root
}

/// What `render` answers, given what the serializer returned.
pub fn rendered(outcome: Result<String, serde_yml::Error>) -> (r: Result<String, ProvisionError>)
    ensures
        match outcome {
            Ok(text) => r == Ok::<String, ProvisionError>(text),
            Err(_) => r == Err::<String, ProvisionError>(ProvisionError::Internal),
        },
{
    match outcome {
        Ok(text) => Ok(text),
        Err(_) => Err(ProvisionError::Internal),
    }
}

/// Renders the descriptor as YAML text: the text that the serializer gives
/// for the descriptor's document, and `Internal` where it gives none.
pub fn render(d: &DeploymentDescriptor) -> (r: Result<String, ProvisionError>)
    ensures
        match yaml_text(document(d@)) {
            Some(t) => r matches Ok(text) && text@ == t,
            None => r == Err::<String, ProvisionError>(ProvisionError::Internal),
        },
{
    let root = to_mapping(d);
    proof {
        lemma_document_plain(d@);
    }
    rendered(mapping_to_text(&root))
}

} // verus!
