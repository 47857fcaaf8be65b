//! The containers and services of a compose directory, read from what the
//! container engine prints.

use crate::json::{is_json, json_document, member_text, parse_json, Json};
use crate::text::{lines, lines_of, trim, trimmed, views};
use vstd::prelude::*;

verus! {

/// One container, as the engine lists it.
#[derive(Debug)]
pub struct Container {
    pub name: String,
    pub service: String,
    pub state: String,
    pub status: String,
    pub ports: String,
}

/// Whether a container is the one that a document describes: a field
/// whose member is missing, or no string, is empty.
pub open spec fn describes(c: &Container, listed: Json) -> bool {
    &&& c.name@ == listed.string_or_empty("Name"@)
    &&& c.service@ == listed.string_or_empty("Service"@)
    &&& c.state@ == listed.string_or_empty("State"@)
    &&& c.status@ == listed.string_or_empty("Status"@)
    &&& c.ports@ == listed.string_or_empty("Ports"@)
}

/// Reads one line of the engine's listing: a container where the line is a
/// JSON document, nothing otherwise.
pub fn parse_container(line: &str) -> (r: Option<Container>)
    ensures
        r is Some <==> is_json(line@),
        r matches Some(c) ==> describes(&c, json_document(line@)->0),
{
    match parse_json(line) {
        Some(value) => Some(
            Container {
                name: member_text(&value, "Name"),
                service: member_text(&value, "Service"),
                state: member_text(&value, "State"),
                status: member_text(&value, "Status"),
                ports: member_text(&value, "Ports"),
            },
        ),
        None => None,
    }
}

/// The lines of a listing that count: each line without the white space
/// around it, the empty ones left out.
pub open spec fn entries_of(lines: Seq<Seq<char>>) -> Seq<Seq<char>>
    decreases lines.len(),
{
    if lines.len() == 0 {
        Seq::empty()
    } else {
        let before = entries_of(lines.drop_last());
        let entry = trimmed(lines.last());
        if entry.len() == 0 {
            before
        } else {
            before.push(entry)
        }
    }
}

/// The entries of what a command printed.
pub fn entries(output: &str) -> (found: Vec<String>)
    ensures
        views(found@) == entries_of(lines_of(output@)),
{
    let all = lines(output);
    let mut found: Vec<String> = Vec::new();
    let mut i: usize = 0;
    while i < all.len()
        invariant
            i <= all.len(),
            views(all@) == lines_of(output@),
            views(found@) == entries_of(views(all@).take(i as int)),
        decreases all.len() - i,
    {
        proof {
            let t = views(all@).take(i + 1);
            assert(t.drop_last() =~= views(all@).take(i as int));
            assert(t.last() == all@[i as int]@);
        }
        let entry = trim(all[i].as_str());
        if entry.as_str().unicode_len() > 0 {
            let ghost before = views(found@);
            found.push(entry);
            assert(views(found@) =~= before.push(trimmed(all@[i as int]@)));
        }
        i += 1;
    }
    assert(views(all@).take(all.len() as int) =~= views(all@));
    found
}

/// The services of a compose directory, from what the engine printed when
/// asked for them.
pub fn list_services(output: &str) -> (services: Vec<String>)
    ensures
        views(services@) == entries_of(lines_of(output@)),
{
    entries(output)
}

/// The entries of a listing that are JSON documents, in order.
pub open spec fn documents_of(entries: Seq<Seq<char>>) -> Seq<Seq<char>>
    decreases entries.len(),
{
    if entries.len() == 0 {
        Seq::empty()
    } else {
        let before = documents_of(entries.drop_last());
        if is_json(entries.last()) {
            before.push(entries.last())
        } else {
            before
        }
    }
}

/// The containers of a compose directory, from what the engine printed when
/// asked for them as JSON, one document per line. A line that is no JSON
/// document is passed over.
pub fn list_containers(output: &str) -> (containers: Vec<Container>)
    ensures
        containers@.len() == documents_of(entries_of(lines_of(output@))).len(),
        forall|i: int|
            0 <= i < containers@.len() ==> describes(
                &#[trigger] containers@[i],
                json_document(documents_of(entries_of(lines_of(output@)))[i])->0,
            ),
{
    let listed = entries(output);
    let mut containers: Vec<Container> = Vec::new();
    let mut i: usize = 0;
    while i < listed.len()
        invariant
            i <= listed.len(),
            containers@.len() == documents_of(views(listed@).take(i as int)).len(),
            forall|k: int|
                0 <= k < containers@.len() ==> describes(
                    &#[trigger] containers@[k],
                    json_document(documents_of(views(listed@).take(i as int))[k])->0,
                ),
        decreases listed.len() - i,
    {
        proof {
            let t = views(listed@).take(i + 1);
            assert(t.drop_last() =~= views(listed@).take(i as int));
            assert(t.last() == listed@[i as int]@);
        }
        match parse_container(listed[i].as_str()) {
            Some(c) => {
                containers.push(c);
            },
            None => {},
        }
        i += 1;
    }
    assert(views(listed@).take(listed.len() as int) =~= views(listed@));
    containers
}

} // verus!
