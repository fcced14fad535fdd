//! The table of short links: from a key to the address that it stands for.

use crate::error::{report_of, Report};
use std::collections::HashMap;
use vstd::hash_map::StringHashMap;
use vstd::prelude::*;

verus! {

/// The table that a list of pairs describes: each key with its address, a later pair
/// replacing an earlier one with the same key.
pub open spec fn links_of(pairs: Seq<(String, String)>) -> Map<Seq<char>, Seq<char>>
    decreases pairs.len(),
{
    if pairs.len() == 0 {
        Map::empty()
    } else {
        links_of(pairs.drop_last()).insert(pairs.last().0@, pairs.last().1@)
    }
}

/// What `serde_json` reads from a JSON text as a map from strings to strings: the map, or
/// what the parser says of a text that is no such map.
pub uninterp spec fn json_links(json: Seq<u8>) -> Result<Map<Seq<char>, Seq<char>>, Seq<char>>;

/// `serde_json::from_slice`, reading a `HashMap<String, String>`; the entries of the map are
/// handed out as pairs, in no particular order, or the `Display` text of the error. The map
/// holds each key once, so the pairs describe it whatever their order.
#[verifier::external_body]
pub(crate) fn parse_links(json: &[u8]) -> (parsed: Result<Vec<(String, String)>, String>)
    ensures
        match parsed {
            Ok(pairs) => json_links(json@) == Ok::<Map<Seq<char>, Seq<char>>, Seq<char>>(
                links_of(pairs@),
            ),
            Err(message) => json_links(json@) == Err::<Map<Seq<char>, Seq<char>>, Seq<char>>(
                message@,
            ),
        },
{
    match serde_json::from_slice::<HashMap<String, String>>(json) {
        Ok(map) => Ok(map.into_iter().collect()),
        Err(error) => Err(error.to_string()),
    }
}

/// The short links. Keys are compared as they are written, and each has one address. The
/// table is filled when the process starts and only read afterwards.
pub struct ShortlinkTable {
    links: StringHashMap<String>,
}

impl View for ShortlinkTable {
    type V = Map<Seq<char>, Seq<char>>;

    closed spec fn view(&self) -> Map<Seq<char>, Seq<char>> {
        self.links@.map_values(|url: String| url@)
    }
}

/// What a lookup owes: the address stored under the key, where there is one.
pub open spec fn is_lookup(table: Map<Seq<char>, Seq<char>>, key: Seq<char>, found: Option<&String>)
    -> bool {
    match found {
        Some(url) => table.contains_key(key) && table[key] == url@,
        None => !table.contains_key(key),
    }
}

impl ShortlinkTable {
    /// A table without links.
    pub fn new() -> (table: ShortlinkTable)
        ensures
            table@ == Map::<Seq<char>, Seq<char>>::empty(),
    {
        let table = ShortlinkTable { links: StringHashMap::new() };
        table
    }

    /// Stores `url` under `key`, in the place of what was stored there.
    pub fn insert(&mut self, key: String, url: String)
        ensures
            final(self)@ == old(self)@.insert(key@, url@),
    {
        self.links.insert(key, url);
    }

    /// The address stored under `key`.
    pub fn get(&self, key: &str) -> (found: Option<&String>)
        ensures
            is_lookup(self@, key@, found),
    {
        self.links.get(key)
    }

    /// The number of links.
    pub fn len(&self) -> (count: usize)
        ensures
            count == self@.len(),
    {
        assert(self@.dom() =~= self.links@.dom());
        self.links.len()
    }

    /// The table that the pairs describe.
    pub fn from_pairs(pairs: Vec<(String, String)>) -> (table: ShortlinkTable)
        ensures
            table@ == links_of(pairs@),
    {
        let mut table = ShortlinkTable::new();
        let mut i: usize = 0;
        while i < pairs.len()
            invariant
                i <= pairs.len(),
                table@ == links_of(pairs@.take(i as int)),
            decreases pairs.len() - i,
        {
            assert(pairs@.take(i + 1).drop_last() =~= pairs@.take(i as int));
            table.insert(pairs[i].0.clone(), pairs[i].1.clone());
            i += 1;
        }
        assert(pairs@.take(pairs@.len() as int) =~= pairs@);
        table
    }
}

/// What reading a table from JSON comes to, given what the parser made of the text.
pub open spec fn shortlinks_read(
    parsed: Result<Map<Seq<char>, Seq<char>>, Seq<char>>,
    read: Result<ShortlinkTable, Report>,
) -> bool {
    match read {
        Ok(table) => parsed == Ok::<Map<Seq<char>, Seq<char>>, Seq<char>>(table@),
        Err(report) => parsed matches Err(message) && report@ == report_of(message),
    }
}

/// The table for what the parser handed out, or the failure that tells what it said.
pub fn table_of_parsed(parsed: Result<Vec<(String, String)>, String>) -> (read: Result<
    ShortlinkTable,
    Report,
>)
    ensures
        match parsed {
            Ok(pairs) => read matches Ok(table) && table@ == links_of(pairs@),
            Err(message) => read matches Err(report) && report@ == report_of(message@),
        },
{
    match parsed {
        Ok(pairs) => Ok(ShortlinkTable::from_pairs(pairs)),
        Err(message) => Err(Report::msg(message)),
    }
}

/// Reads the table from the JSON text of a flat object whose values are strings: the keys
/// are the short links, the values their addresses. Any other text is a failure.
pub fn read_shortlinks(json: &[u8]) -> (read: Result<ShortlinkTable, Report>)
    ensures
        shortlinks_read(json_links(json@), read),
{
    table_of_parsed(parse_links(json))
}

/// The table that the site starts with: the one that `json` holds, and an empty one where
/// there is no text or it cannot be read as a table.
pub fn read_shortlinks_or_empty(json: Option<&[u8]>) -> (table: ShortlinkTable)
    ensures
        table@ == match json {
            Some(text) => match json_links(text@) {
                Ok(links) => links,
                Err(_) => Map::empty(),
            },
            None => Map::empty(),
        },
{
    match json {
        Some(text) => match read_shortlinks(text) {
            Ok(table) => table,
            Err(_) => ShortlinkTable::new(),
        },
        None => ShortlinkTable::new(),
    }
}

} // verus!
