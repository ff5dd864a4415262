//! The login database: one entry per host, found by the host's exact name.
//!
//! The file format belongs to the `netrc` parser; this module takes what the
//! parser found and answers lookups. Where a host is given more than once, the
//! last entry stands.

use vstd::prelude::*;
use vstd::hash_map::StringHashMap;
use vstd::string::StrSliceExecFns;
use crate::entry::{LoginEntry, LoginFields};

verus! {

/// The longest text that is handed to the parser: it counts lines in 32 bits.
pub const MAX_TEXT_LENGTH: usize = 0xffff_fffe;

/// One entry of the database together with the host it is for.
pub struct HostRecord {
    pub host: String,
    pub entry: LoginEntry,
}

impl View for HostRecord {
    type V = (Seq<char>, LoginFields);

    open spec fn view(&self) -> (Seq<char>, LoginFields) {
        (self.host@, self.entry@)
    }
}

/// The records of a sequence as plain values.
pub open spec fn records_view(records: Seq<HostRecord>) -> Seq<(Seq<char>, LoginFields)> {
    records.map_values(|record: HostRecord| record@)
}

/// The mapping that a sequence of records stands for: each host maps to the
/// entry of the last record that names it.
pub open spec fn database_of(records: Seq<(Seq<char>, LoginFields)>) -> Map<
    Seq<char>,
    LoginFields,
>
    decreases records.len(),
{
    if records.len() == 0 {
        Map::empty()
    } else {
        database_of(records.drop_last()).insert(records.last().0, records.last().1)
    }
}

/// What `found` is in `database` under `host`: the entry, or nothing.
pub open spec fn lookup_in(database: Map<Seq<char>, LoginFields>, host: Seq<char>) -> Option<
    LoginFields,
> {
    if database.contains_key(host) {
        Some(database[host])
    } else {
        None
    }
}

/// The hosts and entries that the `netrc` parser finds in a text, or `None`
/// where it rejects the text.
pub uninterp spec fn netrc_hosts(text: Seq<char>) -> Option<Map<Seq<char>, LoginFields>>;

/// Runs the parser of the `netrc` crate (`FromStr` for `netrc::Netrc`) on
/// `text` and hands out the hosts it found, each with its login, account and
/// password, in no particular order.
///
/// The parser keeps its hosts in a hash map, so every host comes out once;
/// what is claimed here is that the records stand for exactly that map, and
/// that `None` comes exactly where the parser reports an error. The bound on
/// the length keeps the parser's 32-bit line counter from overflowing.
#[verifier::external_body]
fn parse_netrc(text: &str) -> (records: Option<Vec<HostRecord>>)
    requires
        text@.len() <= MAX_TEXT_LENGTH,
    ensures
        match records {
            Some(found) => netrc_hosts(text@) == Some(database_of(records_view(found@))),
            None => netrc_hosts(text@) is None,
        },
{
    let parsed: netrc::Netrc = text.parse().ok()?;
    Some(
        parsed.hosts.into_iter().map(
            |(host, found)| HostRecord {
                host,
                entry: LoginEntry::new(found.login, found.account, found.password),
            },
        ).collect(),
    )
}

/// Why no login database could be had.
#[derive(Debug, PartialEq, Eq)]
pub enum StoreFault {
    /// The file could not be read; `reason` is the reader's account of it.
    Unreadable { reason: String },
    /// The text is longer than [`MAX_TEXT_LENGTH`] characters.
    Oversized,
    /// The parser rejected the text.
    Malformed,
}

/// A mapping from host to login entry.
pub struct LoginDatabase {
    hosts: StringHashMap<LoginEntry>,
}

impl View for LoginDatabase {
    type V = Map<Seq<char>, LoginFields>;

    closed spec fn view(&self) -> Map<Seq<char>, LoginFields> {
        self.hosts@.map_values(|entry: LoginEntry| entry@)
    }
}

impl LoginDatabase {
    /// The database that `records` stand for. Where two records name one
    /// host, the later one wins.
    pub fn from_records(records: Vec<HostRecord>) -> (database: LoginDatabase)
        ensures
            database@ == database_of(records_view(records@)),
    {
        let ghost all = records_view(records@);
        let mut rest = records;
        let mut hosts: StringHashMap<LoginEntry> = StringHashMap::new();
        assert(hosts@.map_values(|entry: LoginEntry| entry@) =~= Map::empty());
        assert(database_of(all).union_prefer_right(Map::empty()) =~= database_of(all));
        loop
            invariant
                all == records_view(records@),
                database_of(all) == database_of(records_view(rest@)).union_prefer_right(
                    hosts@.map_values(|entry: LoginEntry| entry@),
                ),
            decreases rest.len(),
        {
            let ghost before = rest@;
            let ghost kept = hosts@.map_values(|entry: LoginEntry| entry@);
            match rest.pop() {
                None => {
                    assert(database_of(records_view(rest@)) =~= Map::empty());
                    assert(Map::<Seq<char>, LoginFields>::empty().union_prefer_right(kept)
                        =~= kept);
                    return LoginDatabase { hosts };
                },
                Some(record) => {
                    proof {
                        assert(rest@ == before.drop_last());
                        assert(record == before.last());
                        assert(records_view(before).drop_last() =~= records_view(rest@));
                        assert(records_view(before).last() == record@);
                    }
                    let ghost earlier = database_of(records_view(rest@));
                    if hosts.contains_key(record.host.as_str()) {
                        assert(earlier.insert(record@.0, record@.1).union_prefer_right(kept)
                            =~= earlier.union_prefer_right(kept));
                    } else {
                        hosts.insert(record.host, record.entry);
                        assert(hosts@.map_values(|entry: LoginEntry| entry@) =~= kept.insert(
                            record@.0,
                            record@.1,
                        ));
                        assert(earlier.insert(record@.0, record@.1).union_prefer_right(kept)
                            =~= earlier.union_prefer_right(kept.insert(record@.0, record@.1)));
                    }
                },
            }
        }
    }

    /// Reads a database from the text of a login file.
    ///
    /// The text goes to the `netrc` parser as it is. The result is the
    /// parser's set of hosts, or `Malformed` where the parser rejects the
    /// text, or `Oversized` where the text is too long to be handed to it.
    pub fn parse(text: &str) -> (outcome: Result<LoginDatabase, StoreFault>)
        ensures
            match outcome {
                Ok(database) => text@.len() <= MAX_TEXT_LENGTH && netrc_hosts(text@) == Some(
                    database@,
                ),
                Err(StoreFault::Oversized) => text@.len() > MAX_TEXT_LENGTH,
                Err(StoreFault::Malformed) => text@.len() <= MAX_TEXT_LENGTH && netrc_hosts(
                    text@,
                ) is None,
                Err(StoreFault::Unreadable { .. }) => false,
            },
    {
        if text.unicode_len() > MAX_TEXT_LENGTH {
            return Err(StoreFault::Oversized);
        }
        match parse_netrc(text) {
            Some(records) => Ok(LoginDatabase::from_records(records)),
            None => Err(StoreFault::Malformed),
        }
    }

    /// The entry stored for `host`. The match is exact and case-sensitive: no
    /// wildcard, no prefix, no default entry.
    pub fn lookup(&self, host: &str) -> (found: Option<&LoginEntry>)
        ensures
            match found {
                Some(entry) => lookup_in(self@, host@) == Some(entry@),
                None => lookup_in(self@, host@) is None,
            },
    {
        self.hosts.get(host)
    }
}

/// A database of a single record holds that record's entry under its host
/// and nothing under any other name.
pub proof fn lemma_single_entry(host: Seq<char>, entry: LoginFields, other: Seq<char>)
    ensures
        lookup_in(database_of(seq![(host, entry)]), host) == Some(entry),
        other != host ==> lookup_in(database_of(seq![(host, entry)]), other) is None,
{
    let records = seq![(host, entry)];
    assert(records.drop_last() =~= Seq::empty());
    assert(database_of(records.drop_last()) =~= Map::empty());
    assert(database_of(records) =~= Map::<Seq<char>, LoginFields>::empty().insert(host, entry));
}

/// Where a host is named more than once, the last record that names it is
/// the one found.
pub proof fn lemma_last_record_wins(
    records: Seq<(Seq<char>, LoginFields)>,
    host: Seq<char>,
    entry: LoginFields,
)
    ensures
        lookup_in(database_of(records.push((host, entry))), host) == Some(entry),
{
    let all = records.push((host, entry));
    assert(all.drop_last() =~= records);
}

} // verus!
