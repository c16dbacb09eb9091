//! The vault's contents: accounts, and the operations that add, remove,
//! import and export them.
use crate::error::VaultError;
use std::time::{Duration, SystemTime, SystemTimeError};
use vstd::prelude::*;

verus! {

#[verifier::external_type_specification]
#[verifier::external_body]
pub struct ExSystemTime(SystemTime);

#[verifier::external_type_specification]
#[verifier::external_body]
pub struct ExSystemTimeError(SystemTimeError);

/// Calls `SystemTime::now()`; nothing is claimed of the time it reads.
#[verifier::external_body]
fn system_time_now() -> SystemTime {
    SystemTime::now()
}

/// Calls `SystemTime::duration_since(UNIX_EPOCH)`; it fails where the time
/// lies before the epoch, which is not stated here.
#[verifier::external_body]
fn since_unix_epoch(t: &SystemTime) -> Result<Duration, SystemTimeError> {
    t.duration_since(std::time::UNIX_EPOCH)
}

/// Calls `Duration::as_secs`; the whole seconds of an opaque duration.
#[verifier::external_body]
fn whole_seconds(d: &Duration) -> u64 {
    d.as_secs()
}

/// Seconds since the Unix epoch by the system clock (0 for a clock set
/// before the epoch).
fn unix_time_now() -> u64 {
    let now = system_time_now();
    match since_unix_epoch(&now) {
        Ok(d) => whole_seconds(&d),
        Err(_) => 0,
    }
}

/// One account: a service, a user name, its password, and when it was
/// created and last changed (seconds since the Unix epoch).
#[derive(Debug, Clone)]
pub struct VaultEntry {
    pub service: String,
    pub username: String,
    pub password: String,
    pub created_at: u64,
    pub updated_at: u64,
}

/// Service, user name and password of an account, as characters.
pub type Credentials = (Seq<char>, Seq<char>, Seq<char>);

pub open spec fn credentials(e: VaultEntry) -> Credentials {
    (e.service@, e.username@, e.password@)
}

pub open spec fn all_credentials(entries: Seq<VaultEntry>) -> Seq<Credentials> {
    entries.map_values(|e: VaultEntry| credentials(e))
}

impl VaultEntry {
    /// An account created at `now`: both timestamps are `now`.
    pub fn with_timestamp(service: String, username: String, password: String, now: u64) -> (e: Self)
        ensures
            e.service == service,
            e.username == username,
            e.password == password,
            e.created_at == now,
            e.updated_at == now,
    {
        VaultEntry { service, username, password, created_at: now, updated_at: now }
    }

    /// An account created now, by the system clock: it has never been
    /// updated, so both timestamps are the same. A clock that reads before
    /// the Unix epoch gives both timestamps the value 0 (the call does not
    /// stop there).
    pub fn new(service: String, username: String, password: String) -> (e: Self)
        ensures
            e.service == service,
            e.username == username,
            e.password == password,
            e.created_at == e.updated_at,
    {
        let now = unix_time_now();
        Self::with_timestamp(service, username, password, now)
    }
}

/// The whole vault: its accounts, in the order they were added.
#[derive(Debug)]
pub struct Vault {
    pub entries: Vec<VaultEntry>,
}

impl Default for Vault {
    fn default() -> (v: Self)
        ensures
            v.entries@ == Seq::<VaultEntry>::empty(),
    {
        Vault { entries: Vec::new() }
    }
}

/// The accounts that a table of CSV records adds: one per record of three
/// fields or more, taken from its first three fields; shorter records add none.
pub open spec fn imported_credentials(records: Seq<Seq<Seq<char>>>) -> Seq<Credentials>
    decreases records.len(),
{
    if records.len() == 0 {
        seq![]
    } else {
        let r = records.last();
        imported_credentials(records.drop_last()) + if r.len() >= 3 {
            seq![(r[0], r[1], r[2])]
        } else {
            seq![]
        }
    }
}

/// The CSV record of an account.
pub open spec fn credentials_record(c: Credentials) -> Seq<Seq<char>> {
    seq![c.0, c.1, c.2]
}

/// The header record of an exported table.
pub open spec fn export_header() -> Seq<Seq<char>> {
    seq!["service"@, "username"@, "password"@]
}

/// The table that exporting accounts writes: the header, then one record
/// per account, in order.
pub open spec fn exported_table(c: Seq<Credentials>) -> Seq<Seq<Seq<char>>> {
    seq![export_header()] + c.map_values(|t: Credentials| credentials_record(t))
}

impl Vault {
    /// Adds an account with the given password, created now. An empty
    /// password is refused and leaves the vault as it was.
    pub fn add_entry(&mut self, service: String, username: String, password: String) -> (res: Result<(), VaultError>)
        ensures
            password@.len() == 0 ==> res == Err::<(), VaultError>(VaultError::EmptyPassword)
                && final(self).entries@ == old(self).entries@,
            password@.len() > 0 ==> {
                &&& res is Ok
                &&& final(self).entries@.len() == old(self).entries@.len() + 1
                &&& final(self).entries@.drop_last() == old(self).entries@
                &&& final(self).entries@.last().service == service
                &&& final(self).entries@.last().username == username
                &&& final(self).entries@.last().password == password
                &&& final(self).entries@.last().created_at == final(self).entries@.last().updated_at
            },
    {
        if password.as_str().is_empty() {
            return Err(VaultError::EmptyPassword);
        }
        let entry = VaultEntry::new(service, username, password);
        self.entries.push(entry);
        assert(self.entries@.drop_last() =~= old(self).entries@);
        Ok(())
    }

    /// Removes and returns the account at `index`; an index past the end is
    /// refused and leaves the vault as it was.
    pub fn remove_entry(&mut self, index: usize) -> (res: Result<VaultEntry, VaultError>)
        ensures
            index >= old(self).entries@.len() ==> res == Err::<VaultEntry, VaultError>(VaultError::InvalidIndex)
                && final(self).entries@ == old(self).entries@,
            index < old(self).entries@.len() ==> res == Ok::<VaultEntry, VaultError>(old(self).entries@[index as int])
                && final(self).entries@ == old(self).entries@.remove(index as int),
    {
        if index >= self.entries.len() {
            return Err(VaultError::InvalidIndex);
        }
        let removed = self.entries.remove(index);
        Ok(removed)
    }

    /// Adds an account, created now, for each record of three fields or
    /// more (service, user name, password); shorter records are skipped.
    pub fn import_records(&mut self, records: &Vec<Vec<String>>)
        ensures
            all_credentials(final(self).entries@) == all_credentials(old(self).entries@)
                + imported_credentials(records.deep_view()),
            final(self).entries@.subrange(0, old(self).entries@.len() as int) == old(self).entries@,
            forall|i: int|
                old(self).entries@.len() <= i < final(self).entries@.len()
                    ==> (#[trigger] final(self).entries@[i]).created_at == final(self).entries@[i].updated_at,
    {
        let ghost start = self.entries@;
        let mut i: usize = 0;
        while i < records.len()
            invariant
                i <= records@.len(),
                start.len() <= self.entries@.len(),
                self.entries@.subrange(0, start.len() as int) == start,
                all_credentials(self.entries@) == all_credentials(start)
                    + imported_credentials(records.deep_view().take(i as int)),
                forall|k: int|
                    start.len() <= k < self.entries@.len()
                        ==> (#[trigger] self.entries@[k]).created_at == self.entries@[k].updated_at,
            decreases records@.len() - i,
        {
            let ghost before = self.entries@;
            let record = &records[i];
            assert(records.deep_view().take(i + 1).drop_last() =~= records.deep_view().take(i as int));
            assert(records.deep_view().take(i + 1).last() == record.deep_view());
            if record.len() >= 3 {
                let entry = VaultEntry::new(record[0].clone(), record[1].clone(), record[2].clone());
                self.entries.push(entry);
                assert(all_credentials(self.entries@) =~= all_credentials(before) + seq![credentials(entry)]);
            } else {
                assert(all_credentials(self.entries@) =~= all_credentials(before) + Seq::<Credentials>::empty());
            }
            assert(self.entries@.subrange(0, start.len() as int) =~= start);
            i = i + 1;
        }
        assert(records.deep_view().take(records@.len() as int) =~= records.deep_view());
    }

    /// The CSV table of the vault: a header record, then service, user name
    /// and password of each account, in order.
    pub fn export_records(&self) -> (table: Vec<Vec<String>>)
        ensures
            table.deep_view() == exported_table(all_credentials(self.entries@)),
    {
        let mut table: Vec<Vec<String>> = Vec::new();
        let mut header: Vec<String> = Vec::new();
        header.push(String::from_str("service"));
        header.push(String::from_str("username"));
        header.push(String::from_str("password"));
        assert(header.deep_view() =~= export_header());
        table.push(header);
        let ghost c = all_credentials(self.entries@);
        assert(table.deep_view() =~= exported_table(c.take(0)));
        let mut i: usize = 0;
        while i < self.entries.len()
            invariant
                i <= self.entries@.len(),
                c == all_credentials(self.entries@),
                table.deep_view() == exported_table(c.take(i as int)),
            decreases self.entries@.len() - i,
        {
            let e = &self.entries[i];
            let mut row: Vec<String> = Vec::new();
            row.push(e.service.clone());
            row.push(e.username.clone());
            row.push(e.password.clone());
            let ghost before = table.deep_view();
            table.push(row);
            assert(row.deep_view() =~= credentials_record(c[i as int]));
            assert(table.deep_view() =~= before.push(credentials_record(c[i as int])));
            assert(exported_table(c.take(i + 1)) =~= exported_table(c.take(i as int)).push(
                credentials_record(c[i as int]),
            ));
            i = i + 1;
        }
        assert(c.take(self.entries@.len() as int) =~= c);
        table
    }
}

/// Reading back an exported table, without its header record, yields
/// exactly the exported accounts, in order.
pub proof fn lemma_import_reads_export(c: Seq<Credentials>)
    ensures
        imported_credentials(exported_table(c).drop_first()) == c,
    decreases c.len(),
{
    let rows = exported_table(c).drop_first();
    assert(rows =~= c.map_values(|t: Credentials| credentials_record(t)));
    if c.len() > 0 {
        lemma_import_reads_export(c.drop_last());
        assert(exported_table(c.drop_last()).drop_first() =~= rows.drop_last());
        assert(rows.last() == credentials_record(c.last()));
        assert(c =~= c.drop_last() + seq![(rows.last()[0], rows.last()[1], rows.last()[2])]);
    } else {
        assert(rows =~= Seq::<Seq<Seq<char>>>::empty());
    }
}

/// Removing the account just added, at the last index, returns that account
/// and gives back the accounts held before.
pub proof fn lemma_remove_undoes_add(entries: Seq<VaultEntry>, added: VaultEntry)
    ensures
        entries.push(added)[entries.len() as int] == added,
        entries.push(added).remove(entries.len() as int) == entries,
{
    assert(entries.push(added).remove(entries.len() as int) =~= entries);
}

} // verus!
