//! Password generation, search, and the text of the account table.
use crate::error::VaultError;
use crate::primitives::{choose_byte, thread_rng};
use crate::text::{
    ascii_lowercase, chars_of, contains_chars, decimal, decimal_len, decimal_string, has_substring, pad_left,
    pad_right, push_char, push_padded_left, push_padded_right, push_repeated, repeat_char,
    to_lowercase, unicode_lowercase,
};
use crate::vault::{Vault, VaultEntry};
use vstd::prelude::*;
use vstd::utf8::{encode_utf8, is_ascii_chars};

verus! {

// ---------------------------------------------------------------- passwords

/// Upper-case then lower-case ASCII letters.
pub open spec fn letter_bytes() -> Seq<u8> {
    Seq::new(26, |i: int| (65 + i) as u8) + Seq::new(26, |i: int| (97 + i) as u8)
}

/// The ASCII digits.
pub open spec fn digit_bytes() -> Seq<u8> {
    Seq::new(10, |i: int| (48 + i) as u8)
}

/// The symbols `!@#$%^&*()-_=+[]{}|;:,.<>?`.
pub open spec fn symbol_bytes() -> Seq<u8> {
    // ! @ # $ % ^ & * ( ) - _ = + [ ] { } | ; : , . < > ?
    seq![
        33u8, 64, 35, 36, 37, 94, 38, 42, 40, 41, 45, 95, 61,
        43, 91, 93, 123, 125, 124, 59, 58, 44, 46, 60, 62, 63,
    ]
}

/// The bytes a generated password is drawn from: letters and digits, and
/// the symbols when asked for.
pub open spec fn password_charset(use_symbols: bool) -> Seq<u8> {
    letter_bytes() + digit_bytes() + if use_symbols {
        symbol_bytes()
    } else {
        Seq::<u8>::empty()
    }
}

/// The characters of a string made of the given bytes, one character each.
pub open spec fn bytes_as_chars(b: Seq<u8>) -> Seq<char> {
    b.map_values(|x: u8| x as char)
}

/// The characters a generated password is drawn from.
pub open spec fn password_alphabet(use_symbols: bool) -> Seq<char> {
    bytes_as_chars(password_charset(use_symbols))
}

/// The charset of generated passwords, in order.
pub fn password_charset_bytes(use_symbols: bool) -> (charset: Vec<u8>)
    ensures
        charset@ == password_charset(use_symbols),
{
    let mut charset: Vec<u8> = Vec::new();
    let mut i: u8 = 0;
    while i < 26
        invariant
            i <= 26,
            charset@ == Seq::new(i as nat, |k: int| (65 + k) as u8),
        decreases 26 - i,
    {
        charset.push(65 + i);
        i = i + 1;
        assert(charset@ =~= Seq::new(i as nat, |k: int| (65 + k) as u8));
    }
    let ghost upper = charset@;
    i = 0;
    while i < 26
        invariant
            i <= 26,
            charset@ == upper + Seq::new(i as nat, |k: int| (97 + k) as u8),
        decreases 26 - i,
    {
        charset.push(97 + i);
        i = i + 1;
        assert(charset@ =~= upper + Seq::new(i as nat, |k: int| (97 + k) as u8));
    }
    assert(charset@ =~= letter_bytes());
    i = 0;
    while i < 10
        invariant
            i <= 10,
            charset@ == letter_bytes() + Seq::new(i as nat, |k: int| (48 + k) as u8),
        decreases 10 - i,
    {
        charset.push(48 + i);
        i = i + 1;
        assert(charset@ =~= letter_bytes() + Seq::new(i as nat, |k: int| (48 + k) as u8));
    }
    assert(charset@ =~= letter_bytes() + digit_bytes());
    if use_symbols {
        // ! @ # $ % ^ & * ( ) - _ = + [ ] { } | ; : , . < > ?
        let symbols: Vec<u8> = vec![
            33u8, 64, 35, 36, 37, 94, 38, 42, 40, 41, 45, 95, 61,
            43, 91, 93, 123, 125, 124, 59, 58, 44, 46, 60, 62, 63,
        ];
        let ghost base = charset@;
        let mut j: usize = 0;
        while j < symbols.len()
            invariant
                j <= symbols@.len(),
                symbols@ == symbol_bytes(),
                charset@ == base + symbols@.take(j as int),
            decreases symbols@.len() - j,
        {
            charset.push(symbols[j]);
            j = j + 1;
            assert(charset@ =~= base + symbols@.take(j as int));
        }
        assert(symbols@.take(symbols@.len() as int) =~= symbols@);
    } else {
        assert(charset@ =~= letter_bytes() + digit_bytes() + Seq::<u8>::empty());
    }
    charset
}

/// The string whose characters are the given bytes, one each.
pub fn password_from_bytes(picks: &Vec<u8>) -> (pwd: String)
    ensures
        pwd@ == bytes_as_chars(picks@),
{
    let mut pwd = String::new();
    let mut i: usize = 0;
    while i < picks.len()
        invariant
            i <= picks@.len(),
            pwd@ == bytes_as_chars(picks@.take(i as int)),
        decreases picks@.len() - i,
    {
        push_char(&mut pwd, picks[i] as char);
        i = i + 1;
        assert(pwd@ =~= bytes_as_chars(picks@.take(i as int)));
    }
    assert(picks@.take(picks@.len() as int) =~= picks@);
    pwd
}

/// A random password of `length` characters, each drawn from the letters and
/// digits, and the symbols when `use_symbols` holds.
pub fn generate_password(length: usize, use_symbols: bool) -> (pwd: String)
    ensures
        pwd@.len() == length,
        forall|i: int| 0 <= i < pwd@.len() ==> password_alphabet(use_symbols).contains(#[trigger] pwd@[i]),
{
    let charset = password_charset_bytes(use_symbols);
    let mut rng = thread_rng();
    let mut picks: Vec<u8> = Vec::new();
    let mut i: usize = 0;
    while i < length
        invariant
            i <= length,
            charset@ == password_charset(use_symbols),
            picks@.len() == i,
            forall|k: int| 0 <= k < i ==> charset@.contains(#[trigger] picks@[k]),
        decreases length - i,
    {
        let b = choose_byte(charset.as_slice(), &mut rng);
        picks.push(b);
        i = i + 1;
    }
    let pwd = password_from_bytes(&picks);
    assert forall|i: int| 0 <= i < pwd@.len() implies password_alphabet(use_symbols).contains(#[trigger] pwd@[i]) by {
        let b = picks@[i];
        let k = choose|k: int| 0 <= k < charset@.len() && charset@[k] == b;
        assert(password_alphabet(use_symbols)[k] == pwd@[i]);
    }
    pwd
}

/// Whether a new master password must be chosen: when no vault exists yet,
/// or when one is asked for.
pub fn must_create_master_password(vault_exists: bool, force_create: bool) -> (res: bool)
    ensures
        res == (!vault_exists || force_create),
{
    !vault_exists || force_create
}

/// Checks a new master password against its confirmation: they must be the
/// same, and not empty (tested in this order).
pub fn check_new_master_password(password: &String, confirmation: &String) -> (res: Result<(), VaultError>)
    ensures
        password@ != confirmation@ ==> res == Err::<(), VaultError>(VaultError::PasswordMismatch),
        password@ == confirmation@ && password@.len() == 0 ==> res == Err::<(), VaultError>(VaultError::EmptyPassword),
        password@ == confirmation@ && password@.len() > 0 ==> res is Ok,
{
    if !password.eq(confirmation) {
        return Err(VaultError::PasswordMismatch);
    }
    if password.as_str().is_empty() {
        return Err(VaultError::EmptyPassword);
    }
    Ok(())
}

// ---------------------------------------------------------------- search

/// An account matches a lower-cased query when the query occurs in its
/// lower-cased service or lower-cased user name.
pub open spec fn entry_matches(e: VaultEntry, lowered_query: Seq<char>) -> bool {
    has_substring(unicode_lowercase(e.service@), lowered_query)
        || has_substring(unicode_lowercase(e.username@), lowered_query)
}

/// The indices of the matching accounts, in increasing order.
pub open spec fn matching_indices(entries: Seq<VaultEntry>, lowered_query: Seq<char>) -> Seq<usize>
    decreases entries.len(),
{
    if entries.len() == 0 {
        seq![]
    } else {
        matching_indices(entries.drop_last(), lowered_query) + if entry_matches(entries.last(), lowered_query) {
            seq![(entries.len() - 1) as usize]
        } else {
            Seq::<usize>::empty()
        }
    }
}

/// What searching the vault for a query finds: the indices of the accounts
/// whose service or user name holds the query, case aside.
pub open spec fn search_results(entries: Seq<VaultEntry>, query: Seq<char>) -> Seq<usize> {
    matching_indices(entries, unicode_lowercase(query))
}

/// Whether an account matches a query already lower-cased.
fn entry_matches_query(e: &VaultEntry, lowered_query: &Vec<char>) -> (res: bool)
    ensures
        res == entry_matches(*e, lowered_query@),
{
    let service = to_lowercase(e.service.as_str());
    let service_chars = chars_of(service.as_str());
    if contains_chars(&service_chars, lowered_query) {
        return true;
    }
    let username = to_lowercase(e.username.as_str());
    let username_chars = chars_of(username.as_str());
    contains_chars(&username_chars, lowered_query)
}

/// The accounts whose service or user name holds the query, ignoring case,
/// each with its index, in the vault's order. For an ASCII query the search
/// depends on the query's ASCII lower case alone, so upper- and lower-case
/// spellings of it find the same accounts.
pub fn search_entries<'a>(vault: &'a Vault, query: &str) -> (res: Vec<(usize, &'a VaultEntry)>)
    ensures
        res@.len() == search_results(vault.entries@, query@).len(),
        forall|k: int|
            0 <= k < res@.len() ==> (#[trigger] res@[k]).0 == search_results(vault.entries@, query@)[k]
                && *res@[k].1 == vault.entries@[res@[k].0 as int]
                && res@[k].0 < vault.entries@.len(),
        is_ascii_chars(query@) ==> search_results(vault.entries@, query@) == matching_indices(
            vault.entries@,
            ascii_lowercase(query@),
        ),
{
    let q = to_lowercase(query);
    let q_chars = chars_of(q.as_str());
    let ghost lq = unicode_lowercase(query@);
    assert(is_ascii_chars(query@) ==> lq == ascii_lowercase(query@));
    let mut res: Vec<(usize, &'a VaultEntry)> = Vec::new();
    let mut i: usize = 0;
    while i < vault.entries.len()
        invariant
            i <= vault.entries@.len(),
            q_chars@ == lq,
            lq == unicode_lowercase(query@),
            res@.len() == matching_indices(vault.entries@.take(i as int), lq).len(),
            forall|k: int|
                0 <= k < res@.len() ==> (#[trigger] res@[k]).0 == matching_indices(vault.entries@.take(i as int), lq)[k]
                    && *res@[k].1 == vault.entries@[res@[k].0 as int]
                    && res@[k].0 < i,
        decreases vault.entries@.len() - i,
    {
        let ghost prefix = vault.entries@.take(i as int);
        let ghost next = vault.entries@.take(i + 1);
        assert(next.drop_last() =~= prefix);
        assert(next.last() == vault.entries@[i as int]);
        let e = &vault.entries[i];
        if entry_matches_query(e, &q_chars) {
            res.push((i, e));
        }
        assert(matching_indices(next, lq) == matching_indices(prefix, lq) + if entry_matches(next.last(), lq) {
            seq![(next.len() - 1) as usize]
        } else {
            Seq::<usize>::empty()
        });
        i = i + 1;
    }
    assert(vault.entries@.take(vault.entries@.len() as int) =~= vault.entries@);
    res
}

/// The search finds an index exactly when the lower-cased query occurs in
/// the lower-cased service or the lower-cased user name of the account there,
/// and it lists indices in increasing order.
pub proof fn lemma_search_finds_matches(entries: Seq<VaultEntry>, query: Seq<char>)
    requires
        entries.len() <= usize::MAX,
    ensures
        forall|i: usize|
            #[trigger] search_results(entries, query).contains(i) <==> i < entries.len() && (has_substring(
                unicode_lowercase(entries[i as int].service@),
                unicode_lowercase(query),
            ) || has_substring(unicode_lowercase(entries[i as int].username@), unicode_lowercase(query))),
        forall|j: int, k: int|
            0 <= j < k < search_results(entries, query).len() ==> #[trigger] search_results(entries, query)[j]
                < #[trigger] search_results(entries, query)[k],
{
    lemma_matching_indices(entries, unicode_lowercase(query));
}

/// The search looks at services and user names only: two vaults whose
/// accounts differ at most in their passwords and timestamps give the same
/// results for every query.
pub proof fn lemma_search_ignores_passwords(a: Seq<VaultEntry>, b: Seq<VaultEntry>, query: Seq<char>)
    requires
        a.len() == b.len(),
        forall|i: int| 0 <= i < a.len() ==> (#[trigger] a[i]).service@ == b[i].service@ && a[i].username@
            == b[i].username@,
    ensures
        search_results(a, query) == search_results(b, query),
    decreases a.len(),
{
    if a.len() > 0 {
        lemma_search_ignores_passwords(a.drop_last(), b.drop_last(), query);
        assert(a.last() == a[a.len() - 1]);
        assert(b.last() == b[b.len() - 1]);
    }
}

proof fn lemma_matching_indices(entries: Seq<VaultEntry>, q: Seq<char>)
    requires
        entries.len() <= usize::MAX,
    ensures
        forall|i: usize|
            #[trigger] matching_indices(entries, q).contains(i) <==> i < entries.len() && entry_matches(
                entries[i as int],
                q,
            ),
        forall|k: int|
            0 <= k < matching_indices(entries, q).len() ==> (#[trigger] matching_indices(entries, q)[k])
                < entries.len(),
        forall|j: int, k: int|
            0 <= j < k < matching_indices(entries, q).len() ==> #[trigger] matching_indices(entries, q)[j]
                < #[trigger] matching_indices(entries, q)[k],
    decreases entries.len(),
{
    if entries.len() > 0 {
        let prev = entries.drop_last();
        lemma_matching_indices(prev, q);
        let m = matching_indices(entries, q);
        let pm = matching_indices(prev, q);
        let n = (entries.len() - 1) as usize;
        let tail = if entry_matches(entries.last(), q) {
            seq![n]
        } else {
            Seq::<usize>::empty()
        };
        assert(m == pm + tail);
        assert forall|k: int| 0 <= k < m.len() implies (#[trigger] m[k]) < entries.len() by {
            if k < pm.len() {
                assert(m[k] == pm[k]);
            }
        }
        assert forall|j: int, k: int| 0 <= j < k < m.len() implies #[trigger] m[j] < #[trigger] m[k] by {
            if k < pm.len() {
                assert(m[j] == pm[j] && m[k] == pm[k]);
            } else {
                assert(m[j] == pm[j]);
                assert(pm[j] < prev.len());
            }
        }
        assert forall|i: usize|
            #[trigger] m.contains(i) <==> i < entries.len() && entry_matches(entries[i as int], q) by {
            if i < n {
                assert(entries[i as int] == prev[i as int]);
                if pm.contains(i) {
                    let k = choose|k: int| 0 <= k < pm.len() && pm[k] == i;
                    assert(m[k] == i);
                }
                if m.contains(i) {
                    let k = choose|k: int| 0 <= k < m.len() && m[k] == i;
                    if k >= pm.len() {
                        assert(m[k] == n);
                    } else {
                        assert(pm[k] == i);
                    }
                }
            } else if i == n {
                if entry_matches(entries.last(), q) {
                    assert(m[pm.len() as int] == n);
                } else {
                    assert(m =~= pm);
                    if m.contains(i) {
                        let k = choose|k: int| 0 <= k < m.len() && m[k] == i;
                        assert(pm[k] < prev.len());
                    }
                }
            } else {
                if m.contains(i) {
                    let k = choose|k: int| 0 <= k < m.len() && m[k] == i;
                }
            }
        }
    }
}

// ---------------------------------------------------------------- table text

/// The byte length of a string's UTF-8 form, as `str::len` gives it.
pub open spec fn byte_len(s: Seq<char>) -> usize {
    encode_utf8(s).len() as usize
}

/// The largest byte length among strings (0 for none).
pub open spec fn max_byte_len(cols: Seq<Seq<char>>) -> usize
    decreases cols.len(),
{
    if cols.len() == 0 {
        0
    } else {
        let rest = max_byte_len(cols.drop_last());
        let last = byte_len(cols.last());
        if rest < last {
            last
        } else {
            rest
        }
    }
}

pub open spec fn services(entries: Seq<VaultEntry>) -> Seq<Seq<char>> {
    entries.map_values(|e: VaultEntry| e.service@)
}

pub open spec fn usernames(entries: Seq<VaultEntry>) -> Seq<Seq<char>> {
    entries.map_values(|e: VaultEntry| e.username@)
}

pub open spec fn at_least_15(n: usize) -> usize {
    if n < 15 {
        15
    } else {
        n
    }
}

/// The widths of the index, service and user-name columns: the digits of
/// the last index, and the longest service and user name in bytes, but at
/// least 15 for those two.
pub open spec fn column_widths(entries: Seq<VaultEntry>) -> (usize, usize, usize) {
    (
        decimal((entries.len() - 1) as nat).len() as usize,
        at_least_15(max_byte_len(services(entries))),
        at_least_15(max_byte_len(usernames(entries))),
    )
}

/// The widths of the table's index, service and user-name columns.
pub fn compute_column_widths(vault: &Vault) -> (widths: (usize, usize, usize))
    requires
        vault.entries@.len() > 0,
    ensures
        widths == column_widths(vault.entries@),
        widths.1 >= 15,
        widths.2 >= 15,
        forall|i: int| 0 <= i < vault.entries@.len() ==> byte_len((#[trigger] vault.entries@[i]).service@) <= widths.1
            && byte_len(vault.entries@[i].username@) <= widths.2,
{
    let n = vault.entries.len();
    let index_width = decimal_len(n - 1);
    let mut max_service: usize = 0;
    let mut max_username: usize = 0;
    let ghost es = vault.entries@;
    let mut i: usize = 0;
    while i < n
        invariant
            n == es.len(),
            es == vault.entries@,
            i <= n,
            max_service == max_byte_len(services(es.take(i as int))),
            max_username == max_byte_len(usernames(es.take(i as int))),
            forall|k: int| 0 <= k < i ==> byte_len((#[trigger] es[k]).service@) <= max_service
                && byte_len(es[k].username@) <= max_username,
        decreases n - i,
    {
        let e = &vault.entries[i];
        let s = e.service.as_str().len();
        let u = e.username.as_str().len();
        assert(services(es.take(i + 1)).drop_last() =~= services(es.take(i as int)));
        assert(usernames(es.take(i + 1)).drop_last() =~= usernames(es.take(i as int)));
        assert(services(es.take(i + 1)).last() == e.service@);
        assert(usernames(es.take(i + 1)).last() == e.username@);
        if max_service < s {
            max_service = s;
        }
        if max_username < u {
            max_username = u;
        }
        i = i + 1;
    }
    assert(es.take(n as int) =~= es);
    let service_width = if max_service < 15 { 15 } else { max_service };
    let username_width = if max_username < 15 { 15 } else { max_username };
    (index_width, service_width, username_width)
}

/// The column separator of the table.
pub open spec fn column_bar() -> Seq<char> {
    " │ "@
}

/// The row of an account in the table: its index right-aligned, service and
/// user name left-aligned in their columns, then the password, or eight
/// asterisks when passwords are hidden.
pub open spec fn entry_row_text(index: usize, e: VaultEntry, show_password: bool, widths: (usize, usize, usize)) -> Seq<char> {
    pad_left(decimal(index as nat), widths.0 as nat) + column_bar() + pad_right(e.service@, widths.1 as nat)
        + column_bar() + pad_right(e.username@, widths.2 as nat) + column_bar() + if show_password {
        e.password@
    } else {
        "********"@
    }
}

/// The text of an account's row in the table.
pub fn entry_row(index: usize, entry: &VaultEntry, show_password: bool, col_widths: (usize, usize, usize)) -> (row: String)
    ensures
        row@ == entry_row_text(index, *entry, show_password, col_widths),
        show_password ==> row@.len() >= entry.password@.len() && row@.subrange(
            row@.len() - entry.password@.len(),
            row@.len() as int,
        ) == entry.password@,
{
    let mut row = String::new();
    let number = decimal_string(index);
    push_padded_left(&mut row, number.as_str(), col_widths.0);
    row.append(" │ ");
    push_padded_right(&mut row, entry.service.as_str(), col_widths.1);
    row.append(" │ ");
    push_padded_right(&mut row, entry.username.as_str(), col_widths.2);
    row.append(" │ ");
    let ghost before = row@;
    if show_password {
        row.append(entry.password.as_str());
        assert(row@.subrange(before.len() as int, row@.len() as int) =~= entry.password@);
    } else {
        row.append("********");
    }
    row
}

/// A shown row and a hidden row of the same account agree up to the last
/// column: the shown one ends with the whole password, the hidden one with
/// eight asterisks, whatever the password's length.
pub proof fn lemma_row_shows_whole_password(index: usize, e: VaultEntry, widths: (usize, usize, usize))
    ensures
        exists|prefix: Seq<char>|
            entry_row_text(index, e, true, widths) == prefix + e.password@ && entry_row_text(index, e, false, widths)
                == prefix + "********"@,
{
    let prefix = pad_left(decimal(index as nat), widths.0 as nat) + column_bar() + pad_right(e.service@, widths.1 as nat)
        + column_bar() + pad_right(e.username@, widths.2 as nat) + column_bar();
    assert(entry_row_text(index, e, true, widths) == prefix + e.password@);
    assert(entry_row_text(index, e, false, widths) == prefix + "********"@);
}

/// The line under the table's header: dashes across each column, joined
/// by `─┼─`, and twenty dashes for the password column.
pub open spec fn separator_text(widths: (usize, usize, usize)) -> Seq<char> {
    repeat_char('-', widths.0 as nat) + "─┼─"@ + repeat_char('-', widths.1 as nat) + "─┼─"@
        + repeat_char('-', widths.2 as nat) + "─┼─"@ + repeat_char('-', 20)
}

/// The line under the table's header.
pub fn separator_line(widths: (usize, usize, usize)) -> (line: String)
    ensures
        line@ == separator_text(widths),
{
    let mut line = String::new();
    push_repeated(&mut line, '-', widths.0);
    line.append("─┼─");
    push_repeated(&mut line, '-', widths.1);
    line.append("─┼─");
    push_repeated(&mut line, '-', widths.2);
    line.append("─┼─");
    push_repeated(&mut line, '-', 20);
    line
}

} // verus!
