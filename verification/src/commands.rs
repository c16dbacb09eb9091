//! The commands of the vault and the decisions they take before any
//! input or output.
use crate::text::{decimal, lemma_parse_decimal, parse_usize, parse_usize_spec};
use crate::utils::{generate_password, password_alphabet, search_entries, search_results};
use crate::vault::Vault;
use vstd::prelude::*;

verus! {

/// A command given to the vault.
pub enum Commands {
    /// Add an account, with a given, generated or prompted password.
    Add {
        service: String,
        username: String,
        password: Option<String>,
        generate: bool,
        length: usize,
        symbols: bool,
    },
    /// List every account.
    List { show: bool, quiet: bool },
    /// List the accounts that match a query.
    Search { query: String, show: bool },
    /// Remove the account at an index.
    Remove { index: usize },
    /// Print a generated password without storing it.
    Generate { length: usize, symbols: bool },
    /// Write the accounts to a CSV file.
    Export { filename: String },
    /// Add the accounts of a CSV file.
    Import { filename: String },
    /// Copy an account's password to the clipboard, by index or by query.
    Copy { target: String },
    /// Print the banner.
    Banner,
    /// Delete the vault file, when forced.
    Wipe { force: bool },
}

/// Whether the banner is printed before the command runs: unless the
/// program is quiet, or the command is itself `Banner`.
pub fn shows_startup_banner(quiet: bool, command: &Commands) -> (res: bool)
    ensures
        res == (!quiet && !(command is Banner)),
{
    !quiet && !matches!(command, Commands::Banner)
}

impl Commands {
    /// Whether the command opens the vault (asks the master password and
    /// loads the stored file).
    pub fn uses_vault(&self) -> (res: bool)
        ensures
            res == !(self is Banner || self is Generate || self is Wipe),
    {
        match self {
            Commands::Banner | Commands::Generate { .. } | Commands::Wipe { .. } => false,
            _ => true,
        }
    }

    /// Whether the command changes the accounts, so that the vault is saved
    /// once the change has succeeded: `Add`, `Import` and `Remove`.
    pub fn changes_vault(&self) -> (res: bool)
        ensures
            res == (self is Add || self is Import || self is Remove),
    {
        match self {
            Commands::Add { .. } | Commands::Import { .. } | Commands::Remove { .. } => true,
            _ => false,
        }
    }

    /// Whether the command deletes the vault file: only a forced `Wipe`.
    pub fn deletes_vault(&self) -> (res: bool)
        ensures
            res == (*self matches Commands::Wipe { force } && force),
    {
        match self {
            Commands::Wipe { force } => *force,
            _ => false,
        }
    }

    /// Whether handling the command prints the banner itself: `Banner`, and
    /// the commands that list or change accounts, except a quiet `List`.
    pub fn shows_banner(&self) -> (res: bool)
        ensures
            res == match self {
                Commands::Banner => true,
                Commands::List { quiet, .. } => !*quiet,
                Commands::Add { .. } | Commands::Search { .. } | Commands::Remove { .. } => true,
                _ => false,
            },
    {
        match self {
            Commands::Banner => true,
            Commands::List { quiet, .. } => !*quiet,
            Commands::Add { .. } | Commands::Search { .. } | Commands::Remove { .. } => true,
            _ => false,
        }
    }
}

/// The password of an account being added: a generated one when asked for,
/// else the one given; `None` means that it must be prompted for.
pub fn resolve_add_password(generate: bool, length: usize, symbols: bool, given: Option<String>) -> (res: Option<String>)
    ensures
        generate ==> (res matches Some(p) && p@.len() == length && forall|i: int|
            0 <= i < p@.len() ==> password_alphabet(symbols).contains(#[trigger] p@[i])),
        !generate ==> res == given,
{
    if generate {
        Some(generate_password(length, symbols))
    } else {
        given
    }
}

/// The account that a copy target designates: a number designates the account
/// at that index (if there is one); any other text designates the account
/// found by searching for it, when exactly one is found.
pub open spec fn copy_target_index(entries: Seq<crate::vault::VaultEntry>, target: Seq<char>) -> Option<usize> {
    match parse_usize_spec(target) {
        Some(i) => if i < entries.len() {
            Some(i)
        } else {
            None
        },
        None => if search_results(entries, target).len() == 1 {
            Some(search_results(entries, target)[0])
        } else {
            None
        },
    }
}

/// A target written as the numeral of an index designates the account at
/// that index, whatever a text search for the same characters would find,
/// and designates none past the last account.
pub proof fn lemma_numeric_target_is_index(entries: Seq<crate::vault::VaultEntry>, i: usize)
    ensures
        copy_target_index(entries, decimal(i as nat)) == (if i < entries.len() {
            Some(i)
        } else {
            None::<usize>
        }),
{
    lemma_parse_decimal(i);
}

/// The index of the account whose password a copy target designates.
pub fn find_copy_target(vault: &Vault, target: &str) -> (res: Option<usize>)
    ensures
        res == copy_target_index(vault.entries@, target@),
        res matches Some(i) ==> i < vault.entries@.len(),
        parse_usize_spec(target@) matches Some(i) ==> res == (if i < vault.entries@.len() {
            Some(i)
        } else {
            None::<usize>
        }),
{
    match parse_usize(target) {
        Some(i) => if i < vault.entries.len() {
            Some(i)
        } else {
            None
        },
        None => {
            let results = search_entries(vault, target);
            if results.len() == 1 {
                Some(results[0].0)
            } else {
                None
            }
        },
    }
}

} // verus!
