//! Where the rollup's genesis files are found, and the consistency check
//! that the genesis configuration must pass.

use vstd::prelude::*;

use crate::address::Address;
use crate::text::{address_display, address_text};

verus! {

/// The path that `std::path::Path::join` gives for `file` adjoined to `dir`,
/// as text, on a target whose main path separator
/// (`std::path::MAIN_SEPARATOR`) is `separator`.
pub uninterp spec fn joined_path(dir: Seq<char>, file: Seq<char>, separator: char) -> Seq<char>;

/// `file` in the directory `dir` where `/` separates path components:
/// `file` alone where `dir` is empty, else `dir` and `file` with one `/`
/// between them.
pub open spec fn path_in_dir(dir: Seq<char>, file: Seq<char>) -> Seq<char> {
    if dir.len() == 0 {
        file
    } else if dir.last() == '/' {
        dir + file
    } else {
        dir + seq!['/'] + file
    }
}

/// `file` is a non-empty name without `/`: a relative path of one
/// component where `/` separates components.
pub open spec fn plain_name(file: Seq<char>) -> bool {
    file.len() > 0 && !file.contains('/')
}

/// Adjoins each of `files` to `dir` with `std::path::Path::join`, gives the
/// paths back as text, and gives the target's main separator
/// `std::path::MAIN_SEPARATOR`. Claimed: the separator is `/` or `\\` (its
/// documentation: "`/` on Unix and `\\` on Windows"); each path is a
/// function of `dir`, its file and the separator (`joined_path`); and where
/// the separator is `/` and a file is a plain name, its path is
/// `path_in_dir(dir, file)`, as `PathBuf::push` adjoins a relative path on
/// such targets. Nothing is claimed of the paths' form where the separator
/// is `\\`.
#[verifier::external_body]
fn join_in_dir(dir: &str, files: (&str, &str, &str, &str)) -> (res: (
    (String, String, String, String),
    char,
))
    ensures
        res.1 == '/' || res.1 == '\\',
        res.0.0@ == joined_path(dir@, files.0@, res.1),
        res.0.1@ == joined_path(dir@, files.1@, res.1),
        res.0.2@ == joined_path(dir@, files.2@, res.1),
        res.0.3@ == joined_path(dir@, files.3@, res.1),
        res.1 == '/' && plain_name(files.0@) ==> res.0.0@ == path_in_dir(dir@, files.0@),
        res.1 == '/' && plain_name(files.1@) ==> res.0.1@ == path_in_dir(dir@, files.1@),
        res.1 == '/' && plain_name(files.2@) ==> res.0.2@ == path_in_dir(dir@, files.2@),
        res.1 == '/' && plain_name(files.3@) ==> res.0.3@ == path_in_dir(dir@, files.3@),
{
    let dir = std::path::Path::new(dir);
    (
        (
            dir.join(files.0).to_string_lossy().into_owned(),
            dir.join(files.1).to_string_lossy().into_owned(),
            dir.join(files.2).to_string_lossy().into_owned(),
            dir.join(files.3).to_string_lossy().into_owned(),
        ),
        std::path::MAIN_SEPARATOR,
    )
}

/// Paths to genesis files.
pub struct GenesisPaths {
    /// Accounts genesis path.
    pub accounts_genesis_path: String,
    /// Bank genesis path.
    pub bank_genesis_path: String,
    /// Sequencer Registry genesis path.
    pub sequencer_genesis_path: String,
    /// NFT genesis path.
    pub nft_genesis_path: String,
    /// The separator of path components on the target the paths were made
    /// for: `/` or `\\`.
    pub path_separator: char,
}

impl GenesisPaths {
    /// The genesis files of each module, all in the directory `dir`.
    pub fn from_dir(dir: &str) -> (res: GenesisPaths)
        ensures
            res.path_separator == '/' || res.path_separator == '\\',
            ({
                let sep = res.path_separator;
                &&& res.accounts_genesis_path@ == joined_path(dir@, "accounts.json"@, sep)
                &&& res.bank_genesis_path@ == joined_path(dir@, "bank.json"@, sep)
                &&& res.sequencer_genesis_path@ == joined_path(
                    dir@,
                    "sequencer_registry.json"@,
                    sep,
                )
                &&& res.nft_genesis_path@ == joined_path(dir@, "nft.json"@, sep)
            }),
            res.path_separator == '/' ==> {
                &&& res.accounts_genesis_path@ == path_in_dir(dir@, "accounts.json"@)
                &&& res.bank_genesis_path@ == path_in_dir(dir@, "bank.json"@)
                &&& res.sequencer_genesis_path@ == path_in_dir(
                    dir@,
                    "sequencer_registry.json"@,
                )
                &&& res.nft_genesis_path@ == path_in_dir(dir@, "nft.json"@)
            },
    {
        proof {
            reveal_strlit("accounts.json");
            reveal_strlit("bank.json");
            reveal_strlit("sequencer_registry.json");
            reveal_strlit("nft.json");
        }
        let files = ("accounts.json", "bank.json", "sequencer_registry.json", "nft.json");
        let (paths, separator) = join_in_dir(dir, files);
        let (accounts_genesis_path, bank_genesis_path, sequencer_genesis_path, nft_genesis_path) =
            paths;
        GenesisPaths {
            accounts_genesis_path,
            bank_genesis_path,
            sequencer_genesis_path,
            nft_genesis_path,
            path_separator: separator,
        }
    }
}

/// Why a genesis configuration was refused.
#[derive(Debug, Clone, Copy)]
pub enum GenesisError {
    /// The sequencer registry locks coins of another token than the bank's
    /// first genesis token: `expected` is the bank token's address, `found`
    /// the one that the registry names.
    WrongTokenAddress { expected: Address, found: Address },
}

/// The text that reports the error `e`.
pub open spec fn genesis_error_text(e: GenesisError) -> Seq<char> {
        match e {
            GenesisError::WrongTokenAddress { expected, found } => "Wrong token address in `sequencer_registry_config` expected "@
                + address_text(expected@) + " but found "@ + address_text(found@),
        }
}

impl GenesisError {
    /// The text that reports the error.
    pub fn message(&self) -> (res: String)
        ensures
            res@ == genesis_error_text(*self),
    {
        match self {
            GenesisError::WrongTokenAddress { expected, found } => {
                let mut s = String::from_str(
                    "Wrong token address in `sequencer_registry_config` expected ",
                );
                s.append(address_display(expected).as_str());
                s.append(" but found ");
                s.append(address_display(found).as_str());
                s
            },
        }
    }
}

/// Accepts `genesis_config` where the sequencer registry locks coins of the
/// bank's first genesis token: `token_address` is that token's address, and
/// `coins_token_addr` the address of the token that the registry's
/// `coins_to_lock` names. The configuration comes back unchanged.
pub fn validate_config<T>(genesis_config: T, token_address: &Address, coins_token_addr: &Address) -> (res:
    Result<T, GenesisError>)
    ensures
        *coins_token_addr == *token_address ==> (res matches Ok(c) && c == genesis_config),
        *coins_token_addr != *token_address ==> (res matches Err(
            GenesisError::WrongTokenAddress { expected, found },
        ) && expected == *token_address && found == *coins_token_addr),
{
    if !(*coins_token_addr == *token_address) {
        return Err(
            GenesisError::WrongTokenAddress { expected: *token_address, found: *coins_token_addr },
        );
    }
    Ok(genesis_config)
}

} // verus!
