//! What a node keeps on disk between runs, and where it keeps it.

use vstd::prelude::*;
use vstd::string::StrSliceExecFns;
use vstd::string::StringExecFns;

verus! {

/// The record that a node reads when it starts and rewrites on each change.
#[derive(Clone, Debug, PartialEq, Eq)]
pub struct NodeManConfig {
    pub vault_path: Option<String>,
    pub identity: Option<Vec<u8>>,
    pub authenticated_storage_path: Option<String>,
    pub identity_was_overridden: bool,
}

pub struct ConfigView {
    pub vault_path: Option<Seq<char>>,
    pub identity: Option<Seq<u8>>,
    pub authenticated_storage_path: Option<Seq<char>>,
    pub identity_was_overridden: bool,
}

pub open spec fn text_of(s: Option<String>) -> Option<Seq<char>> {
    match s {
        Some(t) => Some(t@),
        None => None,
    }
}

pub open spec fn bytes_of(b: Option<Vec<u8>>) -> Option<Seq<u8>> {
    match b {
        Some(v) => Some(v@),
        None => None,
    }
}

impl View for NodeManConfig {
    type V = ConfigView;

    open spec fn view(&self) -> ConfigView {
        ConfigView {
            vault_path: text_of(self.vault_path),
            identity: bytes_of(self.identity),
            authenticated_storage_path: text_of(self.authenticated_storage_path),
            identity_was_overridden: self.identity_was_overridden,
        }
    }
}

/// The record of a node that has never run.
pub open spec fn blank_config() -> ConfigView {
    ConfigView {
        vault_path: None,
        identity: None,
        authenticated_storage_path: None,
        identity_was_overridden: false,
    }
}

impl NodeManConfig {
    pub fn new() -> (config: NodeManConfig)
        ensures
            config@ == blank_config(),
    {
        NodeManConfig {
            vault_path: None,
            identity: None,
            authenticated_storage_path: None,
            identity_was_overridden: false,
        }
    }

    pub fn duplicate(&self) -> (config: NodeManConfig)
        ensures
            config@ == self@,
    {
        NodeManConfig {
            vault_path: match &self.vault_path {
                Some(p) => Some(p.clone()),
                None => None,
            },
            identity: match &self.identity {
                Some(i) => Some(i.clone()),
                None => None,
            },
            authenticated_storage_path: match &self.authenticated_storage_path {
                Some(p) => Some(p.clone()),
                None => None,
            },
            identity_was_overridden: self.identity_was_overridden,
        }
    }
}

/// The file `name` in the directory `dir`: the two joined by one `/`, unless
/// `dir` is empty or ends in `/` already.
pub open spec fn joined(dir: Seq<char>, name: Seq<char>) -> Seq<char> {
    if dir.len() == 0 || dir.last() == '/' {
        dir + name
    } else {
        dir + seq!['/'] + name
    }
}

/// Where a node keeps its authenticated storage unless its record says
/// otherwise.
pub open spec fn default_storage_path(node_dir: Seq<char>) -> Seq<char> {
    joined(node_dir, "authenticated_storage.lmdb"@)
}

/// Where a node keeps its vault unless its record says otherwise.
pub open spec fn default_vault_path(node_dir: Seq<char>) -> Seq<char> {
    joined(node_dir, "vault.json"@)
}

pub fn join_path(dir: &str, name: &str) -> (path: String)
    ensures
        path@ == joined(dir@, name@),
{
    let n = dir.unicode_len();
    let mut path = String::from_str(dir);
    if n > 0 && dir.get_char(n - 1) != '/' {
        proof {
            reveal_strlit("/");
            assert("/"@ =~= seq!['/']);
        }
        path.append("/");
    }
    path.append(name);
    path
}

pub fn storage_path_in(node_dir: &str) -> (path: String)
    ensures
        path@ == default_storage_path(node_dir@),
{
    join_path(node_dir, "authenticated_storage.lmdb")
}

pub fn vault_path_in(node_dir: &str) -> (path: String)
    ensures
        path@ == default_vault_path(node_dir@),
{
    join_path(node_dir, "vault.json")
}

} // verus!
