//! Save and script synchronisation between the local store and an instance.
//!
//! Each operation is a plan: which objects to read from which side and write,
//! byte for byte, under the same path on the other. The caller opens the
//! local directory and the instance's SFTP endpoint and carries it out.

use vstd::prelude::*;
use vstd::string::*;
use crate::config::SshConfig;
use crate::shell_manager::Script;
use crate::text::join2;

verus! {

/// The local and remote roots of the save store.
#[derive(Debug, Clone)]
pub struct LocalSaveStorageConfig {
    local_dir: String,
    remote_dir: String,
}

impl LocalSaveStorageConfig {
    pub fn new(local_dir: String, remote_dir: String) -> (r: Self)
        ensures
            r.spec_local_dir() == local_dir@,
            r.spec_remote_dir() == remote_dir@,
    {
        Self { local_dir, remote_dir }
    }

    pub closed spec fn spec_local_dir(&self) -> Seq<char> {
        self.local_dir@
    }

    pub closed spec fn spec_remote_dir(&self) -> Seq<char> {
        self.remote_dir@
    }

    /// The local root directory.
    pub fn local_dir(&self) -> (r: &String)
        ensures
            r@ == self.spec_local_dir(),
    {
        &self.local_dir
    }

    /// The root directory on the instance.
    pub fn remote_dir(&self) -> (r: &String)
        ensures
            r@ == self.spec_remote_dir(),
    {
        &self.remote_dir
    }
}

/// One side of a transfer.
#[derive(Debug, Clone, Copy, PartialEq, Eq, Structural)]
pub enum Side {
    /// The local directory.
    Local,
    /// The instance, over SFTP.
    Remote,
}

/// Read `path` from `from` and write it verbatim under the same path on the
/// other side.
#[derive(Debug, Clone, PartialEq, Eq)]
pub struct Transfer {
    pub from: Side,
    pub path: String,
}

/// Transfers between the local root and an instance.
#[derive(Debug, Clone)]
pub struct TransferPlan {
    /// Local root directory.
    pub local_root: String,
    /// Root directory on the instance.
    pub remote_root: String,
    /// `ssh://user@host:22`.
    pub endpoint: String,
    /// SSH user and private key file.
    pub user: String,
    pub prikey: String,
    /// In order.
    pub transfers: Vec<Transfer>,
}

/// The SFTP endpoint of `host` for `user`.
pub open spec fn endpoint_spec(user: Seq<char>, host: Seq<char>) -> Seq<char> {
    "ssh://"@ + user + "@"@ + host + ":22"@
}

/// Where a script lives under either root.
pub open spec fn script_path_spec(s: Script) -> Seq<char> {
    "/scripts/"@ + s.spec_file_name()
}

/// Where a save lives under either root.
pub open spec fn save_path_spec(name: Seq<char>) -> Seq<char> {
    "/saves/"@ + name
}

/// The scripts every instance needs, in upload order.
pub open spec fn all_scripts() -> Seq<Script> {
    seq![Script::InstallServer, Script::RestoreSave, Script::StartServer, Script::BackupSave]
}

/// The SFTP endpoint of `host` for `user`.
pub fn endpoint_of(user: &str, host: &str) -> (r: String)
    ensures
        r@ == endpoint_spec(user@, host@),
{
    let mut e = String::from_str("ssh://");
    e.append(user);
    e.append("@");
    e.append(host);
    e.append(":22");
    e
}

/// Where save `name` lives under either root.
pub fn save_path(name: &str) -> (r: String)
    ensures
        r@ == save_path_spec(name@),
{
    join2("/saves/", name)
}

/// The plan's roots and credentials are those of `config` and `ssh`, and its
/// endpoint is `host`'s.
pub open spec fn plan_for(
    p: TransferPlan,
    config: LocalSaveStorageConfig,
    ssh: SshConfig,
    host: Seq<char>,
) -> bool {
    &&& p.local_root@ == config.spec_local_dir()
    &&& p.remote_root@ == config.spec_remote_dir()
    &&& p.endpoint@ == endpoint_spec(ssh.user@, host)
    &&& p.user@ == ssh.user@
    &&& p.prikey@ == ssh.prikey@
}

/// Moves saves and scripts between the local root and instances.
#[derive(Debug, Clone)]
pub struct LocalStorage {
    config: LocalSaveStorageConfig,
}

impl LocalStorage {
    pub fn new(config: LocalSaveStorageConfig) -> (r: Self)
        ensures
            r.spec_config() == config,
    {
        Self { config }
    }

    pub closed spec fn spec_config(&self) -> LocalSaveStorageConfig {
        self.config
    }

    fn plan(&self, ssh: &SshConfig, host: &str, transfers: Vec<Transfer>) -> (r: TransferPlan)
        ensures
            plan_for(r, self.spec_config(), *ssh, host@),
            r.transfers@ == transfers@,
    {
        TransferPlan {
            local_root: self.config.local_dir.clone(),
            remote_root: self.config.remote_dir.clone(),
            endpoint: endpoint_of(ssh.user.as_str(), host),
            user: ssh.user.clone(),
            prikey: ssh.prikey.clone(),
            transfers,
        }
    }

    /// Uploads every script to `host`, in the order of `all_scripts`.
    pub fn upload_scripts(&self, ssh: &SshConfig, host: &str) -> (r: TransferPlan)
        ensures
            plan_for(r, self.spec_config(), *ssh, host@),
            r.transfers@.len() == all_scripts().len(),
            forall|i: int|
                0 <= i < all_scripts().len() ==> (#[trigger] r.transfers@[i]).from == Side::Local
                    && r.transfers@[i].path@ == script_path_spec(all_scripts()[i]),
    {
        let scripts = [
            Script::InstallServer,
            Script::RestoreSave,
            Script::StartServer,
            Script::BackupSave,
        ];
        let mut transfers: Vec<Transfer> = Vec::new();
        let mut i: usize = 0;
        while i < 4
            invariant
                i <= 4,
                scripts@ == all_scripts(),
                transfers@.len() == i,
                forall|j: int|
                    0 <= j < i ==> (#[trigger] transfers@[j]).from == Side::Local
                        && transfers@[j].path@ == script_path_spec(all_scripts()[j]),
            decreases 4 - i,
        {
            let path = join2("/scripts/", scripts[i].file_name());
            transfers.push(Transfer { from: Side::Local, path });
            i = i + 1;
        }
        self.plan(ssh, host, transfers)
    }

    /// Uploads save `save_name` to `host`.
    pub fn upload_saves(&self, save_name: &str, ssh: &SshConfig, host: &str) -> (r: TransferPlan)
        ensures
            plan_for(r, self.spec_config(), *ssh, host@),
            r.transfers@.len() == 1,
            r.transfers@[0].from == Side::Local,
            r.transfers@[0].path@ == save_path_spec(save_name@),
    {
        let transfers = vec![Transfer { from: Side::Local, path: save_path(save_name) }];
        self.plan(ssh, host, transfers)
    }

    /// Downloads save `save_name` from `host`.
    pub fn download_saves(&self, save_name: &str, ssh: &SshConfig, host: &str) -> (r: TransferPlan)
        ensures
            plan_for(r, self.spec_config(), *ssh, host@),
            r.transfers@.len() == 1,
            r.transfers@[0].from == Side::Remote,
            r.transfers@[0].path@ == save_path_spec(save_name@),
    {
        let transfers = vec![Transfer { from: Side::Remote, path: save_path(save_name) }];
        self.plan(ssh, host, transfers)
    }
}

} // verus!
