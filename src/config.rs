//! Configuration values the workflows read.

use vstd::prelude::*;
use vstd::string::*;
use crate::local_storage::LocalSaveStorageConfig;

verus! {

/// Where saves are kept between runs.
#[derive(Debug, Clone)]
pub enum SaveStorageConfig {
    Local(LocalSaveStorageConfig),
}

/// How to reach an instance over SSH: private key file and user.
#[derive(Debug, Clone)]
pub struct SshConfig {
    pub prikey: String,
    pub user: String,
}

/// The relay host whose firewall rule the tunnel command retargets.
#[derive(Debug, Clone)]
pub struct NpsAccessConfig {
    pub region: String,
    pub instance_id: String,
    pub protocol: String,
    pub port: String,
}

/// Who may issue which command.
#[derive(Debug, Clone)]
pub struct WhiteListConfig {
    pub server: Vec<u64>,
    pub nps: Vec<u64>,
}

/// A configuration file to start from.
pub const DEFAULT_CONFIG: &'static str = "csp:
    tencent_cloud:
        ak: ak
        sk: sk
bot:
    websocket: ws://127.0.0.1:9002/ws
    bot_qq: 123
    root_qq: 345
storage:
    local:
    local_dir: /home/ubuntu/psm
    remote_dir: /home/ubuntu/psm
ssh:
    prikey: /home/ubuntu/.ssh/id_ed25519
    user: ubuntu
nps:
    region: ap-shanghai
    instance_id: ins-123
    protocol: tcp
    port: 80
whitelist:
    server: [123, 456]
    nps: [123, 456]
";

/// A configuration file to start from.
pub fn default_config() -> (r: String)
    ensures
        r@ == DEFAULT_CONFIG@,
{
    String::from_str(DEFAULT_CONFIG)
}

} // verus!
