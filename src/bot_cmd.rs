//! Operator commands, who may issue them, and the order in which a server
//! command's requests are carried out.

use vstd::prelude::*;
use crate::config::WhiteListConfig;

verus! {

/// A parsed operator command.
#[derive(Debug)]
pub struct BotCmd {
    pub sub: Option<Commands>,
}

/// The command families.
#[derive(Debug)]
pub enum Commands {
    /// Manage slots: show status, start, stop, or back up (each names a slot).
    Server {
        status: Option<String>,
        start: Option<String>,
        stop: Option<String>,
        save: Option<String>,
    },
    /// Show configuration of some kind.
    Config { kind: String },
    /// Point the relay's firewall rule at this address.
    Nps { ip: String },
}

/// Who may issue `cmd`: server commands the server white list, relay
/// commands the relay white list, configuration the root user alone; an
/// empty command nobody.
pub open spec fn cmd_allowed(cmd: BotCmd, from_id: u64, root_id: u64, white_list: WhiteListConfig) -> bool {
    match cmd.sub {
        None => false,
        Some(Commands::Server { .. }) => white_list.server@.contains(from_id),
        Some(Commands::Config { .. }) => from_id == root_id,
        Some(Commands::Nps { .. }) => white_list.nps@.contains(from_id),
    }
}

fn listed(list: &Vec<u64>, id: u64) -> (r: bool)
    ensures
        r == list@.contains(id),
{
    let mut i: usize = 0;
    while i < list.len()
        invariant
            i <= list.len(),
            forall|j: int| 0 <= j < i ==> list@[j] != id,
        decreases list.len() - i,
    {
        if list[i] == id {
            assert(list@[i as int] == id);
            return true;
        }
        i = i + 1;
    }
    false
}

/// Whether the user `from_id` may issue `cmd` (see `cmd_allowed`).
pub fn check_cmd_auth(cmd: &BotCmd, from_id: u64, root_id: u64, white_list: &WhiteListConfig) -> (r: bool)
    ensures
        r == cmd_allowed(*cmd, from_id, root_id, *white_list),
{
    match &cmd.sub {
        None => false,
        Some(Commands::Server { .. }) => listed(&white_list.server, from_id),
        Some(Commands::Config { .. }) => from_id == root_id,
        Some(Commands::Nps { .. }) => listed(&white_list.nps, from_id),
    }
}

/// What a server command asks for one slot.
#[derive(Debug, Clone, Copy, PartialEq, Eq, Structural)]
pub enum RequestKind {
    Status,
    Start,
    Stop,
    Save,
}

/// One request of a server command.
#[derive(Debug, PartialEq, Eq)]
pub struct ServerRequest {
    pub kind: RequestKind,
    pub server: String,
}

/// The request for `o`'s slot, if `o` names one.
pub open spec fn request_of(o: Option<String>, kind: RequestKind) -> Seq<ServerRequest> {
    match o {
        Some(server) => seq![ServerRequest { kind, server }],
        None => Seq::empty(),
    }
}

/// A server command's requests in the order they are carried out: status,
/// start, stop, save.
pub open spec fn requests_spec(
    status: Option<String>,
    start: Option<String>,
    stop: Option<String>,
    save: Option<String>,
) -> Seq<ServerRequest> {
    request_of(status, RequestKind::Status) + request_of(start, RequestKind::Start) + request_of(
        stop,
        RequestKind::Stop,
    ) + request_of(save, RequestKind::Save)
}

fn push_request(v: &mut Vec<ServerRequest>, o: Option<String>, kind: RequestKind)
    ensures
        final(v)@ == old(v)@ + request_of(o, kind),
{
    match o {
        Some(server) => {
            v.push(ServerRequest { kind, server });
        },
        None => {},
    }
    assert(v@ =~= old(v)@ + request_of(o, kind));
}

/// The requests of a server command, in the order they are carried out.
pub fn server_requests(
    status: Option<String>,
    start: Option<String>,
    stop: Option<String>,
    save: Option<String>,
) -> (r: Vec<ServerRequest>)
    ensures
        r@ == requests_spec(status, start, stop, save),
{
    let ghost spec_r = requests_spec(status, start, stop, save);
    let mut v: Vec<ServerRequest> = Vec::new();
    push_request(&mut v, status, RequestKind::Status);
    push_request(&mut v, start, RequestKind::Start);
    push_request(&mut v, stop, RequestKind::Stop);
    push_request(&mut v, save, RequestKind::Save);
    assert(v@ =~= spec_r);
    v
}

} // verus!
