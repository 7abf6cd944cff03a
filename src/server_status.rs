//! The slot store: every managed server slot with its lifecycle status, and
//! the guarded transitions that move a slot through
//! Stopped -> Creating -> Running -> Stopping -> Stopped.
//!
//! The store keeps the slots in memory; reading and writing the durable copy
//! is left to the caller, who hands freshly read records to `reload_servers`
//! before each mutation and writes `servers()` back after it.

use vstd::prelude::*;
use vstd::string::*;
use crate::text::{copy_opt, join2, opt_text, same_text};

verus! {

/// Lifecycle status of a slot.
#[derive(Debug, Clone, Copy, PartialEq, Eq, Structural)]
pub enum Status {
    Creating,
    Running,
    Stopping,
    Stopped,
}

impl Status {
    /// The status as text.
    pub open spec fn spec_name(self) -> Seq<char> {
        match self {
            Status::Creating => "Creating"@,
            Status::Running => "Running"@,
            Status::Stopping => "Stopping"@,
            Status::Stopped => "Stopped"@,
        }
    }

    /// The status as text (`Running`, ...).
    pub fn name(&self) -> (r: &'static str)
        ensures
            r@ == self.spec_name(),
    {
        match self {
            Status::Creating => "Creating",
            Status::Running => "Running",
            Status::Stopping => "Stopping",
            Status::Stopped => "Stopped",
        }
    }
}

/// One slot record.
#[derive(Debug, Clone)]
pub struct Server {
    pub name: String,
    pub status: Status,
    pub instance_type: String,
    pub save: Option<String>,
    pub ip_port: Option<String>,
    pub region: Option<String>,
    pub instance_id: Option<String>,
}

/// The value of a slot record.
pub struct ServerView {
    pub name: Seq<char>,
    pub status: Status,
    pub instance_type: Seq<char>,
    pub save: Option<Seq<char>>,
    pub ip_port: Option<Seq<char>>,
    pub region: Option<Seq<char>>,
    pub instance_id: Option<Seq<char>>,
}

impl View for Server {
    type V = ServerView;

    open spec fn view(&self) -> ServerView {
        ServerView {
            name: self.name@,
            status: self.status,
            instance_type: self.instance_type@,
            save: opt_text(self.save),
            ip_port: opt_text(self.ip_port),
            region: opt_text(self.region),
            instance_id: opt_text(self.instance_id),
        }
    }
}

impl ServerView {
    /// Endpoint, region and instance id are present together, and exactly
    /// while a cloud instance backs the slot (`Running` or `Stopping`).
    pub open spec fn consistent(self) -> bool {
        let present = self.ip_port is Some && self.region is Some && self.instance_id is Some;
        let absent = self.ip_port is None && self.region is None && self.instance_id is None;
        match self.status {
            Status::Running | Status::Stopping => present,
            Status::Creating | Status::Stopped => absent,
        }
    }
}

/// Every slot of `s` is consistent.
pub open spec fn all_consistent(s: Seq<ServerView>) -> bool {
    forall|i: int| 0 <= i < s.len() ==> #[trigger] s[i].consistent()
}

/// `i` is the position of the first slot named `name`.
pub open spec fn is_first_named(s: Seq<ServerView>, name: Seq<char>, i: int) -> bool {
    &&& 0 <= i < s.len()
    &&& s[i].name == name
    &&& forall|j: int| 0 <= j < i ==> s[j].name != name
}

/// Position of the slot named `name`: the first with that name.
pub open spec fn slot_index(s: Seq<ServerView>, name: Seq<char>) -> Option<int> {
    if exists|i: int| is_first_named(s, name, i) {
        Some(choose|i: int| is_first_named(s, name, i))
    } else {
        None
    }
}

/// The first slot with a name is the one `slot_index` finds.
pub proof fn lemma_slot_index_is(s: Seq<ServerView>, name: Seq<char>, i: int)
    requires
        is_first_named(s, name, i),
    ensures
        slot_index(s, name) == Some(i),
{
    let k = choose|k: int| is_first_named(s, name, k);
    assert(is_first_named(s, name, k));
    if k < i {
        assert(s[k].name != name);
    } else if i < k {
        assert(s[i].name != name);
    }
}

/// The named slot, checked to be in status `expected`: its position, or the
/// error that the store reports.
pub open spec fn check_spec(s: Seq<ServerView>, name: Seq<char>, expected: Status) -> Result<
    int,
    ServerManagerError,
> {
    match slot_index(s, name) {
        None => Err(ServerManagerError::ServerNotFound),
        Some(i) => if s[i].status == expected {
            Ok(i)
        } else {
            Err(ServerManagerError::ServerStatusNotMatch(s[i].status))
        },
    }
}

/// The slot set after replacing the slot checked by `check_spec` with `f` of it.
pub open spec fn guarded_update(
    s: Seq<ServerView>,
    name: Seq<char>,
    expected: Status,
    f: spec_fn(ServerView) -> ServerView,
) -> Result<Seq<ServerView>, ServerManagerError> {
    match check_spec(s, name, expected) {
        Ok(i) => Ok(s.update(i, f(s[i]))),
        Err(e) => Err(e),
    }
}

/// `begin_create`: Stopped -> Creating.
pub open spec fn create_spec(s: Seq<ServerView>, name: Seq<char>) -> Result<
    Seq<ServerView>,
    ServerManagerError,
> {
    guarded_update(
        s,
        name,
        Status::Stopped,
        |v: ServerView| ServerView { status: Status::Creating, ..v },
    )
}

/// `finish_create`: Creating -> Running, recording where the service runs.
pub open spec fn finish_create_spec(
    s: Seq<ServerView>,
    name: Seq<char>,
    ip_port: Seq<char>,
    region: Seq<char>,
    instance_id: Seq<char>,
) -> Result<Seq<ServerView>, ServerManagerError> {
    guarded_update(
        s,
        name,
        Status::Creating,
        |v: ServerView|
            ServerView {
                status: Status::Running,
                ip_port: Some(ip_port),
                region: Some(region),
                instance_id: Some(instance_id),
                ..v
            },
    )
}

/// A slot cleared back to `Stopped` with no instance recorded.
pub open spec fn cleared(v: ServerView) -> ServerView {
    ServerView { status: Status::Stopped, ip_port: None, region: None, instance_id: None, ..v }
}

/// `rollback_create`: Creating -> Stopped, clearing the instance fields.
pub open spec fn rollback_create_spec(s: Seq<ServerView>, name: Seq<char>) -> Result<
    Seq<ServerView>,
    ServerManagerError,
> {
    guarded_update(s, name, Status::Creating, |v: ServerView| cleared(v))
}

/// `begin_stop`: Running -> Stopping.
pub open spec fn stop_spec(s: Seq<ServerView>, name: Seq<char>) -> Result<
    Seq<ServerView>,
    ServerManagerError,
> {
    guarded_update(
        s,
        name,
        Status::Running,
        |v: ServerView| ServerView { status: Status::Stopping, ..v },
    )
}

/// `finish_stop`: Stopping -> Stopped, clearing the instance fields.
pub open spec fn finish_stop_spec(s: Seq<ServerView>, name: Seq<char>) -> Result<
    Seq<ServerView>,
    ServerManagerError,
> {
    guarded_update(s, name, Status::Stopping, |v: ServerView| cleared(v))
}

/// `rollback_stop`: Stopping -> Running.
pub open spec fn rollback_stop_spec(s: Seq<ServerView>, name: Seq<char>) -> Result<
    Seq<ServerView>,
    ServerManagerError,
> {
    guarded_update(
        s,
        name,
        Status::Stopping,
        |v: ServerView| ServerView { status: Status::Running, ..v },
    )
}

/// `set_save_name` on a running slot.
pub open spec fn save_name_spec(s: Seq<ServerView>, name: Seq<char>, save: Seq<char>) -> Result<
    Seq<ServerView>,
    ServerManagerError,
> {
    guarded_update(
        s,
        name,
        Status::Running,
        |v: ServerView| ServerView { save: Some(save), ..v },
    )
}

/// Text shown for an absent value.
pub open spec fn or_none_mark(o: Option<Seq<char>>) -> Seq<char> {
    match o {
        Some(t) => t,
        None => "无"@,
    }
}

/// Every transition of the store keeps every slot consistent: a slot's
/// status is always one of the four lifecycle values, and its endpoint,
/// region and instance id stay all present (Running, Stopping) or all absent
/// (Stopped, Creating) after any transition that succeeds; one that fails
/// changes nothing.
pub proof fn lemma_transitions_keep_consistency(
    s: Seq<ServerView>,
    name: Seq<char>,
    ip_port: Seq<char>,
    region: Seq<char>,
    instance_id: Seq<char>,
    save: Seq<char>,
)
    requires
        all_consistent(s),
    ensures
        create_spec(s, name) matches Ok(t) ==> all_consistent(t),
        finish_create_spec(s, name, ip_port, region, instance_id) matches Ok(t) ==> all_consistent(t),
        rollback_create_spec(s, name) matches Ok(t) ==> all_consistent(t),
        stop_spec(s, name) matches Ok(t) ==> all_consistent(t),
        finish_stop_spec(s, name) matches Ok(t) ==> all_consistent(t),
        rollback_stop_spec(s, name) matches Ok(t) ==> all_consistent(t),
        save_name_spec(s, name, save) matches Ok(t) ==> all_consistent(t),
{
    if let Some(i) = slot_index(s, name) {
        assert(s[i].consistent());
        assert forall|f: spec_fn(ServerView) -> ServerView, st: Status|
            #![trigger guarded_update(s, name, st, f)]
            s[i].status == st && f(s[i]).consistent() implies guarded_update(s, name, st, f) matches Ok(
            t,
        ) && all_consistent(t) by {
            let t = s.update(i, f(s[i]));
            assert forall|k: int| 0 <= k < t.len() implies #[trigger] t[k].consistent() by {
                if k != i {
                    assert(s[k].consistent());
                }
            }
        }
    }
}

/// Two slot sets with the same names in the same order locate every name at
/// the same position.
pub proof fn lemma_same_names_same_index(s: Seq<ServerView>, t: Seq<ServerView>, n: Seq<char>)
    requires
        s.len() == t.len(),
        forall|k: int| 0 <= k < s.len() ==> (#[trigger] s[k]).name == t[k].name,
    ensures
        slot_index(s, n) == slot_index(t, n),
{
    if exists|i: int| is_first_named(s, n, i) {
        let i = choose|i: int| is_first_named(s, n, i);
        assert(s[i].name == t[i].name);
        assert forall|j: int| 0 <= j < i implies t[j].name != n by {
            assert(s[j].name == t[j].name);
        }
        assert(is_first_named(t, n, i));
        lemma_slot_index_is(s, n, i);
        lemma_slot_index_is(t, n, i);
    } else if exists|i: int| is_first_named(t, n, i) {
        let i = choose|i: int| is_first_named(t, n, i);
        assert(s[i].name == t[i].name);
        assert forall|j: int| 0 <= j < i implies s[j].name != n by {
            assert(s[j].name == t[j].name);
        }
        assert(is_first_named(s, n, i));
    }
}

/// The named slot, changed by `f` (which keeps its name), sits where it was.
pub proof fn lemma_update_keeps_index(s: Seq<ServerView>, i: int, v: ServerView, n: Seq<char>)
    requires
        0 <= i < s.len(),
        v.name == s[i].name,
    ensures
        slot_index(s.update(i, v), n) == slot_index(s, n),
{
    lemma_same_names_same_index(s, s.update(i, v), n);
}

/// How a slot is shown to an operator.
pub open spec fn render_spec(v: ServerView) -> Seq<char> {
    "存档"@ + v.name + "(当前服务器状态: "@ + v.status.spec_name() + ") ip: "@ + or_none_mark(
        v.ip_port,
    ) + " type: "@ + v.instance_type + "\n存档文件"@ + or_none_mark(v.save) + "\n"@
}

/// Every slot as shown to an operator, in order.
pub open spec fn render_all(s: Seq<ServerView>) -> Seq<char>
    decreases s.len(),
{
    if s.len() == 0 {
        Seq::empty()
    } else {
        render_all(s.drop_last()) + render_spec(s.last())
    }
}

fn or_none_text(o: &Option<String>) -> (r: &str)
    ensures
        r@ == or_none_mark(opt_text(*o)),
{
    match o {
        Some(t) => t.as_str(),
        None => "无",
    }
}

impl Server {
    /// A copy of this record.
    pub fn copy(&self) -> (r: Server)
        ensures
            r@ == self@,
    {
        Server {
            name: self.name.clone(),
            status: self.status,
            instance_type: self.instance_type.clone(),
            save: copy_opt(&self.save),
            ip_port: copy_opt(&self.ip_port),
            region: copy_opt(&self.region),
            instance_id: copy_opt(&self.instance_id),
        }
    }

    /// The slot as shown to an operator: name, status, endpoint, instance
    /// class and last save.
    pub fn render(&self) -> (r: String)
        ensures
            r@ == render_spec(self@),
    {
        let mut out = String::from_str("存档");
        out.append(self.name.as_str());
        out.append("(当前服务器状态: ");
        out.append(self.status.name());
        out.append(") ip: ");
        out.append(or_none_text(&self.ip_port));
        out.append(" type: ");
        out.append(self.instance_type.as_str());
        out.append("\n存档文件");
        out.append(or_none_text(&self.save));
        out.append("\n");
        out
    }

    /// This record with another status and instance fields; name, class and
    /// save stay.
    fn with_instance(
        &self,
        status: Status,
        ip_port: Option<String>,
        region: Option<String>,
        instance_id: Option<String>,
    ) -> (r: Server)
        ensures
            r@ == (ServerView {
                status,
                ip_port: opt_text(ip_port),
                region: opt_text(region),
                instance_id: opt_text(instance_id),
                ..self@
            }),
    {
        Server {
            name: self.name.clone(),
            status,
            instance_type: self.instance_type.clone(),
            save: copy_opt(&self.save),
            ip_port,
            region,
            instance_id,
        }
    }
}

/// What the store reports.
#[derive(Debug, Clone, Copy, PartialEq, Eq, Structural)]
pub enum ServerManagerError {
    /// No slot has that name.
    ServerNotFound,
    /// The slot is not in the status the operation needs; its current status.
    ServerStatusNotMatch(Status),
    /// A record handed to the store is not consistent (see `ServerView::consistent`).
    ServerRecordInvalid,
}

impl ServerManagerError {
    /// A message for the operator.
    pub fn message(&self) -> (r: String)
        ensures
            r@ == self.spec_message(),
    {
        match self {
            ServerManagerError::ServerNotFound => String::from_str("Server not found"),
            ServerManagerError::ServerStatusNotMatch(s) => join2(
                "Server status not match, current status: ",
                s.name(),
            ),
            ServerManagerError::ServerRecordInvalid => String::from_str(
                "Server record is inconsistent",
            ),
        }
    }

    pub open spec fn spec_message(self) -> Seq<char> {
        match self {
            ServerManagerError::ServerNotFound => "Server not found"@,
            ServerManagerError::ServerStatusNotMatch(s) => "Server status not match, current status: "@
                + s.spec_name(),
            ServerManagerError::ServerRecordInvalid => "Server record is inconsistent"@,
        }
    }
}

/// What precedes the first `:` of `p`; empty when `p` has none.
pub open spec fn host_part(p: Seq<char>) -> Seq<char> {
    if exists|k: int| 0 <= k < p.len() && p[k] == ':' {
        p.subrange(0, choose|k: int| first_colon(p, k))
    } else {
        Seq::empty()
    }
}

/// `k` is the position of the first `:` of `p`.
pub open spec fn first_colon(p: Seq<char>, k: int) -> bool {
    0 <= k < p.len() && p[k] == ':' && forall|j: int| 0 <= j < k ==> p[j] != ':'
}

fn host_of(p: &str) -> (r: String)
    ensures
        r@ == host_part(p@),
{
    let n = p.unicode_len();
    let mut i: usize = 0;
    while i < n
        invariant
            n == p@.len(),
            i <= n,
            forall|j: int| 0 <= j < i ==> p@[j] != ':',
        decreases n - i,
    {
        if p.get_char(i) == ':' {
            proof {
                let k = choose|k: int| first_colon(p@, k);
                assert(first_colon(p@, i as int));
                if k < i {
                    assert(p@[k] != ':');
                } else if i < k {
                    assert(p@[i as int] != ':');
                }
            }
            return String::from_str(p.substring_char(0, i));
        }
        i = i + 1;
    }
    String::new()
}

/// The slot store.
pub struct ServerManager {
    path: String,
    servers: Vec<Server>,
}

impl View for ServerManager {
    type V = Seq<ServerView>;

    closed spec fn view(&self) -> Seq<ServerView> {
        self.servers@.map_values(|s: Server| s@)
    }
}

/// Whether every record of `v` is consistent.
fn records_consistent(v: &Vec<Server>) -> (r: bool)
    ensures
        r == all_consistent(v@.map_values(|s: Server| s@)),
{
    let ghost sv = v@.map_values(|s: Server| s@);
    let mut i: usize = 0;
    while i < v.len()
        invariant
            i <= v.len(),
            sv == v@.map_values(|s: Server| s@),
            forall|j: int| 0 <= j < i ==> #[trigger] sv[j].consistent(),
        decreases v.len() - i,
    {
        let s = &v[i];
        let present = s.ip_port.is_some() && s.region.is_some() && s.instance_id.is_some();
        let absent = s.ip_port.is_none() && s.region.is_none() && s.instance_id.is_none();
        let ok = match s.status {
            Status::Running | Status::Stopping => present,
            Status::Creating | Status::Stopped => absent,
        };
        assert(sv[i as int] == v@[i as int]@);
        if !ok {
            assert(!sv[i as int].consistent());
            return false;
        }
        i = i + 1;
    }
    true
}

impl ServerManager {
    #[verifier::type_invariant]
    spec fn inv(self) -> bool {
        all_consistent(self@)
    }

    /// The store at `path` holding `servers`, which must all be consistent.
    pub fn new(path: String, servers: Vec<Server>) -> (r: Result<Self, ServerManagerError>)
        ensures
            all_consistent(servers@.map_values(|s: Server| s@)) ==> (r matches Ok(m) && m@
                == servers@.map_values(|s: Server| s@) && m.path() == path@),
            !all_consistent(servers@.map_values(|s: Server| s@)) ==> r == Err::<
                Self,
                ServerManagerError,
            >(ServerManagerError::ServerRecordInvalid),
    {
        if records_consistent(&servers) {
            Ok(ServerManager { path, servers })
        } else {
            Err(ServerManagerError::ServerRecordInvalid)
        }
    }

    /// Where the durable copy lives.
    pub closed spec fn path(&self) -> Seq<char> {
        self.path@
    }

    /// Where the durable copy lives.
    pub fn store_path(&self) -> (r: &String)
        ensures
            r@ == self.path(),
    {
        &self.path
    }

    /// The slot records, in order.
    pub fn servers(&self) -> (r: &Vec<Server>)
        ensures
            r@.map_values(|s: Server| s@) == self@,
    {
        &self.servers
    }

    /// Every slot of the store is consistent.
    pub fn consistent(&self) -> (r: bool)
        ensures
            r,
            all_consistent(self@),
    {
        proof {
            use_type_invariant(self);
        }
        true
    }

    /// Replaces the slots with freshly read records; inconsistent records are
    /// refused and leave the store as it was.
    pub fn reload_servers(&mut self, servers: Vec<Server>) -> (r: Result<(), ServerManagerError>)
        ensures
            final(self).path() == old(self).path(),
            all_consistent(servers@.map_values(|s: Server| s@)) ==> (r is Ok && final(self)@
                == servers@.map_values(|s: Server| s@)),
            !all_consistent(servers@.map_values(|s: Server| s@)) ==> (r == Err::<
                (),
                ServerManagerError,
            >(ServerManagerError::ServerRecordInvalid) && final(self)@ == old(self)@),
    {
        if records_consistent(&servers) {
            self.servers = servers;
            Ok(())
        } else {
            Err(ServerManagerError::ServerRecordInvalid)
        }
    }

    fn find_server_or_err(&self, server: &str) -> (r: Result<usize, ServerManagerError>)
        ensures
            r matches Ok(i) ==> slot_index(self@, server@) == Some(i as int) && i < self@.len(),
            r is Err ==> slot_index(self@, server@) is None && r == Err::<
                usize,
                ServerManagerError,
            >(ServerManagerError::ServerNotFound),
    {
        let ghost sv = self@;
        let mut i: usize = 0;
        while i < self.servers.len()
            invariant
                i <= self.servers.len(),
                sv == self@,
                sv == self.servers@.map_values(|s: Server| s@),
                forall|j: int| 0 <= j < i ==> sv[j].name != server@,
            decreases self.servers.len() - i,
        {
            assert(sv[i as int].name == self.servers@[i as int].name@);
            if same_text(self.servers[i].name.as_str(), server) {
                proof {
                    lemma_slot_index_is(sv, server@, i as int);
                }
                return Ok(i);
            }
            i = i + 1;
        }
        assert(!exists|k: int| is_first_named(sv, server@, k));
        Err(ServerManagerError::ServerNotFound)
    }

    fn check_index(&self, server: &str, expected: Status) -> (r: Result<usize, ServerManagerError>)
        ensures
            r matches Ok(i) ==> check_spec(self@, server@, expected) == Ok::<
                int,
                ServerManagerError,
            >(i as int) && i < self@.len(),
            r matches Err(e) ==> check_spec(self@, server@, expected) == Err::<
                int,
                ServerManagerError,
            >(e),
    {
        let i = match self.find_server_or_err(server) {
            Ok(i) => i,
            Err(e) => return Err(e),
        };
        assert(self@[i as int].status == self.servers@[i as int].status);
        if self.servers[i].status == expected {
            Ok(i)
        } else {
            Err(ServerManagerError::ServerStatusNotMatch(self.servers[i].status))
        }
    }

    /// `Ok` when the named slot is in status `status`.
    pub fn check_server_status(&self, server: &str, status: &Status) -> (r: Result<
        (),
        ServerManagerError,
    >)
        ensures
            match check_spec(self@, server@, *status) {
                Ok(_) => r is Ok,
                Err(e) => r == Err::<(), ServerManagerError>(e),
            },
    {
        match self.check_index(server, *status) {
            Ok(_) => Ok(()),
            Err(e) => Err(e),
        }
    }

    fn put(&mut self, i: usize, s: Server)
        requires
            i < old(self)@.len(),
            s@.consistent(),
        ensures
            final(self)@ == old(self)@.update(i as int, s@),
            final(self).path() == old(self).path(),
    {
        proof {
            use_type_invariant(&*self);
        }
        let ghost target = old(self)@.update(i as int, s@);
        let ghost orig = self.servers@;
        let mut next: Vec<Server> = Vec::new();
        let mut j: usize = 0;
        while j < i
            invariant
                j <= i,
                i < orig.len(),
                self.servers@ == orig,
                target == orig.map_values(|s: Server| s@).update(i as int, s@),
                next@.len() == j,
                forall|k: int| 0 <= k < j ==> #[trigger] next@[k]@ == target[k],
            decreases i - j,
        {
            next.push(self.servers[j].copy());
            j = j + 1;
        }
        next.push(s);
        let len = self.servers.len();
        assert(i < len);
        j = i + 1;
        while j < self.servers.len()
            invariant
                i < j <= orig.len(),
                self.servers@ == orig,
                target == orig.map_values(|s: Server| s@).update(i as int, s@),
                next@.len() == j,
                forall|k: int| 0 <= k < j ==> #[trigger] next@[k]@ == target[k],
            decreases orig.len() - j,
        {
            next.push(self.servers[j].copy());
            j = j + 1;
        }
        self.servers = next;
        assert(self.servers@.map_values(|s: Server| s@) =~= target);
    }

    /// The named slot as shown to an operator.
    pub fn list(&self, server: &str) -> (r: Result<String, ServerManagerError>)
        ensures
            match slot_index(self@, server@) {
                Some(i) => r matches Ok(t) && t@ == render_spec(self@[i]),
                None => r == Err::<String, ServerManagerError>(ServerManagerError::ServerNotFound),
            },
    {
        match self.find_server_or_err(server) {
            Ok(i) => Ok(self.servers[i].render()),
            Err(e) => Err(e),
        }
    }

    /// Every slot as shown to an operator, in order.
    pub fn list_all(&self) -> (r: String)
        ensures
            r@ == render_all(self@),
    {
        let mut out = String::new();
        let mut i: usize = 0;
        while i < self.servers.len()
            invariant
                i <= self.servers.len(),
                self@ == self.servers@.map_values(|s: Server| s@),
                out@ == render_all(self@.subrange(0, i as int)),
            decreases self.servers.len() - i,
        {
            let text = self.servers[i].render();
            assert(self@.subrange(0, i + 1).drop_last() =~= self@.subrange(0, i as int));
            out.append(text.as_str());
            i = i + 1;
        }
        assert(self@.subrange(0, i as int) =~= self@);
        out
    }

    /// The instance class configured for the named slot.
    pub fn get_instance_type(&self, server: &str) -> (r: Result<String, ServerManagerError>)
        ensures
            match slot_index(self@, server@) {
                Some(i) => r matches Ok(t) && t@ == self@[i].instance_type,
                None => r == Err::<String, ServerManagerError>(ServerManagerError::ServerNotFound),
            },
    {
        match self.find_server_or_err(server) {
            Ok(i) => Ok(self.servers[i].instance_type.clone()),
            Err(e) => Err(e),
        }
    }

    /// The last recorded save of the named slot.
    pub fn get_save_name(&self, server: &str) -> (r: Result<Option<String>, ServerManagerError>)
        ensures
            match slot_index(self@, server@) {
                Some(i) => r matches Ok(t) && opt_text(t) == self@[i].save,
                None => r == Err::<Option<String>, ServerManagerError>(
                    ServerManagerError::ServerNotFound,
                ),
            },
    {
        match self.find_server_or_err(server) {
            Ok(i) => Ok(copy_opt(&self.servers[i].save)),
            Err(e) => Err(e),
        }
    }

    /// The host part of the named slot's endpoint (what precedes the first
    /// `:`; empty when there is none).
    pub fn get_server_ip(&self, server: &str) -> (r: Result<Option<String>, ServerManagerError>)
        ensures
            match slot_index(self@, server@) {
                Some(i) => r matches Ok(t) && opt_text(t) == match self@[i].ip_port {
                    Some(p) => Some(host_part(p)),
                    None => None,
                },
                None => r == Err::<Option<String>, ServerManagerError>(
                    ServerManagerError::ServerNotFound,
                ),
            },
    {
        match self.find_server_or_err(server) {
            Ok(i) => match &self.servers[i].ip_port {
                Some(p) => Ok(Some(host_of(p.as_str()))),
                None => Ok(None),
            },
            Err(e) => Err(e),
        }
    }

    /// `begin_create`: the named slot goes from `Stopped` to `Creating`.
    pub fn create_server(&mut self, server: &str) -> (r: Result<(), ServerManagerError>)
        ensures
            final(self).path() == old(self).path(),
            match create_spec(old(self)@, server@) {
                Ok(s2) => r is Ok && final(self)@ == s2,
                Err(e) => r == Err::<(), ServerManagerError>(e) && final(self)@ == old(self)@,
            },
    {
        proof {
            use_type_invariant(&*self);
        }
        let i = match self.check_index(server, Status::Stopped) {
            Ok(i) => i,
            Err(e) => return Err(e),
        };
        assert(self@[i as int].consistent());
        let new = self.servers[i].with_instance(Status::Creating, None, None, None);
        assert(new@ == (ServerView { status: Status::Creating, ..self@[i as int] }));
        self.put(i, new);
        Ok(())
    }

    /// `finish_create`: the named slot goes from `Creating` to `Running`,
    /// with its endpoint, region and instance id recorded.
    pub fn finish_creating_server(
        &mut self,
        server: &str,
        ip_port: &str,
        region: &str,
        instance_id: &str,
    ) -> (r: Result<(), ServerManagerError>)
        ensures
            final(self).path() == old(self).path(),
            match finish_create_spec(old(self)@, server@, ip_port@, region@, instance_id@) {
                Ok(s2) => r is Ok && final(self)@ == s2,
                Err(e) => r == Err::<(), ServerManagerError>(e) && final(self)@ == old(self)@,
            },
    {
        let i = match self.check_index(server, Status::Creating) {
            Ok(i) => i,
            Err(e) => return Err(e),
        };
        let new = self.servers[i].with_instance(
            Status::Running,
            Some(String::from_str(ip_port)),
            Some(String::from_str(region)),
            Some(String::from_str(instance_id)),
        );
        self.put(i, new);
        Ok(())
    }

    /// `rollback_create`: the named slot goes from `Creating` back to
    /// `Stopped` with its instance fields cleared; returns the instance id and
    /// region that were recorded, which the caller must tear down.
    pub fn failed_create_server(&mut self, server: &str) -> (r: Result<
        (Option<String>, Option<String>),
        ServerManagerError,
    >)
        ensures
            final(self).path() == old(self).path(),
            match rollback_create_spec(old(self)@, server@) {
                Ok(s2) => final(self)@ == s2 && (r matches Ok((id, region)) && {
                    let v = old(self)@[slot_index(old(self)@, server@)->0];
                    opt_text(id) == v.instance_id && opt_text(region) == v.region
                }),
                Err(e) => r == Err::<(Option<String>, Option<String>), ServerManagerError>(e)
                    && final(self)@ == old(self)@,
            },
    {
        let i = match self.check_index(server, Status::Creating) {
            Ok(i) => i,
            Err(e) => return Err(e),
        };
        let id = copy_opt(&self.servers[i].instance_id);
        let region = copy_opt(&self.servers[i].region);
        let new = self.servers[i].with_instance(Status::Stopped, None, None, None);
        self.put(i, new);
        Ok((id, region))
    }

    /// `begin_stop`: the named slot goes from `Running` to `Stopping`;
    /// returns its region and instance id.
    pub fn stop_server(&mut self, server: &str) -> (r: Result<(String, String), ServerManagerError>)
        ensures
            final(self).path() == old(self).path(),
            match stop_spec(old(self)@, server@) {
                Ok(s2) => final(self)@ == s2 && (r matches Ok((region, id)) && {
                    let v = old(self)@[slot_index(old(self)@, server@)->0];
                    v.region == Some(region@) && v.instance_id == Some(id@)
                }),
                Err(e) => r == Err::<(String, String), ServerManagerError>(e) && final(self)@
                    == old(self)@,
            },
    {
        proof {
            use_type_invariant(&*self);
        }
        let i = match self.check_index(server, Status::Running) {
            Ok(i) => i,
            Err(e) => return Err(e),
        };
        assert(self@[i as int].consistent());
        assert(self@[i as int] == self.servers@[i as int]@);
        let region = match &self.servers[i].region {
            Some(t) => t.clone(),
            None => {
                assert(false);
                String::new()
            },
        };
        let id = match &self.servers[i].instance_id {
            Some(t) => t.clone(),
            None => {
                assert(false);
                String::new()
            },
        };
        let cur = &self.servers[i];
        let new = cur.with_instance(
            Status::Stopping,
            copy_opt(&cur.ip_port),
            copy_opt(&cur.region),
            copy_opt(&cur.instance_id),
        );
        assert(new@ == (ServerView { status: Status::Stopping, ..self@[i as int] }));
        self.put(i, new);
        Ok((region, id))
    }

    /// `finish_stop`: the named slot goes from `Stopping` to `Stopped` with
    /// its instance fields cleared.
    pub fn finish_stopping_server(&mut self, server: &str) -> (r: Result<(), ServerManagerError>)
        ensures
            final(self).path() == old(self).path(),
            match finish_stop_spec(old(self)@, server@) {
                Ok(s2) => r is Ok && final(self)@ == s2,
                Err(e) => r == Err::<(), ServerManagerError>(e) && final(self)@ == old(self)@,
            },
    {
        let i = match self.check_index(server, Status::Stopping) {
            Ok(i) => i,
            Err(e) => return Err(e),
        };
        let new = self.servers[i].with_instance(Status::Stopped, None, None, None);
        self.put(i, new);
        Ok(())
    }

    /// `rollback_stop`: the named slot goes from `Stopping` back to `Running`.
    pub fn failed_stop_server(&mut self, server: &str) -> (r: Result<(), ServerManagerError>)
        ensures
            final(self).path() == old(self).path(),
            match rollback_stop_spec(old(self)@, server@) {
                Ok(s2) => r is Ok && final(self)@ == s2,
                Err(e) => r == Err::<(), ServerManagerError>(e) && final(self)@ == old(self)@,
            },
    {
        proof {
            use_type_invariant(&*self);
        }
        let i = match self.check_index(server, Status::Stopping) {
            Ok(i) => i,
            Err(e) => return Err(e),
        };
        assert(self@[i as int] == self.servers@[i as int]@);
        assert(self@[i as int].consistent());
        let cur = &self.servers[i];
        let new = cur.with_instance(
            Status::Running,
            copy_opt(&cur.ip_port),
            copy_opt(&cur.region),
            copy_opt(&cur.instance_id),
        );
        assert(new@ == (ServerView { status: Status::Running, ..self@[i as int] }));
        self.put(i, new);
        Ok(())
    }

    /// `set_save_name`: records `save_name` as the running slot's last save.
    pub fn update_save_name(&mut self, server: &str, save_name: &str) -> (r: Result<
        (),
        ServerManagerError,
    >)
        ensures
            final(self).path() == old(self).path(),
            match save_name_spec(old(self)@, server@, save_name@) {
                Ok(s2) => r is Ok && final(self)@ == s2,
                Err(e) => r == Err::<(), ServerManagerError>(e) && final(self)@ == old(self)@,
            },
    {
        proof {
            use_type_invariant(&*self);
        }
        let i = match self.check_index(server, Status::Running) {
            Ok(i) => i,
            Err(e) => return Err(e),
        };
        assert(self@[i as int] == self.servers@[i as int]@);
        assert(self@[i as int].consistent());
        let cur = &self.servers[i];
        let new = Server {
            name: cur.name.clone(),
            status: cur.status,
            instance_type: cur.instance_type.clone(),
            save: Some(String::from_str(save_name)),
            ip_port: copy_opt(&cur.ip_port),
            region: copy_opt(&cur.region),
            instance_id: copy_opt(&cur.instance_id),
        };
        assert(new@ == (ServerView { save: Some(save_name@), ..self@[i as int] }));
        self.put(i, new);
        Ok(())
    }
}

} // verus!
