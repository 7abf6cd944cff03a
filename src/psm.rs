//! The operator-facing workflows: start a slot (provision an instance,
//! install, restore the last save, start the service) and stop it (back up,
//! download the save, terminate the instance), each with rollback.
//!
//! A workflow is a value that is stepped with events. Each step reads and
//! changes the slot store (which the caller has just reloaded and persists
//! afterwards), may carry a progress notice for the operator, and names the
//! one piece of outside work to do next; its outcome is the next event.

use vstd::prelude::*;
use vstd::string::*;
use crate::constant::{
    candidate_regions,
    spec_candidate_regions,
    InstanceType,
    Region,
    ServiceInstanceType,
};
use crate::cvm_utils::{tagged_group_ids, workload_security_groups, Quote, SecurityGroup};
use crate::error::PSMError;
use crate::server_status::{
    check_spec,
    create_spec,
    finish_create_spec,
    finish_stop_spec,
    host_part,
    rollback_create_spec,
    rollback_stop_spec,
    save_name_spec,
    slot_index,
    stop_spec,
    ServerManager,
    ServerManagerError,
    ServerView,
    Status,
};
use crate::config::NpsAccessConfig;
use crate::shell_manager::Script;
use crate::text::same_text;
use crate::text::{join2, strip_eol, text_eq_ci, without_eol};

verus! {

/// How many times finding and creating an instance is tried before the start
/// fails.
pub const MAX_CREATE_ATTEMPTS: u8 = 5;

/// The port suffix of the game service's endpoint.
pub open spec fn service_port() -> Seq<char> {
    ":8211"@
}

/// A cloud instance created for a slot.
#[derive(Debug, PartialEq, Eq)]
pub struct Instance {
    pub region: Region,
    pub instance_id: String,
}

/// Progress reported to the operator.
#[derive(Debug, PartialEq, Eq)]
pub enum Notice {
    /// The cheapest place to create the instance.
    QuoteChosen(Quote),
    /// The instance was created with this id.
    InstanceCreated(String),
    /// This save was restored on the instance.
    SaveRestored(String),
    /// The server runs at this endpoint.
    ServerCreated(String),
    /// The slot's instance (slot name, instance id) was terminated.
    ServerDeleted(String, String),
    /// A backup was taken under this save name.
    BackupTaken(String),
    /// Terminating the instance after a failure failed too.
    RollbackFailed(PSMError),
}

/// The outside work to do next.
#[derive(Debug, PartialEq, Eq)]
pub enum Action {
    /// Find the cheapest quote for the types over the regions; answer `Quote`.
    FindCheapest { regions: Vec<Region>, instance_types: Vec<InstanceType> },
    /// List the usable key-pair ids; answer `KeyIds`.
    ListKeyIds,
    /// List the region's security groups; answer `SecurityGroups`.
    ListSecurityGroups { region: Region },
    /// Create an instance where the quote says; answer `Created`.
    CreateInstance { quote: Quote, key_ids: Vec<String>, security_group_ids: Vec<String> },
    /// Wait for the instance's public address; answer `Address`.
    WaitForAddress { region: Region, instance_id: String },
    /// Upload the scripts to the host; answer `Transferred`.
    UploadScripts { host: String },
    /// Upload a save to the host; answer `Transferred`.
    UploadSave { host: String, save_name: String },
    /// Download a save from the host; answer `Transferred`.
    DownloadSave { host: String, save_name: String },
    /// Run a script on the host; answer `ScriptDone`.
    RunScript { host: String, script: Script },
    /// Terminate the instance; answer `Terminated`.
    Terminate { region: Region, instance_id: String },
    /// The workflow is over with this outcome.
    Finish(Result<(), PSMError>),
}

/// The outcome of the last action.
#[derive(Debug, PartialEq, Eq)]
pub enum Event {
    Begin,
    Quote(Result<Quote, PSMError>),
    KeyIds(Result<Vec<String>, PSMError>),
    SecurityGroups(Result<Vec<SecurityGroup>, PSMError>),
    Created(Result<String, PSMError>),
    Address(Result<String, PSMError>),
    Transferred(Result<(), PSMError>),
    ScriptDone(Result<String, PSMError>),
    Terminated(Result<(), PSMError>),
}

/// The failure an event reports; `UnexpectedEvent` for one that reports none.
pub open spec fn failure_of(e: Event) -> PSMError {
    match e {
        Event::Quote(Err(x)) => x,
        Event::KeyIds(Err(x)) => x,
        Event::SecurityGroups(Err(x)) => x,
        Event::Created(Err(x)) => x,
        Event::Address(Err(x)) => x,
        Event::Transferred(Err(x)) => x,
        Event::ScriptDone(Err(x)) => x,
        Event::Terminated(Err(x)) => x,
        _ => PSMError::UnexpectedEvent,
    }
}

fn into_failure(e: Event) -> (r: PSMError)
    ensures
        r == failure_of(e),
{
    match e {
        Event::Quote(Err(x)) => x,
        Event::KeyIds(Err(x)) => x,
        Event::SecurityGroups(Err(x)) => x,
        Event::Created(Err(x)) => x,
        Event::Address(Err(x)) => x,
        Event::Transferred(Err(x)) => x,
        Event::ScriptDone(Err(x)) => x,
        Event::Terminated(Err(x)) => x,
        _ => PSMError::UnexpectedEvent,
    }
}

/// The notice after the rollback's termination reported `e`.
pub open spec fn rollback_notice(e: Event) -> Option<Notice> {
    match e {
        Event::Terminated(Err(t)) => Some(Notice::RollbackFailed(t)),
        _ => None,
    }
}

/// One step's output.
#[derive(Debug, PartialEq, Eq)]
pub struct Step {
    pub notice: Option<Notice>,
    pub action: Action,
}

/// The slot set after an attempted `rollback_create` (unchanged if refused).
pub open spec fn after_rollback_create(s: Seq<ServerView>, name: Seq<char>) -> Seq<ServerView> {
    match rollback_create_spec(s, name) {
        Ok(t) => t,
        Err(_) => s,
    }
}

fn roll_back_create(store: &mut ServerManager, server: &str)
    ensures
        final(store)@ == after_rollback_create(old(store)@, server@),
{
    let _ = store.failed_create_server(server);
}

/// Where a start stands.
#[derive(Debug, PartialEq, Eq)]
pub enum StartStage {
    /// Nothing done yet.
    Begin,
    /// The slot is `Creating`; a quote was asked for.
    FindingPrice,
    /// Key-pair ids were asked for.
    ListingKeys(Quote),
    /// Security groups were asked for.
    ListingGroups(Quote, Vec<String>),
    /// The instance was asked for.
    CreatingInstance(Quote),
    /// The instance exists; its address was asked for.
    WaitingAddress(Instance),
    /// The scripts are being uploaded to the host.
    UploadingScripts(Instance, String),
    /// The install script runs on the host.
    Installing(Instance, String),
    /// The slot's save (the third field) is being uploaded.
    UploadingSave(Instance, String, String),
    /// The restore script runs.
    Restoring(Instance, String, String),
    /// The start script runs.
    Launching(Instance, String),
    /// The start failed with this error; the instance is being terminated.
    RollingBack(PSMError),
    /// The start is over.
    Done,
}

/// Stages before an instance exists, in which a failure is retried.
pub open spec fn before_instance(st: StartStage) -> bool {
    st is FindingPrice || st is ListingKeys || st is ListingGroups || st is CreatingInstance
}

/// The instance a stage holds, if any.
pub open spec fn stage_instance(st: StartStage) -> Option<Instance> {
    match st {
        StartStage::WaitingAddress(i) => Some(i),
        StartStage::UploadingScripts(i, _) => Some(i),
        StartStage::Installing(i, _) => Some(i),
        StartStage::UploadingSave(i, _, _) => Some(i),
        StartStage::Restoring(i, _, _) => Some(i),
        StartStage::Launching(i, _) => Some(i),
        _ => None,
    }
}

/// A start of one slot.
#[derive(Debug)]
pub struct StartServer {
    pub server: String,
    /// The acceptable types of the slot's class, once read.
    pub instance_types: Vec<InstanceType>,
    /// Failed attempts at finding and creating an instance so far.
    pub attempts: u8,
    pub stage: StartStage,
}

/// Name, types and attempts carry over.
pub open spec fn keeps_plan(pre: StartServer, post: StartServer) -> bool {
    post.server@ == pre.server@ && post.instance_types@ == pre.instance_types@ && post.attempts
        == pre.attempts
}

/// The step ends the start with `err`; nothing was created, so the slot is
/// put back to `Stopped`.
pub open spec fn start_gives_up(
    name: Seq<char>,
    s: Seq<ServerView>,
    err: PSMError,
    post: StartServer,
    s2: Seq<ServerView>,
    out: Step,
) -> bool {
    &&& s2 == after_rollback_create(s, name)
    &&& post.stage == StartStage::Done
    &&& out.notice is None
    &&& out.action == Action::Finish(Err(err))
}

/// The step fails the start with `err` after `inst` was created: the slot is
/// put back to `Stopped` and the instance is terminated.
pub open spec fn start_rolls_back(
    name: Seq<char>,
    s: Seq<ServerView>,
    inst: Instance,
    err: PSMError,
    post: StartServer,
    s2: Seq<ServerView>,
    out: Step,
) -> bool {
    &&& s2 == after_rollback_create(s, name)
    &&& post.stage == StartStage::RollingBack(err)
    &&& out.notice is None
    &&& out.action matches Action::Terminate { region, instance_id } && region == inst.region
        && instance_id@ == inst.instance_id@
}

/// The cheapest-quote search is asked for over the candidate regions.
pub open spec fn asks_quote(out: Step, types: Seq<InstanceType>) -> bool {
    &&& out.notice is None
    &&& out.action matches Action::FindCheapest { regions, instance_types } && regions@
        == spec_candidate_regions() && instance_types@ == types
}

/// A failure before the instance exists: try again while attempts remain,
/// else give up.
pub open spec fn start_retries(
    pre: StartServer,
    s: Seq<ServerView>,
    err: PSMError,
    post: StartServer,
    s2: Seq<ServerView>,
    out: Step,
) -> bool {
    if pre.attempts + 1 < MAX_CREATE_ATTEMPTS {
        &&& s2 == s
        &&& post.attempts == pre.attempts + 1
        &&& post.stage == StartStage::FindingPrice
        &&& asks_quote(out, pre.instance_types@)
    } else {
        start_gives_up(pre.server@, s, err, post, s2, out)
    }
}

/// The first step: the slot goes `Stopped` -> `Creating` and its class is
/// read; a refused transition ends the start with nothing changed.
pub open spec fn start_begins(
    name: Seq<char>,
    s: Seq<ServerView>,
    post: StartServer,
    s2: Seq<ServerView>,
    out: Step,
) -> bool {
    match create_spec(s, name) {
        Err(err) => {
            &&& s2 == s
            &&& post.stage == StartStage::Done
            &&& out.notice is None
            &&& out.action == Action::Finish(Err(PSMError::ServerManagerError(err)))
        },
        Ok(s1) => {
            let class = s1[slot_index(s1, name)->0].instance_type;
            if exists|t: ServiceInstanceType| text_eq_ci(class, t.spec_name()) {
                &&& s2 == s1
                &&& post.attempts == 0
                &&& post.stage == StartStage::FindingPrice
                &&& exists|t: ServiceInstanceType|
                    text_eq_ci(class, t.spec_name()) && post.instance_types@ == t.spec_list()
                &&& asks_quote(out, post.instance_types@)
            } else {
                start_gives_up(name, s1, PSMError::InvalidInstanceType, post, s2, out)
            }
        },
    }
}

/// One step of a start, from `pre` with store `s` on event `e`, to `post`
/// with store `s2`, giving `out`.
pub open spec fn start_next(
    pre: StartServer,
    s: Seq<ServerView>,
    e: Event,
    post: StartServer,
    s2: Seq<ServerView>,
    out: Step,
) -> bool {
    &&& post.server@ == pre.server@
    &&& match (pre.stage, e) {
        (StartStage::Begin, Event::Begin) => start_begins(pre.server@, s, post, s2, out),
        (StartStage::FindingPrice, Event::Quote(Ok(q))) => {
            &&& keeps_plan(pre, post) && s2 == s
            &&& post.stage == StartStage::ListingKeys(q)
            &&& out.notice matches Some(Notice::QuoteChosen(c)) && c@ == q@
            &&& out.action == Action::ListKeyIds
        },
        (StartStage::ListingKeys(q), Event::KeyIds(Ok(keys))) => {
            &&& keeps_plan(pre, post) && s2 == s
            &&& post.stage == StartStage::ListingGroups(q, keys)
            &&& out.notice is None
            &&& out.action == Action::ListSecurityGroups { region: q.region }
        },
        (StartStage::ListingGroups(q, keys), Event::SecurityGroups(Ok(groups))) => {
            &&& keeps_plan(pre, post) && s2 == s
            &&& post.stage == StartStage::CreatingInstance(q)
            &&& out.notice is None
            &&& out.action matches Action::CreateInstance { quote, key_ids, security_group_ids }
                && quote@ == q@ && key_ids == keys && security_group_ids@.map_values(
                |x: String| x@,
            ) == tagged_group_ids(groups@)
        },
        (StartStage::CreatingInstance(q), Event::Created(Ok(id))) => {
            &&& keeps_plan(pre, post) && s2 == s
            &&& post.stage == StartStage::WaitingAddress(Instance { region: q.region, instance_id: id })
            &&& out.notice matches Some(Notice::InstanceCreated(c)) && c@ == id@
            &&& out.action matches Action::WaitForAddress { region, instance_id } && region
                == q.region && instance_id@ == id@
        },
        (StartStage::WaitingAddress(inst), Event::Address(Ok(host))) => {
            &&& keeps_plan(pre, post) && s2 == s
            &&& post.stage == StartStage::UploadingScripts(inst, host)
            &&& out.notice is None
            &&& out.action matches Action::UploadScripts { host: h } && h@ == host@
        },
        (StartStage::UploadingScripts(inst, host), Event::Transferred(Ok(_))) => {
            &&& keeps_plan(pre, post) && s2 == s
            &&& post.stage == StartStage::Installing(inst, host)
            &&& out.notice is None
            &&& out.action matches Action::RunScript { host: h, script } && h@ == host@ && script
                == Script::InstallServer
        },
        (StartStage::Installing(inst, host), Event::ScriptDone(Ok(_))) => {
            &&& keeps_plan(pre, post)
            &&& match slot_index(s, pre.server@) {
                None => start_rolls_back(
                    pre.server@,
                    s,
                    inst,
                    PSMError::ServerManagerError(ServerManagerError::ServerNotFound),
                    post,
                    s2,
                    out,
                ),
                Some(i) => match s[i].save {
                    Some(save) => {
                        &&& s2 == s
                        &&& post.stage matches StartStage::UploadingSave(i2, h2, sv) && i2 == inst
                            && h2 == host && sv@ == save
                        &&& out.notice is None
                        &&& out.action matches Action::UploadSave { host: h, save_name } && h@
                            == host@ && save_name@ == save
                    },
                    None => {
                        &&& s2 == s
                        &&& post.stage == StartStage::Launching(inst, host)
                        &&& out.notice is None
                        &&& out.action matches Action::RunScript { host: h, script } && h@ == host@
                            && script == Script::StartServer
                    },
                },
            }
        },
        (StartStage::UploadingSave(inst, host, save), Event::Transferred(Ok(_))) => {
            &&& keeps_plan(pre, post) && s2 == s
            &&& post.stage == StartStage::Restoring(inst, host, save)
            &&& out.notice is None
            &&& out.action matches Action::RunScript { host: h, script } && h@ == host@ && script
                == Script::RestoreSave
        },
        (StartStage::Restoring(inst, host, save), Event::ScriptDone(Ok(_))) => {
            &&& keeps_plan(pre, post) && s2 == s
            &&& post.stage == StartStage::Launching(inst, host)
            &&& out.notice matches Some(Notice::SaveRestored(c)) && c@ == save@
            &&& out.action matches Action::RunScript { host: h, script } && h@ == host@ && script
                == Script::StartServer
        },
        (StartStage::Launching(inst, host), Event::ScriptDone(Ok(_))) => {
            let endpoint = host@ + service_port();
            &&& keeps_plan(pre, post)
            &&& match finish_create_spec(
                s,
                pre.server@,
                endpoint,
                inst.region.spec_code(),
                inst.instance_id@,
            ) {
                Ok(t) => {
                    &&& s2 == t
                    &&& post.stage == StartStage::Done
                    &&& out.notice matches Some(Notice::ServerCreated(c)) && c@ == endpoint
                    &&& out.action == Action::Finish(Ok(()))
                },
                Err(err) => start_rolls_back(
                    pre.server@,
                    s,
                    inst,
                    PSMError::ServerManagerError(err),
                    post,
                    s2,
                    out,
                ),
            }
        },
        (StartStage::RollingBack(err), e) => {
            &&& keeps_plan(pre, post) && s2 == s
            &&& post.stage == StartStage::Done
            &&& out.notice == rollback_notice(e)
            &&& out.action == Action::Finish(Err(err))
        },
        (StartStage::Begin, _) | (StartStage::Done, _) => {
            &&& keeps_plan(pre, post) && s2 == s
            &&& post.stage == StartStage::Done
            &&& out.notice is None
            &&& out.action == Action::Finish(Err(PSMError::UnexpectedEvent))
        },
        (st, e) => if before_instance(st) {
            post.server@ == pre.server@ && post.instance_types@ == pre.instance_types@
                && start_retries(pre, s, failure_of(e), post, s2, out)
        } else {
            keeps_plan(pre, post) && start_rolls_back(
                pre.server@,
                s,
                stage_instance(st)->0,
                failure_of(e),
                post,
                s2,
                out,
            )
        },
    }
}

impl StartServer {
    /// A start of slot `server`, not yet begun.
    pub fn new(server: &str) -> (r: StartServer)
        ensures
            r.server@ == server@,
            r.instance_types@.len() == 0,
            r.attempts == 0,
            r.stage == StartStage::Begin,
    {
        StartServer {
            server: String::from_str(server),
            instance_types: Vec::new(),
            attempts: 0,
            stage: StartStage::Begin,
        }
    }

    fn with_stage(server: String, instance_types: Vec<InstanceType>, attempts: u8, stage: StartStage) -> (r: StartServer)
        ensures
            r.server == server,
            r.instance_types == instance_types,
            r.attempts == attempts,
            r.stage == stage,
    {
        StartServer { server, instance_types, attempts, stage }
    }

    fn begin(server: String, store: &mut ServerManager) -> (r: (StartServer, Step))
        ensures
            start_begins(server@, old(store)@, r.0, final(store)@, r.1),
            r.0.server == server,
    {
        let ghost s = store@;
        match store.create_server(server.as_str()) {
            Err(err) => {
                let post = Self::with_stage(server, Vec::new(), 0, StartStage::Done);
                (
                    post,
                    Step {
                        notice: None,
                        action: Action::Finish(Err(PSMError::ServerManagerError(err))),
                    },
                )
            },
            Ok(()) => {
                let ghost s1 = store@;
                proof {
                    let i = slot_index(s, server@)->0;
                    crate::server_status::lemma_update_keeps_index(
                        s,
                        i,
                        s1[i],
                        server@,
                    );
                }
                let class = match store.get_instance_type(server.as_str()) {
                    Ok(c) => c,
                    Err(_) => {
                        assert(false);
                        String::new()
                    },
                };
                match ServiceInstanceType::from_name(class.as_str()) {
                    Ok(t) => {
                        let types = t.to_list();
                        let post = Self::with_stage(server, types, 0, StartStage::FindingPrice);
                        let regions = candidate_regions();
                        let instance_types = t.to_list();
                        (
                            post,
                            Step {
                                notice: None,
                                action: Action::FindCheapest { regions, instance_types },
                            },
                        )
                    },
                    Err(_) => {
                        roll_back_create(store, server.as_str());
                        let post = Self::with_stage(server, Vec::new(), 0, StartStage::Done);
                        (
                            post,
                            Step {
                                notice: None,
                                action: Action::Finish(Err(PSMError::InvalidInstanceType)),
                            },
                        )
                    },
                }
            },
        }
    }
    fn give_up(
        server: String,
        instance_types: Vec<InstanceType>,
        attempts: u8,
        store: &mut ServerManager,
        err: PSMError,
    ) -> (r: (StartServer, Step))
        ensures
            start_gives_up(server@, old(store)@, err, r.0, final(store)@, r.1),
            r.0.server == server,
            r.0.instance_types == instance_types,
            r.0.attempts == attempts,
    {
        roll_back_create(store, server.as_str());
        (
            Self::with_stage(server, instance_types, attempts, StartStage::Done),
            Step { notice: None, action: Action::Finish(Err(err)) },
        )
    }

    fn roll_back(
        server: String,
        instance_types: Vec<InstanceType>,
        attempts: u8,
        store: &mut ServerManager,
        inst: Instance,
        err: PSMError,
    ) -> (r: (StartServer, Step))
        ensures
            start_rolls_back(server@, old(store)@, inst, err, r.0, final(store)@, r.1),
            r.0.server == server,
            r.0.instance_types == instance_types,
            r.0.attempts == attempts,
    {
        roll_back_create(store, server.as_str());
        let action = Action::Terminate {
            region: inst.region,
            instance_id: inst.instance_id.clone(),
        };
        (
            Self::with_stage(server, instance_types, attempts, StartStage::RollingBack(err)),
            Step { notice: None, action },
        )
    }

    /// Advances the start on event `e`, reading and changing `store` (see
    /// `start_next`).
    pub fn step(self, store: &mut ServerManager, e: Event) -> (r: (StartServer, Step))
        ensures
            start_next(self, old(store)@, e, r.0, final(store)@, r.1),
    {
        let ghost pre = self;
        let StartServer { server, instance_types, attempts, stage } = self;
        match (stage, e) {
            (StartStage::Begin, Event::Begin) => Self::begin(server, store),
            (StartStage::FindingPrice, Event::Quote(Ok(q))) => {
                let c = q.copy();
                (
                    Self::with_stage(server, instance_types, attempts, StartStage::ListingKeys(q)),
                    Step { notice: Some(Notice::QuoteChosen(c)), action: Action::ListKeyIds },
                )
            },
            (StartStage::ListingKeys(q), Event::KeyIds(Ok(keys))) => {
                let region = q.region;
                (
                    Self::with_stage(
                        server,
                        instance_types,
                        attempts,
                        StartStage::ListingGroups(q, keys),
                    ),
                    Step { notice: None, action: Action::ListSecurityGroups { region } },
                )
            },
            (StartStage::ListingGroups(q, keys), Event::SecurityGroups(Ok(groups))) => {
                let quote = q.copy();
                let security_group_ids = workload_security_groups(&groups);
                (
                    Self::with_stage(server, instance_types, attempts, StartStage::CreatingInstance(q)),
                    Step {
                        notice: None,
                        action: Action::CreateInstance { quote, key_ids: keys, security_group_ids },
                    },
                )
            },
            (StartStage::CreatingInstance(q), Event::Created(Ok(id))) => {
                let c = id.clone();
                let action = Action::WaitForAddress { region: q.region, instance_id: id.clone() };
                let inst = Instance { region: q.region, instance_id: id };
                (
                    Self::with_stage(
                        server,
                        instance_types,
                        attempts,
                        StartStage::WaitingAddress(inst),
                    ),
                    Step { notice: Some(Notice::InstanceCreated(c)), action },
                )
            },
            (StartStage::WaitingAddress(inst), Event::Address(Ok(host))) => {
                let action = Action::UploadScripts { host: host.clone() };
                (
                    Self::with_stage(
                        server,
                        instance_types,
                        attempts,
                        StartStage::UploadingScripts(inst, host),
                    ),
                    Step { notice: None, action },
                )
            },
            (StartStage::UploadingScripts(inst, host), Event::Transferred(Ok(_))) => {
                let action = Action::RunScript { host: host.clone(), script: Script::InstallServer };
                (
                    Self::with_stage(
                        server,
                        instance_types,
                        attempts,
                        StartStage::Installing(inst, host),
                    ),
                    Step { notice: None, action },
                )
            },
            (StartStage::Installing(inst, host), Event::ScriptDone(Ok(_))) => {
                match store.get_save_name(server.as_str()) {
                    Err(err) => Self::roll_back(
                        server,
                        instance_types,
                        attempts,
                        store,
                        inst,
                        PSMError::ServerManagerError(err),
                    ),
                    Ok(Some(save)) => {
                        let action = Action::UploadSave {
                            host: host.clone(),
                            save_name: save.clone(),
                        };
                        (
                            Self::with_stage(
                                server,
                                instance_types,
                                attempts,
                                StartStage::UploadingSave(inst, host, save),
                            ),
                            Step { notice: None, action },
                        )
                    },
                    Ok(None) => {
                        let action = Action::RunScript {
                            host: host.clone(),
                            script: Script::StartServer,
                        };
                        (
                            Self::with_stage(
                                server,
                                instance_types,
                                attempts,
                                StartStage::Launching(inst, host),
                            ),
                            Step { notice: None, action },
                        )
                    },
                }
            },
            (StartStage::UploadingSave(inst, host, save), Event::Transferred(Ok(_))) => {
                let action = Action::RunScript { host: host.clone(), script: Script::RestoreSave };
                (
                    Self::with_stage(
                        server,
                        instance_types,
                        attempts,
                        StartStage::Restoring(inst, host, save),
                    ),
                    Step { notice: None, action },
                )
            },
            (StartStage::Restoring(inst, host, save), Event::ScriptDone(Ok(_))) => {
                let action = Action::RunScript { host: host.clone(), script: Script::StartServer };
                (
                    Self::with_stage(
                        server,
                        instance_types,
                        attempts,
                        StartStage::Launching(inst, host),
                    ),
                    Step { notice: Some(Notice::SaveRestored(save)), action },
                )
            },
            (StartStage::Launching(inst, host), Event::ScriptDone(Ok(_))) => {
                let endpoint = join2(host.as_str(), ":8211");
                match store.finish_creating_server(
                    server.as_str(),
                    endpoint.as_str(),
                    inst.region.code(),
                    inst.instance_id.as_str(),
                ) {
                    Ok(()) => (
                        Self::with_stage(server, instance_types, attempts, StartStage::Done),
                        Step {
                            notice: Some(Notice::ServerCreated(endpoint)),
                            action: Action::Finish(Ok(())),
                        },
                    ),
                    Err(err) => Self::roll_back(
                        server,
                        instance_types,
                        attempts,
                        store,
                        inst,
                        PSMError::ServerManagerError(err),
                    ),
                }
            },
            (StartStage::RollingBack(err), e) => {
                let notice = match e {
                    Event::Terminated(Err(t)) => Some(Notice::RollbackFailed(t)),
                    _ => None,
                };
                (
                    Self::with_stage(server, instance_types, attempts, StartStage::Done),
                    Step { notice, action: Action::Finish(Err(err)) },
                )
            },
            (StartStage::Begin, _) | (StartStage::Done, _) => (
                Self::with_stage(server, instance_types, attempts, StartStage::Done),
                Step { notice: None, action: Action::Finish(Err(PSMError::UnexpectedEvent)) },
            ),
            (st, e) => {
                let err = into_failure(e);
                match st {
                    StartStage::WaitingAddress(inst)
                    | StartStage::UploadingScripts(inst, _)
                    | StartStage::Installing(inst, _)
                    | StartStage::UploadingSave(inst, _, _)
                    | StartStage::Restoring(inst, _, _)
                    | StartStage::Launching(inst, _) => Self::roll_back(
                        server,
                        instance_types,
                        attempts,
                        store,
                        inst,
                        err,
                    ),
                    _ => {
                        if attempts < MAX_CREATE_ATTEMPTS - 1 {
                            let regions = candidate_regions();
                            let types = copy_types(&instance_types);
                            (
                                Self::with_stage(
                                    server,
                                    instance_types,
                                    attempts + 1,
                                    StartStage::FindingPrice,
                                ),
                                Step {
                                    notice: None,
                                    action: Action::FindCheapest { regions, instance_types: types },
                                },
                            )
                        } else {
                            Self::give_up(server, instance_types, attempts, store, err)
                        }
                    },
                }
            },
        }
    }
}

/// The slot set after an attempted `rollback_stop` (unchanged if refused).
pub open spec fn after_rollback_stop(s: Seq<ServerView>, name: Seq<char>) -> Seq<ServerView> {
    match rollback_stop_spec(s, name) {
        Ok(t) => t,
        Err(_) => s,
    }
}

/// Where a stop (or a backup) stands.
#[derive(Debug, PartialEq, Eq)]
pub enum StopStage {
    /// Nothing done yet.
    Begin,
    /// The backup script runs on this host.
    BackingUp(String),
    /// The save (second field) is being downloaded from the host.
    Downloading(String, String),
    /// The slot is `Stopping`; the instance is being terminated.
    Terminating(Instance),
    /// The stop is over.
    Done,
}

/// A stop of one slot: back up, download the save, record it, terminate.
/// With `keep_running`, only the backup and download are done.
#[derive(Debug)]
pub struct StopServer {
    pub server: String,
    pub keep_running: bool,
    pub stage: StopStage,
}

/// The step ends the workflow with `err` and changes nothing.
pub open spec fn stop_fails(s: Seq<ServerView>, err: PSMError, post: StopServer, s2: Seq<ServerView>, out: Step) -> bool {
    &&& s2 == s
    &&& post.stage == StopStage::Done
    &&& out.notice is None
    &&& out.action == Action::Finish(Err(err))
}

/// After the save was downloaded: record it on the slot, move the slot to
/// `Stopping`, and terminate its instance.
pub open spec fn stop_records_save(
    name: Seq<char>,
    s: Seq<ServerView>,
    save: Seq<char>,
    post: StopServer,
    s2: Seq<ServerView>,
    out: Step,
) -> bool {
    match save_name_spec(s, name, save) {
        Err(err) => stop_fails(s, PSMError::ServerManagerError(err), post, s2, out),
        Ok(s1) => match stop_spec(s1, name) {
            Err(err) => stop_fails(s1, PSMError::ServerManagerError(err), post, s2, out),
            Ok(t) => {
                let v = s1[slot_index(s1, name)->0];
                if exists|r: Region| r.spec_code() == v.region->0 {
                    &&& s2 == t
                    &&& post.stage matches StopStage::Terminating(inst) && inst.region.spec_code()
                        == v.region->0 && inst.instance_id@ == v.instance_id->0
                    &&& out.notice is None
                    &&& out.action matches Action::Terminate { region, instance_id }
                        && region.spec_code() == v.region->0 && instance_id@ == v.instance_id->0
                } else {
                    stop_fails(after_rollback_stop(t, name), PSMError::UnknownRegion, post, s2, out)
                }
            },
        },
    }
}

/// One step of a stop, from `pre` with store `s` on event `e`, to `post`
/// with store `s2`, giving `out`. A failure before the slot is `Stopping`
/// changes nothing; one after it puts the slot back to `Running`.
pub open spec fn stop_next(
    pre: StopServer,
    s: Seq<ServerView>,
    e: Event,
    post: StopServer,
    s2: Seq<ServerView>,
    out: Step,
) -> bool {
    &&& post.server@ == pre.server@
    &&& post.keep_running == pre.keep_running
    &&& match (pre.stage, e) {
        (StopStage::Begin, Event::Begin) => match check_spec(s, pre.server@, Status::Running) {
            Err(err) => stop_fails(s, PSMError::ServerManagerError(err), post, s2, out),
            Ok(i) => {
                &&& s2 == s
                &&& post.stage matches StopStage::BackingUp(h) && h@ == host_part(
                    s[i].ip_port->0,
                )
                &&& out.notice is None
                &&& out.action matches Action::RunScript { host, script } && host@ == host_part(
                    s[i].ip_port->0,
                ) && script == Script::BackupSave
            },
        },
        (StopStage::BackingUp(host), Event::ScriptDone(Ok(output))) => {
            &&& s2 == s
            &&& post.stage matches StopStage::Downloading(h, save) && h == host && save@
                == strip_eol(output@)
            &&& out.notice is None
            &&& out.action matches Action::DownloadSave { host: h, save_name } && h@ == host@
                && save_name@ == strip_eol(output@)
        },
        (StopStage::Downloading(_, save), Event::Transferred(Ok(_))) => if pre.keep_running {
            &&& s2 == s
            &&& post.stage == StopStage::Done
            &&& out.notice matches Some(Notice::BackupTaken(c)) && c@ == save@
            &&& out.action == Action::Finish(Ok(()))
        } else {
            stop_records_save(pre.server@, s, save@, post, s2, out)
        },
        (StopStage::Terminating(inst), Event::Terminated(Ok(_))) => match finish_stop_spec(
            s,
            pre.server@,
        ) {
            Ok(t) => {
                &&& s2 == t
                &&& post.stage == StopStage::Done
                &&& out.notice matches Some(Notice::ServerDeleted(n, id)) && n@ == pre.server@
                    && id@ == inst.instance_id@
                &&& out.action == Action::Finish(Ok(()))
            },
            Err(err) => stop_fails(s, PSMError::ServerManagerError(err), post, s2, out),
        },
        (StopStage::Terminating(_), e) => stop_fails(
            after_rollback_stop(s, pre.server@),
            failure_of(e),
            post,
            s2,
            out,
        ),
        (_, e) => stop_fails(s, failure_of(e), post, s2, out),
    }
}

fn stop_done(server: String, keep_running: bool, notice: Option<Notice>, outcome: Result<(), PSMError>) -> (r: (StopServer, Step))
    ensures
        r.0.server == server,
        r.0.keep_running == keep_running,
        r.0.stage == StopStage::Done,
        r.1.notice == notice,
        r.1.action == Action::Finish(outcome),
{
    (
        StopServer { server, keep_running, stage: StopStage::Done },
        Step { notice, action: Action::Finish(outcome) },
    )
}

impl StopServer {
    /// A stop of slot `server`, not yet begun.
    pub fn new(server: &str) -> (r: StopServer)
        ensures
            r.server@ == server@,
            !r.keep_running,
            r.stage == StopStage::Begin,
    {
        StopServer { server: String::from_str(server), keep_running: false, stage: StopStage::Begin }
    }

    /// A backup of slot `server` that leaves it running, not yet begun.
    pub fn backup(server: &str) -> (r: StopServer)
        ensures
            r.server@ == server@,
            r.keep_running,
            r.stage == StopStage::Begin,
    {
        StopServer { server: String::from_str(server), keep_running: true, stage: StopStage::Begin }
    }

    /// Advances the stop on event `e`, reading and changing `store` (see
    /// `stop_next`).
    pub fn step(self, store: &mut ServerManager, e: Event) -> (r: (StopServer, Step))
        ensures
            stop_next(self, old(store)@, e, r.0, final(store)@, r.1),
    {
        let StopServer { server, keep_running, stage } = self;
        match (stage, e) {
            (StopStage::Begin, Event::Begin) => {
                match store.check_server_status(server.as_str(), &Status::Running) {
                    Err(err) => stop_done(
                        server,
                        keep_running,
                        None,
                        Err(PSMError::ServerManagerError(err)),
                    ),
                    Ok(()) => {
                        store.consistent();
                        assert(store@[slot_index(store@, server@)->0].consistent());
                        let host = match store.get_server_ip(server.as_str()) {
                            Ok(Some(h)) => h,
                            _ => {
                                assert(false);
                                String::new()
                            },
                        };
                        let action = Action::RunScript {
                            host: host.clone(),
                            script: Script::BackupSave,
                        };
                        (
                            StopServer { server, keep_running, stage: StopStage::BackingUp(host) },
                            Step { notice: None, action },
                        )
                    },
                }
            },
            (StopStage::BackingUp(host), Event::ScriptDone(Ok(output))) => {
                let save = without_eol(output.as_str());
                let action = Action::DownloadSave { host: host.clone(), save_name: save.clone() };
                (
                    StopServer { server, keep_running, stage: StopStage::Downloading(host, save) },
                    Step { notice: None, action },
                )
            },
            (StopStage::Downloading(_, save), Event::Transferred(Ok(_))) => {
                if keep_running {
                    stop_done(server, keep_running, Some(Notice::BackupTaken(save)), Ok(()))
                } else {
                    Self::record_and_stop(server, store, save)
                }
            },
            (StopStage::Terminating(inst), Event::Terminated(Ok(_))) => {
                match store.finish_stopping_server(server.as_str()) {
                    Ok(()) => {
                        let n = server.clone();
                        stop_done(
                            server,
                            keep_running,
                            Some(Notice::ServerDeleted(n, inst.instance_id)),
                            Ok(()),
                        )
                    },
                    Err(err) => stop_done(
                        server,
                        keep_running,
                        None,
                        Err(PSMError::ServerManagerError(err)),
                    ),
                }
            },
            (StopStage::Terminating(_), e) => {
                let _ = store.failed_stop_server(server.as_str());
                stop_done(server, keep_running, None, Err(into_failure(e)))
            },
            (_, e) => stop_done(server, keep_running, None, Err(into_failure(e))),
        }
    }

    fn record_and_stop(server: String, store: &mut ServerManager, save: String) -> (r: (StopServer, Step))
        ensures
            stop_records_save(server@, old(store)@, save@, r.0, final(store)@, r.1),
            r.0.server == server,
            !r.0.keep_running,
    {
        match store.update_save_name(server.as_str(), save.as_str()) {
            Err(err) => stop_done(server, false, None, Err(PSMError::ServerManagerError(err))),
            Ok(()) => {
                match store.stop_server(server.as_str()) {
                    Err(err) => stop_done(server, false, None, Err(PSMError::ServerManagerError(err))),
                    Ok((code, id)) => match Region::from_code(code.as_str()) {
                        Some(region) => {
                            let action = Action::Terminate { region, instance_id: id.clone() };
                            let inst = Instance { region, instance_id: id };
                            (
                                StopServer {
                                    server,
                                    keep_running: false,
                                    stage: StopStage::Terminating(inst),
                                },
                                Step { notice: None, action },
                            )
                        },
                        None => {
                            let _ = store.failed_stop_server(server.as_str());
                            stop_done(server, false, None, Err(PSMError::UnknownRegion))
                        },
                    },
                }
            },
        }
    }
}

/// One firewall rule of the relay host.
#[derive(Debug, Clone, PartialEq, Eq)]
pub struct FirewallRule {
    pub protocol: String,
    pub port: String,
    pub cidr_block: String,
    pub action: String,
    pub description: String,
}

/// `r` is `old` with its source address block set to `ip` when `old` is the
/// access rule (its port and protocol are the configured ones), else `old`
/// unchanged.
pub open spec fn retargeted(old: FirewallRule, r: FirewallRule, ip: Seq<char>, access: NpsAccessConfig) -> bool {
    &&& r.protocol@ == old.protocol@
    &&& r.port@ == old.port@
    &&& r.action@ == old.action@
    &&& r.description@ == old.description@
    &&& r.cidr_block@ == if old.port@ == access.port@ && old.protocol@ == access.protocol@ {
        ip
    } else {
        old.cidr_block@
    }
}

/// The relay's rules with the access rule opened to `ip` alone (see
/// `retargeted`).
pub fn retarget_firewall_rules(rules: &Vec<FirewallRule>, ip: &str, access: &NpsAccessConfig) -> (r:
    Vec<FirewallRule>)
    ensures
        r@.len() == rules@.len(),
        forall|k: int| 0 <= k < r@.len() ==> retargeted(rules@[k], #[trigger] r@[k], ip@, *access),
{
    let mut out: Vec<FirewallRule> = Vec::new();
    let mut i: usize = 0;
    while i < rules.len()
        invariant
            i <= rules.len(),
            out@.len() == i,
            forall|k: int| 0 <= k < i ==> retargeted(rules@[k], #[trigger] out@[k], ip@, *access),
        decreases rules.len() - i,
    {
        let old = &rules[i];
        let matches_rule = same_text(old.port.as_str(), access.port.as_str()) && same_text(
            old.protocol.as_str(),
            access.protocol.as_str(),
        );
        let cidr_block = if matches_rule {
            String::from_str(ip)
        } else {
            old.cidr_block.clone()
        };
        out.push(
            FirewallRule {
                protocol: old.protocol.clone(),
                port: old.port.clone(),
                cidr_block,
                action: old.action.clone(),
                description: old.description.clone(),
            },
        );
        i = i + 1;
    }
    out
}

fn copy_types(v: &Vec<InstanceType>) -> (r: Vec<InstanceType>)
    ensures
        r@ == v@,
{
    let mut r: Vec<InstanceType> = Vec::new();
    let mut i: usize = 0;
    while i < v.len()
        invariant
            i <= v.len(),
            r@ == v@.subrange(0, i as int),
        decreases v.len() - i,
    {
        r.push(v[i]);
        assert(r@ =~= v@.subrange(0, i + 1));
        i = i + 1;
    }
    assert(v@.subrange(0, i as int) =~= v@);
    r
}

} // verus!
