//! Facts about whole runs of the start and stop workflows: what a refused
//! start or stop leaves behind, what a run with every outside call
//! succeeding ends in, and what a run that fails after the instance exists
//! tears down.

use vstd::prelude::*;
use crate::constant::{Region, ServiceInstanceType};
use crate::cvm_utils::{Quote, SecurityGroup};
use crate::error::PSMError;
use crate::psm::{
    service_port,
    start_next,
    stop_next,
    Action,
    Event,
    Instance,
    StartServer,
    StartStage,
    Step,
    StopServer,
    StopStage,
};
use crate::server_status::{
    all_consistent,
    lemma_update_keeps_index,
    slot_index,
    ServerManagerError,
    ServerView,
    Status,
};
use crate::shell_manager::Script;
use crate::text::{strip_eol, text_eq_ci};

verus! {

/// Each of the first `n` steps of a start run follows `start_next`: machine
/// `ms[k]` with store `ss[k]` on event `es[k]` becomes `ms[k + 1]` with store
/// `ss[k + 1]`, giving `os[k]`.
pub open spec fn start_run(
    ms: Seq<StartServer>,
    ss: Seq<Seq<ServerView>>,
    es: Seq<Event>,
    os: Seq<Step>,
) -> bool {
    &&& ms.len() == es.len() + 1
    &&& ss.len() == es.len() + 1
    &&& os.len() == es.len()
    &&& forall|k: int|
        #![trigger es[k]]
        0 <= k < es.len() ==> start_next(ms[k], ss[k], es[k], ms[k + 1], ss[k + 1], os[k])
}

/// Each step of a stop run follows `stop_next`.
pub open spec fn stop_run(
    ms: Seq<StopServer>,
    ss: Seq<Seq<ServerView>>,
    es: Seq<Event>,
    os: Seq<Step>,
) -> bool {
    &&& ms.len() == es.len() + 1
    &&& ss.len() == es.len() + 1
    &&& os.len() == es.len()
    &&& forall|k: int|
        #![trigger es[k]]
        0 <= k < es.len() ==> stop_next(ms[k], ss[k], es[k], ms[k + 1], ss[k + 1], os[k])
}

/// The slot named `name` can be started: it is `Stopped` and its class is a
/// known one.
pub open spec fn startable(s: Seq<ServerView>, name: Seq<char>) -> bool {
    &&& slot_index(s, name) is Some
    &&& s[slot_index(s, name)->0].status == Status::Stopped
    &&& exists|t: ServiceInstanceType|
        text_eq_ci(s[slot_index(s, name)->0].instance_type, t.spec_name())
}

/// The events of a start in which every outside call succeeds, up to the
/// install script's run.
pub open spec fn start_events_to_install(
    q: Quote,
    keys: Vec<String>,
    groups: Vec<SecurityGroup>,
    id: String,
    host: String,
) -> Seq<Event> {
    seq![
        Event::Begin,
        Event::Quote(Ok(q)),
        Event::KeyIds(Ok(keys)),
        Event::SecurityGroups(Ok(groups)),
        Event::Created(Ok(id)),
        Event::Address(Ok(host)),
        Event::Transferred(Ok(())),
    ]
}

/// The action does not terminate an instance.
pub open spec fn not_terminate(a: Action) -> bool {
    !(a is Terminate)
}

/// The action neither uploads a save nor runs the restore script.
pub open spec fn not_restoring(a: Action) -> bool {
    &&& !(a is UploadSave)
    &&& !(a matches Action::RunScript { script, .. } && script == Script::RestoreSave)
}

/// Starting a slot that is not `Stopped` (one that is running, say) is
/// refused with the slot's current status, and changes nothing.
pub proof fn lemma_start_refused_unless_stopped(
    pre: StartServer,
    s: Seq<ServerView>,
    post: StartServer,
    s2: Seq<ServerView>,
    out: Step,
)
    requires
        pre.stage == StartStage::Begin,
        start_next(pre, s, Event::Begin, post, s2, out),
        slot_index(s, pre.server@) is Some,
        s[slot_index(s, pre.server@)->0].status != Status::Stopped,
    ensures
        s2 == s,
        post.stage == StartStage::Done,
        out.notice is None,
        out.action == Action::Finish(
            Err(
                PSMError::ServerManagerError(
                    ServerManagerError::ServerStatusNotMatch(
                        s[slot_index(s, pre.server@)->0].status,
                    ),
                ),
            ),
        ),
{
}

/// Stopping a slot that is not `Running` (one that is stopped, say) is
/// refused with the slot's current status, and changes nothing.
pub proof fn lemma_stop_refused_unless_running(
    pre: StopServer,
    s: Seq<ServerView>,
    post: StopServer,
    s2: Seq<ServerView>,
    out: Step,
)
    requires
        pre.stage == StopStage::Begin,
        stop_next(pre, s, Event::Begin, post, s2, out),
        slot_index(s, pre.server@) is Some,
        s[slot_index(s, pre.server@)->0].status != Status::Running,
    ensures
        s2 == s,
        post.stage == StopStage::Done,
        out.notice is None,
        out.action == Action::Finish(
            Err(
                PSMError::ServerManagerError(
                    ServerManagerError::ServerStatusNotMatch(
                        s[slot_index(s, pre.server@)->0].status,
                    ),
                ),
            ),
        ),
{
}

/// The first seven steps of a start with every outside call succeeding
/// leave the slot `Creating` and the install script running on the new
/// instance, with no termination and no restore asked for.
proof fn lemma_start_to_install(
    ms: Seq<StartServer>,
    ss: Seq<Seq<ServerView>>,
    es: Seq<Event>,
    os: Seq<Step>,
    q: Quote,
    keys: Vec<String>,
    groups: Vec<SecurityGroup>,
    id: String,
    host: String,
)
    requires
        start_run(ms, ss, es, os),
        es.len() >= 7,
        es.subrange(0, 7) == start_events_to_install(q, keys, groups, id, host),
        ms[0].stage == StartStage::Begin,
        startable(ss[0], ms[0].server@),
    ensures
        ({
            let name = ms[0].server@;
            let i = slot_index(ss[0], name)->0;
            &&& ms[7].server@ == name
            &&& ms[7].stage == StartStage::Installing(
                Instance { region: q.region, instance_id: id },
                host,
            )
            &&& ss[7] == ss[0].update(i, ServerView { status: Status::Creating, ..ss[0][i] })
            &&& slot_index(ss[7], name) == Some(i)
        }),
        forall|k: int| 0 <= k < 7 ==> not_terminate(#[trigger] os[k].action),
        forall|k: int| 0 <= k < 7 ==> not_restoring(#[trigger] os[k].action),
{
    let name = ms[0].server@;
    let i = slot_index(ss[0], name)->0;
    let s1 = ss[0].update(i, ServerView { status: Status::Creating, ..ss[0][i] });
    assert(es[0] == start_events_to_install(q, keys, groups, id, host)[0]);
    assert(es[1] == start_events_to_install(q, keys, groups, id, host)[1]);
    assert(es[2] == start_events_to_install(q, keys, groups, id, host)[2]);
    assert(es[3] == start_events_to_install(q, keys, groups, id, host)[3]);
    assert(es[4] == start_events_to_install(q, keys, groups, id, host)[4]);
    assert(es[5] == start_events_to_install(q, keys, groups, id, host)[5]);
    assert(es[6] == start_events_to_install(q, keys, groups, id, host)[6]);
    lemma_update_keeps_index(ss[0], i, s1[i], name);
    assert(start_next(ms[0], ss[0], es[0], ms[1], ss[1], os[0]));
    assert(ss[1] == s1);
    assert(ms[1].stage == StartStage::FindingPrice);
    assert(start_next(ms[1], ss[1], es[1], ms[2], ss[2], os[1]));
    assert(start_next(ms[2], ss[2], es[2], ms[3], ss[3], os[2]));
    assert(start_next(ms[3], ss[3], es[3], ms[4], ss[4], os[3]));
    assert(start_next(ms[4], ss[4], es[4], ms[5], ss[5], os[4]));
    assert(start_next(ms[5], ss[5], es[5], ms[6], ss[6], os[5]));
    assert(start_next(ms[6], ss[6], es[6], ms[7], ss[7], os[6]));
}

/// A start in which every outside call succeeds, of a stopped slot with a
/// known class and no recorded save, takes the slot from `Stopped` to
/// `Creating` in its first step and to `Running` in its last, with a
/// non-empty endpoint, and ends successfully; it never uploads a save nor
/// runs the restore script, and runs the start script right after the
/// install script.
pub proof fn lemma_start_succeeds(
    ms: Seq<StartServer>,
    ss: Seq<Seq<ServerView>>,
    es: Seq<Event>,
    os: Seq<Step>,
    q: Quote,
    keys: Vec<String>,
    groups: Vec<SecurityGroup>,
    id: String,
    host: String,
    install_output: String,
    start_output: String,
)
    requires
        start_run(ms, ss, es, os),
        es == start_events_to_install(q, keys, groups, id, host).add(
            seq![Event::ScriptDone(Ok(install_output)), Event::ScriptDone(Ok(start_output))],
        ),
        ms[0].stage == StartStage::Begin,
        startable(ss[0], ms[0].server@),
        ss[0][slot_index(ss[0], ms[0].server@)->0].save is None,
    ensures
        ({
            let i = slot_index(ss[0], ms[0].server@)->0;
            &&& ss[1][i].status == Status::Creating
            &&& ss[9][i].status == Status::Running
            &&& ss[9][i].ip_port matches Some(p) && p.len() > 0
            &&& os[8].action == Action::Finish(Ok(()))
            &&& os[7].action matches Action::RunScript { script, .. } && script
                == Script::StartServer
        }),
        forall|k: int| 0 <= k < es.len() ==> not_restoring(#[trigger] os[k].action),
{
    assert(es.subrange(0, 7) =~= start_events_to_install(q, keys, groups, id, host));
    lemma_start_to_install(ms, ss, es, os, q, keys, groups, id, host);
    let name = ms[0].server@;
    let i = slot_index(ss[0], name)->0;
    assert(es[7] == Event::ScriptDone(Ok(install_output)));
    assert(es[8] == Event::ScriptDone(Ok(start_output)));
    assert(start_next(ms[7], ss[7], es[7], ms[8], ss[8], os[7]));
    assert(start_next(ms[8], ss[8], es[8], ms[9], ss[9], os[8]));
    assert(ss[1] == ss[7]) by {
        assert(start_next(ms[0], ss[0], es[0], ms[1], ss[1], os[0]));
        assert(es[0] == Event::Begin);
        lemma_update_keeps_index(ss[0], i, ss[7][i], name);
    }
    reveal_strlit(":8211");
    assert(service_port().len() == 5);
    assert forall|k: int| 0 <= k < es.len() implies not_restoring(#[trigger] os[k].action) by {
        if k < 7 {
        }
    }
}

/// A start in which every outside call succeeds, of a stopped slot with a
/// known class and a recorded save, uploads that save and runs the restore
/// script after the install script and before the start script, and ends
/// with the slot `Running`.
pub proof fn lemma_start_restores_save(
    ms: Seq<StartServer>,
    ss: Seq<Seq<ServerView>>,
    es: Seq<Event>,
    os: Seq<Step>,
    q: Quote,
    keys: Vec<String>,
    groups: Vec<SecurityGroup>,
    id: String,
    host: String,
    install_output: String,
    restore_output: String,
    start_output: String,
)
    requires
        start_run(ms, ss, es, os),
        es == start_events_to_install(q, keys, groups, id, host).add(
            seq![
                Event::ScriptDone(Ok(install_output)),
                Event::Transferred(Ok(())),
                Event::ScriptDone(Ok(restore_output)),
                Event::ScriptDone(Ok(start_output)),
            ],
        ),
        ms[0].stage == StartStage::Begin,
        startable(ss[0], ms[0].server@),
        ss[0][slot_index(ss[0], ms[0].server@)->0].save is Some,
    ensures
        ({
            let i = slot_index(ss[0], ms[0].server@)->0;
            let save = ss[0][i].save->0;
            &&& os[7].action matches Action::UploadSave { host: h, save_name } && h@ == host@
                && save_name@ == save
            &&& os[8].action matches Action::RunScript { host: h, script } && h@ == host@ && script
                == Script::RestoreSave
            &&& os[9].action matches Action::RunScript { host: h, script } && h@ == host@ && script
                == Script::StartServer
            &&& ss[11][i].status == Status::Running
            &&& os[10].action == Action::Finish(Ok(()))
        }),
{
    assert(es.subrange(0, 7) =~= start_events_to_install(q, keys, groups, id, host));
    lemma_start_to_install(ms, ss, es, os, q, keys, groups, id, host);
    let name = ms[0].server@;
    let i = slot_index(ss[0], name)->0;
    assert(es[7] == Event::ScriptDone(Ok(install_output)));
    assert(es[8] == Event::Transferred(Ok(())));
    assert(es[9] == Event::ScriptDone(Ok(restore_output)));
    assert(es[10] == Event::ScriptDone(Ok(start_output)));
    assert(start_next(ms[7], ss[7], es[7], ms[8], ss[8], os[7]));
    assert(start_next(ms[8], ss[8], es[8], ms[9], ss[9], os[8]));
    assert(start_next(ms[9], ss[9], es[9], ms[10], ss[10], os[9]));
    assert(start_next(ms[10], ss[10], es[10], ms[11], ss[11], os[10]));
}

/// A start whose install script fails after the instance was created puts
/// the slot back to `Stopped`, asks once (and only once) for that
/// instance's termination, and ends with the install's error whatever the
/// termination reports.
pub proof fn lemma_start_rolls_back_failed_install(
    ms: Seq<StartServer>,
    ss: Seq<Seq<ServerView>>,
    es: Seq<Event>,
    os: Seq<Step>,
    q: Quote,
    keys: Vec<String>,
    groups: Vec<SecurityGroup>,
    id: String,
    host: String,
    err: PSMError,
    terminated: Result<(), PSMError>,
)
    requires
        start_run(ms, ss, es, os),
        es == start_events_to_install(q, keys, groups, id, host).add(
            seq![Event::ScriptDone(Err(err)), Event::Terminated(terminated)],
        ),
        ms[0].stage == StartStage::Begin,
        startable(ss[0], ms[0].server@),
    ensures
        ({
            let i = slot_index(ss[0], ms[0].server@)->0;
            &&& os[7].action matches Action::Terminate { region, instance_id } && region == q.region
                && instance_id@ == id@
            &&& ss[9][i].status == Status::Stopped
            &&& ss[9][i].ip_port is None && ss[9][i].region is None && ss[9][i].instance_id is None
            &&& os[8].action == Action::Finish(Err(err))
        }),
        forall|k: int| 0 <= k < es.len() && k != 7 ==> not_terminate(#[trigger] os[k].action),
{
    assert(es.subrange(0, 7) =~= start_events_to_install(q, keys, groups, id, host));
    lemma_start_to_install(ms, ss, es, os, q, keys, groups, id, host);
    assert(es[7] == Event::ScriptDone(Err(err)));
    assert(es[8] == Event::Terminated(terminated));
    assert(start_next(ms[7], ss[7], es[7], ms[8], ss[8], os[7]));
    assert(start_next(ms[8], ss[8], es[8], ms[9], ss[9], os[8]));
    assert forall|k: int| 0 <= k < es.len() && k != 7 implies not_terminate(
        #[trigger] os[k].action,
    ) by {
        if k < 7 {
        }
    }
}

/// The events of a stop in which every outside call succeeds.
pub open spec fn stop_events(output: String) -> Seq<Event> {
    seq![
        Event::Begin,
        Event::ScriptDone(Ok(output)),
        Event::Transferred(Ok(())),
        Event::Terminated(Ok(())),
    ]
}

/// A stop in which every outside call succeeds, of a running slot whose
/// region is a known one, records the backup script's reported save name
/// (its output without the line end) on the slot in the same step that asks
/// for the instance's termination, and ends with the slot `Stopped`, its
/// endpoint, region and instance id cleared, and that save kept.
pub proof fn lemma_stop_records_save_then_clears(
    ms: Seq<StopServer>,
    ss: Seq<Seq<ServerView>>,
    es: Seq<Event>,
    os: Seq<Step>,
    output: String,
)
    requires
        stop_run(ms, ss, es, os),
        es == stop_events(output),
        ms[0].stage == StopStage::Begin,
        !ms[0].keep_running,
        all_consistent(ss[0]),
        slot_index(ss[0], ms[0].server@) is Some,
        ss[0][slot_index(ss[0], ms[0].server@)->0].status == Status::Running,
        exists|r: Region| r.spec_code() == ss[0][slot_index(ss[0], ms[0].server@)->0].region->0,
    ensures
        ({
            let i = slot_index(ss[0], ms[0].server@)->0;
            let save = strip_eol(output@);
            &&& os[2].action is Terminate
            &&& ss[3][i].save == Some(save)
            &&& ss[4][i].status == Status::Stopped
            &&& ss[4][i].ip_port is None && ss[4][i].region is None && ss[4][i].instance_id is None
            &&& ss[4][i].save == Some(save)
            &&& os[3].action == Action::Finish(Ok(()))
        }),
{
    let name = ms[0].server@;
    let i = slot_index(ss[0], name)->0;
    let save = strip_eol(output@);
    assert(es[0] == Event::Begin);
    assert(es[1] == Event::ScriptDone(Ok(output)));
    assert(es[2] == Event::Transferred(Ok(())));
    assert(es[3] == Event::Terminated(Ok(())));
    assert(stop_next(ms[0], ss[0], es[0], ms[1], ss[1], os[0]));
    assert(stop_next(ms[1], ss[1], es[1], ms[2], ss[2], os[1]));
    assert(ss[2] == ss[0]);
    let s1 = ss[0].update(i, ServerView { save: Some(save), ..ss[0][i] });
    lemma_update_keeps_index(ss[0], i, s1[i], name);
    let t = s1.update(i, ServerView { status: Status::Stopping, ..s1[i] });
    lemma_update_keeps_index(s1, i, t[i], name);
    assert(ss[0][i].consistent());
    assert(stop_next(ms[2], ss[2], es[2], ms[3], ss[3], os[2]));
    assert(ss[3] == t);
    assert(stop_next(ms[3], ss[3], es[3], ms[4], ss[4], os[3]));
}

} // verus!
