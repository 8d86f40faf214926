use vstd::prelude::*;
use crate::error::NatureError;
use crate::flow::{
    Command, Effect, Reply, finish_failing, finish_one, finish_quietly, finish_recording, finish_with, is_done_ok, notes_of,
    quiet_finish, records_error,
};
use crate::model::{
    ConverterReturned, Instance, InstanceView, PlanInfo, RawTask, RawTaskView, TaskForConvert, TaskForConvertView, TaskForParallel,
    TaskForSerial, TaskType, clone_bytes, raw_views, Converted, SerialFinished,
};
use crate::task_store::TaskForStore;

verus! {

/// The decisions the engine takes for tasks that come out of its channels.
pub struct InnerController {}

/// The effects that hand each saved pair to the store channel, in order.
pub open spec fn store_sends(saved: Seq<(TaskForStore, RawTask)>) -> Seq<Effect> {
    saved.map_values(|p: (TaskForStore, RawTask)| Effect::SendStore(p.0, p.1))
}

pub fn make_store_sends(saved: Vec<(TaskForStore, RawTask)>) -> (notes: Vec<Effect>)
    ensures
        notes@ == store_sends(saved@),
{
    let ghost orig = saved@;
    let mut rest = saved;
    let mut notes: Vec<Effect> = Vec::new();
    let mut done: usize = 0;
    assert(orig.len() == rest.len());
    while rest.len() > 0
        invariant
            done <= orig.len(),
            orig.len() <= usize::MAX,
            rest@ == orig.subrange(done as int, orig.len() as int),
            notes@ == store_sends(orig.take(done as int)),
        decreases rest.len(),
    {
        let p = rest.remove(0);
        assert(p == orig[done as int]);
        notes.push(Effect::SendStore(p.0, p.1));
        assert(store_sends(orig.take(done as int + 1)) =~= store_sends(orig.take(done as int)).push(
            Effect::SendStore(p.0, p.1),
        ));
        done = done + 1;
        assert(rest@ =~= orig.subrange(done as int, orig.len() as int));
    }
    assert(orig.take(done as int) =~= orig);
    notes
}

/// Where a parallel batch stands.
#[derive(Debug)]
pub enum ParallelStage {
    /// Waiting for the store task of `instances[next]`.
    AwaitStoreTask,
    /// Waiting for the raw task of this store task to be saved.
    AwaitRawSave(TaskForStore),
    /// Every instance has a saved task; waiting for the batch's own task to be deleted.
    AwaitDelete,
    Done,
}

/// The storing of a parallel batch: each instance gets a store task whose raw
/// task is saved; then the batch's own raw task is deleted and all store
/// tasks are handed on. Any failure ends the batch without handing anything on.
#[derive(Debug)]
pub struct ParallelFlow {
    pub instances: Vec<Instance>,
    pub carrier: RawTask,
    pub next: usize,
    pub saved: Vec<(TaskForStore, RawTask)>,
    pub stage: ParallelStage,
}

impl ParallelFlow {
    pub open spec fn wf(&self) -> bool {
        &&& self.next <= self.instances@.len()
        &&& !(self.stage is Done) ==> self.saved@.len() == self.next
        &&& (self.stage is AwaitStoreTask || self.stage is AwaitRawSave) ==> self.next < self.instances@.len()
        &&& self.stage is AwaitDelete ==> self.next == self.instances@.len()
    }

    /// Whether the flow is well formed, so that it may take a step.
    pub fn well_formed(&self) -> (res: bool)
        ensures
            res == self.wf(),
    {
        let n = self.instances.len();
        let busy = match self.stage {
            ParallelStage::AwaitStoreTask => true,
            ParallelStage::AwaitRawSave(_) => true,
            _ => false,
        };
        let deleting = match self.stage {
            ParallelStage::AwaitDelete => true,
            _ => false,
        };
        let done = match self.stage {
            ParallelStage::Done => true,
            _ => false,
        };
        self.next <= n && (done || self.saved.len() == self.next) && (!busy || self.next < n) && (!deleting
            || self.next == n)
    }

    /// `cmd` is what the flow asks for in its current stage.
    pub open spec fn asks(&self, cmd: Command) -> bool {
        match self.stage {
            ParallelStage::AwaitStoreTask => cmd matches Command::Await(Effect::GenStoreTask(i))
                && i@ == self.instances@[self.next as int]@,
            ParallelStage::AwaitRawSave(t) => cmd matches Command::Await(Effect::SaveRawTask(t2, key, ty))
                && t2@ == t@ && key == self.instances@[self.next as int].thing.key && ty == TaskType::Store,
            ParallelStage::AwaitDelete => cmd matches Command::Await(Effect::DeleteTask(id))
                && id@ == self.carrier.task_id@,
            ParallelStage::Done => false,
        }
    }

    /// The transition of the flow on `reply`.
    pub open spec fn next_step(pre: Self, reply: Reply, post: Self, cmd: Command) -> bool {
        &&& post.instances == pre.instances
        &&& post.carrier == pre.carrier
        &&& match (pre.stage, reply) {
            (ParallelStage::AwaitStoreTask, Reply::StoreTask(Ok(t))) => {
                &&& post.stage == ParallelStage::AwaitRawSave(t)
                &&& post.next == pre.next
                &&& post.saved == pre.saved
                &&& post.asks(cmd)
            },
            (ParallelStage::AwaitRawSave(t), Reply::Raw(Ok(r))) => {
                &&& post.next == pre.next + 1
                &&& post.saved@ == pre.saved@.push((t, r))
                &&& if post.next < pre.instances@.len() {
                    post.stage is AwaitStoreTask
                } else {
                    post.stage is AwaitDelete
                }
                &&& post.asks(cmd)
            },
            (ParallelStage::AwaitDelete, Reply::Done(Ok(()))) => {
                &&& post.stage is Done
                &&& cmd matches Command::Finish(notes, Ok(())) && notes@ == store_sends(pre.saved@)
            },
            _ => post.stage is Done && finish_quietly(cmd),
        }
    }

    fn ask_store_task(self) -> (res: (Self, Command))
        requires
            self.wf(),
            self.stage is AwaitStoreTask,
        ensures
            res.0 == self,
            res.0.asks(res.1),
    {
        let i = self.instances[self.next].clone();
        (self, Command::Await(Effect::GenStoreTask(i)))
    }

    fn ask_delete(self) -> (res: (Self, Command))
        requires
            self.stage is AwaitDelete,
        ensures
            res.0 == self,
            res.0.asks(res.1),
    {
        let id = clone_bytes(&self.carrier.task_id);
        (self, Command::Await(Effect::DeleteTask(id)))
    }

    /// Takes the reply to the last effect asked for and says what comes next.
    pub fn step(self, reply: Reply) -> (res: (Self, Command))
        requires
            self.wf(),
        ensures
            res.0.wf(),
            Self::next_step(self, reply, res.0, res.1),
    {
        let ParallelFlow { instances, carrier, next, saved, stage } = self;
        match (stage, reply) {
            (ParallelStage::AwaitStoreTask, Reply::StoreTask(Ok(t))) => {
                let key = instances[next].thing.get_full_key();
                let t2 = t.clone();
                let flow = ParallelFlow { instances, carrier, next, saved, stage: ParallelStage::AwaitRawSave(t) };
                (flow, Command::Await(Effect::SaveRawTask(t2, key, TaskType::Store)))
            },
            (ParallelStage::AwaitRawSave(t), Reply::Raw(Ok(r))) => {
                let mut saved = saved;
                saved.push((t, r));
                assert(next < instances.len());
                let next = next + 1;
                if next < instances.len() {
                    let flow = ParallelFlow { instances, carrier, next, saved, stage: ParallelStage::AwaitStoreTask };
                    flow.ask_store_task()
                } else {
                    let flow = ParallelFlow { instances, carrier, next, saved, stage: ParallelStage::AwaitDelete };
                    flow.ask_delete()
                }
            },
            (ParallelStage::AwaitDelete, Reply::Done(Ok(()))) => {
                let notes = make_store_sends(saved);
                let flow = ParallelFlow { instances, carrier, next, saved: Vec::new(), stage: ParallelStage::Done };
                (flow, Command::Finish(notes, Ok(())))
            },
            (_, _) => {
                let flow = ParallelFlow { instances, carrier, next, saved, stage: ParallelStage::Done };
                (flow, quiet_finish())
            },
        }
    }
}

/// A parallel batch is all or nothing: store tasks are handed on only once
/// the batch's own task is deleted after every instance got a saved raw
/// task, and then exactly one store task per instance is handed on, in order.
pub proof fn law_parallel_all_or_nothing(pre: ParallelFlow, reply: Reply, post: ParallelFlow, cmd: Command)
    requires
        pre.wf(),
        ParallelFlow::next_step(pre, reply, post, cmd),
        notes_of(cmd).len() > 0,
    ensures
        pre.stage is AwaitDelete,
        reply matches Reply::Done(Ok(_)),
        notes_of(cmd) == store_sends(pre.saved@),
        notes_of(cmd).len() == pre.instances@.len(),
{
}

/// `flows`, `replies` and `cmds` are a run of a parallel batch: each reply
/// takes the flow one step, and `cmds[i + 1]` is what step `i` asked for.
pub open spec fn parallel_run(flows: Seq<ParallelFlow>, replies: Seq<Reply>, cmds: Seq<Command>) -> bool {
    &&& flows.len() == replies.len() + 1
    &&& cmds.len() == replies.len() + 1
    &&& forall|i: int| 0 <= i < replies.len() ==> #[trigger] ParallelFlow::next_step(flows[i], replies[i], flows[i + 1], cmds[i + 1])
}

/// A store task came back, then its raw task was saved.
pub open spec fn both_succeeded(store: Reply, raw: Reply) -> bool {
    &&& store matches Reply::StoreTask(Ok(_))
    &&& raw matches Reply::Raw(Ok(_))
}

/// Where a run that has not ended stands after `i` replies: two successful
/// replies per instance handled so far, in order.
pub open spec fn parallel_on_track(flows: Seq<ParallelFlow>, replies: Seq<Reply>, i: int) -> bool {
    let f = flows[i];
    let n = flows[0].instances@.len();
    &&& f.instances == flows[0].instances
    &&& f.next <= n
    &&& match f.stage {
        ParallelStage::AwaitStoreTask => i == 2 * f.next && f.next < n,
        ParallelStage::AwaitRawSave(_) => {
            &&& i == 2 * f.next + 1
            &&& f.next < n
            &&& replies[2 * f.next] matches Reply::StoreTask(Ok(_))
        },
        ParallelStage::AwaitDelete => i == 2 * f.next && f.next == n,
        ParallelStage::Done => false,
    }
    &&& forall|k: int| 0 <= k < f.next ==> both_succeeded(#[trigger] replies[2 * k], replies[2 * k + 1])
}

proof fn lemma_parallel_done_stays_done(flows: Seq<ParallelFlow>, replies: Seq<Reply>, cmds: Seq<Command>, i: int, j: int)
    requires
        parallel_run(flows, replies, cmds),
        0 <= i <= j <= replies.len(),
        flows[i].stage is Done,
    ensures
        flows[j].stage is Done,
    decreases j - i,
{
    if i < j {
        assert(ParallelFlow::next_step(flows[i], replies[i], flows[i + 1], cmds[i + 1]));
        lemma_parallel_done_stays_done(flows, replies, cmds, i + 1, j);
    }
}

proof fn lemma_parallel_on_track(flows: Seq<ParallelFlow>, replies: Seq<Reply>, cmds: Seq<Command>, i: int)
    requires
        parallel_run(flows, replies, cmds),
        flows[0].wf(),
        flows[0].next == 0,
        flows[0].stage is AwaitStoreTask || flows[0].stage is AwaitDelete,
        0 <= i <= replies.len(),
        !(flows[i].stage is Done),
    ensures
        parallel_on_track(flows, replies, i),
    decreases i,
{
    if i > 0 {
        if flows[i - 1].stage is Done {
            lemma_parallel_done_stays_done(flows, replies, cmds, i - 1, i);
        }
        lemma_parallel_on_track(flows, replies, cmds, i - 1);
        let j = i - 1;
        assert(ParallelFlow::next_step(flows[j], replies[j], flows[j + 1], cmds[j + 1]));
        assert(j + 1 == i);
        let pre = flows[i - 1];
        let post = flows[i];
        match pre.stage {
            ParallelStage::AwaitRawSave(_) => {
                assert forall|k: int| 0 <= k < post.next implies both_succeeded(#[trigger] replies[2 * k], replies[2 * k + 1]) by {
                    if k == pre.next {
                        assert(2 * k + 1 == i - 1);
                    }
                }
            },
            _ => {},
        }
    }
}

/// Over a whole run, a parallel batch is all or nothing: when it hands store
/// tasks on, every instance got a store task and a saved raw task, in order,
/// and the batch's own task was deleted; no reply failed.
pub proof fn law_parallel_run_all_or_nothing(flows: Seq<ParallelFlow>, replies: Seq<Reply>, cmds: Seq<Command>)
    requires
        parallel_run(flows, replies, cmds),
        flows[0].wf(),
        flows[0].next == 0,
        flows[0].stage is AwaitStoreTask || flows[0].stage is AwaitDelete,
        replies.len() > 0,
        notes_of(cmds.last()).len() > 0,
    ensures
        replies.len() == 2 * flows[0].instances@.len() + 1,
        forall|k: int| 0 <= k < flows[0].instances@.len() ==> both_succeeded(#[trigger] replies[2 * k], replies[2 * k + 1]),
        replies.last() matches Reply::Done(Ok(_)),
{
    let m = replies.len() - 1;
    assert(ParallelFlow::next_step(flows[m], replies[m], flows[m + 1], cmds[m + 1]));
    assert(cmds.last() == cmds[m + 1]);
    assert(flows[m].stage is AwaitDelete);
    lemma_parallel_on_track(flows, replies, cmds, m);
}

/// Where a run of a parallel batch that has not ended stands after `i`
/// replies, pair by pair: each saved pair is the store task and the raw task
/// the replies gave for the instance asked for at its position.
pub open spec fn parallel_pairs_on_track(flows: Seq<ParallelFlow>, replies: Seq<Reply>, cmds: Seq<Command>, i: int) -> bool {
    let f = flows[i];
    let insts = flows[0].instances@;
    &&& f.instances == flows[0].instances
    &&& f.next <= insts.len()
    &&& f.saved@.len() == f.next
    &&& f.asks(cmds[i])
    &&& match f.stage {
        ParallelStage::AwaitStoreTask => i == 2 * f.next && f.next < insts.len(),
        ParallelStage::AwaitRawSave(t) => {
            &&& i == 2 * f.next + 1
            &&& f.next < insts.len()
            &&& replies[2 * f.next] == Reply::StoreTask(Ok(t))
            &&& cmds[2 * f.next] matches Command::Await(Effect::GenStoreTask(x)) && x@ == insts[f.next as int]@
        },
        ParallelStage::AwaitDelete => i == 2 * f.next && f.next == insts.len(),
        ParallelStage::Done => false,
    }
    &&& forall|k: int| 0 <= k < f.next ==> {
        &&& #[trigger] replies[2 * k] == Reply::StoreTask(Ok(f.saved@[k].0))
        &&& replies[2 * k + 1] == Reply::Raw(Ok(f.saved@[k].1))
        &&& cmds[2 * k] matches Command::Await(Effect::GenStoreTask(x)) && x@ == insts[k]@
    }
}

proof fn lemma_parallel_pairs_on_track(flows: Seq<ParallelFlow>, replies: Seq<Reply>, cmds: Seq<Command>, i: int)
    requires
        parallel_run(flows, replies, cmds),
        flows[0].wf(),
        flows[0].next == 0,
        flows[0].stage is AwaitStoreTask || flows[0].stage is AwaitDelete,
        flows[0].asks(cmds[0]),
        0 <= i <= replies.len(),
        !(flows[i].stage is Done),
    ensures
        parallel_pairs_on_track(flows, replies, cmds, i),
    decreases i,
{
    if i > 0 {
        let j = i - 1;
        if flows[j].stage is Done {
            lemma_parallel_done_stays_done(flows, replies, cmds, j, i);
        }
        lemma_parallel_pairs_on_track(flows, replies, cmds, j);
        assert(ParallelFlow::next_step(flows[j], replies[j], flows[j + 1], cmds[j + 1]));
        assert(j + 1 == i);
        let pre = flows[j];
        let post = flows[i];
        match pre.stage {
            ParallelStage::AwaitRawSave(t) => {
                assert forall|k: int| 0 <= k < post.next implies {
                    &&& #[trigger] replies[2 * k] == Reply::StoreTask(Ok(post.saved@[k].0))
                    &&& replies[2 * k + 1] == Reply::Raw(Ok(post.saved@[k].1))
                    &&& cmds[2 * k] matches Command::Await(Effect::GenStoreTask(x)) && x@ == flows[0].instances@[k]@
                } by {
                    if k < pre.next {
                        assert(post.saved@[k] == pre.saved@[k]);
                    } else {
                        assert(k == pre.next);
                        assert(2 * k + 1 == j);
                    }
                }
            },
            _ => {},
        }
    }
}

/// Over a whole run, a parallel batch hands on exactly what it was given, in
/// order: the `k`-th pair handed on is the store task the outside built for
/// the `k`-th instance, unchanged, with the raw task saved for it.
pub proof fn law_parallel_run_in_order(flows: Seq<ParallelFlow>, replies: Seq<Reply>, cmds: Seq<Command>)
    requires
        parallel_run(flows, replies, cmds),
        flows[0].wf(),
        flows[0].next == 0,
        flows[0].stage is AwaitStoreTask || flows[0].stage is AwaitDelete,
        flows[0].asks(cmds[0]),
        replies.len() > 0,
        notes_of(cmds.last()).len() > 0,
    ensures
        notes_of(cmds.last()).len() == flows[0].instances@.len(),
        forall|k: int| 0 <= k < flows[0].instances@.len() ==> pair_built(
            #[trigger] cmds[2 * k],
            replies[2 * k],
            replies[2 * k + 1],
            notes_of(cmds.last())[k],
            flows[0].instances@[k]@,
        ),
{
    let m = replies.len() - 1;
    assert(ParallelFlow::next_step(flows[m], replies[m], flows[m + 1], cmds[m + 1]));
    assert(cmds.last() == cmds[m + 1]);
    if flows[m].stage is Done {
        assert(false);
    }
    lemma_parallel_pairs_on_track(flows, replies, cmds, m);
    let f = flows[m];
    let notes = notes_of(cmds.last());
    assert(f.stage is AwaitDelete);
    assert(notes == store_sends(f.saved@));
    assert forall|k: int| 0 <= k < flows[0].instances@.len() implies pair_built(
        #[trigger] cmds[2 * k],
        replies[2 * k],
        replies[2 * k + 1],
        notes[k],
        flows[0].instances@[k]@,
    ) by {
        assert(notes[k] == Effect::SendStore(f.saved@[k].0, f.saved@[k].1));
        assert(replies[2 * k] == Reply::StoreTask(Ok(f.saved@[k].0)));
    }
}

/// A parallel batch never records an error against any task: a failure only
/// ends it.
pub proof fn law_parallel_records_no_error(pre: ParallelFlow, reply: Reply, post: ParallelFlow, cmd: Command)
    requires
        ParallelFlow::next_step(pre, reply, post, cmd),
    ensures
        forall|k: int| 0 <= k < notes_of(cmd).len() ==> (#[trigger] notes_of(cmd)[k]) is SendStore,
        !(pre.stage is AwaitDelete && is_done_ok(reply)) ==> notes_of(cmd).len() == 0,
{
    match (pre.stage, reply) {
        (ParallelStage::AwaitDelete, Reply::Done(Ok(()))) => {
            assert forall|k: int| 0 <= k < notes_of(cmd).len() implies (#[trigger] notes_of(cmd)[k]) is SendStore by {
                assert(notes_of(cmd)[k] == Effect::SendStore(pre.saved@[k].0, pre.saved@[k].1));
            }
        },
        _ => {},
    }
}

/// The store task built for an instance of a parallel batch is saved as it
/// is, as a store task under that instance's full key.
pub proof fn law_parallel_saves_under_instance_key(pre: ParallelFlow, t: TaskForStore, post: ParallelFlow, cmd: Command)
    requires
        pre.stage is AwaitStoreTask,
        ParallelFlow::next_step(pre, Reply::StoreTask(Ok(t)), post, cmd),
    ensures
        cmd matches Command::Await(Effect::SaveRawTask(t2, key, ty)) && t2@ == t@
            && key == pre.instances@[pre.next as int].thing.key && ty == TaskType::Store,
{
}

/// Once the last instance of a parallel batch has its raw task saved, the
/// batch's own raw task is the one deleted; before that, the next instance's
/// store task is asked for.
pub proof fn law_parallel_deletes_own_task_last(pre: ParallelFlow, t: TaskForStore, r: RawTask, post: ParallelFlow, cmd: Command)
    requires
        pre.wf(),
        pre.stage == ParallelStage::AwaitRawSave(t),
        ParallelFlow::next_step(pre, Reply::Raw(Ok(r)), post, cmd),
    ensures
        pre.next + 1 == pre.instances@.len() ==> (cmd matches Command::Await(Effect::DeleteTask(id))
            && id@ == pre.carrier.task_id@),
        pre.next + 1 < pre.instances@.len() ==> (cmd matches Command::Await(Effect::GenStoreTask(i))
            && i@ == pre.instances@[pre.next + 1]@),
{
}

impl InnerController {
    /// Starts storing a parallel batch: the instances of `task.0`, carried by
    /// the raw task `task.1`.
    pub fn channel_parallel(task: (TaskForParallel, RawTask)) -> (res: (ParallelFlow, Command))
        ensures
            res.0.wf(),
            res.0.instances == task.0.instances,
            res.0.carrier == task.1,
            res.0.next == 0,
            res.0.saved@.len() == 0,
            if task.0.instances@.len() == 0 { res.0.stage is AwaitDelete } else { res.0.stage is AwaitStoreTask },
            res.0.asks(res.1),
    {
        let (batch, carrier) = task;
        let instances = batch.instances;
        if instances.len() == 0 {
            let flow = ParallelFlow { instances, carrier, next: 0, saved: Vec::new(), stage: ParallelStage::AwaitDelete };
            flow.ask_delete()
        } else {
            let flow = ParallelFlow { instances, carrier, next: 0, saved: Vec::new(), stage: ParallelStage::AwaitStoreTask };
            flow.ask_store_task()
        }
    }
}


/// Where the storing of a plan stands.
#[derive(Debug)]
pub enum PrepareStage {
    /// Waiting for the store task of `plan.plan[next]`.
    AwaitStoreTask,
    /// Waiting for the raw task of this store task to be built.
    AwaitNewRaw(TaskForStore),
    /// Every planned instance has a raw task; waiting for them to be saved in one batch.
    AwaitSaveBatch,
    Done,
}

/// The storing of the instances planned by a conversion: each gets a store
/// task and a raw task; the raw tasks are saved in one batch that also drops
/// the conversion's own task; then the store tasks are handed on.
#[derive(Debug)]
pub struct PrepareFlow {
    pub carrier: RawTask,
    pub plan: PlanInfo,
    pub next: usize,
    pub pairs: Vec<(TaskForStore, RawTask)>,
    pub stage: PrepareStage,
}

/// The views of the raw tasks of a sequence of pairs.
pub open spec fn pair_raw_views(pairs: Seq<(TaskForStore, RawTask)>) -> Seq<RawTaskView> {
    pairs.map_values(|p: (TaskForStore, RawTask)| p.1@)
}

pub fn pair_raw_copies(pairs: &Vec<(TaskForStore, RawTask)>) -> (res: Vec<RawTask>)
    ensures
        raw_views(res@) == pair_raw_views(pairs@),
{
    let mut res: Vec<RawTask> = Vec::new();
    let mut i: usize = 0;
    while i < pairs.len()
        invariant
            i <= pairs@.len(),
            raw_views(res@) == pair_raw_views(pairs@.take(i as int)),
        decreases pairs.len() - i,
    {
        let ghost before = res@;
        let c = pairs[i].1.clone();
        res.push(c);
        assert(res@ == before.push(c));
        assert(raw_views(res@) =~= raw_views(before).push(c@));
        assert(pairs@.take(i as int + 1) =~= pairs@.take(i as int).push(pairs@[i as int]));
        assert(raw_views(res@) =~= pair_raw_views(pairs@.take(i as int + 1)));
        i = i + 1;
    }
    assert(pairs@.take(i as int) =~= pairs@);
    res
}

impl PrepareFlow {
    pub open spec fn wf(&self) -> bool {
        &&& self.next <= self.plan.plan@.len()
        &&& !(self.stage is Done) ==> self.pairs@.len() == self.next
        &&& (self.stage is AwaitStoreTask || self.stage is AwaitNewRaw) ==> self.next < self.plan.plan@.len()
        &&& self.stage is AwaitSaveBatch ==> self.next == self.plan.plan@.len()
    }

    /// Whether the flow is well formed, so that it may take a step.
    pub fn well_formed(&self) -> (res: bool)
        ensures
            res == self.wf(),
    {
        let n = self.plan.plan.len();
        let busy = match self.stage {
            PrepareStage::AwaitStoreTask => true,
            PrepareStage::AwaitNewRaw(_) => true,
            _ => false,
        };
        let saving = match self.stage {
            PrepareStage::AwaitSaveBatch => true,
            _ => false,
        };
        let done = match self.stage {
            PrepareStage::Done => true,
            _ => false,
        };
        self.next <= n && (done || self.pairs.len() == self.next) && (!busy || self.next < n) && (!saving
            || self.next == n)
    }

    /// `cmd` is what the flow asks for in its current stage.
    pub open spec fn asks(&self, cmd: Command) -> bool {
        match self.stage {
            PrepareStage::AwaitStoreTask => cmd matches Command::Await(Effect::GenStoreTask(i))
                && i@ == self.plan.plan@[self.next as int]@,
            PrepareStage::AwaitNewRaw(t) => cmd matches Command::Await(Effect::NewRawTask(t2, key, ty))
                && t2@ == t@ && key == self.plan.to.key && ty == TaskType::Store,
            PrepareStage::AwaitSaveBatch => cmd matches Command::Await(Effect::SaveBatch(raws, id))
                && raw_views(raws@) == pair_raw_views(self.pairs@) && id@ == self.carrier.task_id@,
            PrepareStage::Done => false,
        }
    }

    /// The transition of the flow on `reply`.
    pub open spec fn next_step(pre: Self, reply: Reply, post: Self, cmd: Command) -> bool {
        &&& post.plan == pre.plan
        &&& post.carrier == pre.carrier
        &&& match (pre.stage, reply) {
            (PrepareStage::AwaitStoreTask, Reply::StoreTask(Ok(t))) => {
                &&& post.stage == PrepareStage::AwaitNewRaw(t)
                &&& post.next == pre.next
                &&& post.pairs == pre.pairs
                &&& post.asks(cmd)
            },
            (PrepareStage::AwaitNewRaw(t), Reply::Raw(Ok(r))) => {
                &&& post.next == pre.next + 1
                &&& post.pairs@ == pre.pairs@.push((t, r))
                &&& if post.next < pre.plan.plan@.len() {
                    post.stage is AwaitStoreTask
                } else {
                    post.stage is AwaitSaveBatch
                }
                &&& post.asks(cmd)
            },
            (PrepareStage::AwaitNewRaw(_), Reply::Raw(Err(e))) => {
                &&& post.stage is Done
                &&& finish_recording(cmd, e, pre.carrier@)
            },
            (PrepareStage::AwaitSaveBatch, Reply::Done(Ok(()))) => {
                &&& post.stage is Done
                &&& cmd matches Command::Finish(notes, Ok(())) && notes@ == store_sends(pre.pairs@)
            },
            _ => post.stage is Done && finish_quietly(cmd),
        }
    }

    fn ask_store_task(self) -> (res: (Self, Command))
        requires
            self.wf(),
            self.stage is AwaitStoreTask,
        ensures
            res.0 == self,
            res.0.asks(res.1),
    {
        let i = self.plan.plan[self.next].clone();
        (self, Command::Await(Effect::GenStoreTask(i)))
    }

    fn ask_save_batch(self) -> (res: (Self, Command))
        requires
            self.stage is AwaitSaveBatch,
        ensures
            res.0 == self,
            res.0.asks(res.1),
    {
        let raws = pair_raw_copies(&self.pairs);
        let id = clone_bytes(&self.carrier.task_id);
        (self, Command::Await(Effect::SaveBatch(raws, id)))
    }

    /// `flow` and `cmd` are how the storing of `plan` under `carrier` begins.
    pub open spec fn started(flow: Self, carrier: RawTask, plan: PlanInfo, cmd: Command) -> bool {
        &&& flow.wf()
        &&& flow.carrier == carrier
        &&& flow.plan == plan
        &&& flow.next == 0
        &&& flow.pairs@.len() == 0
        &&& if plan.plan@.len() == 0 { flow.stage is AwaitSaveBatch } else { flow.stage is AwaitStoreTask }
        &&& flow.asks(cmd)
    }

    /// Takes the reply to the last effect asked for and says what comes next.
    pub fn step(self, reply: Reply) -> (res: (Self, Command))
        requires
            self.wf(),
        ensures
            res.0.wf(),
            Self::next_step(self, reply, res.0, res.1),
    {
        let PrepareFlow { carrier, plan, next, pairs, stage } = self;
        match (stage, reply) {
            (PrepareStage::AwaitStoreTask, Reply::StoreTask(Ok(t))) => {
                let key = plan.to.get_full_key();
                let t2 = t.clone();
                let flow = PrepareFlow { carrier, plan, next, pairs, stage: PrepareStage::AwaitNewRaw(t) };
                (flow, Command::Await(Effect::NewRawTask(t2, key, TaskType::Store)))
            },
            (PrepareStage::AwaitNewRaw(t), Reply::Raw(Ok(r))) => {
                let mut pairs = pairs;
                pairs.push((t, r));
                assert(next < plan.plan.len());
                let next = next + 1;
                if next < plan.plan.len() {
                    let flow = PrepareFlow { carrier, plan, next, pairs, stage: PrepareStage::AwaitStoreTask };
                    flow.ask_store_task()
                } else {
                    let flow = PrepareFlow { carrier, plan, next, pairs, stage: PrepareStage::AwaitSaveBatch };
                    flow.ask_save_batch()
                }
            },
            (PrepareStage::AwaitNewRaw(_), Reply::Raw(Err(e))) => {
                let note = Effect::RawToError(e, carrier.clone());
                let flow = PrepareFlow { carrier, plan, next, pairs, stage: PrepareStage::Done };
                (flow, finish_one(note))
            },
            (PrepareStage::AwaitSaveBatch, Reply::Done(Ok(()))) => {
                let notes = make_store_sends(pairs);
                let flow = PrepareFlow { carrier, plan, next, pairs: Vec::new(), stage: PrepareStage::Done };
                (flow, Command::Finish(notes, Ok(())))
            },
            (_, _) => {
                let flow = PrepareFlow { carrier, plan, next, pairs, stage: PrepareStage::Done };
                (flow, quiet_finish())
            },
        }
    }
}


/// The store tasks of a plan are handed on only after the raw tasks of all
/// planned instances were saved, one store task per planned instance.
pub proof fn law_plan_hands_on_after_saving_all(pre: PrepareFlow, reply: Reply, post: PrepareFlow, cmd: Command)
    requires
        pre.wf(),
        PrepareFlow::next_step(pre, reply, post, cmd),
        notes_of(cmd).len() > 0,
        notes_of(cmd)[0] is SendStore,
    ensures
        pre.stage is AwaitSaveBatch,
        reply matches Reply::Done(Ok(_)),
        notes_of(cmd) == store_sends(pre.pairs@),
        notes_of(cmd).len() == pre.plan.plan@.len(),
{
}

/// The store task built for a planned instance gets a new raw task as a
/// store task under the full key of the plan's target.
pub proof fn law_plan_new_task_under_target_key(pre: PrepareFlow, t: TaskForStore, post: PrepareFlow, cmd: Command)
    requires
        pre.stage is AwaitStoreTask,
        PrepareFlow::next_step(pre, Reply::StoreTask(Ok(t)), post, cmd),
    ensures
        cmd matches Command::Await(Effect::NewRawTask(t2, key, ty)) && t2@ == t@ && key == pre.plan.to.key
            && ty == TaskType::Store,
{
}

/// Once the last planned instance has its raw task, all the raw tasks are
/// saved in one batch, in plan order, that also drops the finished task;
/// before that, the next planned instance's store task is asked for.
pub proof fn law_plan_saves_all_raw_tasks_at_once(pre: PrepareFlow, t: TaskForStore, r: RawTask, post: PrepareFlow, cmd: Command)
    requires
        pre.wf(),
        pre.stage == PrepareStage::AwaitNewRaw(t),
        PrepareFlow::next_step(pre, Reply::Raw(Ok(r)), post, cmd),
    ensures
        pre.next + 1 == pre.plan.plan@.len() ==> (cmd matches Command::Await(Effect::SaveBatch(raws, id)) && {
            &&& id@ == pre.carrier.task_id@
            &&& raws@.len() == pre.next + 1
            &&& forall|k: int| 0 <= k < pre.next ==> (#[trigger] raws@[k])@ == pre.pairs@[k].1@
            &&& raws@[pre.next as int]@ == r@
        }),
        pre.next + 1 < pre.plan.plan@.len() ==> (cmd matches Command::Await(Effect::GenStoreTask(i))
            && i@ == pre.plan.plan@[pre.next + 1]@),
{
    if pre.next + 1 == pre.plan.plan@.len() {
        if let Command::Await(Effect::SaveBatch(raws, id)) = cmd {
            let pairs = pre.pairs@.push((t, r));
            assert(post.pairs@ == pairs);
            assert(raw_views(raws@) == pair_raw_views(pairs));
            assert(raw_views(raws@).len() == raws@.len());
            assert(pair_raw_views(pairs).len() == pairs.len());
            assert forall|k: int| 0 <= k < pre.next implies (#[trigger] raws@[k])@ == pre.pairs@[k].1@ by {
                assert(raw_views(raws@)[k] == pair_raw_views(pairs)[k]);
                assert(raw_views(raws@)[k] == raws@[k]@);
                assert(pair_raw_views(pairs)[k] == pairs[k].1@);
                assert(pairs[k] == pre.pairs@[k]);
            }
            let n = pre.next as int;
            assert(raw_views(raws@)[n] == pair_raw_views(pairs)[n]);
            assert(raw_views(raws@)[n] == raws@[n]@);
            assert(pair_raw_views(pairs)[n] == pairs[n].1@);
        }
    }
}

/// `flows`, `replies` and `cmds` are a run of a plan's storing: each reply
/// takes the flow one step, and `cmds[i]` is what the flow asks for after `i`
/// replies.
pub open spec fn prepare_run(flows: Seq<PrepareFlow>, replies: Seq<Reply>, cmds: Seq<Command>) -> bool {
    &&& flows.len() == replies.len() + 1
    &&& cmds.len() == replies.len() + 1
    &&& forall|i: int| 0 <= i < replies.len() ==> #[trigger] PrepareFlow::next_step(flows[i], replies[i], flows[i + 1], cmds[i + 1])
}

/// The pair handed on in `note` was built for the planned instance viewed as
/// `planned`: `ask` asked for its store task, `store` gave that task and `raw`
/// gave its raw task.
pub open spec fn pair_built(ask: Command, store: Reply, raw: Reply, note: Effect, planned: InstanceView) -> bool {
    match (ask, store, raw, note) {
        (
            Command::Await(Effect::GenStoreTask(i)),
            Reply::StoreTask(Ok(t)),
            Reply::Raw(Ok(r)),
            Effect::SendStore(t2, r2),
        ) => i@ == planned && t2 == t && r2 == r,
        _ => false,
    }
}

/// The view of the raw task an effect hands on to the store channel, if it does.
pub open spec fn sent_raw(e: Effect) -> Option<RawTaskView> {
    match e {
        Effect::SendStore(_, r) => Some(r@),
        _ => None,
    }
}

/// `save` saved, in order, the raw tasks that `notes` hand on.
pub open spec fn saves_in_order(save: Command, notes: Seq<Effect>) -> bool {
    match save {
        Command::Await(Effect::SaveBatch(raws, _)) => {
            &&& raws@.len() == notes.len()
            &&& forall|k: int| 0 <= k < notes.len() ==> sent_raw(#[trigger] notes[k]) == Some(raws@[k]@)
        },
        _ => false,
    }
}

/// Where a run of a plan's storing that has not ended stands after `i` replies.
pub open spec fn prepare_on_track(flows: Seq<PrepareFlow>, replies: Seq<Reply>, cmds: Seq<Command>, i: int) -> bool {
    let f = flows[i];
    let plan = flows[0].plan.plan@;
    &&& f.plan == flows[0].plan
    &&& f.next <= plan.len()
    &&& f.pairs@.len() == f.next
    &&& f.asks(cmds[i])
    &&& match f.stage {
        PrepareStage::AwaitStoreTask => i == 2 * f.next && f.next < plan.len(),
        PrepareStage::AwaitNewRaw(t) => {
            &&& i == 2 * f.next + 1
            &&& f.next < plan.len()
            &&& replies[2 * f.next] == Reply::StoreTask(Ok(t))
            &&& cmds[2 * f.next] matches Command::Await(Effect::GenStoreTask(x)) && x@ == plan[f.next as int]@
        },
        PrepareStage::AwaitSaveBatch => i == 2 * f.next && f.next == plan.len(),
        PrepareStage::Done => false,
    }
    &&& forall|k: int| 0 <= k < f.next ==> {
        &&& #[trigger] replies[2 * k] == Reply::StoreTask(Ok(f.pairs@[k].0))
        &&& replies[2 * k + 1] == Reply::Raw(Ok(f.pairs@[k].1))
        &&& cmds[2 * k] matches Command::Await(Effect::GenStoreTask(x)) && x@ == plan[k]@
    }
}

proof fn lemma_prepare_done_stays_done(flows: Seq<PrepareFlow>, replies: Seq<Reply>, cmds: Seq<Command>, i: int, j: int)
    requires
        prepare_run(flows, replies, cmds),
        0 <= i <= j <= replies.len(),
        flows[i].stage is Done,
    ensures
        flows[j].stage is Done,
    decreases j - i,
{
    if i < j {
        assert(PrepareFlow::next_step(flows[i], replies[i], flows[i + 1], cmds[i + 1]));
        lemma_prepare_done_stays_done(flows, replies, cmds, i + 1, j);
    }
}

proof fn lemma_prepare_on_track(flows: Seq<PrepareFlow>, replies: Seq<Reply>, cmds: Seq<Command>, i: int)
    requires
        prepare_run(flows, replies, cmds),
        PrepareFlow::started(flows[0], flows[0].carrier, flows[0].plan, cmds[0]),
        0 <= i <= replies.len(),
        !(flows[i].stage is Done),
    ensures
        prepare_on_track(flows, replies, cmds, i),
    decreases i,
{
    if i > 0 {
        let j = i - 1;
        if flows[j].stage is Done {
            lemma_prepare_done_stays_done(flows, replies, cmds, j, i);
        }
        lemma_prepare_on_track(flows, replies, cmds, j);
        assert(PrepareFlow::next_step(flows[j], replies[j], flows[j + 1], cmds[j + 1]));
        assert(j + 1 == i);
        let pre = flows[j];
        let post = flows[i];
        match pre.stage {
            PrepareStage::AwaitNewRaw(t) => {
                assert forall|k: int| 0 <= k < post.next implies {
                    &&& #[trigger] replies[2 * k] == Reply::StoreTask(Ok(post.pairs@[k].0))
                    &&& replies[2 * k + 1] == Reply::Raw(Ok(post.pairs@[k].1))
                    &&& cmds[2 * k] matches Command::Await(Effect::GenStoreTask(x)) && x@ == flows[0].plan.plan@[k]@
                } by {
                    if k < pre.next {
                        assert(post.pairs@[k] == pre.pairs@[k]);
                    } else {
                        assert(k == pre.next);
                        assert(2 * k + 1 == j);
                    }
                }
            },
            _ => {},
        }
    }
}

/// Over a whole run, the store tasks of a plan are handed on in plan order:
/// when any are handed on, the run stored one pair per planned instance, the
/// `k`-th pair handed on being the store task built for the `k`-th planned
/// instance with its raw task, those raw tasks were saved in one batch in
/// the same order, and that save succeeded.
pub proof fn law_plan_run_in_order(flows: Seq<PrepareFlow>, replies: Seq<Reply>, cmds: Seq<Command>)
    requires
        prepare_run(flows, replies, cmds),
        PrepareFlow::started(flows[0], flows[0].carrier, flows[0].plan, cmds[0]),
        replies.len() > 0,
        notes_of(cmds.last()).len() > 0,
        notes_of(cmds.last())[0] is SendStore,
    ensures
        replies.len() == 2 * flows[0].plan.plan@.len() + 1,
        notes_of(cmds.last()).len() == flows[0].plan.plan@.len(),
        forall|k: int| 0 <= k < flows[0].plan.plan@.len() ==> pair_built(
            #[trigger] cmds[2 * k],
            replies[2 * k],
            replies[2 * k + 1],
            notes_of(cmds.last())[k],
            flows[0].plan.plan@[k]@,
        ),
        saves_in_order(cmds[replies.len() - 1], notes_of(cmds.last())),
        replies.last() matches Reply::Done(Ok(_)),
{
    let m = replies.len() - 1;
    assert(PrepareFlow::next_step(flows[m], replies[m], flows[m + 1], cmds[m + 1]));
    assert(cmds.last() == cmds[m + 1]);
    if flows[m].stage is Done {
        assert(false);
    }
    lemma_prepare_on_track(flows, replies, cmds, m);
    let f = flows[m];
    let notes = notes_of(cmds.last());
    assert(f.stage is AwaitSaveBatch);
    assert(notes == store_sends(f.pairs@));
    assert forall|k: int| 0 <= k < flows[0].plan.plan@.len() implies pair_built(
        #[trigger] cmds[2 * k],
        replies[2 * k],
        replies[2 * k + 1],
        notes[k],
        flows[0].plan.plan@[k]@,
    ) by {
        assert(notes[k] == Effect::SendStore(f.pairs@[k].0, f.pairs@[k].1));
        assert(replies[2 * k] == Reply::StoreTask(Ok(f.pairs@[k].0)));
    }
    match cmds[m] {
        Command::Await(Effect::SaveBatch(raws, _)) => {
            assert(raw_views(raws@) == pair_raw_views(f.pairs@));
            assert(raw_views(raws@).len() == raws@.len());
            assert(pair_raw_views(f.pairs@).len() == f.pairs@.len());
            assert(store_sends(f.pairs@).len() == f.pairs@.len());
            assert(raws@.len() == notes.len());
            assert forall|k: int| 0 <= k < notes.len() implies sent_raw(#[trigger] notes[k]) == Some(raws@[k]@) by {
                assert(notes[k] == Effect::SendStore(f.pairs@[k].0, f.pairs@[k].1));
                assert(raw_views(raws@)[k] == raws@[k]@);
                assert(pair_raw_views(f.pairs@)[k] == f.pairs@[k].1@);
            }
        },
        _ => {},
    }
}

/// Starts storing `plan`, the instances converted under the raw task
/// `carrier`: each planned instance gets a store task and a raw task under
/// the plan's target key; the raw tasks are saved in one batch that drops
/// `carrier`, and only then are the store tasks handed on. Failing to build a
/// raw task is recorded against `carrier`; any other failure just ends.
pub fn prepare_to_store(carrier: RawTask, plan: PlanInfo) -> (res: (PrepareFlow, Command))
    ensures
        PrepareFlow::started(res.0, carrier, plan, res.1),
{
    if plan.plan.len() == 0 {
        let flow = PrepareFlow { carrier, plan, next: 0, pairs: Vec::new(), stage: PrepareStage::AwaitSaveBatch };
        flow.ask_save_batch()
    } else {
        let flow = PrepareFlow { carrier, plan, next: 0, pairs: Vec::new(), stage: PrepareStage::AwaitStoreTask };
        flow.ask_store_task()
    }
}

/// Where the handling of converted instances stands.
#[derive(Debug)]
pub enum ReceiveStage {
    /// Waiting for the converted instances to be checked against the task.
    AwaitConverted,
    /// Waiting for the plan to be saved; holds the task the conversion finishes.
    AwaitPlan(RawTask),
    /// Storing the planned instances.
    Preparing(PrepareFlow),
    Done,
}

/// The handling of the instances a converter returned for `task`, carried
/// by the raw task `raw`.
#[derive(Debug)]
pub struct ReceiveFlow {
    pub task: TaskForConvert,
    pub raw: RawTask,
    pub stage: ReceiveStage,
}

impl ReceiveFlow {
    pub open spec fn wf(&self) -> bool {
        self.stage matches ReceiveStage::Preparing(p) ==> p.wf()
    }

    /// Whether the flow has nothing more to ask for.
    pub open spec fn is_over(&self) -> bool {
        ||| self.stage is Done
        ||| self.stage matches ReceiveStage::Preparing(p) && p.stage is Done
    }

    /// Whether the flow is well formed, so that it may take a step.
    pub fn well_formed(&self) -> (res: bool)
        ensures
            res == self.wf(),
    {
        match &self.stage {
            ReceiveStage::Preparing(p) => p.well_formed(),
            _ => true,
        }
    }

    /// `flow` and `cmd` are how the handling of `instances` for `task` and `raw` begins.
    pub open spec fn started(flow: Self, task: TaskForConvertView, raw: RawTaskView, instances: Vec<Instance>, cmd: Command) -> bool {
        &&& flow.task@ == task
        &&& flow.raw@ == raw
        &&& flow.stage is AwaitConverted
        &&& cmd matches Command::Await(Effect::GenConverted(t, r, v)) && t@ == task && r@ == raw && v == instances
    }

    /// The transition of the flow on `reply`.
    pub open spec fn next_step(pre: Self, reply: Reply, post: Self, cmd: Command) -> bool {
        &&& post.task == pre.task
        &&& post.raw == pre.raw
        &&& match (pre.stage, reply) {
            (ReceiveStage::AwaitConverted, Reply::Converted(Err(e))) => {
                &&& post.stage is Done
                &&& cmd matches Command::Finish(notes, Err(e2)) && e2 == e && notes@.len() == 1
                &&& cmd matches Command::Finish(notes, _) && records_error(notes@[0], e, pre.raw@)
            },
            (ReceiveStage::AwaitConverted, Reply::Converted(Ok(rtn))) => {
                &&& post.stage == ReceiveStage::AwaitPlan(rtn.done_task)
                &&& cmd matches Command::Await(Effect::SavePlan(t, v)) && t@ == pre.task@ && v == rtn.converted
            },
            (ReceiveStage::AwaitPlan(_), Reply::Plan(Err(e))) => {
                &&& post.stage is Done
                &&& finish_failing(cmd, e)
            },
            (ReceiveStage::AwaitPlan(done), Reply::Plan(Ok(plan))) => {
                post.stage matches ReceiveStage::Preparing(p) && PrepareFlow::started(p, done, plan, cmd)
            },
            (ReceiveStage::Preparing(p), _) => {
                post.stage matches ReceiveStage::Preparing(p2) && PrepareFlow::next_step(p, reply, p2, cmd)
            },
            _ => post.stage is Done && finish_quietly(cmd),
        }
    }

    /// Takes the reply to the last effect asked for and says what comes next.
    pub fn step(self, reply: Reply) -> (res: (Self, Command))
        requires
            self.wf(),
        ensures
            res.0.wf(),
            Self::next_step(self, reply, res.0, res.1),
    {
        let ReceiveFlow { task, raw, stage } = self;
        match (stage, reply) {
            (ReceiveStage::AwaitConverted, Reply::Converted(Err(e))) => {
                let mut notes = Vec::new();
                notes.push(Effect::RawToError(e.clone(), raw.clone()));
                (ReceiveFlow { task, raw, stage: ReceiveStage::Done }, Command::Finish(notes, Err(e)))
            },
            (ReceiveStage::AwaitConverted, Reply::Converted(Ok(rtn))) => {
                let t = task.clone();
                let cmd = Command::Await(Effect::SavePlan(t, rtn.converted));
                (ReceiveFlow { task, raw, stage: ReceiveStage::AwaitPlan(rtn.done_task) }, cmd)
            },
            (ReceiveStage::AwaitPlan(_), Reply::Plan(Err(e))) => {
                (ReceiveFlow { task, raw, stage: ReceiveStage::Done }, Command::Finish(Vec::new(), Err(e)))
            },
            (ReceiveStage::AwaitPlan(done), Reply::Plan(Ok(plan))) => {
                let (p, cmd) = prepare_to_store(done, plan);
                (ReceiveFlow { task, raw, stage: ReceiveStage::Preparing(p) }, cmd)
            },
            (ReceiveStage::Preparing(p), r) => {
                let (p2, cmd) = p.step(r);
                (ReceiveFlow { task, raw, stage: ReceiveStage::Preparing(p2) }, cmd)
            },
            (_, _) => (ReceiveFlow { task, raw, stage: ReceiveStage::Done }, quiet_finish()),
        }
    }
}

/// Where the conversion of a task stands.
#[derive(Debug)]
pub enum ConvertStage {
    /// Waiting for the converter's answer.
    AwaitReturned,
    /// Handling the instances the converter returned.
    Receiving(ReceiveFlow),
    Done,
}

/// The conversion of `task`, carried by the raw task `raw`.
#[derive(Debug)]
pub struct ConvertFlow {
    pub task: TaskForConvert,
    pub raw: RawTask,
    pub stage: ConvertStage,
}

/// `cmd` is `c` with the result of a finishing command dropped: the same
/// effects, and success.
pub open spec fn relays_ignoring_result(c: Command, cmd: Command) -> bool {
    match c {
        Command::Await(e) => cmd == Command::Await(e),
        Command::Finish(notes, _) => cmd == Command::Finish(notes, Ok(())),
    }
}

/// Whether `e` is an environment error of a converter, the one error that is retried later.
pub open spec fn is_converter_environment_error(e: NatureError) -> bool {
    e is ConverterEnvironmentError
}

impl ConvertFlow {
    pub open spec fn wf(&self) -> bool {
        self.stage matches ConvertStage::Receiving(r) ==> r.wf()
    }

    /// Whether the flow has nothing more to ask for.
    pub open spec fn is_over(&self) -> bool {
        ||| self.stage is Done
        ||| self.stage matches ConvertStage::Receiving(r) && r.is_over()
    }

    /// Whether the flow is well formed, so that it may take a step.
    pub fn well_formed(&self) -> (res: bool)
        ensures
            res == self.wf(),
    {
        match &self.stage {
            ConvertStage::Receiving(r) => r.well_formed(),
            _ => true,
        }
    }

    /// The transition of the flow on `reply`.
    pub open spec fn next_step(pre: Self, reply: Reply, post: Self, cmd: Command) -> bool {
        &&& post.task == pre.task
        &&& post.raw == pre.raw
        &&& match (pre.stage, reply) {
            (ConvertStage::AwaitReturned, Reply::Returned(Err(e))) => {
                &&& post.stage is Done
                &&& if is_converter_environment_error(e) {
                    finish_quietly(cmd)
                } else {
                    finish_recording(cmd, e, pre.raw@)
                }
            },
            (ConvertStage::AwaitReturned, Reply::Returned(Ok(ConverterReturned::Instances(v)))) => {
                post.stage matches ConvertStage::Receiving(r) && ReceiveFlow::started(r, pre.task@, pre.raw@, v, cmd)
            },
            (ConvertStage::AwaitReturned, Reply::Returned(Ok(ConverterReturned::Delay(d)))) => {
                &&& post.stage is Done
                &&& cmd matches Command::Finish(notes, Ok(())) && notes@.len() == 1
                &&& cmd matches Command::Finish(notes, _)
                    && notes@[0] matches Effect::UpdateExecuteTime(id, t) && id@ == pre.raw.task_id@ && t == d as i64
            },
            (ConvertStage::AwaitReturned, Reply::Returned(Ok(ConverterReturned::LogicalError(s)))) => {
                &&& post.stage is Done
                &&& finish_recording(cmd, NatureError::ConverterLogicalError(s), pre.raw@)
            },
            (ConvertStage::Receiving(r), _) => {
                post.stage matches ConvertStage::Receiving(r2) && exists|c: Command|
                    #[trigger] ReceiveFlow::next_step(r, reply, r2, c) && relays_ignoring_result(c, cmd)
            },
            _ => post.stage is Done && finish_quietly(cmd),
        }
    }

    /// Takes the reply to the last effect asked for and says what comes next.
    pub fn step(self, reply: Reply) -> (res: (Self, Command))
        requires
            self.wf(),
        ensures
            res.0.wf(),
            Self::next_step(self, reply, res.0, res.1),
    {
        let ConvertFlow { task, raw, stage } = self;
        match (stage, reply) {
            (ConvertStage::AwaitReturned, Reply::Returned(Err(e))) => {
                let cmd = match e {
                    NatureError::ConverterEnvironmentError(_) => quiet_finish(),
                    _ => finish_one(Effect::RawToError(e, raw.clone())),
                };
                (ConvertFlow { task, raw, stage: ConvertStage::Done }, cmd)
            },
            (ConvertStage::AwaitReturned, Reply::Returned(Ok(returned))) => {
                match returned {
                    ConverterReturned::Instances(instances) => {
                        let (r, cmd) = InnerController::received_instance(&task, &raw, instances);
                        (ConvertFlow { task, raw, stage: ConvertStage::Receiving(r) }, cmd)
                    },
                    ConverterReturned::Delay(delay) => {
                        let id = clone_bytes(&raw.task_id);
                        let cmd = finish_one(Effect::UpdateExecuteTime(id, delay as i64));
                        (ConvertFlow { task, raw, stage: ConvertStage::Done }, cmd)
                    },
                    ConverterReturned::LogicalError(ss) => {
                        let cmd = finish_one(Effect::RawToError(NatureError::ConverterLogicalError(ss), raw.clone()));
                        (ConvertFlow { task, raw, stage: ConvertStage::Done }, cmd)
                    },
                    ConverterReturned::EnvError => (ConvertFlow { task, raw, stage: ConvertStage::Done }, quiet_finish()),
                    ConverterReturned::Nothing => (ConvertFlow { task, raw, stage: ConvertStage::Done }, quiet_finish()),
                }
            },
            (ConvertStage::Receiving(r), reply) => {
                let ghost (r0, reply0) = (r, reply);
                let (r2, c) = r.step(reply);
                let ghost c0 = c;
                let cmd = match c {
                    Command::Finish(notes, _) => Command::Finish(notes, Ok(())),
                    other => other,
                };
                assert(ReceiveFlow::next_step(r0, reply0, r2, c0) && relays_ignoring_result(c0, cmd));
                (ConvertFlow { task, raw, stage: ConvertStage::Receiving(r2) }, cmd)
            },
            (_, _) => (ConvertFlow { task, raw, stage: ConvertStage::Done }, quiet_finish()),
        }
    }
}

/// Only an environment error of a converter is left for a later retry;
/// every other error of the call is recorded against the task.
pub proof fn law_convert_retries_only_environment_errors(pre: ConvertFlow, e: NatureError, post: ConvertFlow, cmd: Command)
    requires
        pre.stage is AwaitReturned,
        ConvertFlow::next_step(pre, Reply::Returned(Err(e)), post, cmd),
    ensures
        post.stage is Done,
        notes_of(cmd).len() == 0 <==> is_converter_environment_error(e),
        !is_converter_environment_error(e) ==> records_error(notes_of(cmd)[0], e, pre.raw@),
{
}

impl InnerController {
    /// Starts converting `task`: its converter is called with the task's id.
    ///
    /// Only an environment error of the converter is left for a retry; any
    /// other error is recorded against `raw`. Returned instances are handled
    /// as `received_instance` does, with the same effects, but the result of
    /// that handling is dropped and the flow ends with success; a delay
    /// postpones `raw`.
    pub fn channel_convert(task: TaskForConvert, raw: RawTask) -> (res: (ConvertFlow, Command))
        ensures
            res.0.wf(),
            res.0.task == task,
            res.0.raw == raw,
            res.0.stage is AwaitReturned,
            res.1 matches Command::Await(Effect::CallOut(t, id)) && t@ == task@ && id@ == raw.task_id@,
    {
        let t = task.clone();
        let id = clone_bytes(&raw.task_id);
        (ConvertFlow { task, raw, stage: ConvertStage::AwaitReturned }, Command::Await(Effect::CallOut(t, id)))
    }

    /// Starts handling the instances a converter returned for `task`: they
    /// are checked against the task, planned and stored. A failed check is
    /// recorded against `raw` and returned; a failed plan is returned.
    pub fn received_instance(task: &TaskForConvert, raw: &RawTask, instances: Vec<Instance>) -> (res: (ReceiveFlow, Command))
        ensures
            res.0.wf(),
            ReceiveFlow::started(res.0, task@, raw@, instances, res.1),
    {
        let t = task.clone();
        let r = raw.clone();
        let cmd = Command::Await(Effect::GenConverted(task.clone(), raw.clone(), instances));
        (ReceiveFlow { task: t, raw: r, stage: ReceiveStage::AwaitConverted }, cmd)
    }
}


/// The views of the raw tasks of a sequence of conversion pairs.
pub open spec fn convert_raw_views(pairs: Seq<(TaskForConvert, RawTask)>) -> Seq<RawTaskView> {
    pairs.map_values(|p: (TaskForConvert, RawTask)| p.1@)
}

pub fn convert_raw_copies(pairs: &Vec<(TaskForConvert, RawTask)>) -> (res: Vec<RawTask>)
    ensures
        raw_views(res@) == convert_raw_views(pairs@),
{
    let mut res: Vec<RawTask> = Vec::new();
    let mut i: usize = 0;
    while i < pairs.len()
        invariant
            i <= pairs@.len(),
            raw_views(res@) == convert_raw_views(pairs@.take(i as int)),
        decreases pairs.len() - i,
    {
        let ghost before = res@;
        let c = pairs[i].1.clone();
        res.push(c);
        assert(res@ == before.push(c));
        assert(raw_views(res@) =~= raw_views(before).push(c@));
        assert(pairs@.take(i as int + 1) =~= pairs@.take(i as int).push(pairs@[i as int]));
        assert(raw_views(res@) =~= convert_raw_views(pairs@.take(i as int + 1)));
        i = i + 1;
    }
    assert(pairs@.take(i as int) =~= pairs@);
    res
}

/// The effects that hand each conversion pair to the convert channel, in order.
pub open spec fn convert_sends(pairs: Seq<(TaskForConvert, RawTask)>) -> Seq<Effect> {
    pairs.map_values(|p: (TaskForConvert, RawTask)| Effect::SendConvert(p.0, p.1))
}

pub fn make_convert_sends(pairs: Vec<(TaskForConvert, RawTask)>) -> (notes: Vec<Effect>)
    ensures
        notes@ == convert_sends(pairs@),
{
    let ghost orig = pairs@;
    let mut rest = pairs;
    let mut notes: Vec<Effect> = Vec::new();
    let mut done: usize = 0;
    assert(orig.len() == rest.len());
    while rest.len() > 0
        invariant
            done <= orig.len(),
            orig.len() <= usize::MAX,
            rest@ == orig.subrange(done as int, orig.len() as int),
            notes@ == convert_sends(orig.take(done as int)),
        decreases rest.len(),
    {
        let p = rest.remove(0);
        assert(p == orig[done as int]);
        notes.push(Effect::SendConvert(p.0, p.1));
        assert(convert_sends(orig.take(done as int + 1)) =~= convert_sends(orig.take(done as int)).push(
            Effect::SendConvert(p.0, p.1),
        ));
        done = done + 1;
        assert(rest@ =~= orig.subrange(done as int, orig.len() as int));
    }
    assert(orig.take(done as int) =~= orig);
    notes
}

/// Where the follow-up of a stored instance stands.
#[derive(Debug)]
pub enum StoredStage {
    /// Waiting for the conversion tasks of the stored task.
    AwaitConvertTasks,
    /// Waiting for the raw tasks of these conversion tasks to be saved.
    AwaitSaveBatch(Vec<(TaskForConvert, RawTask)>),
    Done,
}

/// The follow-up of a stored instance, carried by the raw task `raw`.
#[derive(Debug)]
pub struct StoredFlow {
    pub raw: RawTask,
    pub stage: StoredStage,
}

impl StoredFlow {
    /// The transition of the flow on `reply`.
    pub open spec fn next_step(pre: Self, reply: Reply, post: Self, cmd: Command) -> bool {
        &&& post.raw == pre.raw
        &&& match (pre.stage, reply) {
            (StoredStage::AwaitConvertTasks, Reply::ConvertTasks(Err(e))) => {
                post.stage is Done && finish_recording(cmd, e, pre.raw@)
            },
            (StoredStage::AwaitConvertTasks, Reply::ConvertTasks(Ok(cs))) => {
                &&& post.stage == StoredStage::AwaitSaveBatch(cs)
                &&& cmd matches Command::Await(Effect::SaveBatch(raws, id))
                    && raw_views(raws@) == convert_raw_views(cs@) && id@ == pre.raw.task_id@
            },
            (StoredStage::AwaitSaveBatch(cs), Reply::Done(Ok(()))) => {
                &&& post.stage is Done
                &&& cmd matches Command::Finish(notes, Ok(())) && notes@ == convert_sends(cs@)
            },
            _ => post.stage is Done && finish_quietly(cmd),
        }
    }

    /// Takes the reply to the last effect asked for and says what comes next.
    pub fn step(self, reply: Reply) -> (res: (Self, Command))
        ensures
            Self::next_step(self, reply, res.0, res.1),
    {
        let StoredFlow { raw, stage } = self;
        match (stage, reply) {
            (StoredStage::AwaitConvertTasks, Reply::ConvertTasks(Err(e))) => {
                let cmd = finish_one(Effect::RawToError(e, raw.clone()));
                (StoredFlow { raw, stage: StoredStage::Done }, cmd)
            },
            (StoredStage::AwaitConvertTasks, Reply::ConvertTasks(Ok(cs))) => {
                let raws = convert_raw_copies(&cs);
                let id = clone_bytes(&raw.task_id);
                (StoredFlow { raw, stage: StoredStage::AwaitSaveBatch(cs) }, Command::Await(Effect::SaveBatch(raws, id)))
            },
            (StoredStage::AwaitSaveBatch(cs), Reply::Done(Ok(()))) => {
                let notes = make_convert_sends(cs);
                (StoredFlow { raw, stage: StoredStage::Done }, Command::Finish(notes, Ok(())))
            },
            (_, _) => (StoredFlow { raw, stage: StoredStage::Done }, quiet_finish()),
        }
    }
}

/// Where the saving of a store task stands.
#[derive(Debug)]
pub enum SaveStage {
    /// Waiting for the instance of the task to be saved.
    AwaitSave(TaskForStore, RawTask),
    /// Waiting for the task to be handed to the stored-task channel.
    AwaitSend,
    Done,
}

/// The saving of a store task's instance, after which the task goes on as
/// stored. When `keeps_result` is false, a failure ends the flow with
/// success: the caller does not look at it.
#[derive(Debug)]
pub struct SaveFlow {
    pub keeps_result: bool,
    pub stage: SaveStage,
}

impl SaveFlow {
    /// `flow` and `cmd` are how saving `task`, carried by `carrier`, begins.
    pub open spec fn started(flow: Self, task: TaskForStore, carrier: RawTask, keeps_result: bool, cmd: Command) -> bool {
        &&& flow.keeps_result == keeps_result
        &&& flow.stage == SaveStage::AwaitSave(task, carrier)
        &&& cmd matches Command::Await(Effect::SaveInstance(i)) && i@ == task.instance@
    }

    /// How the flow ends on the failure `e`.
    pub open spec fn fails_with(pre: Self, cmd: Command, e: NatureError) -> bool {
        if pre.keeps_result {
            finish_failing(cmd, e)
        } else {
            finish_quietly(cmd)
        }
    }

    /// The transition of the flow on `reply`.
    pub open spec fn next_step(pre: Self, reply: Reply, post: Self, cmd: Command) -> bool {
        &&& post.keeps_result == pre.keeps_result
        &&& match (pre.stage, reply) {
            (SaveStage::AwaitSave(t, c), Reply::Done(Ok(()))) => {
                &&& post.stage is AwaitSend
                &&& cmd == Command::Await(Effect::SendStored(t, c))
            },
            (SaveStage::AwaitSave(_, _), Reply::Done(Err(e))) => {
                post.stage is Done && Self::fails_with(pre, cmd, e)
            },
            (SaveStage::AwaitSend, Reply::Done(Err(e))) => {
                post.stage is Done && Self::fails_with(pre, cmd, e)
            },
            _ => post.stage is Done && finish_quietly(cmd),
        }
    }

    fn fail(keeps_result: bool, e: NatureError) -> (res: (Self, Command))
        ensures
            res.0.keeps_result == keeps_result,
            res.0.stage is Done,
            Self::fails_with(res.0, res.1, e),
    {
        let flow = SaveFlow { keeps_result, stage: SaveStage::Done };
        if keeps_result {
            (flow, Command::Finish(Vec::new(), Err(e)))
        } else {
            (flow, quiet_finish())
        }
    }

    /// Takes the reply to the last effect asked for and says what comes next.
    pub fn step(self, reply: Reply) -> (res: (Self, Command))
        ensures
            Self::next_step(self, reply, res.0, res.1),
    {
        let keeps_result = self.keeps_result;
        match (self.stage, reply) {
            (SaveStage::AwaitSave(t, c), Reply::Done(Ok(()))) => {
                (SaveFlow { keeps_result, stage: SaveStage::AwaitSend }, Command::Await(Effect::SendStored(t, c)))
            },
            (SaveStage::AwaitSave(_, _), Reply::Done(Err(e))) => Self::fail(keeps_result, e),
            (SaveStage::AwaitSend, Reply::Done(Err(e))) => Self::fail(keeps_result, e),
            (_, _) => (SaveFlow { keeps_result, stage: SaveStage::Done }, quiet_finish()),
        }
    }
}

/// Where the follow-up of a serial batch stands.
#[derive(Debug)]
pub enum SerialStage {
    /// Waiting for the batch to be stored.
    AwaitSerialSave,
    /// Waiting for the virtual instance that carries the batch's outcome.
    AwaitVirtual,
    /// Waiting for the store task of the virtual instance, whose full key is held.
    AwaitStoreTask(String),
    /// Waiting for the raw task of this store task.
    AwaitNewRaw(TaskForStore),
    /// Waiting for the new raw task to replace the batch's own task.
    AwaitFinishOld(TaskForStore),
    Done,
}

/// The storing of a serial batch, carried by the raw task `carrier`, and
/// the routing of the virtual instance that reports on it.
#[derive(Debug)]
pub struct SerialFlow {
    pub carrier: RawTask,
    pub finish: String,
    pub stage: SerialStage,
}

impl SerialFlow {
    /// The transition of the flow on `reply`.
    pub open spec fn next_step(pre: Self, reply: Reply, post: Self, cmd: Command) -> bool {
        &&& post.carrier == pre.carrier
        &&& post.finish == pre.finish
        &&& match (pre.stage, reply) {
            (SerialStage::AwaitSerialSave, Reply::SerialSaved(Ok(sf))) => {
                &&& post.stage is AwaitVirtual
                &&& cmd matches Command::Await(Effect::ToVirtualInstance(sf2, f)) && sf2 == sf && f == pre.finish
            },
            (SerialStage::AwaitVirtual, Reply::Instance(Err(e))) => {
                post.stage is Done && finish_recording(cmd, e, pre.carrier@)
            },
            (SerialStage::AwaitVirtual, Reply::Instance(Ok(instance))) => {
                &&& post.stage == SerialStage::AwaitStoreTask(instance.thing.key)
                &&& cmd == Command::Await(Effect::GenStoreTask(instance))
            },
            (SerialStage::AwaitStoreTask(key), Reply::StoreTask(Ok(si))) => {
                &&& post.stage == SerialStage::AwaitNewRaw(si)
                &&& cmd matches Command::Await(Effect::NewRawTask(t, k, ty)) && t@ == si@ && k == key
                    && ty == TaskType::QueueBatch
            },
            (SerialStage::AwaitNewRaw(_), Reply::Raw(Err(e))) => {
                post.stage is Done && finish_recording(cmd, e, pre.carrier@)
            },
            (SerialStage::AwaitNewRaw(si), Reply::Raw(Ok(new))) => {
                &&& post.stage == SerialStage::AwaitFinishOld(si)
                &&& cmd matches Command::Await(Effect::FinishOld(n, c)) && n == new && c@ == pre.carrier@
            },
            (SerialStage::AwaitFinishOld(si), Reply::Raw(Ok(new))) => {
                post.stage is Done && finish_with(cmd, Effect::SendStored(si, new))
            },
            _ => post.stage is Done && finish_quietly(cmd),
        }
    }

    /// Takes the reply to the last effect asked for and says what comes next.
    pub fn step(self, reply: Reply) -> (res: (Self, Command))
        ensures
            Self::next_step(self, reply, res.0, res.1),
    {
        let SerialFlow { carrier, finish, stage } = self;
        match (stage, reply) {
            (SerialStage::AwaitSerialSave, Reply::SerialSaved(Ok(sf))) => {
                let f = finish.clone();
                (SerialFlow { carrier, finish, stage: SerialStage::AwaitVirtual }, Command::Await(Effect::ToVirtualInstance(sf, f)))
            },
            (SerialStage::AwaitVirtual, Reply::Instance(Err(e))) => {
                let cmd = finish_one(Effect::RawToError(e, carrier.clone()));
                (SerialFlow { carrier, finish, stage: SerialStage::Done }, cmd)
            },
            (SerialStage::AwaitVirtual, Reply::Instance(Ok(instance))) => {
                let key = instance.thing.get_full_key();
                (SerialFlow { carrier, finish, stage: SerialStage::AwaitStoreTask(key) }, Command::Await(Effect::GenStoreTask(instance)))
            },
            (SerialStage::AwaitStoreTask(key), Reply::StoreTask(Ok(si))) => {
                let t = si.clone();
                let cmd = Command::Await(Effect::NewRawTask(t, key, TaskType::QueueBatch));
                (SerialFlow { carrier, finish, stage: SerialStage::AwaitNewRaw(si) }, cmd)
            },
            (SerialStage::AwaitNewRaw(_), Reply::Raw(Err(e))) => {
                let cmd = finish_one(Effect::RawToError(e, carrier.clone()));
                (SerialFlow { carrier, finish, stage: SerialStage::Done }, cmd)
            },
            (SerialStage::AwaitNewRaw(si), Reply::Raw(Ok(new))) => {
                let c = carrier.clone();
                (SerialFlow { carrier, finish, stage: SerialStage::AwaitFinishOld(si) }, Command::Await(Effect::FinishOld(new, c)))
            },
            (SerialStage::AwaitFinishOld(si), Reply::Raw(Ok(new))) => {
                (SerialFlow { carrier, finish, stage: SerialStage::Done }, finish_one(Effect::SendStored(si, new)))
            },
            (_, _) => (SerialFlow { carrier, finish, stage: SerialStage::Done }, quiet_finish()),
        }
    }
}

/// Conversion tasks are handed on only after their raw tasks were saved.
pub proof fn law_stored_hands_on_after_saving(pre: StoredFlow, reply: Reply, post: StoredFlow, cmd: Command)
    requires
        StoredFlow::next_step(pre, reply, post, cmd),
        notes_of(cmd).len() > 0,
        notes_of(cmd)[0] is SendConvert,
    ensures
        pre.stage matches StoredStage::AwaitSaveBatch(cs) && notes_of(cmd) == convert_sends(cs@),
        reply matches Reply::Done(Ok(_)),
{
}

/// A store task goes on as stored only after its instance was saved.
pub proof fn law_sent_only_after_saved(pre: SaveFlow, reply: Reply, post: SaveFlow, cmd: Command)
    requires
        SaveFlow::next_step(pre, reply, post, cmd),
        cmd matches Command::Await(e) && e is SendStored,
    ensures
        pre.stage is AwaitSave,
        reply matches Reply::Done(Ok(_)),
{
}

/// The virtual instance of a serial batch goes on as stored only after its
/// new raw task has replaced the batch's own.
pub proof fn law_serial_stored_after_replacing(pre: SerialFlow, reply: Reply, post: SerialFlow, cmd: Command)
    requires
        SerialFlow::next_step(pre, reply, post, cmd),
        notes_of(cmd).len() > 0,
        notes_of(cmd)[0] is SendStored,
    ensures
        pre.stage is AwaitFinishOld,
        reply matches Reply::Raw(Ok(_)),
{
}

/// The saved outcome of a serial batch reaches its virtual instance
/// unchanged, under the batch's finish key.
pub proof fn law_serial_outcome_reaches_virtual_instance(pre: SerialFlow, sf: SerialFinished, post: SerialFlow, cmd: Command)
    requires
        pre.stage is AwaitSerialSave,
        SerialFlow::next_step(pre, Reply::SerialSaved(Ok(sf)), post, cmd),
    ensures
        cmd == Command::Await(Effect::ToVirtualInstance(sf, pre.finish)),
{
}

/// The virtual instance is the one whose store task is asked for, and its
/// key names the raw task.
pub proof fn law_serial_stores_the_virtual_instance(pre: SerialFlow, instance: Instance, post: SerialFlow, cmd: Command)
    requires
        pre.stage is AwaitVirtual,
        SerialFlow::next_step(pre, Reply::Instance(Ok(instance)), post, cmd),
    ensures
        cmd == Command::Await(Effect::GenStoreTask(instance)),
        post.stage == SerialStage::AwaitStoreTask(instance.thing.key),
{
}

/// The store task built for the virtual instance gets its raw task as a
/// queued batch under the instance's key, and is kept as it is.
pub proof fn law_serial_keeps_the_store_task(pre: SerialFlow, key: String, si: TaskForStore, post: SerialFlow, cmd: Command)
    requires
        pre.stage == SerialStage::AwaitStoreTask(key),
        SerialFlow::next_step(pre, Reply::StoreTask(Ok(si)), post, cmd),
    ensures
        post.stage == SerialStage::AwaitNewRaw(si),
        cmd matches Command::Await(Effect::NewRawTask(t, k, ty)) && t@ == si@ && k == key && ty == TaskType::QueueBatch,
{
}

/// The new raw task replaces the batch's own task, and then the store task
/// goes on with the raw task as the replacement left it.
pub proof fn law_serial_replaces_then_hands_on(
    pre: SerialFlow,
    si: TaskForStore,
    new: RawTask,
    mid: SerialFlow,
    ask: Command,
    after: RawTask,
    post: SerialFlow,
    cmd: Command,
)
    requires
        pre.stage == SerialStage::AwaitNewRaw(si),
        SerialFlow::next_step(pre, Reply::Raw(Ok(new)), mid, ask),
        SerialFlow::next_step(mid, Reply::Raw(Ok(after)), post, cmd),
    ensures
        ask matches Command::Await(Effect::FinishOld(n, c)) && n == new && c@ == pre.carrier@,
        notes_of(cmd) == seq![Effect::SendStored(si, after)],
        cmd matches Command::Finish(_, r) && r is Ok,
{
}

/// A serial flow records an error only when the virtual instance or the raw
/// task of its store task cannot be made.
pub proof fn law_serial_records_only_build_failures(pre: SerialFlow, reply: Reply, post: SerialFlow, cmd: Command)
    requires
        SerialFlow::next_step(pre, reply, post, cmd),
        notes_of(cmd).len() > 0,
        notes_of(cmd)[0] is RawToError,
    ensures
        pre.stage is AwaitVirtual || pre.stage is AwaitNewRaw,
        notes_of(cmd).len() == 1,
{
}

/// Every instance a converter returned and the check passed goes into the
/// plan that is saved, in order, for the task being converted.
pub proof fn law_receive_plans_every_converted(pre: ReceiveFlow, rtn: Converted, post: ReceiveFlow, cmd: Command)
    requires
        pre.stage is AwaitConverted,
        ReceiveFlow::next_step(pre, Reply::Converted(Ok(rtn)), post, cmd),
    ensures
        cmd matches Command::Await(Effect::SavePlan(t, v)) && t@ == pre.task@ && v@ == rtn.converted@,
        post.stage == ReceiveStage::AwaitPlan(rtn.done_task),
{
}

/// A saved plan is stored in full under the task the conversion finishes.
pub proof fn law_receive_stores_plan_under_done_task(pre: ReceiveFlow, done: RawTask, plan: PlanInfo, post: ReceiveFlow, cmd: Command)
    requires
        pre.stage == ReceiveStage::AwaitPlan(done),
        ReceiveFlow::next_step(pre, Reply::Plan(Ok(plan)), post, cmd),
    ensures
        post.stage matches ReceiveStage::Preparing(p) && p.carrier == done && p.plan == plan && p.next == 0
            && p.pairs@.len() == 0,
{
}

/// A failed check of converted instances is recorded against the converted
/// task and is the result.
pub proof fn law_receive_check_failure_recorded(pre: ReceiveFlow, e: NatureError, post: ReceiveFlow, cmd: Command)
    requires
        pre.stage is AwaitConverted,
        ReceiveFlow::next_step(pre, Reply::Converted(Err(e)), post, cmd),
    ensures
        cmd matches Command::Finish(_, r) && r == Err::<(), NatureError>(e),
        notes_of(cmd).len() == 1,
        notes_of(cmd)[0] matches Effect::RawToError(e2, raw) && e2 == e && raw@ == pre.raw@,
{
}

/// Failing to build the store task of a planned instance, or to save the
/// batch, ends the plan's storing without recording anything, so the task
/// stays to be retried.
pub proof fn law_plan_store_failures_are_quiet(pre: PrepareFlow, reply: Reply, post: PrepareFlow, cmd: Command)
    requires
        PrepareFlow::next_step(pre, reply, post, cmd),
        (pre.stage is AwaitStoreTask && reply matches Reply::StoreTask(Err(_))) || (pre.stage is AwaitSaveBatch
            && reply matches Reply::Done(Err(_))),
    ensures
        post.stage is Done,
        notes_of(cmd).len() == 0,
        cmd matches Command::Finish(_, r) && r is Ok,
{
}

/// The only error a plan's storing records is a raw task that could not be
/// built, and it is recorded against the finished task.
pub proof fn law_plan_records_only_raw_task_failures(pre: PrepareFlow, reply: Reply, post: PrepareFlow, cmd: Command)
    requires
        PrepareFlow::next_step(pre, reply, post, cmd),
        notes_of(cmd).len() > 0,
        notes_of(cmd)[0] is RawToError,
    ensures
        pre.stage is AwaitNewRaw,
        notes_of(cmd).len() == 1,
        reply matches Reply::Raw(Err(e)) && notes_of(cmd)[0] matches Effect::RawToError(e2, c) && e2 == e && c@ == pre.carrier@,
{
}

/// The instances a converter returned are checked as they are, for the
/// task and raw task being converted.
pub proof fn law_convert_checks_returned_instances(pre: ConvertFlow, v: Vec<Instance>, post: ConvertFlow, cmd: Command)
    requires
        pre.stage is AwaitReturned,
        ConvertFlow::next_step(pre, Reply::Returned(Ok(ConverterReturned::Instances(v))), post, cmd),
    ensures
        cmd matches Command::Await(Effect::GenConverted(t, r, v2)) && t@ == pre.task@ && r@ == pre.raw@ && v2 == v,
{
}

/// A delay asked for by a converter postpones the converted task by that
/// many seconds, and nothing else happens.
pub proof fn law_convert_delay_postpones(pre: ConvertFlow, d: u32, post: ConvertFlow, cmd: Command)
    requires
        pre.stage is AwaitReturned,
        ConvertFlow::next_step(pre, Reply::Returned(Ok(ConverterReturned::Delay(d))), post, cmd),
    ensures
        notes_of(cmd).len() == 1,
        notes_of(cmd)[0] matches Effect::UpdateExecuteTime(id, t) && id@ == pre.raw.task_id@ && t == d as i64,
{
}

/// A logical error of a converter is recorded against the converted task
/// with its message.
pub proof fn law_convert_logical_error_recorded(pre: ConvertFlow, msg: String, post: ConvertFlow, cmd: Command)
    requires
        pre.stage is AwaitReturned,
        ConvertFlow::next_step(pre, Reply::Returned(Ok(ConverterReturned::LogicalError(msg))), post, cmd),
    ensures
        notes_of(cmd).len() == 1,
        notes_of(cmd)[0] matches Effect::RawToError(e, raw) && e == NatureError::ConverterLogicalError(msg) && raw@ == pre.raw@,
{
}

/// Once a conversion hands its instances on, whatever becomes of them, the
/// conversion itself ends with success.
pub proof fn law_convert_ignores_received_result(pre: ConvertFlow, reply: Reply, post: ConvertFlow, cmd: Command)
    requires
        pre.stage is Receiving,
        ConvertFlow::next_step(pre, reply, post, cmd),
    ensures
        cmd matches Command::Finish(_, r) ==> r is Ok,
{
}

/// The raw tasks of the conversion tasks are saved in one batch, in their
/// order, dropping the stored task's own raw task.
pub proof fn law_stored_saves_every_conversion(pre: StoredFlow, cs: Vec<(TaskForConvert, RawTask)>, post: StoredFlow, cmd: Command)
    requires
        pre.stage is AwaitConvertTasks,
        StoredFlow::next_step(pre, Reply::ConvertTasks(Ok(cs)), post, cmd),
    ensures
        post.stage == StoredStage::AwaitSaveBatch(cs),
        cmd matches Command::Await(Effect::SaveBatch(raws, id)) && raws@.len() == cs@.len() && id@ == pre.raw.task_id@
            && forall|k: int| 0 <= k < cs@.len() ==> (#[trigger] raws@[k])@ == cs@[k].1@,
{
    match cmd {
        Command::Await(Effect::SaveBatch(raws, id)) => {
            assert(raw_views(raws@).len() == raws@.len());
            assert(convert_raw_views(cs@).len() == cs@.len());
            assert forall|k: int| 0 <= k < cs@.len() implies (#[trigger] raws@[k])@ == cs@[k].1@ by {
                assert(raw_views(raws@)[k] == raws@[k]@);
                assert(convert_raw_views(cs@)[k] == cs@[k].1@);
            }
        },
        _ => {},
    }
}

/// After the batch is saved, every conversion task is handed on as it
/// came, in order, with its raw task.
pub proof fn law_stored_hands_on_every_conversion(pre: StoredFlow, cs: Vec<(TaskForConvert, RawTask)>, post: StoredFlow, cmd: Command)
    requires
        pre.stage == StoredStage::AwaitSaveBatch(cs),
        StoredFlow::next_step(pre, Reply::Done(Ok(())), post, cmd),
    ensures
        notes_of(cmd).len() == cs@.len(),
        forall|k: int| 0 <= k < cs@.len() ==> #[trigger] notes_of(cmd)[k] == Effect::SendConvert(cs@[k].0, cs@[k].1),
        cmd matches Command::Finish(_, r) && r is Ok,
{
}

/// Building the conversion tasks can fail; the failure is recorded against
/// the stored task's raw task.
pub proof fn law_stored_failure_recorded(pre: StoredFlow, e: NatureError, post: StoredFlow, cmd: Command)
    requires
        pre.stage is AwaitConvertTasks,
        StoredFlow::next_step(pre, Reply::ConvertTasks(Err(e)), post, cmd),
    ensures
        notes_of(cmd).len() == 1,
        notes_of(cmd)[0] matches Effect::RawToError(e2, raw) && e2 == e && raw@ == pre.raw@,
{
}

/// Once its instance is saved, the store task goes on with its carrier as
/// they were given.
pub proof fn law_save_hands_on_what_it_saved(pre: SaveFlow, t: TaskForStore, c: RawTask, post: SaveFlow, cmd: Command)
    requires
        pre.stage == SaveStage::AwaitSave(t, c),
        SaveFlow::next_step(pre, Reply::Done(Ok(())), post, cmd),
    ensures
        cmd == Command::Await(Effect::SendStored(t, c)),
{
}

/// A failure to save or to send is the result exactly when the flow keeps
/// its result; either way nothing else happens.
pub proof fn law_save_failure_result(pre: SaveFlow, e: NatureError, post: SaveFlow, cmd: Command)
    requires
        pre.stage is AwaitSave || pre.stage is AwaitSend,
        SaveFlow::next_step(pre, Reply::Done(Err(e)), post, cmd),
    ensures
        notes_of(cmd).len() == 0,
        pre.keeps_result ==> (cmd matches Command::Finish(_, r) && r == Err::<(), NatureError>(e)),
        !pre.keeps_result ==> (cmd matches Command::Finish(_, r) && r is Ok),
{
}

impl InnerController {
    /// Saves the instance of a store task and hands the task on as stored,
    /// as `save_instance` does; a failure is dropped and the flow ends with
    /// success.
    pub fn channel_store(store: (TaskForStore, RawTask)) -> (res: (SaveFlow, Command))
        ensures
            SaveFlow::started(res.0, store.0, store.1, false, res.1),
    {
        let (task, carrier) = store;
        let i = task.instance.clone();
        (SaveFlow { keeps_result: false, stage: SaveStage::AwaitSave(task, carrier) }, Command::Await(Effect::SaveInstance(i)))
    }

    /// Saves the instance of `task`, then hands `task` and `carrier` to the
    /// stored-task channel. The first failure is the result.
    pub fn save_instance(task: TaskForStore, carrier: RawTask) -> (res: (SaveFlow, Command))
        ensures
            SaveFlow::started(res.0, task, carrier, true, res.1),
    {
        let i = task.instance.clone();
        (SaveFlow { keeps_result: true, stage: SaveStage::AwaitSave(task, carrier) }, Command::Await(Effect::SaveInstance(i)))
    }

    /// Starts the follow-up of a stored task. Without missions there is
    /// nothing to follow and the raw task is deleted; otherwise the
    /// conversion tasks are built, their raw tasks saved in one batch that
    /// drops `raw`, and the conversion tasks handed on.
    pub fn channel_stored(task: TaskForStore, raw: RawTask) -> (res: (StoredFlow, Command))
        ensures
            res.0.raw == raw,
            task.mission is None ==> {
                &&& res.0.stage is Done
                &&& res.1 matches Command::Finish(notes, Ok(())) && notes@.len() == 1
                &&& res.1 matches Command::Finish(notes, _) && notes@[0] matches Effect::DeleteTask(id) && id@ == raw.task_id@
            },
            task.mission is Some ==> res.0.stage is AwaitConvertTasks && res.1 == Command::Await(Effect::GenConvertTasks(task)),
    {
        if task.mission.is_none() {
            let id = clone_bytes(&raw.task_id);
            (StoredFlow { raw, stage: StoredStage::Done }, finish_one(Effect::DeleteTask(id)))
        } else {
            (StoredFlow { raw, stage: StoredStage::AwaitConvertTasks }, Command::Await(Effect::GenConvertTasks(task)))
        }
    }

    /// Starts the follow-up of a serial batch carried by `task.1`: the batch
    /// is stored, its outcome becomes a virtual instance under the context key
    /// `context_for_finish`, and that instance gets a store task whose raw
    /// task replaces the batch's own before it is handed on as stored.
    pub fn channel_serial(task: (TaskForSerial, RawTask)) -> (res: (SerialFlow, Command))
        ensures
            res.0.carrier == task.1,
            res.0.finish == task.0.context_for_finish,
            res.0.stage is AwaitSerialSave,
            res.1 == Command::Await(Effect::SaveSerial(task.0)),
    {
        let (batch, carrier) = task;
        let finish = batch.context_for_finish.clone();
        (SerialFlow { carrier, finish, stage: SerialStage::AwaitSerialSave }, Command::Await(Effect::SaveSerial(batch)))
    }
}

} // verus!
