use vstd::prelude::*;
use crate::error::{NatureError, debug_text, error_text};
use crate::flow::{Command, Effect, Reply, notes_of, finish_failing, finish_one, finish_quietly, finish_with, quiet_finish};
use crate::model::{
    Carrier, ContextEntry, Instance, InstanceView, Meta, SerialBatchInstance, SerialFinished, StoreInfo,
    clone_instances, instance_views,
};

verus! {

/// The full key of the virtual instances that report on serial batches.
pub open spec fn serial_key() -> Seq<char> {
    "/sys/batch/serial"@
}

/// The current time as seconds since the Unix epoch, read from
/// `chrono::Local::now().timestamp()`. Claimed: the value is not negative
/// (chrono reads the system clock as a duration since the epoch).
#[verifier::external_body]
fn local_timestamp() -> (t: i64)
    ensures
        t >= 0,
{
    chrono::Local::now().timestamp()
}

/// `v` is the virtual instance that reports, at `time`, a serial batch whose
/// outcome serialises to `json`, under the context key `context_name`.
pub open spec fn is_serial_virtual_instance(v: InstanceView, context_name: Seq<char>, json: Seq<char>, time: i64) -> bool {
    &&& v.id == 0
    &&& v.thing.key@ == serial_key()
    &&& v.thing.version == 1
    &&& v.event_time == time
    &&& v.execute_time == time
    &&& v.create_time == time
    &&& v.content@ == Seq::<char>::empty()
    &&& v.context.len() == 1
    &&& v.context[0].key@ == context_name
    &&& v.context[0].value@ == json
    &&& v.status.len() == 0
    &&& v.status_version == 0
    &&& v.from is None
}

/// Builds the virtual instance that reports, at `time`, a serial batch whose
/// outcome serialises to `json`.
pub fn virtual_instance_at(context_name: &String, json: String, time: i64) -> (res: Instance)
    ensures
        is_serial_virtual_instance(res@, context_name@, json@, time),
        res@.well_formed(),
{
    let mut context: Vec<ContextEntry> = Vec::new();
    context.push(ContextEntry { key: context_name.clone(), value: json });
    Instance {
        id: 0,
        thing: Meta { key: "/sys/batch/serial".to_owned(), version: 1 },
        event_time: time,
        execute_time: time,
        create_time: time,
        content: String::new(),
        context,
        status: Vec::new(),
        status_version: 0,
        from: None,
    }
}

/// Builds, at the current time, the virtual instance that reports on the
/// batch of `carrier`, whose outcome serialises to `finished_json`. The
/// outcome goes under the batch's `context_for_finish` key.
pub fn new_virtual_instance(carrier: &Carrier<SerialBatchInstance>, finished_json: String) -> (res: Instance)
    ensures
        is_serial_virtual_instance(res@, carrier.data.context_for_finish@, finished_json@, res.create_time),
        res@.well_formed(),
{
    let time = local_timestamp();
    virtual_instance_at(&carrier.data.context_for_finish, finished_json, time)
}

/// Where the storing of a serial batch's items stands.
#[derive(Debug)]
pub enum BatchStage {
    /// Waiting for `instances[next]` to be verified.
    AwaitVerify,
    /// Waiting for the verified instance with this id to be inserted.
    AwaitInsert(u128),
    /// Every item was handled.
    Finished,
    /// This environment error of the store stopped the batch; it will be retried.
    Stopped(NatureError),
    /// A reply that did not answer what the batch asked for ended it.
    Abandoned,
}

/// The storing of the items of a serial batch, one after another. An item
/// that fails verification or insertion is listed by its error text and
/// the batch goes on; an item that is inserted, or was inserted before, is
/// listed by its id. An environment error of the store stops the batch.
#[derive(Debug)]
pub struct BatchFlow {
    pub instances: Vec<Instance>,
    pub next: usize,
    pub succeeded: Vec<u128>,
    pub errors: Vec<String>,
    pub stage: BatchStage,
}

/// Whether an insertion outcome counts the item as stored.
pub open spec fn insert_stored(r: Result<(), NatureError>) -> bool {
    r is Ok || r matches Err(NatureError::DaoDuplicated)
}

/// Whether an insertion outcome stops the whole batch.
pub open spec fn insert_stops(r: Result<(), NatureError>) -> bool {
    r matches Err(NatureError::DaoEnvironmentError(_))
}

impl BatchFlow {
    pub open spec fn wf(&self) -> bool {
        &&& self.next <= self.instances@.len()
        &&& (self.stage is AwaitVerify || self.stage is AwaitInsert) ==> self.next < self.instances@.len()
        &&& self.stage is Finished ==> self.next == self.instances@.len()
        &&& self.succeeded@.len() + self.errors@.len() == self.next
    }

    /// Whether the flow is well formed, so that it may take a step.
    pub fn well_formed(&self) -> (res: bool)
        ensures
            res == self.wf(),
    {
        let n = self.instances.len();
        let busy = match self.stage {
            BatchStage::AwaitVerify => true,
            BatchStage::AwaitInsert(_) => true,
            _ => false,
        };
        let finished = match self.stage {
            BatchStage::Finished => true,
            _ => false,
        };
        self.next <= n && (!busy || self.next < n) && (!finished || self.next == n) && self.succeeded.len()
            <= self.next && self.errors.len() == self.next - self.succeeded.len()
    }

    /// What the batch gives once it has stopped asking: its outcome when every
    /// item was handled, the environment error that stopped it, or nothing.
    pub open spec fn result(self) -> Option<Result<SerialFinished, NatureError>> {
        match self.stage {
            BatchStage::Finished => Some(Ok(SerialFinished { succeeded_id: self.succeeded, errors: self.errors })),
            BatchStage::Stopped(e) => Some(Err(e)),
            _ => None,
        }
    }

    /// `post` and `eff` are the flow after the item at `pre.next` is handled.
    pub open spec fn advanced(pre: Self, post: Self, eff: Option<Effect>) -> bool {
        &&& post.next == pre.next + 1
        &&& if post.next < pre.instances@.len() {
            &&& post.stage is AwaitVerify
            &&& eff matches Some(Effect::VerifyInstance(i)) && i@ == pre.instances@[post.next as int]@
        } else {
            post.stage is Finished && eff is None
        }
    }

    /// The transition of the flow on `reply`; `eff` is the next effect to
    /// await, or none when the batch is over.
    pub open spec fn next_step(pre: Self, reply: Reply, post: Self, eff: Option<Effect>) -> bool {
        &&& post.instances == pre.instances
        &&& match (pre.stage, reply) {
            (BatchStage::AwaitVerify, Reply::Instance(Err(e))) => {
                &&& Self::advanced(pre, post, eff)
                &&& post.succeeded == pre.succeeded
                &&& post.errors@.len() == pre.errors@.len() + 1
                &&& post.errors@.drop_last() == pre.errors@
                &&& post.errors@.last()@ == error_text(e)
            },
            (BatchStage::AwaitVerify, Reply::Instance(Ok(i))) => {
                &&& post.stage == BatchStage::AwaitInsert(i.id)
                &&& post.next == pre.next
                &&& post.succeeded == pre.succeeded
                &&& post.errors == pre.errors
                &&& eff == Some(Effect::InsertInstance(i))
            },
            (BatchStage::AwaitInsert(id), Reply::Done(r)) => {
                if insert_stops(r) {
                    &&& r matches Err(e) && post.stage == BatchStage::Stopped(e)
                    &&& eff is None
                } else if insert_stored(r) {
                    &&& Self::advanced(pre, post, eff)
                    &&& post.succeeded@ == pre.succeeded@.push(id)
                    &&& post.errors == pre.errors
                } else {
                    &&& Self::advanced(pre, post, eff)
                    &&& post.succeeded == pre.succeeded
                    &&& post.errors@.len() == pre.errors@.len() + 1
                    &&& post.errors@.drop_last() == pre.errors@
                    &&& r matches Err(e) && post.errors@.last()@ == error_text(e)
                }
            },
            _ => post.stage is Abandoned && eff is None,
        }
    }

    fn advance(self) -> (res: (Self, Option<Effect>))
        requires
            self.next < self.instances@.len(),
            self.succeeded@.len() + self.errors@.len() == self.next + 1,
        ensures
            res.0.wf(),
            Self::advanced(self, res.0, res.1),
            res.0.instances == self.instances,
            res.0.succeeded == self.succeeded,
            res.0.errors == self.errors,
    {
        let BatchFlow { instances, next, succeeded, errors, stage } = self;
        assert(next < instances.len());
        let next = next + 1;
        if next < instances.len() {
            let i = instances[next].clone();
            (BatchFlow { instances, next, succeeded, errors, stage: BatchStage::AwaitVerify }, Some(Effect::VerifyInstance(i)))
        } else {
            (BatchFlow { instances, next, succeeded, errors, stage: BatchStage::Finished }, None)
        }
    }

    /// Takes the reply to the last effect asked for and says what comes next.
    pub fn step(self, reply: Reply) -> (res: (Self, Option<Effect>))
        requires
            self.wf(),
        ensures
            res.0.wf() || res.0.stage is Stopped || res.0.stage is Abandoned,
            Self::next_step(self, reply, res.0, res.1),
    {
        let BatchFlow { instances, next, succeeded, errors, stage } = self;
        match (stage, reply) {
            (BatchStage::AwaitVerify, Reply::Instance(Err(e))) => {
                let mut errors = errors;
                let ghost before = errors@;
                errors.push(debug_text(&e));
                assert(errors@.drop_last() =~= before);
                let flow = BatchFlow { instances, next, succeeded, errors, stage: BatchStage::AwaitVerify };
                flow.advance()
            },
            (BatchStage::AwaitVerify, Reply::Instance(Ok(i))) => {
                let id = i.id;
                (BatchFlow { instances, next, succeeded, errors, stage: BatchStage::AwaitInsert(id) }, Some(Effect::InsertInstance(i)))
            },
            (BatchStage::AwaitInsert(id), Reply::Done(r)) => {
                match r {
                    Err(NatureError::DaoEnvironmentError(m)) => {
                        let stage = BatchStage::Stopped(NatureError::DaoEnvironmentError(m));
                        (BatchFlow { instances, next, succeeded, errors, stage }, None)
                    },
                    Ok(()) => {
                        let mut succeeded = succeeded;
                        succeeded.push(id);
                        let flow = BatchFlow { instances, next, succeeded, errors, stage: BatchStage::AwaitVerify };
                        flow.advance()
                    },
                    Err(NatureError::DaoDuplicated) => {
                        let mut succeeded = succeeded;
                        succeeded.push(id);
                        let flow = BatchFlow { instances, next, succeeded, errors, stage: BatchStage::AwaitVerify };
                        flow.advance()
                    },
                    Err(e) => {
                        let mut errors = errors;
                        let ghost before = errors@;
                        errors.push(debug_text(&e));
                        assert(errors@.drop_last() =~= before);
                        let flow = BatchFlow { instances, next, succeeded, errors, stage: BatchStage::AwaitVerify };
                        flow.advance()
                    },
                }
            },
            (_, _) => (BatchFlow { instances, next, succeeded, errors, stage: BatchStage::Abandoned }, None),
        }
    }
}


/// Every item of a finished batch is accounted for once: by its id when it
/// was stored, by an error text otherwise.
pub proof fn law_batch_accounts_every_item(pre: BatchFlow, reply: Reply, post: BatchFlow, eff: Option<Effect>)
    requires
        pre.wf(),
        BatchFlow::next_step(pre, reply, post, eff),
        post.stage is Finished,
    ensures
        post.succeeded@.len() + post.errors@.len() == post.instances@.len(),
{
}

/// An environment error of the store stops the batch: nothing more is
/// asked, and that error is the batch's result.
pub proof fn law_batch_stops_on_environment_error(pre: BatchFlow, id: u128, msg: String, post: BatchFlow, eff: Option<Effect>)
    requires
        pre.stage == BatchStage::AwaitInsert(id),
        BatchFlow::next_step(pre, Reply::Done(Err(NatureError::DaoEnvironmentError(msg))), post, eff),
    ensures
        post.result() == Some(Err::<SerialFinished, NatureError>(NatureError::DaoEnvironmentError(msg))),
        eff is None,
{
}

/// The texts of a sequence of strings.
pub open spec fn text_views(s: Seq<String>) -> Seq<Seq<char>> {
    s.map_values(|x: String| x@)
}

/// `flows`, `replies` and `effs` are a run of a batch: each reply takes the
/// batch one step, and `effs[i + 1]` is what step `i` asked for.
pub open spec fn batch_run(flows: Seq<BatchFlow>, replies: Seq<Reply>, effs: Seq<Option<Effect>>) -> bool {
    &&& flows.len() == replies.len() + 1
    &&& effs.len() == replies.len() + 1
    &&& forall|i: int| 0 <= i < replies.len() ==> #[trigger] BatchFlow::next_step(flows[i], replies[i], flows[i + 1], effs[i + 1])
}

/// `again` answers a retried batch where `first` answered the first run: the
/// same answer, except that an insertion that succeeded the first time now
/// finds the instance already stored.
pub open spec fn retried_reply(first: Reply, again: Reply) -> bool {
    match first {
        Reply::Done(Ok(())) => again == Reply::Done(Err(NatureError::DaoDuplicated)),
        _ => again == first,
    }
}

/// Two batches stand at the same point with the same outcome so far.
pub open spec fn same_progress(a: BatchFlow, b: BatchFlow) -> bool {
    match a.stage {
        BatchStage::Stopped(_) => b.stage == a.stage,
        BatchStage::Abandoned => b.stage is Abandoned,
        _ => {
            &&& b.stage == a.stage
            &&& b.next == a.next
            &&& b.instances@.len() == a.instances@.len()
            &&& b.succeeded@ == a.succeeded@
            &&& text_views(b.errors@) == text_views(a.errors@)
        },
    }
}

proof fn lemma_pushed_texts(pre: Seq<String>, post: Seq<String>, text: Seq<char>)
    requires
        post.len() == pre.len() + 1,
        post.drop_last() == pre,
        post.last()@ == text,
    ensures
        text_views(post) == text_views(pre).push(text),
{
    assert forall|k: int| 0 <= k < post.len() implies #[trigger] text_views(post)[k] == text_views(pre).push(text)[k] by {
        if k < pre.len() {
            assert(post.drop_last()[k] == post[k]);
        }
    }
    assert(text_views(post) =~= text_views(pre).push(text));
}

proof fn lemma_retried_step(
    a: BatchFlow,
    b: BatchFlow,
    r1: Reply,
    r2: Reply,
    a2: BatchFlow,
    b2: BatchFlow,
    e1: Option<Effect>,
    e2: Option<Effect>,
)
    requires
        same_progress(a, b),
        retried_reply(r1, r2),
        BatchFlow::next_step(a, r1, a2, e1),
        BatchFlow::next_step(b, r2, b2, e2),
    ensures
        same_progress(a2, b2),
{
    match (a.stage, r1) {
        (BatchStage::AwaitVerify, Reply::Instance(Err(e))) => {
            lemma_pushed_texts(a.errors@, a2.errors@, error_text(e));
            lemma_pushed_texts(b.errors@, b2.errors@, error_text(e));
        },
        (BatchStage::AwaitInsert(_), Reply::Done(r)) => {
            if !insert_stored(r) && !insert_stops(r) {
                let e = r->Err_0;
                lemma_pushed_texts(a.errors@, a2.errors@, error_text(e));
                lemma_pushed_texts(b.errors@, b2.errors@, error_text(e));
            }
        },
        _ => {},
    }
}

/// Retrying a batch reports the same outcome: when a first run finished, a
/// second run answered the same way, except that each insertion that
/// succeeded before now finds its instance already stored, finishes too, with
/// the same stored ids and the same error texts.
pub proof fn law_batch_retry_reports_same(
    f1: Seq<BatchFlow>,
    r1: Seq<Reply>,
    e1: Seq<Option<Effect>>,
    f2: Seq<BatchFlow>,
    r2: Seq<Reply>,
    e2: Seq<Option<Effect>>,
)
    requires
        batch_run(f1, r1, e1),
        batch_run(f2, r2, e2),
        r1.len() == r2.len(),
        forall|i: int| 0 <= i < r1.len() ==> retried_reply(#[trigger] r1[i], r2[i]),
        same_progress(f1[0], f2[0]),
        f1.last().stage is Finished,
    ensures
        f2.last().stage is Finished,
        f2.last().succeeded@ == f1.last().succeeded@,
        text_views(f2.last().errors@) == text_views(f1.last().errors@),
{
    lemma_retried_run(f1, r1, e1, f2, r2, e2, r1.len() as int);
    assert(f1.last() == f1[r1.len() as int]);
    assert(f2.last() == f2[r1.len() as int]);
}

proof fn lemma_retried_run(
    f1: Seq<BatchFlow>,
    r1: Seq<Reply>,
    e1: Seq<Option<Effect>>,
    f2: Seq<BatchFlow>,
    r2: Seq<Reply>,
    e2: Seq<Option<Effect>>,
    i: int,
)
    requires
        batch_run(f1, r1, e1),
        batch_run(f2, r2, e2),
        r1.len() == r2.len(),
        forall|k: int| 0 <= k < r1.len() ==> retried_reply(#[trigger] r1[k], r2[k]),
        same_progress(f1[0], f2[0]),
        0 <= i <= r1.len(),
    ensures
        same_progress(f1[i], f2[i]),
    decreases i,
{
    if i > 0 {
        let j = i - 1;
        lemma_retried_run(f1, r1, e1, f2, r2, e2, j);
        assert(BatchFlow::next_step(f1[j], r1[j], f1[j + 1], e1[j + 1]));
        assert(BatchFlow::next_step(f2[j], r2[j], f2[j + 1], e2[j + 1]));
        assert(retried_reply(r1[j], r2[j]));
        lemma_retried_step(f1[j], f2[j], r1[j], r2[j], f1[j + 1], f2[j + 1], e1[j + 1], e2[j + 1]);
    }
}

/// Starts storing the items of the batch `carrier` carries, one after
/// another; a batch without items is finished at once.
pub fn store_batch_items(carrier: &Carrier<SerialBatchInstance>) -> (res: (BatchFlow, Option<Effect>))
    ensures
        res.0.wf(),
        instance_views(res.0.instances@) == instance_views(carrier.data.instances@),
        res.0.next == 0,
        res.0.succeeded@.len() == 0,
        res.0.errors@.len() == 0,
        if carrier.data.instances@.len() == 0 {
            res.0.stage is Finished && res.1 is None
        } else {
            &&& res.0.stage is AwaitVerify
            &&& res.1 matches Some(Effect::VerifyInstance(i)) && i@ == carrier.data.instances@[0]@
        },
{
    let instances = clone_instances(&carrier.data.instances);
    assert(instances@.len() == instance_views(instances@).len());
    assert(carrier.data.instances@.len() == instance_views(carrier.data.instances@).len());
    let empty = BatchFlow { instances, next: 0, succeeded: Vec::new(), errors: Vec::new(), stage: BatchStage::Finished };
    if empty.instances.len() == 0 {
        (empty, None)
    } else {
        let i = empty.instances[0].clone();
        assert(instance_views(empty.instances@)[0] == empty.instances@[0]@);
        assert(instance_views(carrier.data.instances@)[0] == carrier.data.instances@[0]@);
        (BatchFlow { stage: BatchStage::AwaitVerify, ..empty }, Some(Effect::VerifyInstance(i)))
    }
}

/// The outcome of a finished batch: the ids stored and the error texts.
pub open spec fn finished_of(b: BatchFlow) -> SerialFinished {
    SerialFinished { succeeded_id: b.succeeded, errors: b.errors }
}

/// Where the processing of a serial carrier stands.
#[derive(Debug)]
pub enum DoSerialStage {
    /// Storing the items of the carried batch.
    Storing(BatchFlow, Carrier<SerialBatchInstance>),
    /// Waiting for the outcome of the batch to be serialised.
    AwaitJson(Carrier<SerialBatchInstance>),
    /// Waiting for the store carrier of the virtual instance.
    AwaitRoute,
    Done,
}

/// The processing of a serial carrier: its items are stored, the outcome
/// becomes a virtual instance, and that instance is carried on to routing.
#[derive(Debug)]
pub struct DoSerialFlow {
    pub stage: DoSerialStage,
}

impl DoSerialFlow {
    pub open spec fn wf(&self) -> bool {
        self.stage matches DoSerialStage::Storing(b, _) ==> b.wf() && (b.stage is AwaitVerify || b.stage is AwaitInsert)
    }

    /// Whether the flow is well formed, so that it may take a step.
    pub fn well_formed(&self) -> (res: bool)
        ensures
            res == self.wf(),
    {
        match &self.stage {
            DoSerialStage::Storing(b, _) => {
                let busy = match b.stage {
                    BatchStage::AwaitVerify => true,
                    BatchStage::AwaitInsert(_) => true,
                    _ => false,
                };
                busy && b.well_formed()
            },
            _ => true,
        }
    }

    /// `post` and `cmd` follow once the batch `b` of `carrier` has stopped asking.
    pub open spec fn after_batch(b: BatchFlow, carrier: Carrier<SerialBatchInstance>, post: Self, cmd: Command) -> bool {
        if b.stage is Finished {
            &&& post.stage == DoSerialStage::AwaitJson(carrier)
            &&& cmd == Command::Await(Effect::SerializeFinished(finished_of(b)))
        } else {
            post.stage is Done && finish_quietly(cmd)
        }
    }

    /// The transition of the flow on `reply`.
    pub open spec fn next_step(pre: Self, reply: Reply, post: Self, cmd: Command) -> bool {
        match (pre.stage, reply) {
            (DoSerialStage::Storing(b, c), _) => exists|b2: BatchFlow, e: Option<Effect>| {
                &&& #[trigger] BatchFlow::next_step(b, reply, b2, e)
                &&& match e {
                    Some(eff) => post.stage == DoSerialStage::Storing(b2, c) && cmd == Command::Await(eff),
                    None => Self::after_batch(b2, c, post, cmd),
                }
            },
            (DoSerialStage::AwaitJson(c), Reply::Json(Err(e))) => {
                post.stage is Done && finish_with(cmd, Effect::MoveSerialToErr(e, c))
            },
            (DoSerialStage::AwaitJson(c), Reply::Json(Ok(json))) => {
                &&& post.stage is AwaitRoute
                &&& cmd matches Command::Await(Effect::CreateAndFinishCarrier(si, c2)) && c2 == c && si.converter is None
                    && is_serial_virtual_instance(si.instance@, c.data.context_for_finish@, json@, si.instance.create_time)
            },
            (DoSerialStage::AwaitRoute, Reply::StoreCarrier(Ok(route))) => {
                post.stage is Done && finish_with(cmd, Effect::SendRoute(route))
            },
            _ => post.stage is Done && finish_quietly(cmd),
        }
    }

    /// Takes the reply to the last effect asked for and says what comes next.
    pub fn step(self, reply: Reply) -> (res: (Self, Command))
        requires
            self.wf(),
        ensures
            res.0.wf(),
            Self::next_step(self, reply, res.0, res.1),
    {
        match (self.stage, reply) {
            (DoSerialStage::Storing(b, c), r) => {
                let (b2, e) = b.step(r);
                match e {
                    Some(eff) => (DoSerialFlow { stage: DoSerialStage::Storing(b2, c) }, Command::Await(eff)),
                    None => Self::finish_batch(b2, c),
                }
            },
            (DoSerialStage::AwaitJson(c), Reply::Json(Err(e))) => {
                (DoSerialFlow { stage: DoSerialStage::Done }, finish_one(Effect::MoveSerialToErr(e, c)))
            },
            (DoSerialStage::AwaitJson(c), Reply::Json(Ok(json))) => {
                let instance = new_virtual_instance(&c, json);
                let si = StoreInfo { instance, converter: None };
                (DoSerialFlow { stage: DoSerialStage::AwaitRoute }, Command::Await(Effect::CreateAndFinishCarrier(si, c)))
            },
            (DoSerialStage::AwaitRoute, Reply::StoreCarrier(Ok(route))) => {
                (DoSerialFlow { stage: DoSerialStage::Done }, finish_one(Effect::SendRoute(route)))
            },
            (_, _) => (DoSerialFlow { stage: DoSerialStage::Done }, quiet_finish()),
        }
    }

    fn finish_batch(b: BatchFlow, c: Carrier<SerialBatchInstance>) -> (res: (Self, Command))
        ensures
            res.0.wf(),
            Self::after_batch(b, c, res.0, res.1),
    {
        match b.stage {
            BatchStage::Finished => {
                let sf = SerialFinished { succeeded_id: b.succeeded, errors: b.errors };
                (DoSerialFlow { stage: DoSerialStage::AwaitJson(c) }, Command::Await(Effect::SerializeFinished(sf)))
            },
            _ => (DoSerialFlow { stage: DoSerialStage::Done }, quiet_finish()),
        }
    }
}

/// An inserted item, or one the store already had, is listed by its id;
/// an environment error stops the batch with that error; any other
/// insertion error lists the item by the text of the error.
pub proof fn law_batch_insert_outcome(pre: BatchFlow, id: u128, r: Result<(), NatureError>, post: BatchFlow, eff: Option<Effect>)
    requires
        pre.stage == BatchStage::AwaitInsert(id),
        BatchFlow::next_step(pre, Reply::Done(r), post, eff),
    ensures
        r is Ok ==> post.succeeded@ == pre.succeeded@.push(id) && post.errors == pre.errors,
        r == Err::<(), NatureError>(NatureError::DaoDuplicated) ==> post.succeeded@ == pre.succeeded@.push(id)
            && post.errors == pre.errors,
        r matches Err(NatureError::DaoEnvironmentError(m)) ==> post.stage == BatchStage::Stopped(
            NatureError::DaoEnvironmentError(m),
        ) && eff is None,
        r matches Err(e) ==> {
            ||| e is DaoDuplicated
            ||| e is DaoEnvironmentError
            ||| {
                &&& post.succeeded == pre.succeeded
                &&& post.errors@.len() == pre.errors@.len() + 1
                &&& post.errors@.drop_last() == pre.errors@
                &&& post.errors@.last()@ == error_text(e)
            }
        },
{
}

/// A verified item is inserted as verification left it; an item that fails
/// verification is listed by the text of the error and not inserted.
pub proof fn law_batch_verify_outcome(pre: BatchFlow, r: Result<Instance, NatureError>, post: BatchFlow, eff: Option<Effect>)
    requires
        pre.stage is AwaitVerify,
        BatchFlow::next_step(pre, Reply::Instance(r), post, eff),
    ensures
        r matches Ok(i) ==> eff == Some(Effect::InsertInstance(i)) && post.stage == BatchStage::AwaitInsert(i.id)
            && post.succeeded == pre.succeeded && post.errors == pre.errors,
        r matches Err(e) ==> {
            &&& post.succeeded == pre.succeeded
            &&& post.errors@.drop_last() == pre.errors@
            &&& post.errors@.last()@ == error_text(e)
            &&& !(eff matches Some(Effect::InsertInstance(_)))
        },
{
}

/// Items are handled one after another, in the batch's order: whenever the
/// batch moves on, it asks to verify the next item as it stands in the batch.
pub proof fn law_batch_goes_through_items_in_order(pre: BatchFlow, reply: Reply, post: BatchFlow, eff: Option<Effect>)
    requires
        pre.wf(),
        BatchFlow::next_step(pre, reply, post, eff),
    ensures
        eff matches Some(Effect::VerifyInstance(i)) ==> post.next == pre.next + 1 && i@ == pre.instances@[post.next as int]@,
        post.stage is Finished ==> post.next == pre.instances@.len(),
{
}

/// A submitted batch with a carrier hands that carrier to the serial
/// channel; without one, the failure is the result.
pub proof fn law_submit_outcome(pre: SubmitFlow, r: Result<Carrier<SerialBatchInstance>, NatureError>, post: SubmitFlow, cmd: Command)
    requires
        pre.stage is AwaitCarrier,
        SubmitFlow::next_step(pre, Reply::SerialCarrier(r), post, cmd),
    ensures
        r matches Ok(c) ==> notes_of(cmd) == seq![Effect::SendSerial(c)] && (cmd matches Command::Finish(_, x) && x is Ok),
        r matches Err(e) ==> notes_of(cmd).len() == 0 && (cmd matches Command::Finish(_, x) && x == Err::<(), NatureError>(e)),
{
}

/// When the items of a serial carrier are all handled, the outcome that is
/// serialised is exactly the ids and texts the batch listed.
pub proof fn law_do_serial_serialises_the_batch_outcome(
    pre: DoSerialFlow,
    b: BatchFlow,
    c: Carrier<SerialBatchInstance>,
    reply: Reply,
    post: DoSerialFlow,
    cmd: Command,
)
    requires
        pre.stage == DoSerialStage::Storing(b, c),
        DoSerialFlow::next_step(pre, reply, post, cmd),
        cmd matches Command::Await(e) && e is SerializeFinished,
    ensures
        post.stage == DoSerialStage::AwaitJson(c),
        exists|b2: BatchFlow| #[trigger] BatchFlow::next_step(b, reply, b2, None) && b2.stage is Finished
            && cmd == Command::Await(Effect::SerializeFinished(SerialFinished { succeeded_id: b2.succeeded, errors: b2.errors })),
{
    let (b2, e) = choose|b2: BatchFlow, e: Option<Effect>| {
        &&& #[trigger] BatchFlow::next_step(b, reply, b2, e)
        &&& match e {
            Some(eff) => post.stage == DoSerialStage::Storing(b2, c) && cmd == Command::Await(eff),
            None => DoSerialFlow::after_batch(b2, c, post, cmd),
        }
    };
}

/// The serialised outcome becomes a virtual instance, carried on to
/// routing with the serial carrier: its one context entry holds the outcome
/// under the batch's finish key.
pub proof fn law_do_serial_builds_the_report(pre: DoSerialFlow, c: Carrier<SerialBatchInstance>, json: String, post: DoSerialFlow, cmd: Command)
    requires
        pre.stage == DoSerialStage::AwaitJson(c),
        DoSerialFlow::next_step(pre, Reply::Json(Ok(json)), post, cmd),
    ensures
        cmd matches Command::Await(Effect::CreateAndFinishCarrier(si, c2)) && c2 == c && si.converter is None
            && si.instance@.context.len() == 1 && si.instance@.context[0].key@ == c.data.context_for_finish@
            && si.instance@.context[0].value@ == json@ && si.instance@.thing.key@ == serial_key(),
{
}

/// Failing to serialise the outcome moves the serial carrier to the error
/// list; a route carrier that comes back goes on to routing unchanged.
pub proof fn law_do_serial_last_steps(pre: DoSerialFlow, c: Carrier<SerialBatchInstance>, e: NatureError, post: DoSerialFlow, cmd: Command)
    requires
        pre.stage == DoSerialStage::AwaitJson(c),
        DoSerialFlow::next_step(pre, Reply::Json(Err(e)), post, cmd),
    ensures
        notes_of(cmd) == seq![Effect::MoveSerialToErr(e, c)],
{
}

/// The store carrier of the report goes on to routing as it came.
pub proof fn law_do_serial_routes_the_report(pre: DoSerialFlow, route: Carrier<StoreInfo>, post: DoSerialFlow, cmd: Command)
    requires
        pre.stage is AwaitRoute,
        DoSerialFlow::next_step(pre, Reply::StoreCarrier(Ok(route)), post, cmd),
    ensures
        notes_of(cmd) == seq![Effect::SendRoute(route)],
{
}

/// Starts processing a serial carrier: its items are stored one after
/// another, then the outcome is serialised.
pub fn do_serial(carrier: Carrier<SerialBatchInstance>) -> (res: (DoSerialFlow, Command))
    ensures
        res.0.wf(),
        carrier.data.instances@.len() == 0 ==> {
            &&& res.0.stage == DoSerialStage::AwaitJson(carrier)
            &&& res.1 matches Command::Await(Effect::SerializeFinished(sf))
                && sf.succeeded_id@.len() == 0 && sf.errors@.len() == 0
        },
        carrier.data.instances@.len() > 0 ==> {
            &&& res.0.stage matches DoSerialStage::Storing(b, c) && c == carrier && b.next == 0
                && b.succeeded@.len() == 0 && b.errors@.len() == 0 && b.stage is AwaitVerify
                && instance_views(b.instances@) == instance_views(carrier.data.instances@)
            &&& res.1 matches Command::Await(Effect::VerifyInstance(i)) && i@ == carrier.data.instances@[0]@
        },
{
    let (b, e) = store_batch_items(&carrier);
    match e {
        Some(eff) => (DoSerialFlow { stage: DoSerialStage::Storing(b, carrier) }, Command::Await(eff)),
        None => DoSerialFlow::finish_batch(b, carrier),
    }
}

/// Where the submission of a serial batch stands.
#[derive(Debug)]
pub enum SubmitStage {
    /// Waiting for a carrier to be made and persisted for the batch.
    AwaitCarrier,
    Done,
}

/// The submission of a serial batch: once it has a persisted carrier, the
/// carrier is handed to the serial channel to be processed later.
#[derive(Debug)]
pub struct SubmitFlow {
    pub stage: SubmitStage,
}

impl SubmitFlow {
    /// The transition of the flow on `reply`.
    pub open spec fn next_step(pre: Self, reply: Reply, post: Self, cmd: Command) -> bool {
        match (pre.stage, reply) {
            (SubmitStage::AwaitCarrier, Reply::SerialCarrier(Ok(c))) => {
                post.stage is Done && finish_with(cmd, Effect::SendSerial(c))
            },
            (SubmitStage::AwaitCarrier, Reply::SerialCarrier(Err(e))) => {
                post.stage is Done && finish_failing(cmd, e)
            },
            _ => post.stage is Done && finish_quietly(cmd),
        }
    }

    /// Takes the reply to the last effect asked for and says what comes next.
    pub fn step(self, reply: Reply) -> (res: (Self, Command))
        ensures
            Self::next_step(self, reply, res.0, res.1),
    {
        match (self.stage, reply) {
            (SubmitStage::AwaitCarrier, Reply::SerialCarrier(Ok(c))) => {
                (SubmitFlow { stage: SubmitStage::Done }, finish_one(Effect::SendSerial(c)))
            },
            (SubmitStage::AwaitCarrier, Reply::SerialCarrier(Err(e))) => {
                (SubmitFlow { stage: SubmitStage::Done }, Command::Finish(Vec::new(), Err(e)))
            },
            (_, _) => (SubmitFlow { stage: SubmitStage::Done }, quiet_finish()),
        }
    }
}

/// Submits a serial batch: a carrier is made for it and handed on; failing
/// to make the carrier is the result.
pub fn submit_serial(batch: SerialBatchInstance) -> (res: (SubmitFlow, Command))
    ensures
        res.0.stage is AwaitCarrier,
        res.1 == Command::Await(Effect::CreateCarrier(batch)),
{
    (SubmitFlow { stage: SubmitStage::AwaitCarrier }, Command::Await(Effect::CreateCarrier(batch)))
}

} // verus!
