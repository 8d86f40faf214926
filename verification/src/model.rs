use vstd::prelude::*;

verus! {

/// The identity of a kind of business data: its full key and its version.
#[derive(Debug)]
pub struct Meta {
    pub key: String,
    pub version: i32,
}

impl Clone for Meta {
    fn clone(&self) -> (res: Self)
        ensures
            res == *self,
    {
        Meta { key: self.key.clone(), version: self.version }
    }
}

impl Meta {
    /// The full key that names this kind of data in tasks and relations.
    pub fn get_full_key(&self) -> (res: String)
        ensures
            res == self.key,
    {
        self.key.clone()
    }
}

/// One entry of an instance's context: a key and the value attached to it.
#[derive(Debug)]
pub struct ContextEntry {
    pub key: String,
    pub value: String,
}

impl Clone for ContextEntry {
    fn clone(&self) -> (res: Self)
        ensures
            res == *self,
    {
        ContextEntry { key: self.key.clone(), value: self.value.clone() }
    }
}

/// The upstream instance an instance was converted from.
#[derive(Debug)]
pub struct FromInstance {
    pub thing: Meta,
    pub id: u128,
    pub status_version: i32,
}

impl Clone for FromInstance {
    fn clone(&self) -> (res: Self)
        ensures
            res == *self,
    {
        FromInstance { thing: self.thing.clone(), id: self.id, status_version: self.status_version }
    }
}

/// A piece of business data.
///
/// `context` holds key/value entries (selection only reads the keys) and
/// `status` holds the status names the instance carries.
#[derive(Debug)]
pub struct Instance {
    pub id: u128,
    pub thing: Meta,
    pub event_time: i64,
    pub execute_time: i64,
    pub create_time: i64,
    pub content: String,
    pub context: Vec<ContextEntry>,
    pub status: Vec<String>,
    pub status_version: i32,
    pub from: Option<FromInstance>,
}

pub struct InstanceView {
    pub id: u128,
    pub thing: Meta,
    pub event_time: i64,
    pub execute_time: i64,
    pub create_time: i64,
    pub content: String,
    pub context: Seq<ContextEntry>,
    pub status: Seq<String>,
    pub status_version: i32,
    pub from: Option<FromInstance>,
}

impl InstanceView {
    /// No context key and no status occurs twice, as in the map and the set
    /// they stand for.
    pub open spec fn well_formed(self) -> bool {
        &&& forall|i: int, j: int| 0 <= i < j < self.context.len() ==> self.context[i].key@ != self.context[j].key@
        &&& forall|i: int, j: int| 0 <= i < j < self.status.len() ==> self.status[i]@ != self.status[j]@
    }
}

impl View for Instance {
    type V = InstanceView;

    open spec fn view(&self) -> InstanceView {
        InstanceView {
            id: self.id,
            thing: self.thing,
            event_time: self.event_time,
            execute_time: self.execute_time,
            create_time: self.create_time,
            content: self.content,
            context: self.context@,
            status: self.status@,
            status_version: self.status_version,
            from: self.from,
        }
    }
}

impl Instance {
    /// Whether no context key and no status occurs twice.
    pub fn is_well_formed(&self) -> (res: bool)
        ensures
            res == self@.well_formed(),
    {
        let n = self.context.len();
        let mut i: usize = 0;
        while i < n
            invariant
                n == self.context@.len(),
                i <= n,
                forall|a: int, b: int| 0 <= a < b < n && a < i ==> self.context@[a].key@ != self.context@[b].key@,
            decreases n - i,
        {
            let mut j: usize = i + 1;
            while j < n
                invariant
                    n == self.context@.len(),
                    i < n,
                    i + 1 <= j <= n,
                    forall|a: int, b: int| 0 <= a < b < n && a < i ==> self.context@[a].key@ != self.context@[b].key@,
                    forall|b: int| i < b < j ==> self.context@[i as int].key@ != self.context@[b].key@,
                decreases n - j,
            {
                if self.context[i].key == self.context[j].key {
                    assert(self@.context[i as int].key@ == self@.context[j as int].key@);
                    return false;
                }
                j = j + 1;
            }
            i = i + 1;
        }
        let m = self.status.len();
        let mut i: usize = 0;
        while i < m
            invariant
                n == self.context@.len(),
                m == self.status@.len(),
                i <= m,
                forall|a: int, b: int| 0 <= a < b < n ==> self.context@[a].key@ != self.context@[b].key@,
                forall|a: int, b: int| 0 <= a < b < m && a < i ==> self.status@[a]@ != self.status@[b]@,
            decreases m - i,
        {
            let mut j: usize = i + 1;
            while j < m
                invariant
                    m == self.status@.len(),
                    i < m,
                    i + 1 <= j <= m,
                    forall|a: int, b: int| 0 <= a < b < m && a < i ==> self.status@[a]@ != self.status@[b]@,
                    forall|b: int| i < b < j ==> self.status@[i as int]@ != self.status@[b]@,
                decreases m - j,
            {
                if self.status[i] == self.status[j] {
                    assert(self@.status[i as int]@ == self@.status[j as int]@);
                    return false;
                }
                j = j + 1;
            }
            i = i + 1;
        }
        true
    }
}

pub fn clone_strings(v: &Vec<String>) -> (res: Vec<String>)
    ensures
        res@ == v@,
{
    let res = v.clone();
    assert(res@ =~= v@);
    res
}

impl Clone for Instance {
    fn clone(&self) -> (res: Self)
        ensures
            res@ == self@,
    {
        let context = self.context.clone();
        assert(context@ =~= self.context@);
        let from = match &self.from {
            Some(f) => Some(f.clone()),
            None => None,
        };
        Instance {
            id: self.id,
            thing: self.thing.clone(),
            event_time: self.event_time,
            execute_time: self.execute_time,
            create_time: self.create_time,
            content: self.content.clone(),
            context,
            status: clone_strings(&self.status),
            status_version: self.status_version,
            from,
        }
    }
}


/// The views of a sequence of instances.
pub open spec fn instance_views(s: Seq<Instance>) -> Seq<InstanceView> {
    s.map_values(|i: Instance| i@)
}

pub fn clone_instances(v: &Vec<Instance>) -> (res: Vec<Instance>)
    ensures
        instance_views(res@) == instance_views(v@),
{
    let res = v.clone();
    assert(instance_views(res@) =~= instance_views(v@));
    res
}

pub fn clone_bytes(v: &Vec<u8>) -> (res: Vec<u8>)
    ensures
        res@ == v@,
{
    let res = v.clone();
    assert(res@ =~= v@);
    res
}

/// Where converted data goes: the target kind and the executor that converts.
#[derive(Debug)]
pub struct Mission {
    pub to: Meta,
    pub executor: String,
}

impl Clone for Mission {
    fn clone(&self) -> (res: Self)
        ensures
            res == *self,
    {
        Mission { to: self.to.clone(), executor: self.executor.clone() }
    }
}

pub fn clone_missions(v: &Vec<Mission>) -> (res: Vec<Mission>)
    ensures
        res@ == v@,
{
    let res = v.clone();
    assert(res@ =~= v@);
    res
}

/// One configured step of a flow: data of kind `from` is converted to kind `to`.
#[derive(Debug)]
pub struct OneStepFlow {
    pub from: Meta,
    pub to: Meta,
}

impl Clone for OneStepFlow {
    fn clone(&self) -> (res: Self)
        ensures
            res == *self,
    {
        OneStepFlow { from: self.from.clone(), to: self.to.clone() }
    }
}

/// A conversion to be done: the upstream instance and the mission it serves.
#[derive(Debug)]
pub struct TaskForConvert {
    pub from: Instance,
    pub target: Mission,
}

pub struct TaskForConvertView {
    pub from: InstanceView,
    pub target: Mission,
}

impl View for TaskForConvert {
    type V = TaskForConvertView;

    open spec fn view(&self) -> TaskForConvertView {
        TaskForConvertView { from: self.from@, target: self.target }
    }
}

impl Clone for TaskForConvert {
    fn clone(&self) -> (res: Self)
        ensures
            res@ == self@,
    {
        TaskForConvert { from: self.from.clone(), target: self.target.clone() }
    }
}

/// The kind of work a persisted task stands for.
#[derive(Debug, Clone, Copy, PartialEq, Eq, Structural)]
pub enum TaskType {
    Store,
    Convert,
    ParallelBatch,
    QueueBatch,
}

/// A task as it is persisted, so that it can be redone after a failure.
#[derive(Debug)]
pub struct RawTask {
    pub task_id: Vec<u8>,
    pub task_key: String,
    pub task_type: i16,
    pub data: String,
    pub create_time: i64,
    pub execute_time: i64,
    pub retried_times: i16,
}

pub struct RawTaskView {
    pub task_id: Seq<u8>,
    pub task_key: String,
    pub task_type: i16,
    pub data: String,
    pub create_time: i64,
    pub execute_time: i64,
    pub retried_times: i16,
}

impl View for RawTask {
    type V = RawTaskView;

    open spec fn view(&self) -> RawTaskView {
        RawTaskView {
            task_id: self.task_id@,
            task_key: self.task_key,
            task_type: self.task_type,
            data: self.data,
            create_time: self.create_time,
            execute_time: self.execute_time,
            retried_times: self.retried_times,
        }
    }
}

impl Clone for RawTask {
    fn clone(&self) -> (res: Self)
        ensures
            res@ == self@,
    {
        RawTask {
            task_id: clone_bytes(&self.task_id),
            task_key: self.task_key.clone(),
            task_type: self.task_type,
            data: self.data.clone(),
            create_time: self.create_time,
            execute_time: self.execute_time,
            retried_times: self.retried_times,
        }
    }
}

/// The views of a sequence of raw tasks.
pub open spec fn raw_views(s: Seq<RawTask>) -> Seq<RawTaskView> {
    s.map_values(|r: RawTask| r@)
}

/// A batch of instances to be stored one after another; when the batch is
/// done, a virtual instance carrying the outcome under the context key
/// `context_for_finish` continues the flow.
#[derive(Debug)]
pub struct SerialBatchInstance {
    pub context_for_finish: String,
    pub instances: Vec<Instance>,
}

pub type TaskForSerial = SerialBatchInstance;

pub struct SerialBatchInstanceView {
    pub context_for_finish: String,
    pub instances: Seq<InstanceView>,
}

impl View for SerialBatchInstance {
    type V = SerialBatchInstanceView;

    open spec fn view(&self) -> SerialBatchInstanceView {
        SerialBatchInstanceView {
            context_for_finish: self.context_for_finish,
            instances: instance_views(self.instances@),
        }
    }
}

/// A batch of instances to be stored side by side.
#[derive(Debug)]
pub struct TaskForParallel {
    pub instances: Vec<Instance>,
}

/// What a converter answers.
#[derive(Debug)]
pub enum ConverterReturned {
    LogicalError(String),
    EnvError,
    Nothing,
    Delay(u32),
    Instances(Vec<Instance>),
}

/// The instances planned for a target kind.
#[derive(Debug)]
pub struct PlanInfo {
    pub to: Meta,
    pub plan: Vec<Instance>,
}

/// The outcome of a conversion: the task that is done and the instances it yielded.
#[derive(Debug)]
pub struct Converted {
    pub done_task: RawTask,
    pub converted: Vec<Instance>,
}

/// The outcome of storing a serial batch.
#[derive(Debug)]
pub struct SerialFinished {
    pub succeeded_id: Vec<u128>,
    pub errors: Vec<String>,
}

/// A unit of work in flight, persisted under `id` until it is finished.
#[derive(Debug)]
pub struct Carrier<T> {
    pub id: Vec<u8>,
    pub data: T,
}

pub struct CarrierView<V> {
    pub id: Seq<u8>,
    pub data: V,
}

impl<T: View> View for Carrier<T> {
    type V = CarrierView<T::V>;

    open spec fn view(&self) -> CarrierView<T::V> {
        CarrierView { id: self.id@, data: self.data@ }
    }
}

/// An instance to be routed, with the conversion that produced it, if any.
#[derive(Debug)]
pub struct StoreInfo {
    pub instance: Instance,
    pub converter: Option<TaskForConvert>,
}

pub struct StoreInfoView {
    pub instance: InstanceView,
    pub converter: Option<TaskForConvertView>,
}

impl View for StoreInfo {
    type V = StoreInfoView;

    open spec fn view(&self) -> StoreInfoView {
        StoreInfoView {
            instance: self.instance@,
            converter: match self.converter {
                Some(c) => Some(c@),
                None => None,
            },
        }
    }
}

} // verus!
