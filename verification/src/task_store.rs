use vstd::prelude::*;
use crate::error::NatureError;
use crate::model::{Instance, InstanceView, Meta, Mission, OneStepFlow, TaskForConvert, TaskForConvertView, clone_missions};

verus! {

/// An instance to be stored, with the conversion it came from (if any) and
/// the missions that follow from its kind.
#[derive(Debug)]
pub struct TaskForStore {
    pub instance: Instance,
    /// Absent when the instance was saved from outside, not by a converter.
    pub upstream: Option<TaskForConvert>,
    pub mission: Option<Vec<Mission>>,
}

pub struct TaskForStoreView {
    pub instance: InstanceView,
    pub upstream: Option<TaskForConvertView>,
    pub mission: Option<Seq<Mission>>,
}

impl View for TaskForStore {
    type V = TaskForStoreView;

    open spec fn view(&self) -> TaskForStoreView {
        TaskForStoreView {
            instance: self.instance@,
            upstream: match self.upstream {
                Some(u) => Some(u@),
                None => None,
            },
            mission: match self.mission {
                Some(m) => Some(m@),
                None => None,
            },
        }
    }
}

impl Clone for TaskForStore {
    fn clone(&self) -> (res: Self)
        ensures
            res@ == self@,
    {
        let upstream = match &self.upstream {
            Some(u) => Some(u.clone()),
            None => None,
        };
        let mission = match &self.mission {
            Some(m) => Some(clone_missions(m)),
            None => None,
        };
        TaskForStore { instance: self.instance.clone(), upstream, mission }
    }
}

/// The view of a store task built from `instance` with the given missions.
pub open spec fn store_task_view(instance: InstanceView, mission: Option<Seq<Mission>>) -> TaskForStoreView {
    TaskForStoreView { instance, upstream: None, mission }
}

pub open spec fn missions_view(m: Option<Vec<Mission>>) -> Option<Seq<Mission>> {
    match m {
        Some(v) => Some(v@),
        None => None,
    }
}

impl TaskForStore {
    /// Builds the store task of `instance`: the configured steps of its kind
    /// are read through `step_getter`; when there are any, `mission_filter`
    /// picks the missions among them.
    ///
    /// A failure to read the steps is returned as it is; no steps means no missions.
    pub fn gen_task<FG, FF>(instance: &Instance, step_getter: FG, mission_filter: FF) -> (res: Result<Self, NatureError>) where
        FG: Fn(&Meta) -> Result<Option<Vec<OneStepFlow>>, NatureError>,
        FF: FnOnce((&Instance, Vec<OneStepFlow>)) -> Option<Vec<Mission>>,
        requires
            step_getter.requires((&instance.thing,)),
            forall|steps: Vec<OneStepFlow>| mission_filter.requires(((instance, steps),)),
        ensures
            res matches Err(e) ==> step_getter.ensures((&instance.thing,), Err(e)),
            res matches Ok(task) ==> {
                &&& task.instance@ == instance@
                &&& task.upstream is None
                &&& {
                    ||| step_getter.ensures((&instance.thing,), Ok(None)) && task.mission is None
                    ||| exists|steps: Vec<OneStepFlow>|
                        step_getter.ensures((&instance.thing,), Ok(Some(steps)))
                        && #[trigger] mission_filter.ensures(((instance, steps),), task.mission)
                }
            },
    {
        let got = step_getter(&instance.thing);
        let steps = match got {
            Err(e) => {
                return Err(e);
            },
            Ok(Some(steps)) => {
                let ghost s = steps;
                let m = mission_filter((instance, steps));
                assert(mission_filter.ensures(((instance, s),), m));
                m
            },
            Ok(None) => None,
        };
        Ok(TaskForStore { instance: instance.clone(), upstream: None, mission: steps })
    }

    /// Builds the store task of `instance` for dynamically given missions:
    /// `target` is what resolving the dynamic converters gave.
    pub fn for_dynamic(instance: &Instance, target: Result<Vec<Mission>, NatureError>) -> (res: Result<TaskForStore, NatureError>)
        ensures
            target matches Err(e) ==> res == Err::<TaskForStore, NatureError>(e),
            target matches Ok(t) ==> res matches Ok(task) && task@ == store_task_view(instance@, Some(t@)),
    {
        match target {
            Err(e) => Err(e),
            Ok(t) => Ok(TaskForStore { instance: instance.clone(), upstream: None, mission: Some(t) }),
        }
    }
}

} // verus!
