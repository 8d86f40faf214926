use vstd::prelude::*;
use crate::flow::{Command, Effect, Reply, finish_one, finish_quietly, finish_with, notes_of, quiet_finish};
use crate::error::NatureError;
use crate::model::{Carrier, ContextEntry, Instance, InstanceView, Meta, StoreInfo, clone_bytes, clone_strings};

verus! {

/// What an upstream instance must carry for a relation to be taken.
///
/// Keys listed under `*_include` must all be present, keys listed under
/// `*_exclude` must all be absent. Context entries are selected by key alone.
#[derive(Debug)]
pub struct Demand {
    pub context_include: Vec<String>,
    pub context_exclude: Vec<String>,
    pub status_include: Vec<String>,
    pub status_exclude: Vec<String>,
}

pub struct DemandView {
    pub context_include: Seq<String>,
    pub context_exclude: Seq<String>,
    pub status_include: Seq<String>,
    pub status_exclude: Seq<String>,
}

impl View for Demand {
    type V = DemandView;

    open spec fn view(&self) -> DemandView {
        DemandView {
            context_include: self.context_include@,
            context_exclude: self.context_exclude@,
            status_include: self.status_include@,
            status_exclude: self.status_exclude@,
        }
    }
}

impl Clone for Demand {
    fn clone(&self) -> (res: Self)
        ensures
            res@ == self@,
    {
        Demand {
            context_include: clone_strings(&self.context_include),
            context_exclude: clone_strings(&self.context_exclude),
            status_include: clone_strings(&self.status_include),
            status_exclude: clone_strings(&self.status_exclude),
        }
    }
}

/// A relation from the kind of an instance to a downstream kind `to`,
/// taken when the instance meets `demand`.
#[derive(Debug)]
pub struct Mapping {
    pub to: Meta,
    pub demand: Demand,
}

pub struct MappingView {
    pub to: Meta,
    pub demand: DemandView,
}

impl View for Mapping {
    type V = MappingView;

    open spec fn view(&self) -> MappingView {
        MappingView { to: self.to, demand: self.demand@ }
    }
}

impl Clone for Mapping {
    fn clone(&self) -> (res: Self)
        ensures
            res@ == self@,
    {
        Mapping { to: self.to.clone(), demand: self.demand.clone() }
    }
}

/// The views of a sequence of mappings.
pub open spec fn mapping_views(s: Seq<Mapping>) -> Seq<MappingView> {
    s.map_values(|m: Mapping| m@)
}

pub fn clone_mappings(v: &Vec<Mapping>) -> (res: Vec<Mapping>)
    ensures
        mapping_views(res@) == mapping_views(v@),
{
    let res = v.clone();
    assert(mapping_views(res@) =~= mapping_views(v@));
    res
}

/// An instance together with the relations it is to be delivered along.
#[derive(Debug)]
pub struct RouteInfo {
    pub instance: Instance,
    pub maps: Vec<Mapping>,
}

pub struct RouteInfoView {
    pub instance: InstanceView,
    pub maps: Seq<MappingView>,
}

impl View for RouteInfo {
    type V = RouteInfoView;

    open spec fn view(&self) -> RouteInfoView {
        RouteInfoView { instance: self.instance@, maps: mapping_views(self.maps@) }
    }
}

impl Clone for RouteInfo {
    fn clone(&self) -> (res: Self)
        ensures
            res@ == self@,
    {
        RouteInfo { instance: self.instance.clone(), maps: clone_mappings(&self.maps) }
    }
}

/// Whether some entry of `ctx` has the key `key`.
pub open spec fn has_key(ctx: Seq<ContextEntry>, key: Seq<char>) -> bool {
    exists|i: int| 0 <= i < ctx.len() && (#[trigger] ctx[i]).key@ == key
}

/// Whether the name `key` occurs in `names`.
pub open spec fn has_name(names: Seq<String>, key: Seq<char>) -> bool {
    exists|i: int| 0 <= i < names.len() && (#[trigger] names[i])@ == key
}

/// The context of an instance meets a demand: no excluded key is present
/// and every included key is present.
pub open spec fn context_selected(ctx: Seq<ContextEntry>, d: DemandView) -> bool {
    &&& forall|i: int| 0 <= i < d.context_exclude.len() ==> !has_key(ctx, (#[trigger] d.context_exclude[i])@)
    &&& forall|i: int| 0 <= i < d.context_include.len() ==> has_key(ctx, (#[trigger] d.context_include[i])@)
}

/// The status of an instance meets a demand: no excluded status is present
/// and every included status is present.
pub open spec fn status_selected(status: Seq<String>, d: DemandView) -> bool {
    &&& forall|i: int| 0 <= i < d.status_exclude.len() ==> !has_name(status, (#[trigger] d.status_exclude[i])@)
    &&& forall|i: int| 0 <= i < d.status_include.len() ==> has_name(status, (#[trigger] d.status_include[i])@)
}

/// An instance is selected by a relation when both its context and its status meet the demand.
pub open spec fn selected(instance: InstanceView, m: MappingView) -> bool {
    context_selected(instance.context, m.demand) && status_selected(instance.status, m.demand)
}

/// The relations, in their order, that select `instance`.
pub open spec fn selected_relations(instance: InstanceView, maps: Seq<MappingView>) -> Seq<MappingView> {
    maps.filter(|m: MappingView| selected(instance, m))
}

pub fn context_contains_key(ctx: &Vec<ContextEntry>, key: &String) -> (res: bool)
    ensures
        res == has_key(ctx@, key@),
{
    let mut i: usize = 0;
    while i < ctx.len()
        invariant
            i <= ctx.len(),
            forall|j: int| 0 <= j < i ==> (#[trigger] ctx@[j]).key@ != key@,
        decreases ctx.len() - i,
    {
        if ctx[i].key == *key {
            return true;
        }
        i = i + 1;
    }
    false
}

pub fn names_contain(names: &Vec<String>, key: &String) -> (res: bool)
    ensures
        res == has_name(names@, key@),
{
    let mut i: usize = 0;
    while i < names.len()
        invariant
            i <= names.len(),
            forall|j: int| 0 <= j < i ==> (#[trigger] names@[j])@ != key@,
        decreases names.len() - i,
    {
        if names[i] == *key {
            return true;
        }
        i = i + 1;
    }
    false
}

/// Checks the context keys of an instance against a relation's demand.
pub fn context_check(contexts: &Vec<ContextEntry>, mapping: &Mapping) -> (res: bool)
    ensures
        res == context_selected(contexts@, mapping.demand@),
{
    let mut i: usize = 0;
    while i < mapping.demand.context_exclude.len()
        invariant
            i <= mapping.demand.context_exclude.len(),
            forall|j: int| 0 <= j < i ==> !has_key(contexts@, (#[trigger] mapping.demand.context_exclude@[j])@),
        decreases mapping.demand.context_exclude.len() - i,
    {
        if context_contains_key(contexts, &mapping.demand.context_exclude[i]) {
            assert(mapping.demand@.context_exclude[i as int] == mapping.demand.context_exclude@[i as int]);
            return false;
        }
        i = i + 1;
    }
    let mut i: usize = 0;
    while i < mapping.demand.context_include.len()
        invariant
            i <= mapping.demand.context_include.len(),
            forall|j: int| 0 <= j < mapping.demand.context_exclude@.len() ==> !has_key(contexts@, (#[trigger] mapping.demand.context_exclude@[j])@),
            forall|j: int| 0 <= j < i ==> has_key(contexts@, (#[trigger] mapping.demand.context_include@[j])@),
        decreases mapping.demand.context_include.len() - i,
    {
        if !context_contains_key(contexts, &mapping.demand.context_include[i]) {
            assert(mapping.demand@.context_include[i as int] == mapping.demand.context_include@[i as int]);
            return false;
        }
        i = i + 1;
    }
    true
}

/// Checks the status of an instance against a relation's demand.
pub fn status_check(status: &Vec<String>, mapping: &Mapping) -> (res: bool)
    ensures
        res == status_selected(status@, mapping.demand@),
{
    let mut i: usize = 0;
    while i < mapping.demand.status_exclude.len()
        invariant
            i <= mapping.demand.status_exclude.len(),
            forall|j: int| 0 <= j < i ==> !has_name(status@, (#[trigger] mapping.demand.status_exclude@[j])@),
        decreases mapping.demand.status_exclude.len() - i,
    {
        if names_contain(status, &mapping.demand.status_exclude[i]) {
            assert(mapping.demand@.status_exclude[i as int] == mapping.demand.status_exclude@[i as int]);
            return false;
        }
        i = i + 1;
    }
    let mut i: usize = 0;
    while i < mapping.demand.status_include.len()
        invariant
            i <= mapping.demand.status_include.len(),
            forall|j: int| 0 <= j < mapping.demand.status_exclude@.len() ==> !has_name(status@, (#[trigger] mapping.demand.status_exclude@[j])@),
            forall|j: int| 0 <= j < i ==> has_name(status@, (#[trigger] mapping.demand.status_include@[j])@),
        decreases mapping.demand.status_include.len() - i,
    {
        if !names_contain(status, &mapping.demand.status_include[i]) {
            assert(mapping.demand@.status_include[i as int] == mapping.demand.status_include@[i as int]);
            return false;
        }
        i = i + 1;
    }
    true
}

/// Keeps, in their order, the relations whose demand the instance meets.
pub fn filter_relations(instance: &Instance, maps: Vec<Mapping>) -> (res: Vec<Mapping>)
    ensures
        mapping_views(res@) == selected_relations(instance@, mapping_views(maps@)),
{
    let ghost pred = |m: MappingView| selected(instance@, m);
    let ghost orig = maps@;
    assert(orig.len() == maps.len());
    let ghost all = mapping_views(maps@);
    let mut rtn: Vec<Mapping> = Vec::new();
    let mut taken: usize = 0;
    let mut rest = maps;
    assert(mapping_views(rtn@) =~= all.take(0).filter(pred)) by {
        reveal(Seq::filter);
    }
    while rest.len() > 0
        invariant
            taken <= orig.len(),
            orig.len() <= usize::MAX,
            all == mapping_views(orig),
            rest@ == orig.subrange(taken as int, orig.len() as int),
            mapping_views(rtn@) == all.take(taken as int).filter(pred),
            pred == (|m: MappingView| selected(instance@, m)),
        decreases rest.len(),
    {
        let m = rest.remove(0);
        assert(m@ == all[taken as int]);
        assert(all.take(taken as int + 1).drop_last() =~= all.take(taken as int));
        let keep = context_check(&instance.context, &m) && status_check(&instance.status, &m);
        proof {
            reveal(Seq::filter);
        }
        if keep {
            rtn.push(m);
            assert(mapping_views(rtn@) =~= all.take(taken as int + 1).filter(pred));
        } else {
            assert(mapping_views(rtn@) =~= all.take(taken as int + 1).filter(pred));
        }
        taken = taken + 1;
        assert(rest@ =~= orig.subrange(taken as int, orig.len() as int));
    }
    assert(all.take(taken as int) =~= all);
    rtn
}


impl Clone for Carrier<RouteInfo> {
    fn clone(&self) -> (res: Self)
        ensures
            res@ == self@,
    {
        Carrier { id: clone_bytes(&self.id), data: self.data.clone() }
    }
}

/// Where the delivery of a route stands.
#[derive(Debug)]
pub enum DeliveryStage {
    /// Waiting for a carrier for the route; holds the carrier being routed.
    AwaitCarrier(Carrier<StoreInfo>),
    /// Waiting for the route's carrier (second) to be persisted.
    AwaitInsert(Carrier<StoreInfo>, Carrier<RouteInfo>),
    /// Waiting for the routed carrier to be deleted; holds the route's carrier.
    AwaitDelete(Carrier<RouteInfo>),
    Done,
}

/// The delivery of an instance along its selected relations: the route gets
/// a carrier that is persisted before the routed carrier is deleted, and
/// only then is the route dispatched.
#[derive(Debug)]
pub struct DeliveryFlow {
    pub stage: DeliveryStage,
}

impl DeliveryFlow {
    /// `flow` and `cmd` are how delivering `carrier` with `instance` along `maps` begins.
    pub open spec fn started(flow: Self, carrier: Carrier<StoreInfo>, instance: InstanceView, maps: Seq<MappingView>, cmd: Command) -> bool {
        &&& flow.stage == DeliveryStage::AwaitCarrier(carrier)
        &&& cmd matches Command::Await(Effect::NewRouteCarrier(r)) && r@ == RouteInfoView { instance, maps }
    }

    /// The transition of the flow on `reply`.
    pub open spec fn next_step(pre: Self, reply: Reply, post: Self, cmd: Command) -> bool {
        match (pre.stage, reply) {
            (DeliveryStage::AwaitCarrier(c), Reply::RouteCarrier(Err(e))) => {
                post.stage is Done && finish_with(cmd, Effect::MoveStoreToErr(e, c))
            },
            (DeliveryStage::AwaitCarrier(c), Reply::RouteCarrier(Ok(nc))) => {
                &&& post.stage == DeliveryStage::AwaitInsert(c, nc)
                &&& cmd matches Command::Await(Effect::InsertCarrier(x)) && x@ == nc@
            },
            (DeliveryStage::AwaitInsert(c, nc), Reply::Done(Ok(()))) => {
                &&& post.stage == DeliveryStage::AwaitDelete(nc)
                &&& cmd == Command::Await(Effect::DeleteCarrier(c.id))
            },
            (DeliveryStage::AwaitDelete(nc), Reply::Done(Ok(()))) => {
                post.stage is Done && finish_with(cmd, Effect::SendDispatch(nc))
            },
            _ => post.stage is Done && finish_quietly(cmd),
        }
    }

    /// Takes the reply to the last effect asked for and says what comes next.
    pub fn step(self, reply: Reply) -> (res: (Self, Command))
        ensures
            Self::next_step(self, reply, res.0, res.1),
    {
        match (self.stage, reply) {
            (DeliveryStage::AwaitCarrier(c), Reply::RouteCarrier(Err(e))) => {
                (DeliveryFlow { stage: DeliveryStage::Done }, finish_one(Effect::MoveStoreToErr(e, c)))
            },
            (DeliveryStage::AwaitCarrier(c), Reply::RouteCarrier(Ok(nc))) => {
                let x = nc.clone();
                (DeliveryFlow { stage: DeliveryStage::AwaitInsert(c, nc) }, Command::Await(Effect::InsertCarrier(x)))
            },
            (DeliveryStage::AwaitInsert(c, nc), Reply::Done(Ok(()))) => {
                (DeliveryFlow { stage: DeliveryStage::AwaitDelete(nc) }, Command::Await(Effect::DeleteCarrier(c.id)))
            },
            (DeliveryStage::AwaitDelete(nc), Reply::Done(Ok(()))) => {
                (DeliveryFlow { stage: DeliveryStage::Done }, finish_one(Effect::SendDispatch(nc)))
            },
            (_, _) => (DeliveryFlow { stage: DeliveryStage::Done }, quiet_finish()),
        }
    }
}

/// Selection reads the keys of an instance's context, never its values:
/// two contexts with the same keys meet the same demands.
pub proof fn law_selection_reads_keys_only(c1: Seq<ContextEntry>, c2: Seq<ContextEntry>, d: DemandView)
    requires
        forall|k: Seq<char>| has_key(c1, k) == has_key(c2, k),
    ensures
        context_selected(c1, d) == context_selected(c2, d),
{
    assert forall|i: int| 0 <= i < d.context_exclude.len() implies
        has_key(c1, (#[trigger] d.context_exclude[i])@) == has_key(c2, d.context_exclude[i]@) by {}
    assert forall|i: int| 0 <= i < d.context_include.len() implies
        has_key(c1, (#[trigger] d.context_include[i])@) == has_key(c2, d.context_include[i]@) by {}
}

/// A status demand is met exactly when no excluded status is among the
/// instance's statuses and every included status is; statuses the demand
/// does not mention play no part.
pub proof fn law_status_demand_met_exactly(status: Seq<String>, d: DemandView)
    ensures
        status_selected(status, d) <==> {
            &&& forall|i: int| 0 <= i < d.status_exclude.len()
                ==> !status.map_values(|s: String| s@).contains((#[trigger] d.status_exclude[i])@)
            &&& forall|i: int| 0 <= i < d.status_include.len()
                ==> status.map_values(|s: String| s@).contains((#[trigger] d.status_include[i])@)
        },
{
    let names = status.map_values(|s: String| s@);
    assert forall|k: Seq<char>| has_name(status, k) == names.contains(k) by {
        if has_name(status, k) {
            let j = choose|j: int| 0 <= j < status.len() && (#[trigger] status[j])@ == k;
            assert(names[j] == k);
        }
        if names.contains(k) {
            let j = choose|j: int| 0 <= j < names.len() && names[j] == k;
            assert(status[j]@ == k);
        }
    }
}

/// A context demand is met exactly when no excluded key is among the
/// instance's context keys and every included key is.
pub proof fn law_context_demand_met_exactly(ctx: Seq<ContextEntry>, d: DemandView)
    ensures
        context_selected(ctx, d) <==> {
            &&& forall|i: int| 0 <= i < d.context_exclude.len()
                ==> !ctx.map_values(|e: ContextEntry| e.key@).contains((#[trigger] d.context_exclude[i])@)
            &&& forall|i: int| 0 <= i < d.context_include.len()
                ==> ctx.map_values(|e: ContextEntry| e.key@).contains((#[trigger] d.context_include[i])@)
        },
{
    let keys = ctx.map_values(|e: ContextEntry| e.key@);
    assert forall|k: Seq<char>| has_key(ctx, k) == keys.contains(k) by {
        if has_key(ctx, k) {
            let j = choose|j: int| 0 <= j < ctx.len() && (#[trigger] ctx[j]).key@ == k;
            assert(keys[j] == k);
        }
        if keys.contains(k) {
            let j = choose|j: int| 0 <= j < keys.len() && keys[j] == k;
            assert(ctx[j].key@ == k);
        }
    }
}

/// A relation selects an instance exactly when both its context demand and
/// its status demand are met.
pub proof fn law_selected_means_both_demands_met(instance: InstanceView, m: MappingView)
    ensures
        selected(instance, m) <==> context_selected(instance.context, m.demand) && status_selected(instance.status, m.demand),
{
}

/// A status that the demand neither includes nor excludes does not change
/// whether the demand is met.
pub proof fn law_unmentioned_status_is_irrelevant(status: Seq<String>, extra: String, d: DemandView)
    requires
        forall|i: int| 0 <= i < d.status_include.len() ==> (#[trigger] d.status_include[i])@ != extra@,
        forall|i: int| 0 <= i < d.status_exclude.len() ==> (#[trigger] d.status_exclude[i])@ != extra@,
    ensures
        status_selected(status.push(extra), d) == status_selected(status, d),
{
    let s2 = status.push(extra);
    assert forall|i: int| 0 <= i < d.status_include.len() implies
        has_name(s2, (#[trigger] d.status_include[i])@) == has_name(status, d.status_include[i]@) by {
        if has_name(status, d.status_include[i]@) {
            let j = choose|j: int| 0 <= j < status.len() && (#[trigger] status[j])@ == d.status_include[i]@;
            assert(s2[j] == status[j]);
        }
        if has_name(s2, d.status_include[i]@) {
            let j = choose|j: int| 0 <= j < s2.len() && (#[trigger] s2[j])@ == d.status_include[i]@;
            assert(j < status.len());
            assert(s2[j] == status[j]);
        }
    }
    assert forall|i: int| 0 <= i < d.status_exclude.len() implies
        has_name(s2, (#[trigger] d.status_exclude[i])@) == has_name(status, d.status_exclude[i]@) by {
        if has_name(status, d.status_exclude[i]@) {
            let j = choose|j: int| 0 <= j < status.len() && (#[trigger] status[j])@ == d.status_exclude[i]@;
            assert(s2[j] == status[j]);
        }
        if has_name(s2, d.status_exclude[i]@) {
            let j = choose|j: int| 0 <= j < s2.len() && (#[trigger] s2[j])@ == d.status_exclude[i]@;
            assert(j < status.len());
            assert(s2[j] == status[j]);
        }
    }
}

/// A context key that the demand neither includes nor excludes does not
/// change whether the demand is met.
pub proof fn law_unmentioned_key_is_irrelevant(ctx: Seq<ContextEntry>, extra: ContextEntry, d: DemandView)
    requires
        forall|i: int| 0 <= i < d.context_include.len() ==> (#[trigger] d.context_include[i])@ != extra.key@,
        forall|i: int| 0 <= i < d.context_exclude.len() ==> (#[trigger] d.context_exclude[i])@ != extra.key@,
    ensures
        context_selected(ctx.push(extra), d) == context_selected(ctx, d),
{
    let c2 = ctx.push(extra);
    assert forall|i: int| 0 <= i < d.context_include.len() implies
        has_key(c2, (#[trigger] d.context_include[i])@) == has_key(ctx, d.context_include[i]@) by {
        if has_key(ctx, d.context_include[i]@) {
            let j = choose|j: int| 0 <= j < ctx.len() && (#[trigger] ctx[j]).key@ == d.context_include[i]@;
            assert(c2[j] == ctx[j]);
        }
        if has_key(c2, d.context_include[i]@) {
            let j = choose|j: int| 0 <= j < c2.len() && (#[trigger] c2[j]).key@ == d.context_include[i]@;
            assert(j < ctx.len());
            assert(c2[j] == ctx[j]);
        }
    }
    assert forall|i: int| 0 <= i < d.context_exclude.len() implies
        has_key(c2, (#[trigger] d.context_exclude[i])@) == has_key(ctx, d.context_exclude[i]@) by {
        if has_key(ctx, d.context_exclude[i]@) {
            let j = choose|j: int| 0 <= j < ctx.len() && (#[trigger] ctx[j]).key@ == d.context_exclude[i]@;
            assert(c2[j] == ctx[j]);
        }
        if has_key(c2, d.context_exclude[i]@) {
            let j = choose|j: int| 0 <= j < c2.len() && (#[trigger] c2[j]).key@ == d.context_exclude[i]@;
            assert(j < ctx.len());
            assert(c2[j] == ctx[j]);
        }
    }
}

/// A relation that demands nothing is taken by every instance.
pub proof fn law_empty_demand_selects_all(instance: InstanceView, m: MappingView)
    requires
        m.demand.context_include.len() == 0,
        m.demand.context_exclude.len() == 0,
        m.demand.status_include.len() == 0,
        m.demand.status_exclude.len() == 0,
    ensures
        selected(instance, m),
{
}

/// An instance that carries an excluded context key or status, or lacks an
/// included one, is not taken by the relation.
pub proof fn law_demand_is_all_and_none(instance: InstanceView, m: MappingView, key: String)
    ensures
        m.demand.context_exclude.contains(key) && has_key(instance.context, key@) ==> !selected(instance, m),
        m.demand.context_include.contains(key) && !has_key(instance.context, key@) ==> !selected(instance, m),
        m.demand.status_exclude.contains(key) && has_name(instance.status, key@) ==> !selected(instance, m),
        m.demand.status_include.contains(key) && !has_name(instance.status, key@) ==> !selected(instance, m),
{
}

/// Filtering keeps exactly the relations that select the instance, in
/// their order, and never more relations than it was given.
pub proof fn law_filter_keeps_exactly_the_selecting(instance: InstanceView, maps: Seq<MappingView>)
    ensures
        forall|i: int| 0 <= i < selected_relations(instance, maps).len()
            ==> selected(instance, #[trigger] selected_relations(instance, maps)[i]),
        forall|i: int| 0 <= i < maps.len() && selected(instance, maps[i])
            ==> #[trigger] selected_relations(instance, maps).contains(maps[i]),
        selected_relations(instance, maps).len() <= maps.len(),
{
    let pred = |m: MappingView| selected(instance, m);
    broadcast use vstd::seq_lib::group_filter_ensures;
    assert forall|i: int| 0 <= i < maps.filter(pred).len() implies selected(instance, #[trigger] maps.filter(pred)[i]) by {
        maps.lemma_filter_pred(pred, i);
    }
    assert forall|i: int| 0 <= i < maps.len() && selected(instance, maps[i]) implies #[trigger] maps.filter(pred).contains(maps[i]) by {
        maps.lemma_filter_contains(pred, i);
    }
    maps.lemma_filter_len(pred);
}

/// Filtering the relations an instance selects changes nothing.
pub proof fn law_filter_is_idempotent(instance: InstanceView, maps: Seq<MappingView>)
    ensures
        selected_relations(instance, selected_relations(instance, maps)) == selected_relations(instance, maps),
    decreases maps.len(),
{
    let pred = |m: MappingView| selected(instance, m);
    reveal(Seq::filter);
    if maps.len() > 0 {
        law_filter_is_idempotent(instance, maps.drop_last());
        let sub = maps.drop_last().filter(pred);
        if pred(maps.last()) {
            assert(sub.push(maps.last()).drop_last() =~= sub);
        }
    }
}

/// A route is dispatched only after its carrier was persisted and then the
/// routed carrier deleted.
pub proof fn law_dispatch_after_persist(pre: DeliveryFlow, reply: Reply, post: DeliveryFlow, cmd: Command)
    requires
        DeliveryFlow::next_step(pre, reply, post, cmd),
    ensures
        notes_of(cmd).len() > 0 && notes_of(cmd)[0] is SendDispatch ==> pre.stage is AwaitDelete && reply matches Reply::Done(Ok(_)),
        post.stage is AwaitDelete ==> pre.stage is AwaitInsert && reply matches Reply::Done(Ok(_)),
        post.stage is AwaitInsert ==> pre.stage is AwaitCarrier && reply matches Reply::RouteCarrier(Ok(_)),
{
}

/// A kind with no relations ends the routing by deleting the routed
/// carrier, and nothing else.
pub proof fn law_route_without_relations_deletes(pre: RouteFlow, c: Carrier<StoreInfo>, rels: Vec<Mapping>, post: RouteFlow, cmd: Command)
    requires
        pre.stage == RouteStage::AwaitRelations(c),
        RouteFlow::next_step(pre, Reply::Relations(Ok(rels)), post, cmd),
        rels@.len() == 0,
    ensures
        notes_of(cmd).len() == 1,
        notes_of(cmd)[0] matches Effect::DeleteCarrier(id) && id@ == c.id@,
        cmd matches Command::Finish(_, r) && r is Ok,
{
}

/// With relations, the routed instance is delivered along exactly the
/// relations whose demands it meets, in their order: every such relation is
/// in the route and every relation in the route is one of them.
pub proof fn law_route_delivers_exactly_the_selecting(pre: RouteFlow, c: Carrier<StoreInfo>, rels: Vec<Mapping>, post: RouteFlow, cmd: Command)
    requires
        pre.stage == RouteStage::AwaitRelations(c),
        RouteFlow::next_step(pre, Reply::Relations(Ok(rels)), post, cmd),
        rels@.len() > 0,
    ensures
        post.stage matches RouteStage::Delivering(d) && d.stage == DeliveryStage::AwaitCarrier(c),
        cmd matches Command::Await(Effect::NewRouteCarrier(r)) && r.instance@ == pre.instance@
            && mapping_views(r.maps@) == mapping_views(rels@).filter(|m: MappingView| {
                &&& context_selected(pre.instance@.context, m.demand)
                &&& status_selected(pre.instance@.status, m.demand)
            }),
{
    let a = |m: MappingView| selected(pre.instance@, m);
    let b = |m: MappingView| {
        &&& context_selected(pre.instance@.context, m.demand)
        &&& status_selected(pre.instance@.status, m.demand)
    };
    assert(a =~= b);
}

/// The route's carrier is persisted as it came, the routed carrier is then
/// deleted, and the route's carrier is dispatched unchanged.
pub proof fn law_delivery_relays_the_new_carrier(
    pre: DeliveryFlow,
    c: Carrier<StoreInfo>,
    nc: Carrier<RouteInfo>,
    mid: DeliveryFlow,
    ask: Command,
    mid2: DeliveryFlow,
    ask2: Command,
    post: DeliveryFlow,
    cmd: Command,
)
    requires
        pre.stage == DeliveryStage::AwaitCarrier(c),
        DeliveryFlow::next_step(pre, Reply::RouteCarrier(Ok(nc)), mid, ask),
        DeliveryFlow::next_step(mid, Reply::Done(Ok(())), mid2, ask2),
        DeliveryFlow::next_step(mid2, Reply::Done(Ok(())), post, cmd),
    ensures
        ask matches Command::Await(Effect::InsertCarrier(x)) && x@ == nc@,
        ask2 == Command::Await(Effect::DeleteCarrier(c.id)),
        notes_of(cmd) == seq![Effect::SendDispatch(nc)],
{
}

/// A route without a carrier moves the routed carrier to the error list
/// with that error.
pub proof fn law_delivery_failure_moves_carrier(pre: DeliveryFlow, c: Carrier<StoreInfo>, e: NatureError, post: DeliveryFlow, cmd: Command)
    requires
        pre.stage == DeliveryStage::AwaitCarrier(c),
        DeliveryFlow::next_step(pre, Reply::RouteCarrier(Err(e)), post, cmd),
    ensures
        notes_of(cmd) == seq![Effect::MoveStoreToErr(e, c)],
{
}

/// Starts delivering `carrier` with `instance` along the relations `maps`.
pub fn delivery_relations(carrier: Carrier<StoreInfo>, instance: &Instance, maps: Vec<Mapping>) -> (res: (DeliveryFlow, Command))
    requires
        instance@.well_formed(),
    ensures
        DeliveryFlow::started(res.0, carrier, instance@, mapping_views(maps@), res.1),
{
    let route = RouteInfo { instance: instance.clone(), maps };
    (DeliveryFlow { stage: DeliveryStage::AwaitCarrier(carrier) }, Command::Await(Effect::NewRouteCarrier(route)))
}

/// Where the routing of a stored instance stands.
#[derive(Debug)]
pub enum RouteStage {
    /// Waiting for the relations of the instance's kind; holds the carrier being routed.
    AwaitRelations(Carrier<StoreInfo>),
    /// Delivering along the selected relations.
    Delivering(DeliveryFlow),
    Done,
}

/// The routing of the instance of a store carrier.
#[derive(Debug)]
pub struct RouteFlow {
    pub instance: Instance,
    pub stage: RouteStage,
}

impl RouteFlow {
    /// The routed instance has no context key and no status twice.
    pub open spec fn wf(&self) -> bool {
        self.instance@.well_formed()
    }

    /// Whether the flow is well formed, so that it may take a step.
    pub fn well_formed(&self) -> (res: bool)
        ensures
            res == self.wf(),
    {
        self.instance.is_well_formed()
    }

    /// The transition of the flow on `reply`.
    pub open spec fn next_step(pre: Self, reply: Reply, post: Self, cmd: Command) -> bool {
        &&& post.instance == pre.instance
        &&& match (pre.stage, reply) {
            (RouteStage::AwaitRelations(c), Reply::Relations(Ok(rels))) => {
                if rels@.len() == 0 {
                    &&& post.stage is Done
                    &&& cmd matches Command::Finish(notes, Ok(())) && notes@.len() == 1
                    &&& cmd matches Command::Finish(notes, _) && notes@[0] matches Effect::DeleteCarrier(id) && id@ == c.id@
                } else {
                    post.stage matches RouteStage::Delivering(d) && DeliveryFlow::started(
                        d,
                        c,
                        pre.instance@,
                        selected_relations(pre.instance@, mapping_views(rels@)),
                        cmd,
                    )
                }
            },
            (RouteStage::Delivering(d), _) => {
                post.stage matches RouteStage::Delivering(d2) && DeliveryFlow::next_step(d, reply, d2, cmd)
            },
            _ => post.stage is Done && finish_quietly(cmd),
        }
    }

    /// Takes the reply to the last effect asked for and says what comes next.
    pub fn step(self, reply: Reply) -> (res: (Self, Command))
        requires
            self.wf(),
        ensures
            res.0.wf(),
            Self::next_step(self, reply, res.0, res.1),
    {
        let RouteFlow { instance, stage } = self;
        match (stage, reply) {
            (RouteStage::AwaitRelations(c), Reply::Relations(Ok(rels))) => {
                if rels.len() == 0 {
                    let id = clone_bytes(&c.id);
                    (RouteFlow { instance, stage: RouteStage::Done }, finish_one(Effect::DeleteCarrier(id)))
                } else {
                    let maps = filter_relations(&instance, rels);
                    let (d, cmd) = delivery_relations(c, &instance, maps);
                    (RouteFlow { instance, stage: RouteStage::Delivering(d) }, cmd)
                }
            },
            (RouteStage::Delivering(d), r) => {
                let (d2, cmd) = d.step(r);
                (RouteFlow { instance, stage: RouteStage::Delivering(d2) }, cmd)
            },
            (_, _) => (RouteFlow { instance, stage: RouteStage::Done }, quiet_finish()),
        }
    }
}

/// Starts routing the instance of `carrier`: the relations of its kind are
/// read; with none the carrier is deleted, otherwise the instance is
/// delivered along the relations that select it. The instance, standing
/// for a map of context entries and a set of statuses, repeats neither.
pub fn do_route(carrier: Carrier<StoreInfo>) -> (res: (RouteFlow, Command))
    requires
        carrier.data.instance@.well_formed(),
    ensures
        res.0.wf(),
        res.0.instance@ == carrier.data.instance@,
        res.0.stage == RouteStage::AwaitRelations(carrier),
        res.1 == Command::Await(Effect::GetRelations(carrier.data.instance.thing)),
{
    let instance = carrier.data.instance.clone();
    let meta = instance.thing.clone();
    (RouteFlow { instance, stage: RouteStage::AwaitRelations(carrier) }, Command::Await(Effect::GetRelations(meta)))
}

} // verus!
