//! Messages between modules: each message is processed once per sender,
//! the errors of failed messages are kept for redelivery, and the sender
//! forgets a message once its destination processed it.
use vstd::prelude::*;
use crate::text::{decimal, err_view, message, with_decimal_u64};

verus! {

/// The last message processed from one sending module.
#[derive(Clone, Copy, Debug)]
pub struct InterModuleMessageCounter {
    pub module_id: u8,
    pub last_processed_message_id: u64,
}

/// The error a message ended with.
#[derive(Clone, Debug)]
pub struct InterModuleMessageError {
    pub sender_module_id: u8,
    pub message_id: u64,
    pub error: String,
}

/// The counters of a destination module, one per sender.
pub struct InterModuleCounters {
    pub counters: Vec<InterModuleMessageCounter>,
}

pub open spec fn counter_at(c: Seq<InterModuleMessageCounter>, sender: u8, i: int) -> bool {
    0 <= i < c.len() && c[i].module_id == sender
}

pub open spec fn has_counter(c: Seq<InterModuleMessageCounter>, sender: u8) -> bool {
    exists|i: int| counter_at(c, sender, i)
}

impl View for InterModuleCounters {
    type V = Map<u8, u64>;

    /// Last processed message id of each sender.
    open spec fn view(&self) -> Map<u8, u64> {
        Map::new(
            |s: u8| has_counter(self.counters@, s),
            |s: u8| self.counters@[choose|i: int| counter_at(self.counters@, s, i)].last_processed_message_id,
        )
    }
}

impl InterModuleCounters {
    /// Each sender has one counter at most.
    pub open spec fn well_formed(&self) -> bool {
        forall|i: int, j: int|
            0 <= i < self.counters@.len() && 0 <= j < self.counters@.len() && i != j
                ==> #[trigger] self.counters@[i].module_id != #[trigger] self.counters@[j].module_id
    }

    fn find(&self, sender: u8) -> (r: Option<usize>)
        requires
            self.well_formed(),
        ensures
            match r {
                Some(i) => counter_at(self.counters@, sender, i as int) && self@.contains_key(sender)
                    && self@[sender] == self.counters@[i as int].last_processed_message_id,
                None => !self@.contains_key(sender),
            },
    {
        let n = self.counters.len();
        let mut i: usize = 0;
        while i < n
            invariant
                self.well_formed(),
                n == self.counters@.len(),
                i <= n,
                forall|j: int| 0 <= j < i ==> self.counters@[j].module_id != sender,
            decreases n - i,
        {
            if self.counters[i].module_id == sender {
                proof {
                    assert(counter_at(self.counters@, sender, i as int));
                    let k = choose|k: int| counter_at(self.counters@, sender, k);
                    assert(k == i);
                }
                return Some(i);
            }
            i = i + 1;
        }
        None
    }

    /// Forgets a sender's counter.
    pub fn remove(&mut self, sender: u8)
        requires
            old(self).well_formed(),
        ensures
            final(self).well_formed(),
            final(self)@ == old(self)@.remove(sender),
    {
        match self.find(sender) {
            None => {
                assert(self@ =~= old(self)@.remove(sender));
            },
            Some(i) => {
                let ghost old_c = self.counters@;
                self.counters.remove(i);
                proof {
                    let c = self.counters@;
                    assert(c == old_c.remove(i as int));
                    assert forall|j: int| 0 <= j < c.len() implies #[trigger] c[j] == old_c[if j < i { j } else { j + 1 }] by {}
                    assert forall|a: int, b: int|
                        0 <= a < c.len() && 0 <= b < c.len() && a != b implies #[trigger] c[a].module_id
                        != #[trigger] c[b].module_id by {
                        let a1 = if a < i { a } else { a + 1 };
                        let b1 = if b < i { b } else { b + 1 };
                        assert(c[a] == old_c[a1]);
                        assert(c[b] == old_c[b1]);
                    }
                    assert forall|s: u8| #[trigger] has_counter(c, s) == (has_counter(old_c, s) && s != sender) by {
                        if exists|k: int| counter_at(c, s, k) {
                            let k = choose|k: int| counter_at(c, s, k);
                            let k1 = if k < i { k } else { k + 1 };
                            assert(c[k] == old_c[k1]);
                            assert(counter_at(old_c, s, k1));
                            assert(k1 != i);
                        }
                        if exists|k: int| counter_at(old_c, s, k) && s != sender {
                            let k = choose|k: int| counter_at(old_c, s, k);
                            assert(k != i);
                            let k1 = if k < i { k } else { k - 1 };
                            assert(c[k1] == old_c[k]);
                            assert(counter_at(c, s, k1));
                        }
                    }
                    assert forall|s: u8| #[trigger] self@.contains_key(s) implies self@[s] == old(self)@[s] by {
                        let k = choose|k: int| counter_at(c, s, k);
                        let k1 = if k < i { k } else { k + 1 };
                        assert(c[k] == old_c[k1]);
                        let k0 = choose|k: int| counter_at(old_c, s, k);
                        assert(counter_at(old_c, s, k1));
                        assert(old_c[k0].module_id == old_c[k1].module_id);
                        assert(k0 == k1);
                    }
                    assert(self@ =~= old(self)@.remove(sender));
                }
            },
        }
    }

    /// Sets a sender's counter.
    pub fn set(&mut self, sender: u8, v: u64)
        requires
            old(self).well_formed(),
        ensures
            final(self).well_formed(),
            final(self)@ == old(self)@.insert(sender, v),
    {
        match self.find(sender) {
            Some(i) => {
                let ghost old_c = self.counters@;
                self.counters[i].last_processed_message_id = v;
                proof {
                    assert(self.counters@ == old_c.update(
                        i as int,
                        InterModuleMessageCounter { last_processed_message_id: v, ..old_c[i as int] },
                    ));
                    assert forall|s: u8| #[trigger] has_counter(self.counters@, s) == has_counter(old_c, s) by {
                        if exists|k: int| counter_at(self.counters@, s, k) {
                            let k = choose|k: int| counter_at(self.counters@, s, k);
                            assert(counter_at(old_c, s, k));
                        }
                        if exists|k: int| counter_at(old_c, s, k) {
                            let k = choose|k: int| counter_at(old_c, s, k);
                            assert(counter_at(self.counters@, s, k));
                        }
                    }
                    assert forall|s: u8| #[trigger] self@.contains_key(s) implies self@[s] == old(self)@.insert(sender, v)[s] by {
                        let k = choose|k: int| counter_at(self.counters@, s, k);
                        let k0 = choose|k: int| counter_at(old_c, s, k);
                        assert(counter_at(old_c, s, k));
                        assert(k == k0);
                        if s == sender {
                            assert(k == i);
                        }
                    }
                    assert(self@ =~= old(self)@.insert(sender, v));
                }
            },
            None => {
                let ghost old_c = self.counters@;
                self.counters.push(InterModuleMessageCounter { module_id: sender, last_processed_message_id: v });
                proof {
                    let c = self.counters@;
                    assert forall|a: int, b: int|
                        0 <= a < c.len() && 0 <= b < c.len() && a != b implies #[trigger] c[a].module_id
                        != #[trigger] c[b].module_id by {
                        if a == old_c.len() && b < old_c.len() {
                            assert(!counter_at(old_c, sender, b));
                        }
                        if b == old_c.len() && a < old_c.len() {
                            assert(!counter_at(old_c, sender, a));
                        }
                    }
                    assert forall|s: u8| #[trigger] has_counter(c, s) == (has_counter(old_c, s) || s == sender) by {
                        if exists|k: int| counter_at(c, s, k) {
                            let k = choose|k: int| counter_at(c, s, k);
                            if k < old_c.len() {
                                assert(counter_at(old_c, s, k));
                            }
                        }
                        if exists|k: int| counter_at(old_c, s, k) {
                            let k = choose|k: int| counter_at(old_c, s, k);
                            assert(counter_at(c, s, k));
                        }
                        if s == sender {
                            assert(counter_at(c, s, old_c.len() as int));
                        }
                    }
                    assert forall|s: u8| #[trigger] self@.contains_key(s) implies self@[s] == old(self)@.insert(sender, v)[s] by {
                        let k = choose|k: int| counter_at(c, s, k);
                        if s == sender {
                            assert(counter_at(c, s, old_c.len() as int));
                            if k < old_c.len() {
                                assert(counter_at(old_c, s, k));
                            }
                        } else {
                            let k0 = choose|k: int| counter_at(old_c, s, k);
                            assert(counter_at(c, s, k0));
                        }
                    }
                    assert(self@ =~= old(self)@.insert(sender, v));
                }
            },
        }
    }
}

/// The kinds of contents an inter-module message carries.
#[derive(Clone, Copy, Debug, PartialEq, Eq, Structural)]
pub enum MessageKind {
    TableUpdate,
    UserUpdateRegionRequest,
    ClaimCreateEmpireSettlementState,
    OnClaimMembersChanged,
    EmpireCreateBuilding,
    GlobalDeleteEmpireBuilding,
    DeleteEmpire,
    EmpireClaimJoin,
    EmpireResupplyNode,
    EmpireDonateItem,
    EmpireCreate,
    EmpireCollectHexiteCapsule,
    EmpireStartSiege,
    EmpireSiegeAddSupplies,
    OnRegionPlayerCreated,
    EmpireQueueSupplies,
    EmpireAddCurrency,
    ClaimSetName,
    NpcPlaceWatchtowers,
    EmpireWithdrawItem,
    TransferPlayerRequest,
    TransferPlayerHousingRequest,
    PlayerCreateRequest,
    OnPlayerNameSetRequest,
    OnEmpireBuildingDeleted,
    OnPlayerJoinedEmpire,
    OnPlayerLeftEmpire,
    RegionDestroySiegeEngine,
    EmpireUpdateEmperorCrown,
    EmpireRemoveCrown,
    SignPlayerOut,
    AdminBroadcastMessage,
    PlayerSkipQueue,
    GrantHubItem,
    RecoverDeployable,
    OnDeployableRecovered,
    ReplaceIdentity,
    RestoreSkills,
}

/// Kinds that only the global module receives; a region that receives one
/// stops (the handling is undone).
pub open spec fn region_refuses(kind: MessageKind) -> bool {
    match kind {
        MessageKind::UserUpdateRegionRequest | MessageKind::ClaimCreateEmpireSettlementState | MessageKind::OnClaimMembersChanged | MessageKind::EmpireCreateBuilding | MessageKind::GlobalDeleteEmpireBuilding | MessageKind::DeleteEmpire | MessageKind::EmpireClaimJoin | MessageKind::EmpireResupplyNode | MessageKind::EmpireDonateItem | MessageKind::EmpireCreate | MessageKind::EmpireCollectHexiteCapsule | MessageKind::EmpireStartSiege | MessageKind::EmpireSiegeAddSupplies | MessageKind::OnRegionPlayerCreated | MessageKind::EmpireQueueSupplies | MessageKind::EmpireAddCurrency | MessageKind::ClaimSetName | MessageKind::NpcPlaceWatchtowers | MessageKind::EmpireWithdrawItem => true,
        _ => false,
    }
}

/// How a region handles an admitted message.
#[derive(Clone, Copy, Debug, PartialEq, Eq, Structural)]
pub enum RegionRoute {
    /// Apply the shared-table updates it carries.
    ApplyTableUpdate,
    /// Sign the named player out.
    SignPlayerOut,
    /// Broadcast the admin's message.
    AdminBroadcast,
    /// Hand it to the handler of its kind on this side.
    Handler(MessageKind),
}

/// The route of a kind a region accepts.
pub open spec fn region_route_of(kind: MessageKind) -> RegionRoute {
    match kind {
        MessageKind::TableUpdate => RegionRoute::ApplyTableUpdate,
        MessageKind::SignPlayerOut => RegionRoute::SignPlayerOut,
        MessageKind::AdminBroadcastMessage => RegionRoute::AdminBroadcast,
        _ => RegionRoute::Handler(kind),
    }
}

/// Whether a region accepts messages of this kind.
pub fn region_accepts(kind: MessageKind) -> (r: bool)
    ensures
        r == !region_refuses(kind),
{
    match kind {
        MessageKind::UserUpdateRegionRequest | MessageKind::ClaimCreateEmpireSettlementState | MessageKind::OnClaimMembersChanged | MessageKind::EmpireCreateBuilding | MessageKind::GlobalDeleteEmpireBuilding | MessageKind::DeleteEmpire | MessageKind::EmpireClaimJoin | MessageKind::EmpireResupplyNode | MessageKind::EmpireDonateItem | MessageKind::EmpireCreate | MessageKind::EmpireCollectHexiteCapsule | MessageKind::EmpireStartSiege | MessageKind::EmpireSiegeAddSupplies | MessageKind::OnRegionPlayerCreated | MessageKind::EmpireQueueSupplies | MessageKind::EmpireAddCurrency | MessageKind::ClaimSetName | MessageKind::NpcPlaceWatchtowers | MessageKind::EmpireWithdrawItem => false,
        _ => true,
    }
}

/// The route of an accepted kind.
pub fn region_route(kind: MessageKind) -> (r: RegionRoute)
    ensures
        r == region_route_of(kind),
{
    match kind {
        MessageKind::TableUpdate => RegionRoute::ApplyTableUpdate,
        MessageKind::SignPlayerOut => RegionRoute::SignPlayerOut,
        MessageKind::AdminBroadcastMessage => RegionRoute::AdminBroadcast,
        _ => RegionRoute::Handler(kind),
    }
}

/// Kinds whose sender learns the destination's result through a handler of
/// its own; the sender ignores the result of any other kind.
pub open spec fn sender_handles_result(kind: MessageKind) -> bool {
    match kind {
        MessageKind::TransferPlayerRequest | MessageKind::TransferPlayerHousingRequest | MessageKind::EmpireResupplyNode | MessageKind::EmpireDonateItem | MessageKind::EmpireCreate | MessageKind::EmpireCollectHexiteCapsule | MessageKind::EmpireStartSiege | MessageKind::EmpireSiegeAddSupplies | MessageKind::EmpireCreateBuilding | MessageKind::EmpireClaimJoin | MessageKind::EmpireQueueSupplies | MessageKind::RecoverDeployable | MessageKind::ClaimSetName | MessageKind::EmpireWithdrawItem => true,
        _ => false,
    }
}

pub fn sender_handles(kind: MessageKind) -> (r: bool)
    ensures
        r == sender_handles_result(kind),
        r <==> ({
            ||| kind == MessageKind::TransferPlayerRequest
            ||| kind == MessageKind::TransferPlayerHousingRequest
            ||| kind == MessageKind::EmpireResupplyNode
            ||| kind == MessageKind::EmpireDonateItem
            ||| kind == MessageKind::EmpireCreate
            ||| kind == MessageKind::EmpireCollectHexiteCapsule
            ||| kind == MessageKind::EmpireStartSiege
            ||| kind == MessageKind::EmpireSiegeAddSupplies
            ||| kind == MessageKind::EmpireCreateBuilding
            ||| kind == MessageKind::EmpireClaimJoin
            ||| kind == MessageKind::EmpireQueueSupplies
            ||| kind == MessageKind::RecoverDeployable
            ||| kind == MessageKind::ClaimSetName
            ||| kind == MessageKind::EmpireWithdrawItem
        }),
{
    match kind {
        MessageKind::TransferPlayerRequest | MessageKind::TransferPlayerHousingRequest | MessageKind::EmpireResupplyNode | MessageKind::EmpireDonateItem | MessageKind::EmpireCreate | MessageKind::EmpireCollectHexiteCapsule | MessageKind::EmpireStartSiege | MessageKind::EmpireSiegeAddSupplies | MessageKind::EmpireCreateBuilding | MessageKind::EmpireClaimJoin | MessageKind::EmpireQueueSupplies | MessageKind::RecoverDeployable | MessageKind::ClaimSetName | MessageKind::EmpireWithdrawItem => true,
        _ => false,
    }
}

/// The sender handles the destination's result of exactly these kinds:
/// player and housing transfers, node resupplies, item donations, empire
/// founding, hexite capsules, sieges and their supplies, empire buildings,
/// claims joining an empire, queued supplies, deployable recovery, claim
/// names and treasury withdrawals.
pub proof fn lemma_sender_handled_kinds(kind: MessageKind)
    ensures
        sender_handles_result(kind) <==> ({
            ||| kind == MessageKind::TransferPlayerRequest
            ||| kind == MessageKind::TransferPlayerHousingRequest
            ||| kind == MessageKind::EmpireResupplyNode
            ||| kind == MessageKind::EmpireDonateItem
            ||| kind == MessageKind::EmpireCreate
            ||| kind == MessageKind::EmpireCollectHexiteCapsule
            ||| kind == MessageKind::EmpireStartSiege
            ||| kind == MessageKind::EmpireSiegeAddSupplies
            ||| kind == MessageKind::EmpireCreateBuilding
            ||| kind == MessageKind::EmpireClaimJoin
            ||| kind == MessageKind::EmpireQueueSupplies
            ||| kind == MessageKind::RecoverDeployable
            ||| kind == MessageKind::ClaimSetName
            ||| kind == MessageKind::EmpireWithdrawItem
        }),
{
}

/// The counter kept for a sender, if any.
pub open spec fn counter_of(counters: Map<u8, u64>, sender: u8) -> Option<u64> {
    if counters.contains_key(sender) {
        Some(counters[sender])
    } else {
        None
    }
}

/// The counters with a sender's counter put back to `previous` (removed when
/// there was none).
pub open spec fn restored(counters: Map<u8, u64>, sender: u8, previous: Option<u64>) -> Map<u8, u64> {
    match previous {
        Some(v) => counters.insert(sender, v),
        None => counters.remove(sender),
    }
}

/// What a destination does with an incoming message.
#[derive(Debug)]
pub enum MessageAdmission {
    /// The message is new: handle it by `route`. `previous` is the sender's
    /// counter before the message, to be put back should the handling fail.
    Process { previous: Option<u64>, route: RegionRoute },
    /// The message was processed before: answer what it was answered then.
    AlreadyProcessed(Result<(), String>),
}

/// The message from `sender` with id `id` was processed already.
pub open spec fn already_processed(counters: Map<u8, u64>, sender: u8, id: u64) -> bool {
    counters.contains_key(sender) && counters[sender] >= id
}

/// `i` is the first kept error of the message.
pub open spec fn is_error_at(errors: Seq<InterModuleMessageError>, sender: u8, id: u64, i: int) -> bool {
    &&& 0 <= i < errors.len()
    &&& errors[i].sender_module_id == sender && errors[i].message_id == id
    &&& forall|j: int| 0 <= j < i ==> !(#[trigger] errors[j].sender_module_id == sender && errors[j].message_id == id)
}

/// What a message processed before is answered again: its kept error, if
/// there is one.
pub open spec fn replayed_answer(errors: Seq<InterModuleMessageError>, sender: u8, id: u64) -> Result<(), Seq<char>> {
    if exists|i: int| is_error_at(errors, sender, id, i) {
        Err(errors[choose|i: int| is_error_at(errors, sender, id, i)].error@)
    } else {
        Ok(())
    }
}

fn replay(errors: &Vec<InterModuleMessageError>, sender: u8, id: u64) -> (r: Result<(), String>)
    ensures
        err_view(r) == replayed_answer(errors@, sender, id),
{
    let n = errors.len();
    let mut i: usize = 0;
    while i < n
        invariant
            n == errors@.len(),
            i <= n,
            forall|j: int| 0 <= j < i ==> !(#[trigger] errors@[j].sender_module_id == sender && errors@[j].message_id == id),
        decreases n - i,
    {
        if errors[i].sender_module_id == sender && errors[i].message_id == id {
            proof {
                assert(is_error_at(errors@, sender, id, i as int));
                let k = choose|k: int| is_error_at(errors@, sender, id, k);
                if k < i {
                    assert(!(errors@[k].sender_module_id == sender && errors@[k].message_id == id));
                }
                if i < k {
                    assert(!(errors@[i as int].sender_module_id == sender && errors@[i as int].message_id == id));
                }
            }
            return Err(errors[i].error.clone());
        }
        i = i + 1;
    }
    Ok(())
}

/// Only the relay (an admin identity) may deliver messages.
pub fn validate_relay_identity(is_admin: bool) -> (r: Result<(), String>)
    ensures
        is_admin ==> r is Ok,
        !is_admin ==> err_view(r) == Err::<(), Seq<char>>("Unauthorized"@),
{
    if !is_admin {
        return Err(message("Unauthorized"));
    }
    Ok(())
}

/// Admits a message delivered to a region: a message from `sender` with an
/// id above the last one processed from it is handled by the route of its
/// kind, and the counter moves to its id; any other is answered as it was
/// the first time. A region never admits a kind only the global module
/// receives.
pub fn process_inter_module_message(
    is_admin: bool,
    counters: &mut InterModuleCounters,
    errors: &Vec<InterModuleMessageError>,
    sender: u8,
    id: u64,
    kind: MessageKind,
) -> (r: Result<MessageAdmission, String>)
    requires
        old(counters).well_formed(),
        is_admin && !already_processed(old(counters)@, sender, id) ==> !region_refuses(kind),
    ensures
        final(counters).well_formed(),
        !is_admin ==> (r matches Err(e) && e@ == "Unauthorized"@) && final(counters)@ == old(
            counters,
        )@,
        is_admin && already_processed(old(counters)@, sender, id) ==> (r matches Ok(
            MessageAdmission::AlreadyProcessed(a),
        ) && err_view(a) == replayed_answer(errors@, sender, id)) && final(counters)@ == old(counters)@,
        is_admin && !already_processed(old(counters)@, sender, id) ==> final(counters)@ == old(
            counters,
        )@.insert(sender, id) && r == Ok::<MessageAdmission, String>(
            (MessageAdmission::Process {
                previous: counter_of(old(counters)@, sender),
                route: region_route_of(kind),
            }),
        ),
{
    if !is_admin {
        return Err(message("Unauthorized"));
    }
    match counters.find(sender) {
        Some(i) => {
            if counters.counters[i].last_processed_message_id >= id {
                return Ok(MessageAdmission::AlreadyProcessed(replay(errors, sender, id)));
            }
            let previous = counters.counters[i].last_processed_message_id;
            counters.set(sender, id);
            Ok(MessageAdmission::Process { previous: Some(previous), route: region_route(kind) })
        },
        None => {
            counters.set(sender, id);
            Ok(MessageAdmission::Process { previous: None, route: region_route(kind) })
        },
    }
}

/// What the handling of an admitted message ends with.
#[derive(Debug)]
pub struct MessageConclusion {
    /// What the delivery is answered: the handler's own result.
    pub answer: Result<(), String>,
    /// The error to keep for the message, recorded apart from the failed
    /// handling, so that it outlives it.
    pub error_to_keep: Option<InterModuleMessageError>,
}

/// Concludes an admitted message with its handler's `result`. A success
/// keeps the counter where admission moved it. A failure undoes the
/// handling: the sender's counter goes back to `previous` (the counter
/// before admission), the delivery is answered the handler's error, and
/// that error is to be kept for the message.
pub fn conclude_inter_module_message(
    counters: &mut InterModuleCounters,
    sender: u8,
    id: u64,
    previous: Option<u64>,
    result: Result<(), String>,
) -> (r: MessageConclusion)
    requires
        old(counters).well_formed(),
    ensures
        final(counters).well_formed(),
        result is Ok ==> final(counters)@ == old(counters)@ && r.answer is Ok && r.error_to_keep is None,
        result matches Err(e) ==> {
            &&& final(counters)@ == restored(old(counters)@, sender, previous)
            &&& r.answer matches Err(a) && a@ == e@
            &&& r.error_to_keep matches Some(k) && k.sender_module_id == sender && k.message_id == id
                && k.error@ == e@
        },
{
    match result {
        Ok(()) => MessageConclusion { answer: Ok(()), error_to_keep: None },
        Err(e) => {
            match previous {
                Some(v) => counters.set(sender, v),
                None => counters.remove(sender),
            }
            let kept = InterModuleMessageError { sender_module_id: sender, message_id: id, error: e.clone() };
            MessageConclusion { answer: Err(e), error_to_keep: Some(kept) }
        },
    }
}

/// A failed message leaves no trace on the counters: admitting it and then
/// concluding it with a failure gives back the counters it found, so a
/// redelivery of it is handled afresh.
pub proof fn lemma_failed_message_is_handled_again(counters: Map<u8, u64>, sender: u8, id: u64)
    requires
        !already_processed(counters, sender, id),
    ensures
        restored(counters.insert(sender, id), sender, counter_of(counters, sender)) == counters,
        !already_processed(restored(counters.insert(sender, id), sender, counter_of(counters, sender)), sender, id),
{
    assert(restored(counters.insert(sender, id), sender, counter_of(counters, sender)) =~= counters);
}

/// A handled message moves the sender's counter to its id for good.
pub proof fn lemma_handled_message_stays_processed(counters: Map<u8, u64>, sender: u8, id: u64)
    requires
        !already_processed(counters, sender, id),
    ensures
        already_processed(counters.insert(sender, id), sender, id),
{
}

/// A message is never handled twice: once admitted, the same message (or an
/// older one) from the same sender is answered from what was kept.
pub proof fn lemma_no_double_processing(counters: Map<u8, u64>, sender: u8, id: u64, older: u64)
    requires
        !already_processed(counters, sender, id),
        older <= id,
    ensures
        already_processed(counters.insert(sender, id), sender, older),
{
}

/// Admitting a message never moves a sender's counter back.
pub proof fn lemma_counters_only_grow(counters: Map<u8, u64>, sender: u8, id: u64)
    requires
        !already_processed(counters, sender, id),
    ensures
        forall|s: u8|
            #[trigger] counters.contains_key(s) ==> counters.insert(sender, id).contains_key(s)
                && counters[s] <= counters.insert(sender, id)[s],
{
}

/// The error kept for a failed message is what a later delivery of it is
/// answered once the sender's counter has passed its id (a later message
/// from the same sender was handled), when no error of that message was
/// kept before.
pub proof fn lemma_redelivery_replays_error(
    errors: Seq<InterModuleMessageError>,
    sender: u8,
    id: u64,
    error: InterModuleMessageError,
)
    requires
        forall|j: int| 0 <= j < errors.len() ==> !(#[trigger] errors[j].sender_module_id == sender && errors[j].message_id == id),
        error.sender_module_id == sender,
        error.message_id == id,
    ensures
        replayed_answer(errors.push(error), sender, id) == Err::<(), Seq<char>>(error.error@),
{
    let e = errors.push(error);
    assert(is_error_at(e, sender, id, errors.len() as int));
    let k = choose|k: int| is_error_at(e, sender, id, k);
    if k < errors.len() {
        assert(e[k] == errors[k]);
    }
    if errors.len() < k {
        assert(e[errors.len() as int] == error);
    }
}

/// Keeps the error a message ended with, so that a redelivery is answered
/// the same. Only the server itself may record one.
pub fn save_inter_module_message_error(
    is_server: bool,
    errors: &mut Vec<InterModuleMessageError>,
    sender: u8,
    message_id: u64,
    error: String,
)
    ensures
        !is_server ==> final(errors)@ == old(errors)@,
        is_server ==> {
            let e = final(errors)@;
            &&& e.len() == old(errors)@.len() + 1
            &&& e.take(old(errors)@.len() as int) == old(errors)@
            &&& e.last().sender_module_id == sender
            &&& e.last().message_id == message_id
            &&& e.last().error@ == error@
        },
{
    if !is_server {
        return;
    }
    errors.push(InterModuleMessageError { sender_module_id: sender, message_id, error });
    assert(errors@.take(old(errors)@.len() as int) =~= old(errors)@);
}

/// A message of the sender still waiting for its destination's result.
#[derive(Clone, Copy, Debug, PartialEq, Eq, Structural)]
pub struct PendingMessage {
    pub id: u64,
    pub kind: MessageKind,
}

/// No two pending messages share an id.
pub open spec fn ids_distinct(outbox: Seq<PendingMessage>) -> bool {
    forall|a: int, b: int|
        0 <= a < outbox.len() && 0 <= b < outbox.len() && a != b ==> #[trigger] outbox[a].id != #[trigger] outbox[b].id
}

/// Some pending message has this id.
pub open spec fn is_pending(outbox: Seq<PendingMessage>, id: u64) -> bool {
    exists|k: int| 0 <= k < outbox.len() && #[trigger] outbox[k].id == id
}

/// The kind of the pending message with this id.
pub open spec fn pending_kind(outbox: Seq<PendingMessage>, id: u64) -> MessageKind {
    outbox[choose|k: int| 0 <= k < outbox.len() && #[trigger] outbox[k].id == id].kind
}

/// Pending messages other than `id`.
pub open spec fn without_id(outbox: Seq<PendingMessage>, id: u64) -> Seq<PendingMessage> {
    outbox.filter(other_than(id))
}

pub open spec fn other_than(id: u64) -> spec_fn(PendingMessage) -> bool {
    |m: PendingMessage| m.id != id
}

/// The sender side learns that a destination processed one of its messages
/// (`outbox` holds the messages still pending); the message is then
/// forgotten. On success, the kind of the message when the sender handles
/// the destination's result for that kind, none when it ignores it.
pub fn on_inter_module_message_processed(is_admin: bool, outbox: &mut Vec<PendingMessage>, id: u64) -> (r: Result<
    Option<MessageKind>,
    String,
>)
    requires
        ids_distinct(old(outbox)@),
    ensures
        !is_admin ==> (r matches Err(e) && e@ == "Unauthorized"@),
        is_admin && !is_pending(old(outbox)@, id) ==> (r matches Err(e) && e@
            == "No inter_module_message for id {0}|~"@ + decimal(id as int)),
        is_admin && is_pending(old(outbox)@, id) ==> r == Ok::<Option<MessageKind>, String>(
            if sender_handles_result(pending_kind(old(outbox)@, id)) {
                Some(pending_kind(old(outbox)@, id))
            } else {
                None
            },
        ),
        r is Err ==> final(outbox)@ == old(outbox)@,
        r is Ok ==> final(outbox)@ == without_id(old(outbox)@, id),
        is_admin && is_pending(old(outbox)@, id) && ({
            ||| pending_kind(old(outbox)@, id) == MessageKind::TransferPlayerRequest
            ||| pending_kind(old(outbox)@, id) == MessageKind::TransferPlayerHousingRequest
            ||| pending_kind(old(outbox)@, id) == MessageKind::EmpireResupplyNode
            ||| pending_kind(old(outbox)@, id) == MessageKind::EmpireDonateItem
            ||| pending_kind(old(outbox)@, id) == MessageKind::EmpireCreate
            ||| pending_kind(old(outbox)@, id) == MessageKind::EmpireCollectHexiteCapsule
            ||| pending_kind(old(outbox)@, id) == MessageKind::EmpireStartSiege
            ||| pending_kind(old(outbox)@, id) == MessageKind::EmpireSiegeAddSupplies
            ||| pending_kind(old(outbox)@, id) == MessageKind::EmpireCreateBuilding
            ||| pending_kind(old(outbox)@, id) == MessageKind::EmpireClaimJoin
            ||| pending_kind(old(outbox)@, id) == MessageKind::EmpireQueueSupplies
            ||| pending_kind(old(outbox)@, id) == MessageKind::RecoverDeployable
            ||| pending_kind(old(outbox)@, id) == MessageKind::ClaimSetName
            ||| pending_kind(old(outbox)@, id) == MessageKind::EmpireWithdrawItem
        }) ==> r == Ok::<Option<MessageKind>, String>(Some(pending_kind(old(outbox)@, id))),
{
    validate_relay_identity(is_admin)?;
    let n = outbox.len();
    let mut found: Option<MessageKind> = None;
    let mut kept: Vec<PendingMessage> = Vec::new();
    let mut i: usize = 0;
    while i < n
        invariant
            n == outbox@.len(),
            i <= n,
            ids_distinct(outbox@),
            kept@ == outbox@.take(i as int).filter(other_than(id)),
            found is None <==> !exists|k: int| 0 <= k < i && #[trigger] outbox@[k].id == id,
            found matches Some(kind) ==> kind == pending_kind(outbox@, id),
        decreases n - i,
    {
        let x = outbox[i];
        proof {
            assert(outbox@.take(i + 1) == outbox@.take(i as int).push(x));
            outbox@.take(i as int).lemma_filter_push(x, other_than(id));
        }
        if x.id == id {
            proof {
                let k = choose|k: int| 0 <= k < outbox@.len() && #[trigger] outbox@[k].id == id;
                assert(outbox@[i as int].id == id);
                assert(k == i);
            }
            found = Some(x.kind);
        } else {
            kept.push(x);
        }
        i = i + 1;
    }
    assert(outbox@.take(n as int) =~= outbox@);
    let kind = match found {
        Some(k) => k,
        None => return Err(with_decimal_u64("No inter_module_message for id {0}|~", id)),
    };
    *outbox = kept;
    if sender_handles(kind) {
        Ok(Some(kind))
    } else {
        Ok(None)
    }
}

/// Where a change of a shared table is sent.
#[derive(Clone, Copy, Debug, PartialEq, Eq, Structural)]
pub enum SharedDestination {
    Global,
    AllOtherRegions,
    GlobalAndAllOtherRegions,
    /// One region, named by its id.
    Region(u8),
}

/// The accumulators a shared-table change is added to: the global module's
/// and that of all other regions.
#[derive(Clone, Copy, Debug, PartialEq, Eq, Structural)]
pub struct SharedUpdateTargets {
    pub global: bool,
    pub other_regions: bool,
}

/// The accumulators of a destination; none for a single region, to which
/// table changes cannot be sent.
pub open spec fn shared_targets(destination: SharedDestination) -> Option<SharedUpdateTargets> {
    match destination {
        SharedDestination::Global => Some(SharedUpdateTargets { global: true, other_regions: false }),
        SharedDestination::AllOtherRegions => Some(SharedUpdateTargets { global: false, other_regions: true }),
        SharedDestination::GlobalAndAllOtherRegions => Some(
            SharedUpdateTargets { global: true, other_regions: true },
        ),
        SharedDestination::Region(_) => None,
    }
}

/// Which accumulators a shared-table insert or delete is added to; a single
/// region is refused.
pub fn shared_update_targets(destination: SharedDestination) -> (r: Option<SharedUpdateTargets>)
    ensures
        r == shared_targets(destination),
{
    match destination {
        SharedDestination::Global => Some(SharedUpdateTargets { global: true, other_regions: false }),
        SharedDestination::AllOtherRegions => Some(SharedUpdateTargets { global: false, other_regions: true }),
        SharedDestination::GlobalAndAllOtherRegions => Some(SharedUpdateTargets { global: true, other_regions: true }),
        SharedDestination::Region(_) => None,
    }
}

/// Table updates that carry new sign-in parameters for a region make the
/// region process its player queue once they are applied.
pub fn apply_inter_module_table_update<T>(region_sign_in_parameters: &Option<T>) -> (process_queue: bool)
    ensures
        process_queue == region_sign_in_parameters is Some,
{
    region_sign_in_parameters.is_some()
}

} // verus!
