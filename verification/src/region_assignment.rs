//! Choosing the region in which a new player is created.
use vstd::prelude::*;
use crate::text::{err_view, message};

verus! {

/// How long the queue of a region may grow before newcomers avoid it, and
/// whether it takes sign-ins at all.
#[derive(Clone, Copy, Debug)]
pub struct RegionSignIn {
    pub is_signing_in_blocked: bool,
    pub queue_length_tolerance: u32,
}

/// Whether a region has a world and lets players spawn.
#[derive(Clone, Copy, Debug)]
pub struct RegionControl {
    pub initialized: bool,
    pub allow_player_spawns: bool,
}

/// How busy a region is.
#[derive(Clone, Copy, Debug)]
pub struct RegionPopulation {
    pub players_in_queue: u32,
    pub signed_in_players: u32,
}

/// What the global module knows of one region; entry `k` of a list describes
/// region `k + 1`.
#[derive(Clone, Copy, Debug)]
pub struct RegionFacts {
    pub sign_in: Option<RegionSignIn>,
    pub control: Option<RegionControl>,
    pub population: Option<RegionPopulation>,
    /// Accounts already assigned to the region.
    pub total_accounts: u32,
}

/// The grid of regions: `region_count` regions, `region_count_sqrt` per row.
#[derive(Clone, Copy, Debug)]
pub struct WorldRegionInfo {
    pub region_count: u8,
    pub region_count_sqrt: u8,
}

/// A region that may receive the new player, with what ranks it.
#[derive(Clone, Copy, Debug)]
pub struct RegionInfo {
    pub id: u8,
    pub distance_from_center: u8,
    pub players_in_queue: u32,
    pub signed_in_players: u32,
    pub total_accounts: u32,
}

/// Population steps within which regions count as equally full.
pub const MAX_POPULATION_INCREMENT: u32 = 200;

/// The region may receive new players.
pub open spec fn is_candidate(r: RegionFacts, is_gm: bool) -> bool {
    &&& r.sign_in matches Some(s) && !(s.is_signing_in_blocked && !is_gm)
    &&& r.control matches Some(c) && c.initialized && c.allow_player_spawns
    &&& r.population is Some
}

pub open spec fn abs(x: int) -> int {
    if x < 0 { -x } else { x }
}

/// Grid distance of region `k + 1` from the centre of the grid, as a `u8`
/// holds it (modulo 256).
pub open spec fn distance_from_center(k: int, sqrt: int) -> int {
    let x = k % sqrt;
    let y = k / sqrt;
    let c = sqrt / 2;
    (abs(x - c) + abs(y - c)) % 256
}

/// The ranking data of region `k + 1`.
pub open spec fn region_info(regions: Seq<RegionFacts>, k: int, sqrt: int) -> RegionInfo {
    let r = regions[k];
    RegionInfo {
        id: (k + 1) as u8,
        distance_from_center: distance_from_center(k, sqrt) as u8,
        players_in_queue: (r.population->0.players_in_queue - r.sign_in->0.queue_length_tolerance) as u32,
        signed_in_players: r.population->0.signed_in_players,
        total_accounts: r.total_accounts,
    }
}

/// `a` is preferred to `b`: shorter queue, then a lower population step,
/// then nearer the centre, then more players signed in, then the lower id.
pub open spec fn preferred(a: RegionInfo, b: RegionInfo) -> bool {
    if a.players_in_queue != b.players_in_queue {
        a.players_in_queue < b.players_in_queue
    } else if a.total_accounts / 200 != b.total_accounts / 200 {
        a.total_accounts / 200 < b.total_accounts / 200
    } else if a.distance_from_center != b.distance_from_center {
        a.distance_from_center < b.distance_from_center
    } else if a.signed_in_players != b.signed_in_players {
        a.signed_in_players > b.signed_in_players
    } else {
        a.id < b.id
    }
}

/// Region `k + 1` cannot be ranked, and choosing a region panics: every earlier
/// region was read, this one is a candidate, and either the grid has no
/// rows or its queue is shorter than its tolerance.
pub open spec fn region_fault(regions: Seq<RegionFacts>, sqrt: int, is_gm: bool, k: int) -> bool {
    &&& 0 <= k < regions.len()
    &&& forall|j: int| 0 <= j < k ==> #[trigger] regions[j].sign_in is Some
    &&& is_candidate(regions[k], is_gm)
    &&& (sqrt == 0 || regions[k].population->0.players_in_queue
        < regions[k].sign_in->0.queue_length_tolerance)
}

/// The region's sign-in parameters could not be read.
pub open spec fn missing_sign_in(r: RegionFacts) -> bool {
    r.sign_in is None
}

/// The region chosen for a new player, or why none is.
pub open spec fn best_region_result(
    world: Option<WorldRegionInfo>,
    regions: Seq<RegionFacts>,
    is_gm: bool,
    r: Result<u8, Seq<char>>,
) -> bool {
    match world {
        None => r == Err::<u8, Seq<char>>("Failed to get WorldRegionState"@),
        Some(w) => if exists|k: int| 0 <= k < regions.len() && #[trigger] missing_sign_in(regions[k]) {
            r == Err::<u8, Seq<char>>("Failed to get RegionSignInParameters"@)
        } else if !exists|k: int| 0 <= k < regions.len() && #[trigger] is_candidate(regions[k], is_gm) {
            r == Err::<u8, Seq<char>>("No regions ready to accept new players"@)
        } else {
            r matches Ok(id) && {
                let k = id - 1;
                &&& 0 <= k < regions.len()
                &&& is_candidate(regions[k], is_gm)
                &&& forall|j: int|
                    0 <= j < regions.len() && j != k && #[trigger] is_candidate(regions[j], is_gm)
                        ==> preferred(
                        region_info(regions, k, w.region_count_sqrt as int),
                        region_info(regions, j, w.region_count_sqrt as int),
                    )
            }
        },
    }
}

/// The order in which regions are ranked, field by field: a shorter
/// (tolerance-adjusted) queue first; among equal queues, the lower population
/// step (accounts divided by 200); then the region nearer the centre; then
/// the one with more players signed in; the lower id last.
pub proof fn lemma_preferred_order(a: RegionInfo, b: RegionInfo)
    requires
        preferred(a, b),
    ensures
        a.players_in_queue <= b.players_in_queue,
        a.players_in_queue == b.players_in_queue ==> a.total_accounts / 200 <= b.total_accounts / 200,
        a.players_in_queue == b.players_in_queue && a.total_accounts / 200 == b.total_accounts / 200
            ==> a.distance_from_center <= b.distance_from_center,
        a.players_in_queue == b.players_in_queue && a.total_accounts / 200 == b.total_accounts / 200
            && a.distance_from_center == b.distance_from_center ==> a.signed_in_players >= b.signed_in_players,
        a.players_in_queue == b.players_in_queue && a.total_accounts / 200 == b.total_accounts / 200
            && a.distance_from_center == b.distance_from_center && a.signed_in_players == b.signed_in_players
            ==> a.id < b.id,
{
}

/// Among two regions, the one with the shorter queue, or with an equal queue
/// and a lower population step, is ranked first whatever their distances
/// and signed-in players.
pub proof fn lemma_queue_then_population_decide(a: RegionInfo, b: RegionInfo)
    ensures
        a.players_in_queue < b.players_in_queue ==> preferred(a, b),
        a.players_in_queue == b.players_in_queue && a.total_accounts / 200 < b.total_accounts / 200
            ==> preferred(a, b),
{
}

/// Of two regions with different ids, exactly one is preferred.
pub proof fn lemma_preferred_total(a: RegionInfo, b: RegionInfo)
    requires
        a.id != b.id,
    ensures
        preferred(a, b) != preferred(b, a),
{
}

/// Preference is transitive.
pub proof fn lemma_preferred_transitive(a: RegionInfo, b: RegionInfo, c: RegionInfo)
    requires
        preferred(a, b),
        preferred(b, c),
    ensures
        preferred(a, c),
{
}

fn is_preferred(a: &RegionInfo, b: &RegionInfo) -> (r: bool)
    ensures
        r == preferred(*a, *b),
{
    if a.players_in_queue != b.players_in_queue {
        a.players_in_queue < b.players_in_queue
    } else if a.total_accounts / MAX_POPULATION_INCREMENT != b.total_accounts / MAX_POPULATION_INCREMENT {
        a.total_accounts / MAX_POPULATION_INCREMENT < b.total_accounts / MAX_POPULATION_INCREMENT
    } else if a.distance_from_center != b.distance_from_center {
        a.distance_from_center < b.distance_from_center
    } else if a.signed_in_players != b.signed_in_players {
        a.signed_in_players > b.signed_in_players
    } else {
        a.id < b.id
    }
}

fn abs_diff(a: u8, b: u8) -> (r: u16)
    ensures
        r == abs(a - b),
{
    if a >= b { (a - b) as u16 } else { (b - a) as u16 }
}

/// Picks the region for a new player: among the regions that take new
/// players, the preferred one.
pub fn get_best_region_for_new_player(
    world: Option<WorldRegionInfo>,
    regions: &Vec<RegionFacts>,
    is_gm: bool,
) -> (r: Result<u8, String>)
    requires
        world matches Some(w) ==> regions@.len() == w.region_count,
        world matches Some(w) ==> forall|k: int| !region_fault(regions@, w.region_count_sqrt as int, is_gm, k),
    ensures
        best_region_result(world, regions@, is_gm, err_view(r)),
        r matches Ok(id) ==> forall|j: int|
            0 <= j < regions@.len() && j != id - 1 && #[trigger] is_candidate(regions@[j], is_gm) ==> {
                let a = region_info(regions@, id - 1, world->0.region_count_sqrt as int);
                let b = region_info(regions@, j, world->0.region_count_sqrt as int);
                &&& a.players_in_queue <= b.players_in_queue
                &&& a.players_in_queue == b.players_in_queue ==> a.total_accounts / 200 <= b.total_accounts
                    / 200
                &&& a.players_in_queue == b.players_in_queue && a.total_accounts / 200 == b.total_accounts
                    / 200 ==> a.distance_from_center <= b.distance_from_center
                &&& a.players_in_queue == b.players_in_queue && a.total_accounts / 200 == b.total_accounts
                    / 200 && a.distance_from_center == b.distance_from_center ==> a.signed_in_players
                    >= b.signed_in_players
            },
{
    let w = match world {
        Some(w) => w,
        None => return Err(message("Failed to get WorldRegionState")),
    };
    let sqrt = w.region_count_sqrt;
    let center = sqrt / 2;
    let n = regions.len();
    let mut best: Option<RegionInfo> = None;
    let mut best_k: usize = 0;
    let mut k: usize = 0;
    while k < n
        invariant
            world == Some(w),
            n == regions@.len(),
            n == w.region_count,
            n <= 255,
            sqrt == w.region_count_sqrt,
            center == sqrt / 2,
            forall|j: int| !region_fault(regions@, sqrt as int, is_gm, j),
            k <= n,
            forall|j: int| 0 <= j < k ==> #[trigger] regions@[j].sign_in is Some,
            best is None <==> !exists|j: int| 0 <= j < k && #[trigger] is_candidate(regions@[j], is_gm),
            best matches Some(b) ==> {
                &&& best_k < k
                &&& is_candidate(regions@[best_k as int], is_gm)
                &&& b == region_info(regions@, best_k as int, sqrt as int)
                &&& forall|j: int|
                    0 <= j < k && j != best_k && #[trigger] is_candidate(regions@[j], is_gm) ==> preferred(
                        b,
                        region_info(regions@, j, sqrt as int),
                    )
            },
        decreases n - k,
    {
        let facts = regions[k];
        let sign_in = match facts.sign_in {
            Some(s) => s,
            None => {
                assert(regions@[k as int].sign_in is None);
                assert(missing_sign_in(regions@[k as int]));
                return Err(message("Failed to get RegionSignInParameters"));
            },
        };
        let mut take = true;
        if sign_in.is_signing_in_blocked && !is_gm {
            take = false;
        }
        match facts.control {
            Some(c) => {
                if !c.initialized || !c.allow_player_spawns {
                    take = false;
                }
            },
            None => take = false,
        }
        if facts.population.is_none() {
            take = false;
        }
        assert(take == is_candidate(regions@[k as int], is_gm));
        if take {
            let population = facts.population.unwrap();
            assert(!region_fault(regions@, sqrt as int, is_gm, k as int));
            let index = k as u8;
            let x = index % sqrt;
            let y = index / sqrt;
            let d: u16 = abs_diff(x, center) + abs_diff(y, center);
            let info = RegionInfo {
                id: (k + 1) as u8,
                distance_from_center: (d % 256) as u8,
                players_in_queue: population.players_in_queue - sign_in.queue_length_tolerance,
                signed_in_players: population.signed_in_players,
                total_accounts: facts.total_accounts,
            };
            assert(info == region_info(regions@, k as int, sqrt as int));
            match best {
                None => {
                    best = Some(info);
                    best_k = k;
                },
                Some(b) => {
                    if is_preferred(&info, &b) {
                        proof {
                            assert forall|j: int|
                                0 <= j < k + 1 && j != k && #[trigger] is_candidate(regions@[j], is_gm)
                                    implies preferred(info, region_info(regions@, j, sqrt as int)) by {
                                if j != best_k {
                                    lemma_preferred_transitive(info, b, region_info(regions@, j, sqrt as int));
                                }
                            }
                        }
                        best = Some(info);
                        best_k = k;
                    } else {
                        proof {
                            lemma_preferred_total(info, b);
                        }
                    }
                },
            }
        }
        k = k + 1;
    }
    match best {
        Some(b) => {
            proof {
                assert forall|j: int|
                    0 <= j < regions@.len() && j != best_k && #[trigger] is_candidate(regions@[j], is_gm)
                        implies preferred(b, region_info(regions@, j, sqrt as int)) by {}
                assert forall|j: int|
                    0 <= j < regions@.len() && j != best_k && #[trigger] is_candidate(regions@[j], is_gm)
                        implies {
                        let a = b;
                        let c = region_info(regions@, j, sqrt as int);
                        &&& a.players_in_queue <= c.players_in_queue
                        &&& a.players_in_queue == c.players_in_queue ==> a.total_accounts / 200
                            <= c.total_accounts / 200
                        &&& a.players_in_queue == c.players_in_queue && a.total_accounts / 200
                            == c.total_accounts / 200 ==> a.distance_from_center <= c.distance_from_center
                        &&& a.players_in_queue == c.players_in_queue && a.total_accounts / 200
                            == c.total_accounts / 200 && a.distance_from_center == c.distance_from_center
                            ==> a.signed_in_players >= c.signed_in_players
                    } by {
                    lemma_preferred_order(b, region_info(regions@, j, sqrt as int));
                }
                assert(b.id - 1 == best_k);
            }
            Ok(b.id)
        },
        None => Err(message("No regions ready to accept new players")),
    }
}

/// A user's identity: its 256 bits, as two halves.
#[derive(Clone, Copy, Debug, PartialEq, Eq, Structural)]
pub struct UserIdentity {
    pub high: u128,
    pub low: u128,
}

/// The region a user's character was created in, and when (microseconds
/// since the Unix epoch).
#[derive(Clone, Copy, Debug, PartialEq, Eq, Structural)]
pub struct UserRegion {
    pub identity: UserIdentity,
    pub region_id: u8,
    pub created_at: i64,
}

/// The user has a character already.
pub open spec fn is_registered(users: Seq<UserRegion>, who: UserIdentity) -> bool {
    exists|i: int| 0 <= i < users.len() && #[trigger] users[i].identity == who
}

fn registered(users: &Vec<UserRegion>, who: UserIdentity) -> (r: bool)
    ensures
        r == is_registered(users@, who),
{
    let n = users.len();
    let mut i: usize = 0;
    while i < n
        invariant
            n == users@.len(),
            i <= n,
            forall|j: int| 0 <= j < i ==> #[trigger] users@[j].identity != who,
        decreases n - i,
    {
        if users[i].identity == who {
            assert(users@[i as int].identity == who);
            return true;
        }
        i = i + 1;
    }
    false
}

/// What a request to create a player is answered: the region to create the
/// player in. `users` are the users with a character; a user who has one is
/// refused.
pub fn player_create(
    users: &Vec<UserRegion>,
    sender: UserIdentity,
    world: Option<WorldRegionInfo>,
    regions: &Vec<RegionFacts>,
    is_gm: bool,
) -> (r: Result<u8, String>)
    requires
        world matches Some(w) ==> regions@.len() == w.region_count,
        world matches Some(w) ==> forall|k: int| !region_fault(regions@, w.region_count_sqrt as int, is_gm, k),
    ensures
        is_registered(users@, sender) ==> err_view(r) == Err::<u8, Seq<char>>("Player already exists"@),
        !is_registered(users@, sender) ==> best_region_result(world, regions@, is_gm, err_view(r)),
        r matches Ok(id) ==> forall|j: int|
            0 <= j < regions@.len() && j != id - 1 && #[trigger] is_candidate(regions@[j], is_gm) ==> {
                let a = region_info(regions@, id - 1, world->0.region_count_sqrt as int);
                let b = region_info(regions@, j, world->0.region_count_sqrt as int);
                &&& a.players_in_queue <= b.players_in_queue
                &&& a.players_in_queue == b.players_in_queue ==> a.total_accounts / 200 <= b.total_accounts
                    / 200
                &&& a.players_in_queue == b.players_in_queue && a.total_accounts / 200 == b.total_accounts
                    / 200 ==> a.distance_from_center <= b.distance_from_center
                &&& a.players_in_queue == b.players_in_queue && a.total_accounts / 200 == b.total_accounts
                    / 200 && a.distance_from_center == b.distance_from_center ==> a.signed_in_players
                    >= b.signed_in_players
            },
{
    if registered(users, sender) {
        return Err(message("Player already exists"));
    }
    get_best_region_for_new_player(world, regions, is_gm)
}

/// Records a created player: the sender's region and creation time are
/// added, right away, so that the sender cannot create a second character.
pub fn record_new_player(users: &mut Vec<UserRegion>, sender: UserIdentity, region_id: u8, now: i64)
    ensures
        final(users)@ == old(users)@.push(UserRegion { identity: sender, region_id, created_at: now }),
{
    users.push(UserRegion { identity: sender, region_id, created_at: now });
}

/// Once a player was created and recorded, a later request by the same user
/// is refused: the user is registered, and no record is lost.
pub proof fn lemma_second_creation_refused(
    users: Seq<UserRegion>,
    sender: UserIdentity,
    region_id: u8,
    now: i64,
    other: UserIdentity,
)
    ensures
        is_registered(users.push(UserRegion { identity: sender, region_id, created_at: now }), sender),
        is_registered(users, other) ==> is_registered(
            users.push(UserRegion { identity: sender, region_id, created_at: now }),
            other,
        ),
{
    let after = users.push(UserRegion { identity: sender, region_id, created_at: now });
    assert(after[users.len() as int].identity == sender);
    if is_registered(users, other) {
        let i = choose|i: int| 0 <= i < users.len() && #[trigger] users[i].identity == other;
        assert(after[i].identity == other);
    }
}

} // verus!
