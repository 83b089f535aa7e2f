//! What a prospecting player sees of their prospecting party.
use vstd::prelude::*;

verus! {

/// A player's prospecting, with the player's username when it is known.
#[derive(Clone, Debug)]
pub struct ProspectingRow {
    pub entity_id: u64,
    pub crumb_trail_entity_id: u64,
    pub ongoing_step: i32,
    pub username: Option<String>,
}

/// A member of the viewer's prospecting party.
#[derive(Clone, Debug)]
pub struct ProspectingParticipant {
    pub player_name: String,
    pub node: i32,
}

/// `i` is the viewer's prospecting.
pub open spec fn is_prospecting_of(rows: Seq<ProspectingRow>, actor: u64, i: int) -> bool {
    &&& 0 <= i < rows.len()
    &&& rows[i].entity_id == actor
    &&& forall|j: int| 0 <= j < i ==> #[trigger] rows[j].entity_id != actor
}

/// The crumb trail the viewer follows, if they are prospecting.
pub open spec fn trail_of(rows: Seq<ProspectingRow>, actor: Option<u64>) -> Option<u64> {
    match actor {
        None => None,
        Some(a) => if exists|i: int| is_prospecting_of(rows, a, i) {
            Some(rows[choose|i: int| is_prospecting_of(rows, a, i)].crumb_trail_entity_id)
        } else {
            None
        },
    }
}

/// The participants on a trail, in the order of `rows`.
pub open spec fn on_trail(rows: Seq<ProspectingRow>, trail: u64) -> Seq<ProspectingRow>
    decreases rows.len(),
{
    if rows.len() == 0 {
        Seq::empty()
    } else {
        let rest = on_trail(rows.drop_last(), trail);
        if rows.last().crumb_trail_entity_id == trail {
            rest.push(rows.last())
        } else {
            rest
        }
    }
}

/// The participant a row shows.
pub open spec fn shown(r: ProspectingRow, p: ProspectingParticipant) -> bool {
    p.player_name@ == r.username->0@ && p.node == r.ongoing_step
}

fn find_trail(rows: &Vec<ProspectingRow>, actor: u64) -> (r: Option<u64>)
    ensures
        r == trail_of(rows@, Some(actor)),
{
    let n = rows.len();
    let mut i: usize = 0;
    while i < n
        invariant
            n == rows@.len(),
            i <= n,
            forall|j: int| 0 <= j < i ==> #[trigger] rows@[j].entity_id != actor,
        decreases n - i,
    {
        if rows[i].entity_id == actor {
            proof {
                assert(is_prospecting_of(rows@, actor, i as int));
                let k = choose|k: int| is_prospecting_of(rows@, actor, k);
                if k < i {
                    assert(rows@[k].entity_id != actor);
                }
                if i < k {
                    assert(rows@[i as int].entity_id != actor);
                }
            }
            return Some(rows[i].crumb_trail_entity_id);
        }
        i = i + 1;
    }
    None
}

/// The members of the viewer's prospecting party (the viewer included): the
/// players on the same crumb trail. `actor` is the viewer's entity (none for
/// a viewer without a player); `rows` are all prospecting players.
pub fn prospecting_participants(actor: Option<u64>, rows: &Vec<ProspectingRow>) -> (r: Vec<
    ProspectingParticipant,
>)
    requires
        trail_of(rows@, actor) matches Some(t) ==> forall|i: int|
            0 <= i < rows@.len() && #[trigger] rows@[i].crumb_trail_entity_id == t ==> rows@[i].username is Some,
    ensures
        trail_of(rows@, actor) is None ==> r@.len() == 0,
        trail_of(rows@, actor) matches Some(t) ==> r@.len() == on_trail(rows@, t).len() && forall|i: int|
            0 <= i < r@.len() ==> shown(on_trail(rows@, t)[i], #[trigger] r@[i]),
{
    let mut out: Vec<ProspectingParticipant> = Vec::new();
    let a = match actor {
        Some(a) => a,
        None => return out,
    };
    let t = match find_trail(rows, a) {
        Some(t) => t,
        None => return out,
    };
    let n = rows.len();
    let mut i: usize = 0;
    while i < n
        invariant
            n == rows@.len(),
            i <= n,
            forall|k: int|
                0 <= k < rows@.len() && #[trigger] rows@[k].crumb_trail_entity_id == t ==> rows@[k].username is Some,
            out@.len() == on_trail(rows@.take(i as int), t).len(),
            forall|k: int| 0 <= k < out@.len() ==> shown(on_trail(rows@.take(i as int), t)[k], #[trigger] out@[k]),
        decreases n - i,
    {
        assert(rows@.take(i + 1).drop_last() =~= rows@.take(i as int));
        let row = &rows[i];
        if row.crumb_trail_entity_id == t {
            let name = match &row.username {
                Some(u) => u.clone(),
                None => String::new(),
            };
            out.push(ProspectingParticipant { player_name: name, node: row.ongoing_step });
        }
        i = i + 1;
    }
    assert(rows@.take(n as int) =~= rows@);
    out
}

/// The exposed crumb trail of the viewer's prospecting, if they are
/// prospecting (`trail` is that trail's exposed state).
pub fn exposed_breadcrumbs<T>(prospecting: bool, trail: Option<T>) -> (r: Vec<T>)
    requires
        prospecting ==> trail is Some,
    ensures
        !prospecting ==> r@.len() == 0,
        prospecting ==> r@ == seq![trail->0],
{
    let mut out: Vec<T> = Vec::new();
    if prospecting {
        match trail {
            Some(t) => out.push(t),
            None => {},
        }
        assert(out@ =~= seq![trail->0]);
    }
    out
}

} // verus!
