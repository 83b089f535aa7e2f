//! Gated features: keys that switch reducers (or whole categories of them)
//! off for everyone who is not a game master.
use vstd::prelude::*;
use vstd::string::*;
use crate::text::{err_view, lemma_trim_idempotent, message, trim, trim_string};

verus! {

/// The set of gated feature keys; each key is held once.
pub struct GatedFeatures {
    pub features: Vec<String>,
}

impl View for GatedFeatures {
    type V = Set<Seq<char>>;

    open spec fn view(&self) -> Set<Seq<char>> {
        self.keys().to_set()
    }
}

impl GatedFeatures {
    pub open spec fn keys(&self) -> Seq<Seq<char>> {
        self.features@.map_values(|s: String| s@)
    }

    /// No key is held twice.
    pub open spec fn well_formed(&self) -> bool {
        self.keys().no_duplicates()
    }

    pub fn new() -> (r: Self)
        ensures
            r.well_formed(),
            r@ == Set::<Seq<char>>::empty(),
    {
        let r = GatedFeatures { features: Vec::new() };
        assert(r.keys() =~= Seq::<Seq<char>>::empty());
        assert(r@ =~= Set::<Seq<char>>::empty());
        r
    }

    fn index_of(&self, key: &String) -> (r: Option<usize>)
        ensures
            match r {
                Some(i) => i < self.features@.len() && self.keys()[i as int] == key@,
                None => !self.keys().contains(key@),
            },
    {
        let n = self.features.len();
        let mut i: usize = 0;
        while i < n
            invariant
                n == self.features@.len(),
                i <= n,
                forall|j: int| 0 <= j < i ==> self.keys()[j] != key@,
            decreases n - i,
        {
            if self.features[i] == *key {
                return Some(i);
            }
            i = i + 1;
        }
        None
    }

    /// The key is gated.
    pub fn contains(&self, key: &str) -> (r: bool)
        ensures
            r == self@.contains(key@),
    {
        let k = String::from_str(key);
        match self.index_of(&k) {
            Some(i) => {
                assert(self.keys().contains(key@));
                true
            },
            None => false,
        }
    }

    /// Adds a key; a key already held is left as it is.
    pub fn insert(&mut self, key: String)
        requires
            old(self).well_formed(),
        ensures
            final(self).well_formed(),
            final(self)@ == old(self)@.insert(key@),
    {
        if self.index_of(&key).is_some() {
            assert(self.keys().contains(key@));
            assert(self@ =~= self@.insert(key@));
            return;
        }
        let ghost old_keys = self.keys();
        self.features.push(key);
        assert(self.keys() =~= old_keys.push(key@));
        assert(self@ =~= old(self)@.insert(key@)) by {
            assert forall|k: Seq<char>| self@.contains(k) <==> old(self)@.insert(key@).contains(k) by {
                if self.keys().contains(k) {
                    let i = choose|i: int| 0 <= i < self.keys().len() && self.keys()[i] == k;
                    if i < old_keys.len() {
                        assert(old_keys[i] == k);
                    }
                }
                if old_keys.contains(k) {
                    let i = choose|i: int| 0 <= i < old_keys.len() && old_keys[i] == k;
                    assert(self.keys()[i] == k);
                }
                if k == key@ {
                    assert(self.keys()[old_keys.len() as int] == k);
                }
            }
        }
    }

    /// Removes a key, if it is held.
    pub fn remove(&mut self, key: &String)
        requires
            old(self).well_formed(),
        ensures
            final(self).well_formed(),
            final(self)@ == old(self)@.remove(key@),
    {
        match self.index_of(key) {
            None => {
                assert(self@ =~= self@.remove(key@));
            },
            Some(i) => {
                let ghost old_keys = self.keys();
                self.features.remove(i);
                assert(self.keys() =~= old_keys.remove(i as int));
                assert(self.well_formed()) by {
                    assert forall|a: int, b: int|
                        0 <= a < self.keys().len() && 0 <= b < self.keys().len() && a != b implies
                        self.keys()[a] != self.keys()[b] by {
                        let a2 = if a < i { a } else { a + 1 };
                        let b2 = if b < i { b } else { b + 1 };
                        assert(self.keys()[a] == old_keys[a2]);
                        assert(self.keys()[b] == old_keys[b2]);
                    }
                }
                assert(self@ =~= old(self)@.remove(key@)) by {
                    assert forall|k: Seq<char>| self@.contains(k) <==> old(self)@.remove(key@).contains(k) by {
                        if self.keys().contains(k) {
                            let a = choose|a: int| 0 <= a < self.keys().len() && self.keys()[a] == k;
                            let a2 = if a < i { a } else { a + 1 };
                            assert(old_keys[a2] == k);
                            assert(a2 != i);
                        }
                        if old_keys.contains(k) && k != key@ {
                            let a = choose|a: int| 0 <= a < old_keys.len() && old_keys[a] == k;
                            assert(a != i);
                            let a1 = if a < i { a } else { a - 1 };
                            assert(self.keys()[a1] == k);
                        }
                    }
                }
            },
        }
    }
}

/// Trims a feature key and refuses an empty one.
pub fn normalize_feature_key(feature: String) -> (r: Result<String, String>)
    ensures
        match r {
            Ok(k) => trim(feature@).len() > 0 && k@ == trim(feature@),
            Err(e) => trim(feature@).len() == 0 && e@ == "Feature key cannot be empty"@,
        },
{
    let feature = trim_string(feature.as_str());
    if feature.as_str().unicode_len() == 0 {
        return Err(message("Feature key cannot be empty"));
    }
    Ok(feature)
}

/// What an admin's request to add or remove a gated feature is answered.
pub open spec fn gated_edit_result(is_admin: bool, feature: Seq<char>) -> Result<(), Seq<char>> {
    if !is_admin {
        Err("Unauthorized"@)
    } else if trim(feature).len() == 0 {
        Err("Feature key cannot be empty"@)
    } else {
        Ok(())
    }
}

/// The gated keys after a request to add `feature`.
pub open spec fn gated_after_add(gated: Set<Seq<char>>, is_admin: bool, feature: Seq<char>) -> Set<
    Seq<char>,
> {
    if gated_edit_result(is_admin, feature) is Ok {
        gated.insert(trim(feature))
    } else {
        gated
    }
}

/// The gated keys after a request to remove `feature`.
pub open spec fn gated_after_remove(gated: Set<Seq<char>>, is_admin: bool, feature: Seq<char>) -> Set<
    Seq<char>,
> {
    if gated_edit_result(is_admin, feature) is Ok {
        gated.remove(trim(feature))
    } else {
        gated
    }
}

/// Gates a feature (admins only). Adding a key already gated succeeds and
/// changes nothing.
pub fn admin_gated_feature_add(is_admin: bool, gated: &mut GatedFeatures, feature: String) -> (r:
    Result<(), String>)
    requires
        old(gated).well_formed(),
    ensures
        final(gated).well_formed(),
        err_view(r) == gated_edit_result(is_admin, feature@),
        final(gated)@ == gated_after_add(old(gated)@, is_admin, feature@),
{
    if !is_admin {
        return Err(message("Unauthorized"));
    }
    let feature = normalize_feature_key(feature)?;
    gated.insert(feature);
    Ok(())
}

/// Lifts a gate (admins only). Removing a key that is not gated succeeds.
pub fn admin_gated_feature_remove(is_admin: bool, gated: &mut GatedFeatures, feature: String) -> (r:
    Result<(), String>)
    requires
        old(gated).well_formed(),
    ensures
        final(gated).well_formed(),
        err_view(r) == gated_edit_result(is_admin, feature@),
        final(gated)@ == gated_after_remove(old(gated)@, is_admin, feature@),
{
    if !is_admin {
        return Err(message("Unauthorized"));
    }
    let feature = normalize_feature_key(feature)?;
    gated.remove(&feature);
    Ok(())
}

/// The key that gates one reducer.
pub open spec fn reducer_key(reducer: Seq<char>) -> Seq<char> {
    "reducer:"@ + reducer
}

/// The key that gates a category of reducers.
pub open spec fn category_key(category: Seq<char>) -> Seq<char> {
    "category:"@ + category
}

pub open spec fn opt_str_view(o: Option<&str>) -> Option<Seq<char>> {
    match o {
        Some(s) => Some(s@),
        None => None,
    }
}

/// A gated reducer may run: game masters pass every gate; anyone else passes
/// when neither the reducer's key nor its category's key is gated.
pub open spec fn gate_allows(
    gated: Set<Seq<char>>,
    is_gm: bool,
    reducer: Seq<char>,
    category: Option<Seq<char>>,
) -> bool {
    is_gm || (!gated.contains(reducer_key(reducer)) && match category {
        Some(c) => !gated.contains(category_key(c)),
        None => true,
    })
}

/// Whether a gated reducer may run: `is_gm` says whether the caller is a game master,
/// `reducer_gated` whether the reducer's key is gated, `category_gated`
/// whether its category's key is (false for a reducer without a category).
/// Gated reducers run this check before their own code.
pub fn gate_verdict(is_gm: bool, reducer_gated: bool, category_gated: bool) -> (r: Result<(), String>)
    ensures
        r is Ok <==> (is_gm || (!reducer_gated && !category_gated)),
        r matches Err(e) ==> e@ == "This functionality is currently disabled"@,
{
    if !is_gm && (reducer_gated || category_gated) {
        return Err(message("This functionality is currently disabled"));
    }
    Ok(())
}

/// The check that runs before a gated reducer.
pub fn feature_gate(is_gm: bool, gated: &GatedFeatures, reducer: &str, category: Option<&str>) -> (r:
    Result<(), String>)
    ensures
        r is Ok <==> gate_allows(gated@, is_gm, reducer@, opt_str_view(category)),
        r matches Err(e) ==> e@ == "This functionality is currently disabled"@,
{
    if is_gm {
        return Ok(());
    }
    let key = String::from_str("reducer:").concat(reducer);
    if gated.contains(key.as_str()) {
        return Err(message("This functionality is currently disabled"));
    }
    if let Some(c) = category {
        let key = String::from_str("category:").concat(c);
        if gated.contains(key.as_str()) {
            return Err(message("This functionality is currently disabled"));
        }
    }
    Ok(())
}

/// Once a reducer's key is gated, nobody but a game master may run it.
pub proof fn lemma_gated_reducer_is_refused(
    gated: Set<Seq<char>>,
    reducer: Seq<char>,
    category: Option<Seq<char>>,
)
    ensures
        !gate_allows(gated.insert(reducer_key(reducer)), false, reducer, category),
        gate_allows(gated.insert(reducer_key(reducer)), true, reducer, category),
{
}

/// Gating a key that is gated already changes nothing.
pub proof fn lemma_add_is_idempotent(gated: Set<Seq<char>>, is_admin: bool, feature: Seq<char>)
    ensures
        gated_after_add(gated_after_add(gated, is_admin, feature), is_admin, feature)
            == gated_after_add(gated, is_admin, feature),
{
    assert(gated_after_add(gated_after_add(gated, is_admin, feature), is_admin, feature)
        =~= gated_after_add(gated, is_admin, feature));
}

/// Removing a feature after adding it (under the same trimmed key) leaves it
/// ungated.
pub proof fn lemma_remove_undoes_add(
    gated: Set<Seq<char>>,
    feature: Seq<char>,
    other: Seq<char>,
)
    requires
        trim(feature) == trim(other),
        trim(feature).len() > 0,
    ensures
        !gated_after_remove(gated_after_add(gated, true, feature), true, other).contains(trim(feature)),
        gated_after_remove(gated_after_add(gated, true, feature), true, other) == gated.remove(
            trim(feature),
        ),
{
    assert(gated_after_remove(gated_after_add(gated, true, feature), true, other) =~= gated.remove(
        trim(feature),
    ));
}

/// A request that is not an admin's changes no gate.
pub proof fn lemma_non_admin_changes_nothing(gated: Set<Seq<char>>, feature: Seq<char>)
    ensures
        gated_after_add(gated, false, feature) == gated,
        gated_after_remove(gated, false, feature) == gated,
{
}

/// A normalized feature key normalizes to itself: the key is not empty and
/// trimming it changes nothing.
pub proof fn lemma_normalized_key_is_stable(feature: Seq<char>)
    requires
        trim(feature).len() > 0,
    ensures
        trim(trim(feature)) == trim(feature),
        trim(trim(feature)).len() > 0,
{
    lemma_trim_idempotent(feature);
}

} // verus!
