//! Cache of decoded image assets, keyed by asset id.
//!
//! A given asset id is in one of three implicit states: *absent* (no trace of
//! it anywhere), *in flight* (exactly one outstanding fetch owns it) or
//! *ready* (a decoded texture is held for it). A failed fetch leaves no
//! trace, so the next request simply retries. A periodic sweep evicts every
//! ready entry that was not requested since the previous sweep.

use vstd::prelude::*;

verus! {

/// Handle to a decoded, renderer-owned texture. The renderer side keeps the
/// pixel data; the cache only needs a stable identity for each upload.
#[derive(Clone, Copy, PartialEq, Eq, Structural, Debug)]
pub struct Texture {
    pub handle: u64,
}

/// Mathematical state of the cache: the ready map, the in-flight set and the
/// used-since-last-sweep set, all keyed by the asset id's characters.
#[verifier::ext_equal]
pub struct CacheModel {
    pub ready: Map<Seq<char>, Texture>,
    pub in_flight: Set<Seq<char>>,
    pub used: Set<Seq<char>>,
}

impl CacheModel {
    /// The state of a freshly constructed cache: everything empty.
    pub open spec fn init() -> CacheModel {
        CacheModel { ready: Map::empty(), in_flight: Set::empty(), used: Set::empty() }
    }
}

/// What a single `get` call reports to the caller.
#[derive(Clone, Copy, PartialEq, Eq, Structural, Debug)]
pub enum GetOutcome {
    /// The asset is ready; here is the shared texture handle.
    Ready { texture: Texture },
    /// Another fetch already owns this id; nothing was started.
    AlreadyPending,
    /// This call took ownership of the miss: exactly one fetch job must now
    /// be spawned for this id.
    StartFetch,
}

/// One `get(id)` on the model: mark the id used unconditionally; report a hit
/// from the ready map, or report an already-pending miss, or claim the id by
/// inserting it into the in-flight set.
pub open spec fn spec_get(s: CacheModel, id: Seq<char>) -> (CacheModel, GetOutcome) {
    let marked = CacheModel { used: s.used.insert(id), ..s };
    if s.ready.contains_key(id) {
        (marked, GetOutcome::Ready { texture: s.ready[id] })
    } else if s.in_flight.contains(id) {
        (marked, GetOutcome::AlreadyPending)
    } else {
        (CacheModel { in_flight: s.in_flight.insert(id), ..marked }, GetOutcome::StartFetch)
    }
}

/// One fetch completion on the model: the id stops being in flight; on
/// success the texture enters the ready map, on failure nothing else happens,
/// so the next `get` of this id starts over.
pub open spec fn spec_complete(s: CacheModel, id: Seq<char>, tex: Option<Texture>) -> CacheModel {
    let gone = CacheModel { in_flight: s.in_flight.remove(id), ..s };
    match tex {
        Some(t) => CacheModel { ready: gone.ready.insert(id, t), ..gone },
        None => gone,
    }
}

/// One sweep on the model: keep exactly the ready entries that were used
/// since the previous sweep, and start a fresh use period. In-flight entries
/// are untouched.
pub open spec fn spec_sweep(s: CacheModel) -> CacheModel {
    CacheModel { ready: s.ready.restrict(s.used), used: Set::empty(), ..s }
}

/// The set of id views held in a vector of id strings.
pub open spec fn key_set(s: Seq<String>) -> Set<Seq<char>> {
    Set::new(|k: Seq<char>| exists|i: int| 0 <= i < s.len() && s[i]@ == k)
}

/// Whether an association list of (id, texture) pairs holds a key.
pub open spec fn pairs_contain(s: Seq<(String, Texture)>, k: Seq<char>) -> bool {
    exists|i: int| 0 <= i < s.len() && s[i].0@ == k
}

/// The texture an association list holds for a key it contains.
pub open spec fn pair_value(s: Seq<(String, Texture)>, k: Seq<char>) -> Texture {
    s[choose|i: int| 0 <= i < s.len() && s[i].0@ == k].1
}

/// The map an association list stands for.
pub open spec fn pair_map(s: Seq<(String, Texture)>) -> Map<Seq<char>, Texture> {
    Map::new(|k: Seq<char>| pairs_contain(s, k), |k: Seq<char>| pair_value(s, k))
}

/// Keys of an association list are pairwise distinct.
pub open spec fn unique_pairs(s: Seq<(String, Texture)>) -> bool {
    forall|i: int, j: int| 0 <= i < j < s.len() ==> s[i].0@ != s[j].0@
}

/// Elements of an id vector are pairwise distinct.
pub open spec fn unique_ids(s: Seq<String>) -> bool {
    forall|i: int, j: int| 0 <= i < j < s.len() ==> s[i]@ != s[j]@
}

/// With unique keys, any index holding the key determines the list's value
/// for that key.
proof fn lemma_pair_value_at(s: Seq<(String, Texture)>, k: Seq<char>, i: int)
    requires
        unique_pairs(s),
        0 <= i < s.len(),
        s[i].0@ == k,
    ensures
        pairs_contain(s, k),
        pair_value(s, k) == s[i].1,
{
    let j = choose|j: int| 0 <= j < s.len() && s[j].0@ == k;
    assert(0 <= j < s.len() && s[j].0@ == k);
    assert(i == j);
}

/// Index of an id in a plain id vector, if any.
fn find_id(v: &Vec<String>, id: &String) -> (r: Option<usize>)
    ensures
        match r {
            Some(i) => i < v@.len() && v@[i as int]@ == id@,
            None => !key_set(v@).contains(id@),
        },
{
    let n = v.len();
    let mut i: usize = 0;
    while i < n
        invariant
            n == v@.len(),
            i <= n,
            forall|j: int| 0 <= j < i ==> v@[j]@ != id@,
        decreases n - i,
    {
        if v[i] == *id {
            return Some(i);
        }
        i = i + 1;
    }
    None
}

/// Index of a key in an association list, if any.
fn find_pair(v: &Vec<(String, Texture)>, id: &String) -> (r: Option<usize>)
    ensures
        match r {
            Some(i) => i < v@.len() && v@[i as int].0@ == id@,
            None => !pairs_contain(v@, id@),
        },
{
    let n = v.len();
    let mut i: usize = 0;
    while i < n
        invariant
            n == v@.len(),
            i <= n,
            forall|j: int| 0 <= j < i ==> v@[j].0@ != id@,
        decreases n - i,
    {
        if v[i].0 == *id {
            return Some(i);
        }
        i = i + 1;
    }
    None
}

/// Remove an id from a duplicate-free id vector, by swap-removal.
fn remove_id(v: &mut Vec<String>, id: &String)
    requires
        unique_ids(old(v)@),
    ensures
        unique_ids(final(v)@),
        key_set(final(v)@) == key_set(old(v)@).remove(id@),
{
    let ghost v0 = v@;
    match find_id(v, id) {
        Some(i) => {
            let ghost ii = i as int;
            v.swap_remove(i);
            proof {
                let vn = v@;
                assert(vn.len() == v0.len() - 1);
                assert forall|j: int| 0 <= j < vn.len() implies vn[j] == (if j == ii {
                    v0[v0.len() - 1]
                } else {
                    v0[j]
                }) by {}
                assert forall|m: int, n: int| 0 <= m < n < vn.len() implies vn[m]@ != vn[n]@ by {
                    let a = if m == ii { v0.len() - 1 } else { m };
                    let b = if n == ii { v0.len() - 1 } else { n };
                    assert(vn[m] == v0[a] && vn[n] == v0[b]);
                    assert(a != b);
                }
                assert forall|j: int| 0 <= j < vn.len() implies vn[j]@ != id@ by {
                    let a = if j == ii { v0.len() - 1 } else { j };
                    assert(vn[j] == v0[a]);
                    assert(a != ii ==> v0[a]@ != v0[ii]@);
                }
                assert forall|k: Seq<char>| key_set(vn).contains(k) implies key_set(v0).remove(
                    id@,
                ).contains(k) by {
                    let j = choose|j: int| 0 <= j < vn.len() && vn[j]@ == k;
                    let a = if j == ii { v0.len() - 1 } else { j };
                    assert(v0[a]@ == k);
                }
                assert forall|k: Seq<char>| key_set(v0).remove(id@).contains(k) implies key_set(
                    vn,
                ).contains(k) by {
                    let m = choose|m: int| 0 <= m < v0.len() && v0[m]@ == k;
                    assert(m != ii);
                    if m == v0.len() - 1 {
                        assert(ii < v0.len() - 1);
                        assert(vn[ii]@ == k);
                    } else {
                        assert(vn[m]@ == k);
                    }
                }
                assert(key_set(vn) =~= key_set(v0).remove(id@));
            }
        },
        None => {
            proof {
                assert(key_set(v@) =~= key_set(v0).remove(id@));
            }
        },
    }
}

/// Remove a key from a duplicate-free association list, by swap-removal.
fn remove_pair(v: &mut Vec<(String, Texture)>, id: &String)
    requires
        unique_pairs(old(v)@),
    ensures
        unique_pairs(final(v)@),
        !pairs_contain(final(v)@, id@),
        pair_map(final(v)@) == pair_map(old(v)@).remove(id@),
{
    let ghost v0 = v@;
    match find_pair(v, id) {
        Some(i) => {
            let ghost ii = i as int;
            v.swap_remove(i);
            proof {
                let vn = v@;
                assert(vn.len() == v0.len() - 1);
                assert forall|j: int| 0 <= j < vn.len() implies vn[j] == (if j == ii {
                    v0[v0.len() - 1]
                } else {
                    v0[j]
                }) by {}
                assert forall|m: int, n: int| 0 <= m < n < vn.len() implies vn[m].0@ != vn[n].0@ by {
                    let a = if m == ii { v0.len() - 1 } else { m };
                    let b = if n == ii { v0.len() - 1 } else { n };
                    assert(vn[m] == v0[a] && vn[n] == v0[b]);
                    assert(a != b);
                }
                assert forall|j: int| 0 <= j < vn.len() implies vn[j].0@ != id@ by {
                    let a = if j == ii { v0.len() - 1 } else { j };
                    assert(vn[j] == v0[a]);
                    assert(a != ii ==> v0[a].0@ != v0[ii].0@);
                }
                assert forall|k: Seq<char>| pair_map(vn).contains_key(k) implies pair_map(
                    v0,
                ).remove(id@).contains_key(k) by {
                    let j = choose|j: int| 0 <= j < vn.len() && vn[j].0@ == k;
                    let a = if j == ii { v0.len() - 1 } else { j };
                    assert(v0[a].0@ == k);
                }
                assert forall|k: Seq<char>| pair_map(v0).remove(id@).contains_key(k)
                    implies pair_map(vn).contains_key(k) by {
                    let m = choose|m: int| 0 <= m < v0.len() && v0[m].0@ == k;
                    assert(m != ii);
                    if m == v0.len() - 1 {
                        assert(ii < v0.len() - 1);
                        assert(vn[ii].0@ == k);
                    } else {
                        assert(vn[m].0@ == k);
                    }
                }
                assert forall|k: Seq<char>| pair_map(vn).contains_key(k) implies pair_map(vn)[k]
                    == pair_map(v0).remove(id@)[k] by {
                    let j = choose|j: int| 0 <= j < vn.len() && vn[j].0@ == k;
                    lemma_pair_value_at(vn, k, j);
                    let a = if j == ii { v0.len() - 1 } else { j };
                    assert(vn[j] == v0[a] && v0[a].0@ == k);
                    lemma_pair_value_at(v0, k, a);
                }
                assert(pair_map(vn) =~= pair_map(v0).remove(id@));
            }
        },
        None => {
            proof {
                assert(pair_map(v@) =~= pair_map(v0).remove(id@));
            }
        },
    }
}

/// The subsequence of `r0` whose keys are in `used`, in order.
spec fn swept(r0: Seq<(String, Texture)>, used: Set<Seq<char>>) -> Seq<(String, Texture)>
    decreases r0.len(),
{
    if r0.len() == 0 {
        Seq::<(String, Texture)>::empty()
    } else {
        let prefix = swept(r0.drop_last(), used);
        if used.contains(r0.last().0@) {
            prefix.push(r0.last())
        } else {
            prefix
        }
    }
}

/// Appending a fresh key to an association list inserts it into the map the
/// list stands for.
proof fn lemma_pair_map_push(s: Seq<(String, Texture)>, p: (String, Texture))
    requires
        unique_pairs(s),
        !pairs_contain(s, p.0@),
    ensures
        unique_pairs(s.push(p)),
        pair_map(s.push(p)) == pair_map(s).insert(p.0@, p.1),
{
    let sn = s.push(p);
    assert forall|a: int, b: int| 0 <= a < b < sn.len() implies sn[a].0@ != sn[b].0@ by {
        if b == sn.len() - 1 {
            assert(sn[a] == s[a]);
        }
    }
    assert forall|k: Seq<char>| pair_map(sn).contains_key(k) implies pair_map(s).insert(
        p.0@,
        p.1,
    ).contains_key(k) by {
        if k != p.0@ {
            let j = choose|j: int| 0 <= j < sn.len() && sn[j].0@ == k;
            assert(j < sn.len() - 1);
            assert(s[j].0@ == k);
        }
    }
    assert forall|k: Seq<char>| pair_map(s).insert(p.0@, p.1).contains_key(k) implies pair_map(
        sn,
    ).contains_key(k) by {
        if k == p.0@ {
            assert(sn[sn.len() - 1].0@ == k);
        } else {
            let j = choose|j: int| 0 <= j < s.len() && s[j].0@ == k;
            assert(sn[j].0@ == k);
        }
    }
    assert forall|k: Seq<char>| pair_map(sn).contains_key(k) implies pair_map(sn)[k] == pair_map(
        s,
    ).insert(p.0@, p.1)[k] by {
        if k == p.0@ {
            lemma_pair_value_at(sn, k, sn.len() - 1);
        } else {
            let j = choose|j: int| 0 <= j < s.len() && s[j].0@ == k;
            lemma_pair_value_at(s, k, j);
            assert(sn[j] == s[j]);
            lemma_pair_value_at(sn, k, j);
        }
    }
    assert(pair_map(sn) =~= pair_map(s).insert(p.0@, p.1));
}

/// The swept subsequence stands for the restriction of the full map to the
/// used keys.
proof fn lemma_swept(r0: Seq<(String, Texture)>, used: Set<Seq<char>>)
    requires
        unique_pairs(r0),
    ensures
        unique_pairs(swept(r0, used)),
        pair_map(swept(r0, used)) == pair_map(r0).restrict(used),
    decreases r0.len(),
{
    if r0.len() == 0 {
        assert(pair_map(swept(r0, used)) =~= pair_map(r0).restrict(used));
    } else {
        let d = r0.drop_last();
        let p = r0.last();
        assert(unique_pairs(d));
        lemma_swept(d, used);
        assert forall|j: int| 0 <= j < d.len() implies d[j].0@ != p.0@ by {
            assert(r0[j].0@ != r0[r0.len() - 1].0@);
        }
        assert(!pairs_contain(d, p.0@));
        // Keys other than p's are the same in r0 and d, with the same value.
        assert forall|k: Seq<char>|
            k != p.0@ implies (pair_map(r0).contains_key(k) == pair_map(d).contains_key(k)
                && (pair_map(d).contains_key(k) ==> pair_map(r0)[k] == pair_map(d)[k])) by {
            if pair_map(r0).contains_key(k) {
                let j = choose|j: int| 0 <= j < r0.len() && r0[j].0@ == k;
                assert(j < r0.len() - 1);
                assert(d[j].0@ == k);
                lemma_pair_value_at(d, k, j);
                lemma_pair_value_at(r0, k, j);
            } else {
                if pair_map(d).contains_key(k) {
                    let j = choose|j: int| 0 <= j < d.len() && d[j].0@ == k;
                    assert(r0[j].0@ == k);
                }
            }
        }
        if used.contains(p.0@) {
            assert(!pairs_contain(swept(d, used), p.0@)) by {
                if pairs_contain(swept(d, used), p.0@) {
                    assert(pair_map(swept(d, used)).contains_key(p.0@));
                    assert(pair_map(d).restrict(used).contains_key(p.0@));
                }
            }
            lemma_pair_map_push(swept(d, used), p);
            assert(swept(r0, used) == swept(d, used).push(p));
            lemma_pair_value_at(r0, p.0@, r0.len() - 1);
            let lhs = pair_map(d).restrict(used).insert(p.0@, p.1);
            let rhs = pair_map(r0).restrict(used);
            assert(pair_map(swept(r0, used)) == lhs);
            assert forall|k: Seq<char>| lhs.contains_key(k) implies rhs.contains_key(k) && lhs[k]
                == rhs[k] by {
                if k == p.0@ {
                    assert(pair_map(r0).contains_key(k) && pair_map(r0)[k] == p.1);
                } else {
                    assert(pair_map(d).contains_key(k) && used.contains(k));
                    assert(pair_map(r0).contains_key(k));
                    assert(pair_map(r0)[k] == pair_map(d)[k]);
                }
            }
            assert forall|k: Seq<char>| rhs.contains_key(k) implies lhs.contains_key(k) by {
                assert(pair_map(r0).contains_key(k) && used.contains(k));
                if k != p.0@ {
                    let j = choose|j: int| 0 <= j < r0.len() && r0[j].0@ == k;
                    assert(j < r0.len() - 1);
                    assert(d[j].0@ == k);
                    assert(pair_map(d).contains_key(k));
                }
            }
            assert(lhs =~= rhs);
        } else {
            assert(swept(r0, used) == swept(d, used));
            let lhs = pair_map(d).restrict(used);
            let rhs = pair_map(r0).restrict(used);
            assert forall|k: Seq<char>| lhs.contains_key(k) implies rhs.contains_key(k) && lhs[k]
                == rhs[k] by {
                assert(pair_map(d).contains_key(k) && used.contains(k));
                assert(k != p.0@);
                assert(pair_map(r0).contains_key(k));
                assert(pair_map(r0)[k] == pair_map(d)[k]);
            }
            assert forall|k: Seq<char>| rhs.contains_key(k) implies lhs.contains_key(k) by {
                assert(pair_map(r0).contains_key(k) && used.contains(k));
                assert(k != p.0@);
                let j = choose|j: int| 0 <= j < r0.len() && r0[j].0@ == k;
                assert(j < r0.len() - 1);
                assert(d[j].0@ == k);
                assert(pair_map(d).contains_key(k));
            }
            assert(lhs =~= rhs);
        }
    }
}

/// The executable cache. The ready map is an association list with unique
/// keys; the in-flight and used sets are vectors without duplicates.
pub struct AssetCache {
    ready: Vec<(String, Texture)>,
    in_flight: Vec<String>,
    used: Vec<String>,
}

impl View for AssetCache {
    type V = CacheModel;

    closed spec fn view(&self) -> CacheModel {
        CacheModel {
            ready: pair_map(self.ready@),
            in_flight: key_set(self.in_flight@),
            used: key_set(self.used@),
        }
    }
}

impl AssetCache {
    /// All three underlying vectors are free of duplicate ids.
    pub closed spec fn wf(&self) -> bool {
        &&& unique_pairs(self.ready@)
        &&& unique_ids(self.in_flight@)
        &&& unique_ids(self.used@)
    }

    /// An empty cache.
    pub fn new() -> (c: AssetCache)
        ensures
            c.wf(),
            c@ == CacheModel::init(),
    {
        let c = AssetCache { ready: Vec::new(), in_flight: Vec::new(), used: Vec::new() };
        proof {
            assert(c@.ready =~= Map::<Seq<char>, Texture>::empty());
            assert(c@.in_flight =~= Set::<Seq<char>>::empty());
            assert(c@.used =~= Set::<Seq<char>>::empty());
            assert(c@ =~= CacheModel::init());
        }
        c
    }

    /// Look an id up without touching any state: the texture if ready.
    pub fn peek(&self, id: &String) -> (r: Option<Texture>)
        requires
            self.wf(),
        ensures
            match r {
                Some(t) => self@.ready.contains_key(id@) && self@.ready[id@] == t,
                None => !self@.ready.contains_key(id@),
            },
    {
        match find_pair(&self.ready, id) {
            Some(i) => {
                let t = self.ready[i].1;
                proof {
                    lemma_pair_value_at(self.ready@, id@, i as int);
                }
                Some(t)
            },
            None => None,
        }
    }

    /// Whether a fetch for this id is outstanding.
    pub fn is_in_flight(&self, id: &String) -> (r: bool)
        requires
            self.wf(),
        ensures
            r == self@.in_flight.contains(id@),
    {
        match find_id(&self.in_flight, id) {
            Some(_) => true,
            None => false,
        }
    }

    /// `get(id)`: mark the id used, then report a ready texture, an
    /// already-pending fetch, or claim the miss so the caller spawns exactly
    /// one fetch job.
    pub fn get(&mut self, id: &String) -> (out: GetOutcome)
        requires
            old(self).wf(),
        ensures
            final(self).wf(),
            final(self)@ == spec_get(old(self)@, id@).0,
            out == spec_get(old(self)@, id@).1,
    {
        let ghost s0 = self@;
        // Mark used unconditionally, keeping the vector duplicate-free.
        match find_id(&self.used, id) {
            Some(i) => {
                proof {
                    assert(s0.used.contains(id@));
                    assert(key_set(self.used@) =~= s0.used.insert(id@));
                }
            },
            None => {
                let ghost u0 = self.used@;
                self.used.push(id.clone());
                proof {
                    let un = self.used@;
                    assert(un[un.len() - 1]@ == id@);
                    assert forall|k: Seq<char>| key_set(un).contains(k) implies s0.used.insert(
                        id@,
                    ).contains(k) by {
                        let i = choose|i: int| 0 <= i < un.len() && un[i]@ == k;
                        if i < un.len() - 1 {
                            assert(u0[i]@ == k);
                        }
                    }
                    assert forall|k: Seq<char>| s0.used.insert(id@).contains(k) implies key_set(
                        un,
                    ).contains(k) by {
                        if k == id@ {
                            assert(un[un.len() - 1]@ == k);
                        } else {
                            let i = choose|i: int| 0 <= i < u0.len() && u0[i]@ == k;
                            assert(un[i]@ == k);
                        }
                    }
                    assert(key_set(un) =~= s0.used.insert(id@));
                }
            },
        }
        let ghost s1 = CacheModel { used: s0.used.insert(id@), ..s0 };
        proof {
            assert(self@ =~= s1);
        }
        match find_pair(&self.ready, id) {
            Some(i) => {
                let t = self.ready[i].1;
                proof {
                    lemma_pair_value_at(self.ready@, id@, i as int);
                    assert(s0.ready.contains_key(id@));
                }
                GetOutcome::Ready { texture: t }
            },
            None => {
                proof {
                    assert(!s0.ready.contains_key(id@));
                }
                if self.is_in_flight(id) {
                    GetOutcome::AlreadyPending
                } else {
                    let ghost f0 = self.in_flight@;
                    self.in_flight.push(id.clone());
                    proof {
                        let fname = self.in_flight@;
                        assert(fname[fname.len() - 1]@ == id@);
                        assert forall|k: Seq<char>| key_set(fname).contains(k) implies s1.in_flight
                            .insert(id@).contains(k) by {
                            let i = choose|i: int| 0 <= i < fname.len() && fname[i]@ == k;
                            if i < fname.len() - 1 {
                                assert(f0[i]@ == k);
                            }
                        }
                        assert forall|k: Seq<char>| s1.in_flight.insert(id@).contains(k)
                            implies key_set(fname).contains(k) by {
                            if k == id@ {
                                assert(fname[fname.len() - 1]@ == k);
                            } else {
                                let i = choose|i: int| 0 <= i < f0.len() && f0[i]@ == k;
                                assert(fname[i]@ == k);
                            }
                        }
                        assert(key_set(fname) =~= s1.in_flight.insert(id@));
                        assert(self@ =~= spec_get(s0, id@).0);
                    }
                    GetOutcome::StartFetch
                }
            },
        }
    }

    /// Apply a completed fetch: the id stops being in flight; a successful
    /// result enters the ready map, a failure leaves no trace.
    pub fn complete(&mut self, id: &String, tex: Option<Texture>)
        requires
            old(self).wf(),
        ensures
            final(self).wf(),
            final(self)@ == spec_complete(old(self)@, id@, tex),
    {
        let ghost s0 = self@;
        remove_id(&mut self.in_flight, id);
        let ghost s1 = CacheModel { in_flight: s0.in_flight.remove(id@), ..s0 };
        proof {
            assert(self@ =~= s1);
        }
        match tex {
            Some(t) => {
                remove_pair(&mut self.ready, id);
                let ghost rm = self.ready@;
                let pair = (id.clone(), t);
                proof {
                    assert(pair.0@ == id@);
                }
                self.ready.push(pair);
                proof {
                    lemma_pair_map_push(rm, pair);
                    assert(pair_map(self.ready@) == pair_map(rm).insert(id@, t));
                    assert(s0.ready.remove(id@).insert(id@, t) =~= s0.ready.insert(id@, t));
                    assert(self@ =~= spec_complete(s0, id@, tex));
                }
            },
            None => {
                proof {
                    assert(self@ =~= spec_complete(s0, id@, tex));
                }
            },
        }
    }

    /// Evict: keep exactly the ready entries used since the previous sweep,
    /// then start a fresh use period.
    pub fn sweep(&mut self)
        requires
            old(self).wf(),
        ensures
            final(self).wf(),
            final(self)@ == spec_sweep(old(self)@),
    {
        let ghost s0 = self@;
        let ghost r0 = self.ready@;
        let ghost u0 = key_set(self.used@);
        let mut kept: Vec<(String, Texture)> = Vec::new();
        let n = self.ready.len();
        let mut i: usize = 0;
        proof {
            assert(r0.take(0) =~= Seq::<(String, Texture)>::empty());
        }
        while i < n
            invariant
                n == self.ready@.len(),
                i <= n,
                self.ready@ == r0,
                key_set(self.used@) == u0,
                kept@ == swept(r0.take(i as int), u0),
            decreases n - i,
        {
            let ghost k0 = kept@;
            let hit = match find_id(&self.used, &self.ready[i].0) {
                Some(_) => true,
                None => false,
            };
            if hit {
                let pair = (self.ready[i].0.clone(), self.ready[i].1);
                proof {
                    assert(pair == r0[i as int]);
                }
                kept.push(pair);
            }
            proof {
                let t1 = r0.take(i + 1);
                assert(t1.drop_last() =~= r0.take(i as int));
                assert(t1.last() == r0[i as int]);
                assert(hit == u0.contains(t1.last().0@));
                if hit {
                    assert(kept@ == swept(r0.take(i as int), u0).push(r0[i as int]));
                }
                assert(kept@ == swept(t1, u0));
            }
            i = i + 1;
        }
        proof {
            assert(r0.take(n as int) =~= r0);
            lemma_swept(r0, u0);
        }
        self.ready = kept;
        self.used = Vec::new();
        proof {
            assert(key_set(self.used@) =~= Set::<Seq<char>>::empty());
            assert(self@ =~= spec_sweep(s0));
        }
    }
}

} // verus!
