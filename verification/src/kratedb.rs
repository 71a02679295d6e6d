//! The crate registry and its per-crate records.
//!
//! `KrateDb` owns one `Krate` record per ingested snapshot, keyed by the
//! crate's global identity; ingesting a snapshot under an identity already
//! present replaces the prior record wholesale.  A `Krate` resolves its own
//! crate-local identifiers: number 0 names the crate itself, any other
//! number is looked up in the record's remap table.  Resolution across crate
//! boundaries is best-effort over a possibly partial registry, so every step
//! answers "not found" rather than failing.

use std::sync::Arc;

use vstd::prelude::*;

use crate::context::Context;
use crate::rls_data::{Analysis, Def, ExternalCrate, GlobalCrateId, Id, crate_key};
use crate::table::{
    distinct_keys, lemma_distinct_keys_push, lemma_table_map_dom, lemma_table_map_push,
    lemma_table_map_row, lemma_table_map_update, table_map,
};

verus! {

/// The mathematical key of the registry: a crate identity reduced to plain
/// values.
pub type CrateKey = (Seq<char>, u64, u64);

/// How the remap table is keyed: each row by its crate-local number.
pub open spec fn ext_key() -> spec_fn(ExternalCrate) -> u32 {
    |e: ExternalCrate| e.num
}

/// How the definition table is keyed: each definition by its own local
/// index.
pub open spec fn def_key() -> spec_fn(Def) -> u32 {
    |d: Def| d.id.index
}

/// The definitions a record holds, as plain rows.
pub open spec fn defs_rows(s: Seq<Arc<Def>>) -> Seq<Def> {
    s.map_values(|d: Arc<Def>| *d)
}

/// The remap table described by a snapshot's external-crate list; a later
/// entry for the same local number overwrites an earlier one.
pub open spec fn externals_table(s: Seq<ExternalCrate>) -> Map<u32, ExternalCrate> {
    table_map(s, ext_key())
}

/// The definition table described by a snapshot's definition list; a later
/// definition at the same local index overwrites an earlier one.
pub open spec fn defs_table(s: Seq<Def>) -> Map<u32, Def> {
    table_map(s, def_key())
}

/// One ingested snapshot: the crate's own identity, the remap table from its
/// local crate numbers to the identities of the crates it depends on, and
/// its definitions keyed by local index.
#[derive(Debug, Clone)]
pub struct Krate {
    id: GlobalCrateId,
    externals: Vec<ExternalCrate>,
    defs: Vec<Arc<Def>>,
}

impl Krate {
    /// The record's own global identity.
    pub closed spec fn spec_id(self) -> GlobalCrateId {
        self.id
    }

    /// The remap table: crate-local number to the row describing that
    /// dependency.
    pub closed spec fn externals_map(self) -> Map<u32, ExternalCrate> {
        table_map(self.externals@, ext_key())
    }

    /// The definition table: local index to definition record.
    pub closed spec fn defs_map(self) -> Map<u32, Def> {
        table_map(defs_rows(self.defs@), def_key())
    }

    /// Each table holds at most one row per key.
    pub closed spec fn wf(self) -> bool {
        &&& distinct_keys(self.externals@, ext_key())
        &&& distinct_keys(defs_rows(self.defs@), def_key())
    }

    /// Where an identifier of this record points: crate number 0 means the
    /// record itself, any other number is interpreted by the remap table,
    /// and the index always carries over unchanged (it is already expressed
    /// in the target crate's numbering).
    pub open spec fn resolve_spec(self, id: Id) -> Option<(GlobalCrateId, u32)> {
        if id.krate == 0 {
            Some((self.spec_id(), id.index))
        } else if self.externals_map().contains_key(id.krate) {
            Some((self.externals_map()[id.krate].id, id.index))
        } else {
            None
        }
    }

    pub fn new(id: GlobalCrateId) -> (k: Krate)
        ensures
            k.wf(),
            k.spec_id() == id,
            k.externals_map() == Map::<u32, ExternalCrate>::empty(),
            k.defs_map() == Map::<u32, Def>::empty(),
    {
        let k = Krate { id, externals: Vec::new(), defs: Vec::new() };
        proof {
            assert(defs_rows(k.defs@) =~= Seq::<Def>::empty());
        }
        k
    }

    /// The position of the remap-table row carrying `num`, if any.
    fn position_external(&self, num: u32) -> (r: Option<usize>)
        ensures
            match r {
                Some(j) => j < self.externals@.len() && self.externals@[j as int].num == num,
                None => forall|m: int|
                    0 <= m < self.externals@.len() ==> (#[trigger] self.externals@[m]).num != num,
            },
    {
        let n: usize = self.externals.len();
        let mut j: usize = 0;
        while j < n
            invariant
                n == self.externals@.len(),
                j <= n,
                forall|m: int| 0 <= m < j ==> (#[trigger] self.externals@[m]).num != num,
            decreases n - j,
        {
            if self.externals[j].num == num {
                return Some(j);
            }
            j += 1;
        }
        None
    }

    /// The position of the definition at local index `index`, if any.
    fn position_def(&self, index: u32) -> (r: Option<usize>)
        ensures
            match r {
                Some(j) => j < self.defs@.len() && self.defs@[j as int].id.index == index,
                None => forall|m: int|
                    0 <= m < self.defs@.len() ==> (#[trigger] self.defs@[m]).id.index != index,
            },
    {
        let n: usize = self.defs.len();
        let mut j: usize = 0;
        while j < n
            invariant
                n == self.defs@.len(),
                j <= n,
                forall|m: int| 0 <= m < j ==> (#[trigger] self.defs@[m]).id.index != index,
            decreases n - j,
        {
            if self.defs[j].id.index == index {
                return Some(j);
            }
            j += 1;
        }
        None
    }

    /// Adds one remap-table row, overwriting any earlier row with the same
    /// local number.
    fn add_external(&mut self, e: ExternalCrate)
        requires
            old(self).wf(),
        ensures
            final(self).wf(),
            final(self).spec_id() == old(self).spec_id(),
            final(self).externals_map() == old(self).externals_map().insert(e.num, e),
            final(self).defs_map() == old(self).defs_map(),
    {
        let ghost rows = self.externals@;
        match self.position_external(e.num) {
            Some(j) => {
                proof {
                    assert((ext_key())(rows[j as int]) == (ext_key())(e));
                    lemma_table_map_update(rows, ext_key(), j as int, e);
                }
                self.externals[j] = e;
            },
            None => {
                proof {
                    lemma_table_map_push(rows, ext_key(), e);
                    assert(forall|i: int|
                        0 <= i < rows.len() ==> (ext_key())(#[trigger] rows[i]) != (ext_key())(e));
                    lemma_distinct_keys_push(rows, ext_key(), e);
                }
                self.externals.push(e);
            },
        }
    }

    /// Adds one definition, overwriting any earlier definition at the same
    /// local index.
    fn add_def(&mut self, d: Def)
        requires
            old(self).wf(),
        ensures
            final(self).wf(),
            final(self).spec_id() == old(self).spec_id(),
            final(self).externals_map() == old(self).externals_map(),
            final(self).defs_map() == old(self).defs_map().insert(d.id.index, d),
    {
        let ghost rows = defs_rows(self.defs@);
        let a = Arc::new(d);
        match self.position_def(a.id.index) {
            Some(j) => {
                proof {
                    assert(rows[j as int] == *self.defs@[j as int]);
                    assert((def_key())(rows[j as int]) == (def_key())(d));
                    lemma_table_map_update(rows, def_key(), j as int, d);
                }
                self.defs[j] = a;
                proof {
                    assert(defs_rows(self.defs@) =~= rows.update(j as int, d));
                }
            },
            None => {
                proof {
                    lemma_table_map_push(rows, def_key(), d);
                    assert(forall|i: int|
                        0 <= i < rows.len() ==> (def_key())(#[trigger] rows[i]) != (def_key())(d));
                    lemma_distinct_keys_push(rows, def_key(), d);
                }
                self.defs.push(a);
                proof {
                    assert(defs_rows(self.defs@) =~= rows.push(d));
                }
            },
        }
    }

    /// The remap-table row for a crate-local number, if the record declared
    /// one.
    fn get_external(&self, num: u32) -> (r: Option<&ExternalCrate>)
        requires
            self.wf(),
        ensures
            match r {
                Some(e) => self.externals_map().contains_key(num) && *e
                    == self.externals_map()[num],
                None => !self.externals_map().contains_key(num),
            },
    {
        match self.position_external(num) {
            Some(j) => {
                proof {
                    lemma_table_map_row(self.externals@, ext_key(), j as int);
                }
                Some(&self.externals[j])
            },
            None => {
                proof {
                    lemma_table_map_dom(self.externals@, ext_key(), num);
                }
                None
            },
        }
    }

    /// The definition stored at a local index, if the record holds one.
    fn get_def(&self, index: u32) -> (r: Option<&Arc<Def>>)
        requires
            self.wf(),
        ensures
            match r {
                Some(d) => self.defs_map().contains_key(index) && **d == self.defs_map()[index],
                None => !self.defs_map().contains_key(index),
            },
    {
        match self.position_def(index) {
            Some(j) => {
                proof {
                    assert(defs_rows(self.defs@)[j as int] == *self.defs@[j as int]);
                    lemma_table_map_row(defs_rows(self.defs@), def_key(), j as int);
                }
                Some(&self.defs[j])
            },
            None => {
                proof {
                    lemma_table_map_dom(defs_rows(self.defs@), def_key(), index);
                    assert(forall|i: int|
                        0 <= i < defs_rows(self.defs@).len() ==> (def_key())(
                            #[trigger] defs_rows(self.defs@)[i],
                        ) != index);
                }
                None
            },
        }
    }
}

/// The registry: every ingested crate record, keyed by global identity.
#[derive(Debug, Clone)]
pub struct KrateDb {
    krates: Vec<Krate>,
}

/// How the registry is keyed: each record by its identity's key.
pub open spec fn krate_key() -> spec_fn(Krate) -> CrateKey {
    |k: Krate| crate_key(k.spec_id())
}

/// What one record must look like for the snapshot it was built from: the
/// snapshot's own identity, its external-crate list as the remap table, and
/// its definition list keyed by each definition's local index.
pub open spec fn krate_of_snapshot(k: Krate, a: Analysis) -> bool {
    &&& k.spec_id() == a.prelude.crate_id
    &&& k.externals_map() == externals_table(a.prelude.external_crates@)
    &&& k.defs_map() == defs_table(a.defs@)
}

/// What ingesting a snapshot does to the registry: the snapshot's identity
/// now maps to a record built from exactly that snapshot, and every other
/// identity keeps its prior record.
pub open spec fn ingest_effect(pre: KrateDb, post: KrateDb, a: Analysis) -> bool {
    let key = crate_key(a.prelude.crate_id);
    &&& post.krates_map().dom() == pre.krates_map().dom().insert(key)
    &&& krate_of_snapshot(post.krates_map()[key], a)
    &&& forall|k2: CrateKey|
        k2 != key && pre.krates_map().contains_key(k2) ==> post.krates_map()[k2]
            == pre.krates_map()[k2]
}

impl KrateDb {
    /// The registry's contents: identity key to crate record.
    pub closed spec fn krates_map(self) -> Map<CrateKey, Krate> {
        table_map(self.krates@, krate_key())
    }

    /// At most one record per identity, and every record internally sound.
    pub closed spec fn wf(self) -> bool {
        &&& distinct_keys(self.krates@, krate_key())
        &&& forall|i: int| 0 <= i < self.krates@.len() ==> (#[trigger] self.krates@[i]).wf()
    }

    pub fn new() -> (db: KrateDb)
        ensures
            db.wf(),
            db.krates_map() == Map::<CrateKey, Krate>::empty(),
    {
        KrateDb { krates: Vec::new() }
    }

    /// The position of the record with the given identity, if any.
    fn position_krate(&self, id: &GlobalCrateId) -> (r: Option<usize>)
        ensures
            match r {
                Some(j) => j < self.krates@.len() && crate_key(self.krates@[j as int].spec_id())
                    == crate_key(*id),
                None => forall|m: int|
                    0 <= m < self.krates@.len() ==> crate_key(
                        (#[trigger] self.krates@[m]).spec_id(),
                    ) != crate_key(*id),
            },
    {
        let n: usize = self.krates.len();
        let mut j: usize = 0;
        while j < n
            invariant
                n == self.krates@.len(),
                j <= n,
                forall|m: int|
                    0 <= m < j ==> crate_key((#[trigger] self.krates@[m]).spec_id()) != crate_key(
                        *id,
                    ),
            decreases n - j,
        {
            if self.krates[j].id == *id {
                return Some(j);
            }
            j += 1;
        }
        None
    }

    /// Stores one record, replacing any record already held under the same
    /// identity.
    fn insert_krate(&mut self, k: Krate)
        requires
            old(self).wf(),
            k.wf(),
        ensures
            final(self).wf(),
            final(self).krates_map() == old(self).krates_map().insert(
                crate_key(k.spec_id()),
                k,
            ),
    {
        let ghost rows = self.krates@;
        match self.position_krate(&k.id) {
            Some(j) => {
                proof {
                    assert((krate_key())(rows[j as int]) == (krate_key())(k));
                    lemma_table_map_update(rows, krate_key(), j as int, k);
                }
                self.krates[j] = k;
                proof {
                    assert(forall|i: int|
                        0 <= i < self.krates@.len() ==> (#[trigger] self.krates@[i]).wf());
                }
            },
            None => {
                proof {
                    lemma_table_map_push(rows, krate_key(), k);
                    assert(forall|i: int|
                        0 <= i < rows.len() ==> (krate_key())(#[trigger] rows[i]) != (krate_key())(
                            k,
                        ));
                    lemma_distinct_keys_push(rows, krate_key(), k);
                }
                self.krates.push(k);
                proof {
                    assert(forall|i: int|
                        0 <= i < self.krates@.len() ==> (#[trigger] self.krates@[i]).wf());
                }
            },
        }
    }

    /// Builds a record from one already-decoded snapshot and stores it under
    /// the snapshot's identity, replacing any prior record for that
    /// identity.
    pub fn ingest_krate(&mut self, analysis: Analysis)
        requires
            old(self).wf(),
        ensures
            final(self).wf(),
            ingest_effect(*old(self), *final(self), analysis),
    {
        let Analysis { prelude, defs, .. } = analysis;
        let crate::rls_data::Prelude { crate_id, external_crates, .. } = prelude;
        let mut krate = Krate::new(crate_id);

        let mut exts = external_crates;
        let ghost exts_all: Seq<ExternalCrate> = exts@;
        let ghost mut done: int = 0;
        proof {
            assert(exts_all.take(0) =~= Seq::<ExternalCrate>::empty());
        }
        while exts.len() > 0
            invariant
                0 <= done,
                done + exts@.len() == exts_all.len(),
                exts@ == exts_all.skip(done),
                krate.wf(),
                krate.spec_id() == analysis.prelude.crate_id,
                krate.externals_map() == externals_table(exts_all.take(done)),
                krate.defs_map() == Map::<u32, Def>::empty(),
            decreases exts@.len(),
        {
            let e = exts.remove(0);
            proof {
                assert(e == exts_all[done]);
                assert(exts@ =~= exts_all.skip(done + 1));
            }
            krate.add_external(e);
            proof {
                assert(exts_all.take(done + 1).drop_last() =~= exts_all.take(done));
                assert(exts_all.take(done + 1).last() == e);
                done = done + 1;
            }
        }
        proof {
            assert(done == exts_all.len());
            assert(exts_all.take(done) =~= exts_all);
            assert(exts_all == analysis.prelude.external_crates@);
        }

        let mut rest = defs;
        let ghost defs_all: Seq<Def> = rest@;
        let ghost mut placed: int = 0;
        proof {
            assert(defs_all.take(0) =~= Seq::<Def>::empty());
        }
        while rest.len() > 0
            invariant
                0 <= placed,
                placed + rest@.len() == defs_all.len(),
                rest@ == defs_all.skip(placed),
                krate.wf(),
                krate.spec_id() == analysis.prelude.crate_id,
                krate.externals_map() == externals_table(analysis.prelude.external_crates@),
                krate.defs_map() == defs_table(defs_all.take(placed)),
            decreases rest@.len(),
        {
            let d = rest.remove(0);
            proof {
                assert(d == defs_all[placed]);
                assert(rest@ =~= defs_all.skip(placed + 1));
            }
            krate.add_def(d);
            proof {
                assert(defs_all.take(placed + 1).drop_last() =~= defs_all.take(placed));
                assert(defs_all.take(placed + 1).last() == d);
                placed = placed + 1;
            }
        }
        proof {
            assert(placed == defs_all.len());
            assert(defs_all.take(placed) =~= defs_all);
            assert(defs_all == analysis.defs@);
            assert(krate_of_snapshot(krate, analysis));
        }

        self.insert_krate(krate);
    }

    /// Finds the record ingested under an identity and pairs it with this
    /// registry, so that resolution on the record can still reach other
    /// crates.  An identity never ingested answers `None`.
    pub fn lookup_krate<'a>(&'a self, id: &GlobalCrateId) -> (r: Option<
        Context<'a, Krate, KrateDb>,
    >)
        requires
            self.wf(),
        ensures
            match r {
                Some(c) => {
                    &&& self.krates_map().contains_key(crate_key(*id))
                    &&& c.spec_state() == self.krates_map()[crate_key(*id)]
                    &&& c.spec_state().wf()
                    &&& c.spec_context() == *self
                },
                None => !self.krates_map().contains_key(crate_key(*id)),
            },
    {
        match self.position_krate(id) {
            Some(j) => {
                proof {
                    lemma_table_map_row(self.krates@, krate_key(), j as int);
                }
                Some(Context::new(&self.krates[j], self))
            },
            None => {
                proof {
                    lemma_table_map_dom(self.krates@, krate_key(), crate_key(*id));
                }
                None
            },
        }
    }
}

/// Where a definition lookup lands: resolve the identifier through the
/// record's remap table, then read the target crate's definition table —
/// the record's own when the resolved identity is its own, otherwise the
/// table of whatever record the registry holds for that identity.  An
/// unresolved crate number, an identity the registry has not ingested, and
/// an index the target never defined all answer `None`.
pub open spec fn lookup_def_spec(krate: Krate, db: KrateDb, id: Id) -> Option<Def> {
    match krate.resolve_spec(id) {
        None => None,
        Some(res) => {
            let gid = res.0;
            let index = res.1;
            if crate_key(gid) == crate_key(krate.spec_id()) {
                if krate.defs_map().contains_key(index) {
                    Some(krate.defs_map()[index])
                } else {
                    None
                }
            } else if db.krates_map().contains_key(crate_key(gid)) {
                let target = db.krates_map()[crate_key(gid)];
                if target.defs_map().contains_key(index) {
                    Some(target.defs_map()[index])
                } else {
                    None
                }
            } else {
                None
            }
        },
    }
}

/// Relies on `Arc::clone`: the result is a new handle to the same
/// allocation, so it equals the handle it was cloned from.
#[verifier::external_body]
fn arc_clone(d: &Arc<Def>) -> (r: Arc<Def>)
    ensures
        r == *d,
{
    Arc::clone(d)
}

impl<'a> Context<'a, Krate, KrateDb> {
    /// Turns a crate-local identifier into a global identity plus an index
    /// in that identity's own numbering.  Crate number 0 always resolves to
    /// the record itself; a nonzero number resolves through the remap table
    /// or, when the record never declared it, to `None`.
    pub fn map_id(&self, id: &Id) -> (r: Option<(GlobalCrateId, u32)>)
        requires
            self.spec_state().wf(),
        ensures
            r == self.spec_state().resolve_spec(*id),
    {
        let krate = self.state();
        if id.krate == 0 {
            Some((krate.id.clone(), id.index))
        } else {
            match krate.get_external(id.krate) {
                Some(e) => Some((e.id.clone(), id.index)),
                None => None,
            }
        }
    }

    /// Resolves an identifier all the way to a definition record, consulting
    /// the bound registry when the reference crosses a crate boundary.
    /// Every kind of absence — an undeclared crate number, a crate the
    /// registry has not ingested, an index with no definition — answers
    /// `None`.
    pub fn lookup_def(&self, id: Id) -> (r: Option<Arc<Def>>)
        requires
            self.spec_state().wf(),
            self.spec_context().wf(),
        ensures
            match r {
                Some(d) => lookup_def_spec(self.spec_state(), self.spec_context(), id) == Some(*d),
                None => lookup_def_spec(self.spec_state(), self.spec_context(), id) is None,
            },
    {
        let krate = self.state();
        let db = self.context();
        match self.map_id(&id) {
            None => None,
            Some((gid, index)) => {
                if gid == krate.id {
                    match krate.get_def(index) {
                        Some(d) => Some(arc_clone(d)),
                        None => None,
                    }
                } else {
                    match db.lookup_krate(&gid) {
                        Some(target) => match target.state().get_def(index) {
                            Some(d) => Some(arc_clone(d)),
                            None => None,
                        },
                        None => None,
                    }
                }
            },
        }
    }
}

/// After ingesting a snapshot, the registry holds under the snapshot's
/// identity a record whose identity, remap table and definitions are
/// exactly the snapshot's.
pub proof fn lemma_ingest_registers_snapshot(pre: KrateDb, post: KrateDb, a: Analysis)
    requires
        ingest_effect(pre, post, a),
    ensures
        post.krates_map().contains_key(crate_key(a.prelude.crate_id)),
        krate_of_snapshot(post.krates_map()[crate_key(a.prelude.crate_id)], a),
{
}

/// An identifier with crate number 0 always resolves to the record's own
/// identity, keeping its index.
pub proof fn lemma_resolve_own_crate(k: Krate, id: Id)
    requires
        id.krate == 0,
    ensures
        k.resolve_spec(id) == Some((k.spec_id(), id.index)),
{
}

/// An identifier whose crate number the remap table declares resolves to
/// the declared identity, keeping its index.
pub proof fn lemma_resolve_external_crate(k: Krate, id: Id)
    requires
        id.krate != 0,
        k.externals_map().contains_key(id.krate),
    ensures
        k.resolve_spec(id) == Some((k.externals_map()[id.krate].id, id.index)),
{
}

/// An identifier whose nonzero crate number the remap table never declared
/// does not resolve.
pub proof fn lemma_resolve_undeclared_crate(k: Krate, id: Id)
    requires
        id.krate != 0,
        !k.externals_map().contains_key(id.krate),
    ensures
        k.resolve_spec(id) is None,
{
}

/// Round trip: a definition a record holds at local index `i` is found
/// again by looking up the identifier "crate 0, index `i`" on that record,
/// whatever registry it is bound to.
pub proof fn lemma_local_def_round_trip(k: Krate, db: KrateDb, i: u32)
    requires
        k.defs_map().contains_key(i),
    ensures
        lookup_def_spec(k, db, Id { krate: 0, index: i }) == Some(k.defs_map()[i]),
{
}

/// Re-ingesting under the same identity replaces the prior record: after
/// two ingests whose snapshots share an identity, the registry's record for
/// it is built from the second snapshot alone, and other identities keep
/// the records they had before either ingest.
pub proof fn lemma_reingest_replaces(
    pre: KrateDb,
    mid: KrateDb,
    post: KrateDb,
    a1: Analysis,
    a2: Analysis,
)
    requires
        ingest_effect(pre, mid, a1),
        ingest_effect(mid, post, a2),
        crate_key(a1.prelude.crate_id) == crate_key(a2.prelude.crate_id),
    ensures
        krate_of_snapshot(post.krates_map()[crate_key(a2.prelude.crate_id)], a2),
        post.krates_map().dom() == pre.krates_map().dom().insert(crate_key(a2.prelude.crate_id)),
        forall|k2: CrateKey|
            k2 != crate_key(a2.prelude.crate_id) && pre.krates_map().contains_key(k2)
                ==> post.krates_map()[k2] == pre.krates_map()[k2],
{
    assert(post.krates_map().dom() =~= pre.krates_map().dom().insert(
        crate_key(a2.prelude.crate_id),
    ));
}

} // verus!
