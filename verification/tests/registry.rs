use sa_parser::kratedb::KrateDb;
use sa_parser::rls_data::{
    Analysis, Compilation, Config, Def, DefKind, ExternalCrate, GlobalCrateId, Id, Prelude, Span,
};

fn gid(name: &str, a: u64, b: u64) -> GlobalCrateId {
    GlobalCrateId { name: name.to_string(), disambiguator: (a, b) }
}

fn span() -> Span {
    Span {
        file_name: "lib.rs".to_string(),
        byte_start: 0,
        byte_end: 0,
        line_start: 1,
        line_end: 1,
        column_start: 1,
        column_end: 1,
    }
}

fn def(krate: u32, index: u32, name: &str) -> Def {
    Def {
        kind: DefKind::Function,
        id: Id { krate, index },
        span: span(),
        name: name.to_string(),
        qualname: format!("::{}", name),
        value: String::new(),
        parent: None,
        children: Vec::new(),
        decl_id: None,
        docs: String::new(),
        sig: None,
        attributes: Vec::new(),
    }
}

fn snapshot(id: GlobalCrateId, externals: Vec<ExternalCrate>, defs: Vec<Def>) -> Analysis {
    Analysis {
        config: Config {
            output_file: None,
            full_docs: false,
            pub_only: false,
            reachable_only: false,
            distro_crate: false,
            signatures: false,
            borrow_data: false,
        },
        version: "0.19".to_string(),
        compilation: Compilation {
            directory: "/build".to_string(),
            program: "rustc".to_string(),
            arguments: Vec::new(),
            output: "out".to_string(),
        },
        prelude: Prelude { crate_id: id, external_crates: externals, span: span() },
        imports: Vec::new(),
        defs,
        impls: Vec::new(),
        refs: Vec::new(),
        macro_refs: Vec::new(),
        relations: Vec::new(),
    }
}

#[test]
fn single_crate_lookup_def() {
    let mut db = KrateDb::new();
    db.ingest_krate(snapshot(gid("foo", 1, 2), vec![], vec![def(0, 0, "bar")]));

    let ctx = db.lookup_krate(&gid("foo", 1, 2)).expect("foo was ingested");
    let found = ctx.lookup_def(Id { krate: 0, index: 0 }).expect("definition 0 exists");
    assert_eq!(found.name, "bar");
}

#[test]
fn resolve_own_crate_keeps_index() {
    let mut db = KrateDb::new();
    db.ingest_krate(snapshot(gid("foo", 1, 2), vec![], vec![def(0, 7, "bar")]));

    let ctx = db.lookup_krate(&gid("foo", 1, 2)).unwrap();
    let (identity, index) = ctx.map_id(&Id { krate: 0, index: 41 }).expect("crate 0 resolves");
    assert_eq!(identity, gid("foo", 1, 2));
    assert_eq!(index, 41);
}

#[test]
fn resolve_through_externals() {
    let mut db = KrateDb::new();
    let dep_id = gid("dep", 3, 4);
    let ext = ExternalCrate { file_name: "dep.rs".to_string(), num: 2, id: gid("dep", 3, 4) };
    db.ingest_krate(snapshot(gid("foo", 1, 2), vec![ext], vec![]));
    db.ingest_krate(snapshot(dep_id, vec![], vec![def(0, 5, "baz")]));

    let ctx = db.lookup_krate(&gid("foo", 1, 2)).unwrap();
    let (identity, index) = ctx.map_id(&Id { krate: 2, index: 5 }).expect("num 2 is declared");
    assert_eq!(identity, gid("dep", 3, 4));
    assert_eq!(index, 5);

    let found = ctx.lookup_def(Id { krate: 2, index: 5 }).expect("dep defines index 5");
    assert_eq!(found.name, "baz");
}

#[test]
fn undeclared_crate_number_is_unresolved() {
    let mut db = KrateDb::new();
    db.ingest_krate(snapshot(gid("foo", 1, 2), vec![], vec![def(0, 0, "bar")]));

    let ctx = db.lookup_krate(&gid("foo", 1, 2)).unwrap();
    assert!(ctx.map_id(&Id { krate: 9, index: 0 }).is_none());
    assert!(ctx.lookup_def(Id { krate: 9, index: 0 }).is_none());
}

#[test]
fn lookup_of_never_ingested_identity_is_none() {
    let mut db = KrateDb::new();
    db.ingest_krate(snapshot(gid("foo", 1, 2), vec![], vec![]));

    assert!(db.lookup_krate(&gid("bar", 1, 2)).is_none());
}

#[test]
fn empty_registry_has_nothing() {
    let db = KrateDb::new();
    assert!(db.lookup_krate(&gid("foo", 1, 2)).is_none());
}

#[test]
fn reingest_replaces_definitions() {
    let mut db = KrateDb::new();
    db.ingest_krate(snapshot(gid("foo", 1, 2), vec![], vec![def(0, 0, "first")]));
    db.ingest_krate(snapshot(gid("foo", 1, 2), vec![], vec![def(0, 1, "second")]));

    let ctx = db.lookup_krate(&gid("foo", 1, 2)).unwrap();
    assert!(ctx.lookup_def(Id { krate: 0, index: 0 }).is_none());
    let found = ctx.lookup_def(Id { krate: 0, index: 1 }).expect("the new snapshot's definition");
    assert_eq!(found.name, "second");
}

#[test]
fn same_name_different_disambiguator_is_distinct() {
    let mut db = KrateDb::new();
    db.ingest_krate(snapshot(gid("foo", 1, 2), vec![], vec![def(0, 0, "one")]));
    db.ingest_krate(snapshot(gid("foo", 9, 9), vec![], vec![def(0, 0, "two")]));

    let first = db.lookup_krate(&gid("foo", 1, 2)).unwrap();
    assert_eq!(first.lookup_def(Id { krate: 0, index: 0 }).unwrap().name, "one");
    let second = db.lookup_krate(&gid("foo", 9, 9)).unwrap();
    assert_eq!(second.lookup_def(Id { krate: 0, index: 0 }).unwrap().name, "two");
}

#[test]
fn duplicate_local_index_keeps_last() {
    let mut db = KrateDb::new();
    db.ingest_krate(snapshot(
        gid("foo", 1, 2),
        vec![],
        vec![def(0, 3, "early"), def(0, 3, "late")],
    ));

    let ctx = db.lookup_krate(&gid("foo", 1, 2)).unwrap();
    assert_eq!(ctx.lookup_def(Id { krate: 0, index: 3 }).unwrap().name, "late");
}

#[test]
fn duplicate_external_number_keeps_last() {
    let mut db = KrateDb::new();
    let early = ExternalCrate { file_name: "a.rs".to_string(), num: 2, id: gid("a", 1, 1) };
    let late = ExternalCrate { file_name: "b.rs".to_string(), num: 2, id: gid("b", 2, 2) };
    db.ingest_krate(snapshot(gid("foo", 1, 2), vec![early, late], vec![]));

    let ctx = db.lookup_krate(&gid("foo", 1, 2)).unwrap();
    let (identity, _) = ctx.map_id(&Id { krate: 2, index: 0 }).unwrap();
    assert_eq!(identity, gid("b", 2, 2));
}

#[test]
fn cross_crate_lookup_without_target_is_none() {
    let mut db = KrateDb::new();
    let ext = ExternalCrate { file_name: "dep.rs".to_string(), num: 1, id: gid("dep", 3, 4) };
    db.ingest_krate(snapshot(gid("foo", 1, 2), vec![ext], vec![]));

    let ctx = db.lookup_krate(&gid("foo", 1, 2)).unwrap();
    // The number resolves, but the registry has no record for "dep" yet.
    assert!(ctx.map_id(&Id { krate: 1, index: 5 }).is_some());
    assert!(ctx.lookup_def(Id { krate: 1, index: 5 }).is_none());
}

#[test]
fn missing_index_in_target_is_none() {
    let mut db = KrateDb::new();
    db.ingest_krate(snapshot(gid("foo", 1, 2), vec![], vec![def(0, 0, "bar")]));

    let ctx = db.lookup_krate(&gid("foo", 1, 2)).unwrap();
    assert!(ctx.lookup_def(Id { krate: 0, index: 1 }).is_none());
}

#[test]
fn context_pairs_state_and_registry() {
    let mut db = KrateDb::new();
    db.ingest_krate(snapshot(gid("foo", 1, 2), vec![], vec![def(0, 0, "bar")]));

    let ctx = db.lookup_krate(&gid("foo", 1, 2)).unwrap();
    // The paired registry is usable for further lookups.
    assert!(ctx.context().lookup_krate(&gid("foo", 1, 2)).is_some());
    assert!(ctx.context().lookup_krate(&gid("dep", 0, 0)).is_none());
    // The paired state resolves identifiers in its own numbering.
    let (identity, _) = ctx.map_id(&Id { krate: 0, index: 0 }).unwrap();
    assert_eq!(identity, gid("foo", 1, 2));
}

#[test]
fn identity_equality_uses_full_pair() {
    assert_eq!(gid("foo", 1, 2), gid("foo", 1, 2));
    assert_ne!(gid("foo", 1, 2), gid("foo", 1, 3));
    assert_ne!(gid("foo", 1, 2), gid("bar", 1, 2));
}
