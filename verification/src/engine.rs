//! The virtual-schema mounting protocol and a model of the engine's
//! catalog.
//!
//! Process start must run a fixed plan of statements against the
//! embedded analytical engine: enable its remote-object-store
//! extension, bind the access credentials as a named secret, create
//! the `gold` and `silver` namespaces idempotently, and create-or-
//! replace one view per remote columnar file. The plan is produced
//! here as data, rendered to SQL text by a verified renderer, and its
//! meaning is fixed by `spec_apply`, a transition relation over a
//! catalog model. The unverified shell feeds the rendered text to the
//! real engine in plan order.

use vstd::prelude::*;
use vstd::string::StringExecFns;

use crate::sql::SqlQuery;

verus! {

/// One statement of the mounting plan.
#[derive(Clone, Debug)]
pub enum Statement {
    /// Install the remote-object-store extension.
    InstallHttpfs,
    /// Load the remote-object-store extension; valid only once it is
    /// installed.
    LoadHttpfs,
    /// Bind the access credentials as the engine's named secret for
    /// the remote protocol.
    CreateSecret { key_id: String, secret: String },
    /// Create a namespace if it does not already exist.
    CreateSchema { name: String },
    /// Create or replace a view over a remote columnar file; valid
    /// only once its namespace exists.
    CreateView { schema: String, name: String, source: String },
}

/// The mathematical image of a `Statement`.
pub enum StatementView {
    InstallHttpfs,
    LoadHttpfs,
    CreateSecret { key_id: Seq<char>, secret: Seq<char> },
    CreateSchema { name: Seq<char> },
    CreateView { schema: Seq<char>, name: Seq<char>, source: Seq<char> },
}

impl View for Statement {
    type V = StatementView;

    open spec fn view(&self) -> StatementView {
        match self {
            Statement::InstallHttpfs => StatementView::InstallHttpfs,
            Statement::LoadHttpfs => StatementView::LoadHttpfs,
            Statement::CreateSecret { key_id, secret } => StatementView::CreateSecret {
                key_id: key_id@,
                secret: secret@,
            },
            Statement::CreateSchema { name } => StatementView::CreateSchema { name: name@ },
            Statement::CreateView { schema, name, source } => StatementView::CreateView {
                schema: schema@,
                name: name@,
                source: source@,
            },
        }
    }
}

/// The engine catalog as the mounting plan observes it: whether the
/// extension is installed and loaded, whether the secret is bound,
/// which namespaces exist, and which `(namespace, view)` pairs are
/// defined over which remote source.
#[verifier::ext_equal]
pub struct CatalogView {
    pub httpfs_installed: bool,
    pub httpfs_loaded: bool,
    pub secret_bound: bool,
    pub schemas: Set<Seq<char>>,
    pub views: Map<(Seq<char>, Seq<char>), Seq<char>>,
}

/// The catalog of a freshly opened connection.
pub open spec fn empty_catalog() -> CatalogView {
    CatalogView {
        httpfs_installed: false,
        httpfs_loaded: false,
        secret_bound: false,
        schemas: Set::empty(),
        views: Map::empty(),
    }
}

/// What one statement does to the catalog; `Err` is the engine
/// rejecting it.
pub open spec fn spec_apply(c: CatalogView, s: StatementView) -> Result<CatalogView, ()> {
    match s {
        StatementView::InstallHttpfs => Ok(CatalogView { httpfs_installed: true, ..c }),
        StatementView::LoadHttpfs => if c.httpfs_installed {
            Ok(CatalogView { httpfs_loaded: true, ..c })
        } else {
            Err(())
        },
        StatementView::CreateSecret { .. } => Ok(CatalogView { secret_bound: true, ..c }),
        StatementView::CreateSchema { name } => Ok(
            CatalogView { schemas: c.schemas.insert(name), ..c },
        ),
        StatementView::CreateView { schema, name, source } => if c.schemas.contains(schema) {
            Ok(CatalogView { views: c.views.insert((schema, name), source), ..c })
        } else {
            Err(())
        },
    }
}

/// What a whole plan does, statement by statement; the first rejection
/// aborts it.
pub open spec fn spec_apply_all(c: CatalogView, stmts: Seq<StatementView>) -> Result<
    CatalogView,
    (),
>
    decreases stmts.len(),
{
    if stmts.len() == 0 {
        Ok(c)
    } else {
        match spec_apply(c, stmts[0]) {
            Ok(c2) => spec_apply_all(c2, stmts.drop_first()),
            Err(e) => Err(e),
        }
    }
}

/// The fixed mounting plan: extension, secret, the two namespaces,
/// then one view per remote columnar file — the three silver facts
/// first, then the three gold facts.
pub open spec fn spec_mount_plan(key_id: Seq<char>, secret: Seq<char>) -> Seq<StatementView> {
    seq![
        StatementView::InstallHttpfs,
        StatementView::LoadHttpfs,
        StatementView::CreateSecret { key_id, secret },
        StatementView::CreateSchema { name: "gold"@ },
        StatementView::CreateSchema { name: "silver"@ },
        StatementView::CreateView {
            schema: "silver"@,
            name: "parcels"@,
            source: "gs://stmsn-silver/fact_parcels.parquet"@,
        },
        StatementView::CreateView {
            schema: "silver"@,
            name: "streets"@,
            source: "gs://stmsn-silver/fact_streets.parquet"@,
        },
        StatementView::CreateView {
            schema: "silver"@,
            name: "tax_roll"@,
            source: "gs://stmsn-silver/fact_tax_roll.parquet"@,
        },
        StatementView::CreateView {
            schema: "gold"@,
            name: "alder_districts"@,
            source: "gs://stmsn-gold/fact_alder_districts.parquet"@,
        },
        StatementView::CreateView {
            schema: "gold"@,
            name: "area_plans"@,
            source: "gs://stmsn-gold/fact_area_plans.parquet"@,
        },
        StatementView::CreateView {
            schema: "gold"@,
            name: "sites"@,
            source: "gs://stmsn-gold/fact_sites.parquet"@,
        },
    ]
}

/// The catalog an initialized connection presents: extension loaded,
/// secret bound, both namespaces, and exactly the six views.
pub open spec fn spec_mounted_catalog() -> CatalogView {
    CatalogView {
        httpfs_installed: true,
        httpfs_loaded: true,
        secret_bound: true,
        schemas: Set::empty().insert("gold"@).insert("silver"@),
        views: Map::empty().insert(
            ("silver"@, "parcels"@),
            "gs://stmsn-silver/fact_parcels.parquet"@,
        ).insert(("silver"@, "streets"@), "gs://stmsn-silver/fact_streets.parquet"@).insert(
            ("silver"@, "tax_roll"@),
            "gs://stmsn-silver/fact_tax_roll.parquet"@,
        ).insert(
            ("gold"@, "alder_districts"@),
            "gs://stmsn-gold/fact_alder_districts.parquet"@,
        ).insert(("gold"@, "area_plans"@), "gs://stmsn-gold/fact_area_plans.parquet"@).insert(
            ("gold"@, "sites"@),
            "gs://stmsn-gold/fact_sites.parquet"@,
        ),
    }
}

/// The SQL text a statement renders to.
pub open spec fn spec_statement_text(s: StatementView) -> Seq<char> {
    match s {
        StatementView::InstallHttpfs => "INSTALL httpfs;"@,
        StatementView::LoadHttpfs => "LOAD httpfs;"@,
        StatementView::CreateSecret { .. } =>
            "CREATE OR REPLACE PERSISTENT SECRET gcs_credentials (TYPE gcs, KEY_ID ?, SECRET ?);"@,
        StatementView::CreateSchema { name } => "CREATE SCHEMA IF NOT EXISTS "@ + name + ";"@,
        StatementView::CreateView { schema, name, source } => "CREATE OR REPLACE VIEW "@ + schema
            + "."@ + name + " AS SELECT * FROM '"@ + source + "';"@,
    }
}

/// The parameters a statement binds: the credentials go through `?`
/// placeholders, never through the text.
pub open spec fn spec_statement_params(s: StatementView) -> Seq<Seq<char>> {
    match s {
        StatementView::CreateSecret { key_id, secret } => seq![key_id, secret],
        _ => Seq::empty(),
    }
}

/// Renders one statement of the plan to parameterized SQL.
pub fn render_statement(s: &Statement) -> (r: SqlQuery)
    ensures
        r.text@ =~= spec_statement_text(s@),
        r.params.deep_view() =~= spec_statement_params(s@),
{
    match s {
        Statement::InstallHttpfs => SqlQuery {
            text: String::from_str("INSTALL httpfs;"),
            params: Vec::new(),
        },
        Statement::LoadHttpfs => SqlQuery {
            text: String::from_str("LOAD httpfs;"),
            params: Vec::new(),
        },
        Statement::CreateSecret { key_id, secret } => {
            let mut params: Vec<String> = Vec::new();
            params.push(key_id.clone());
            params.push(secret.clone());
            SqlQuery {
                text: String::from_str(
                    "CREATE OR REPLACE PERSISTENT SECRET gcs_credentials (TYPE gcs, KEY_ID ?, SECRET ?);",
                ),
                params,
            }
        },
        Statement::CreateSchema { name } => SqlQuery {
            text: String::from_str("CREATE SCHEMA IF NOT EXISTS ").concat(name.as_str()).concat(
                ";",
            ),
            params: Vec::new(),
        },
        Statement::CreateView { schema, name, source } => SqlQuery {
            text: String::from_str("CREATE OR REPLACE VIEW ").concat(schema.as_str()).concat(
                ".",
            ).concat(name.as_str()).concat(" AS SELECT * FROM '").concat(source.as_str()).concat(
                "';",
            ),
            params: Vec::new(),
        },
    }
}

/// Builds the mounting plan for the given credentials, in the order
/// the engine must run it.
pub fn mount_plan_statements(key_id: &str, secret: &str) -> (r: Vec<Statement>)
    ensures
        r@.map_values(|s: Statement| s@) =~= spec_mount_plan(key_id@, secret@),
{
    let mut r: Vec<Statement> = Vec::new();
    r.push(Statement::InstallHttpfs);
    r.push(Statement::LoadHttpfs);
    r.push(
        Statement::CreateSecret {
            key_id: String::from_str(key_id),
            secret: String::from_str(secret),
        },
    );
    r.push(Statement::CreateSchema { name: String::from_str("gold") });
    r.push(Statement::CreateSchema { name: String::from_str("silver") });
    r.push(
        Statement::CreateView {
            schema: String::from_str("silver"),
            name: String::from_str("parcels"),
            source: String::from_str("gs://stmsn-silver/fact_parcels.parquet"),
        },
    );
    r.push(
        Statement::CreateView {
            schema: String::from_str("silver"),
            name: String::from_str("streets"),
            source: String::from_str("gs://stmsn-silver/fact_streets.parquet"),
        },
    );
    r.push(
        Statement::CreateView {
            schema: String::from_str("silver"),
            name: String::from_str("tax_roll"),
            source: String::from_str("gs://stmsn-silver/fact_tax_roll.parquet"),
        },
    );
    r.push(
        Statement::CreateView {
            schema: String::from_str("gold"),
            name: String::from_str("alder_districts"),
            source: String::from_str("gs://stmsn-gold/fact_alder_districts.parquet"),
        },
    );
    r.push(
        Statement::CreateView {
            schema: String::from_str("gold"),
            name: String::from_str("area_plans"),
            source: String::from_str("gs://stmsn-gold/fact_area_plans.parquet"),
        },
    );
    r.push(
        Statement::CreateView {
            schema: String::from_str("gold"),
            name: String::from_str("sites"),
            source: String::from_str("gs://stmsn-gold/fact_sites.parquet"),
        },
    );
    proof {
        assert(r@.map_values(|s: Statement| s@) =~= spec_mount_plan(key_id@, secret@));
    }
    r
}

/// Running the mounting plan on a fresh connection succeeds and
/// produces exactly the mounted catalog.
pub proof fn lemma_mount_plan_mounts(key_id: Seq<char>, secret: Seq<char>)
    ensures
        spec_apply_all(empty_catalog(), spec_mount_plan(key_id, secret)) matches Ok(c) && c
            =~= spec_mounted_catalog(),
{
    let plan = spec_mount_plan(key_id, secret);
    let c0 = empty_catalog();
    lemma_apply_plan_from(c0, key_id, secret);
}

/// Mounting the schema a second time, against a connection that
/// already carries the mounted catalog, succeeds again and leaves the
/// same namespaces and the same six views defined: initialization is
/// idempotent.
pub proof fn lemma_initialization_idempotent(key_id: Seq<char>, secret: Seq<char>)
    ensures
        spec_apply_all(spec_mounted_catalog(), spec_mount_plan(key_id, secret)) matches Ok(c) && c
            =~= spec_mounted_catalog(),
{
    lemma_apply_plan_from(spec_mounted_catalog(), key_id, secret);
}

/// The mounting plan succeeds from a fresh catalog and from the
/// mounted one alike, and ends in the mounted catalog either way.
proof fn lemma_apply_plan_from(c0: CatalogView, key_id: Seq<char>, secret: Seq<char>)
    requires
        c0 =~= empty_catalog() || c0 =~= spec_mounted_catalog(),
    ensures
        spec_apply_all(c0, spec_mount_plan(key_id, secret)) matches Ok(c) && c
            =~= spec_mounted_catalog(),
{
    let plan = spec_mount_plan(key_id, secret);
    let p0 = plan;
    let c1 = spec_apply(c0, p0[0])->Ok_0;
    let p1 = p0.drop_first();
    assert(spec_apply_all(c0, p0) == spec_apply_all(c1, p1));
    let c2 = spec_apply(c1, p1[0])->Ok_0;
    let p2 = p1.drop_first();
    assert(p1[0] == plan[1]);
    assert(spec_apply_all(c1, p1) == spec_apply_all(c2, p2));
    let c3 = spec_apply(c2, p2[0])->Ok_0;
    let p3 = p2.drop_first();
    assert(p2[0] == plan[2]);
    assert(spec_apply_all(c2, p2) == spec_apply_all(c3, p3));
    let c4 = spec_apply(c3, p3[0])->Ok_0;
    let p4 = p3.drop_first();
    assert(p3[0] == plan[3]);
    assert(spec_apply_all(c3, p3) == spec_apply_all(c4, p4));
    let c5 = spec_apply(c4, p4[0])->Ok_0;
    let p5 = p4.drop_first();
    assert(p4[0] == plan[4]);
    assert(spec_apply_all(c4, p4) == spec_apply_all(c5, p5));
    let c6 = spec_apply(c5, p5[0])->Ok_0;
    let p6 = p5.drop_first();
    assert(p5[0] == plan[5]);
    assert(spec_apply_all(c5, p5) == spec_apply_all(c6, p6));
    let c7 = spec_apply(c6, p6[0])->Ok_0;
    let p7 = p6.drop_first();
    assert(p6[0] == plan[6]);
    assert(spec_apply_all(c6, p6) == spec_apply_all(c7, p7));
    let c8 = spec_apply(c7, p7[0])->Ok_0;
    let p8 = p7.drop_first();
    assert(p7[0] == plan[7]);
    assert(spec_apply_all(c7, p7) == spec_apply_all(c8, p8));
    let c9 = spec_apply(c8, p8[0])->Ok_0;
    let p9 = p8.drop_first();
    assert(p8[0] == plan[8]);
    assert(spec_apply_all(c8, p8) == spec_apply_all(c9, p9));
    let c10 = spec_apply(c9, p9[0])->Ok_0;
    let p10 = p9.drop_first();
    assert(p9[0] == plan[9]);
    assert(spec_apply_all(c9, p9) == spec_apply_all(c10, p10));
    let c11 = spec_apply(c10, p10[0])->Ok_0;
    let p11 = p10.drop_first();
    assert(p10[0] == plan[10]);
    assert(spec_apply_all(c10, p10) == spec_apply_all(c11, p11));
    assert(p11.len() == 0);
    assert(spec_apply_all(c11, p11) == Ok::<CatalogView, ()>(c11));
    assert(c11.schemas =~= spec_mounted_catalog().schemas);
    assert(c11.views =~= spec_mounted_catalog().views);
    assert(c11 =~= spec_mounted_catalog());
}

} // verus!
