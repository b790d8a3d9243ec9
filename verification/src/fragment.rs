//! A composable SQL-fragment builder for schema-definition statements.

use vstd::prelude::*;
use vstd::string::StrSliceExecFns;
use vstd::string::StringExecFns;

verus! {

/// The target SQL rendering variant. `Generic` stands for the portable
/// baseline rules; `Mssql` is the SQL Server dialect, which overrides the
/// rendering of auto-increment primary-key integer columns.
#[derive(Clone, Copy, PartialEq, Eq, Structural, Debug)]
pub enum Dialect {
    Generic,
    Mssql,
}

/// Why a fragment tree could not be composed or rendered.
#[derive(Clone, Copy, PartialEq, Eq, Structural, Debug)]
pub enum BuildError {
    /// An identifier violates the quoting rules of the target backend.
    IdentifierRejected,
    /// An auto-increment wrapper was applied to something other than a
    /// primary-key integer column.
    ShapeMismatch,
}

/// A node of the schema-definition abstract syntax tree. Wrapper nodes own
/// their inner node exclusively, so a tree is strictly nested and cycle-free.
pub enum Fragment {
    /// A column definition: a quoted name followed by raw type text. The
    /// `integer` tag records whether the column's SQL type is an integer,
    /// which the auto-increment rule demands.
    Column { name: String, type_text: String, integer: bool },
    /// Marks the wrapped column as the primary key.
    PrimaryKey { inner: Box<Fragment> },
    /// The auto-increment wrapper. Only meaningful around a primary-key
    /// integer column, under the SQL Server dialect.
    AutoIncrement { inner: Box<Fragment> },
    /// Marks the wrapped column as not nullable.
    NotNull { inner: Box<Fragment> },
    /// Gives the wrapped column a default value, as raw literal text.
    DefaultValue { inner: Box<Fragment>, literal: String },
    /// A guarded create-table statement over a comma-separated list of
    /// column definitions.
    Table { name: String, columns: Vec<Fragment> },
}

/// Whether a fragment is the exact shape the auto-increment wrapper
/// accepts: a primary key directly around an integer column.
pub open spec fn auto_increment_shape_ok(f: Fragment) -> bool {
    f matches Fragment::PrimaryKey { inner } && *inner matches Fragment::Column {
        integer: true,
        ..
    }
}

/// Whether every auto-increment node of the tree wraps the shape it is
/// defined for, and only appears where the dialect has a rendering rule for
/// it. No dialect-independent rendering of auto-increment exists: only the
/// SQL Server dialect renders it, as its collapsed identity-column phrase.
pub open spec fn renderable(f: Fragment, d: Dialect) -> bool
    decreases f,
{
    match f {
        Fragment::Column { .. } => true,
        Fragment::PrimaryKey { inner } => renderable(*inner, d),
        Fragment::AutoIncrement { inner } => auto_increment_shape_ok(*inner) && d is Mssql,
        Fragment::NotNull { inner } => renderable(*inner, d),
        Fragment::DefaultValue { inner, .. } => renderable(*inner, d),
        Fragment::Table { columns, .. } => forall|k: int|
            0 <= k < columns@.len() ==> renderable(#[trigger] columns@[k], d),
    }
}

/// Whether the backend's identifier rules accept a name: bracket quoting
/// cannot represent a closing bracket, and no escape for it exists.
pub open spec fn quote_ok(name: Seq<char>) -> bool {
    forall|i: int| 0 <= i < name.len() ==> name[i] != ']'
}

/// Whether every identifier the rendering of a tree quotes is acceptable.
/// Raw type text and default-value literals are trusted text and never
/// checked; only column and table names pass through the quoting primitive.
pub open spec fn idents_ok(f: Fragment) -> bool
    decreases f,
{
    match f {
        Fragment::Column { name, .. } => quote_ok(name@),
        Fragment::PrimaryKey { inner } => idents_ok(*inner),
        Fragment::AutoIncrement { inner } => idents_ok(*inner),
        Fragment::NotNull { inner } => idents_ok(*inner),
        Fragment::DefaultValue { inner, .. } => idents_ok(*inner),
        Fragment::Table { name, columns } => quote_ok(name@) && forall|k: int|
            0 <= k < columns@.len() ==> idents_ok(#[trigger] columns@[k]),
    }
}

/// An identifier under the backend's bracket-quoting convention.
pub open spec fn spec_quoted(name: Seq<char>) -> Seq<char> {
    "["@ + name + "]"@
}

/// The text the specialized auto-increment rule emits: the three nested
/// nodes collapse into one identity-column phrase around the column name.
pub open spec fn spec_auto_increment_sql(inner: Fragment) -> Seq<char> {
    match inner {
        Fragment::PrimaryKey { inner: pk } => match *pk {
            Fragment::Column { name, .. } => spec_quoted(name@) + " INT IDENTITY(1,1) PRIMARY KEY"@,
            _ => Seq::empty(),
        },
        _ => Seq::empty(),
    }
}

/// The SQL text the rendering pass emits for a fragment under a dialect,
/// assuming no identifier is rejected. The rules are dialect-independent,
/// except that the auto-increment phrase exists only under the SQL Server
/// dialect (see `renderable`).
pub open spec fn spec_sql(f: Fragment, d: Dialect) -> Seq<char>
    decreases f,
{
    match f {
        Fragment::Column { name, type_text, .. } => spec_quoted(name@) + " "@ + type_text@,
        Fragment::PrimaryKey { inner } => spec_sql(*inner, d) + " PRIMARY KEY"@,
        Fragment::AutoIncrement { inner } => spec_auto_increment_sql(*inner),
        Fragment::NotNull { inner } => spec_sql(*inner, d) + " NOT NULL"@,
        Fragment::DefaultValue { inner, literal } => spec_sql(*inner, d) + " DEFAULT "@
            + literal@,
        Fragment::Table { name, columns } => "IF OBJECT_ID('"@ + spec_quoted(name@)
            + "') IS NULL CREATE TABLE "@ + spec_quoted(name@) + " ("@ + spec_columns_sql(
            columns@,
            d,
        ) + ")"@,
    }
}

/// The comma-separated rendering of a list of column fragments.
pub open spec fn spec_columns_sql(columns: Seq<Fragment>, d: Dialect) -> Seq<char>
    decreases columns,
{
    if columns.len() == 0 {
        Seq::empty()
    } else if columns.len() == 1 {
        spec_sql(columns[0], d)
    } else {
        spec_columns_sql(columns.subrange(0, columns.len() - 1), d) + ", "@ + spec_sql(
            columns[columns.len() - 1],
            d,
        )
    }
}

impl Fragment {
    /// A column definition from a name, raw type text and the integer tag.
    pub fn column(name: String, type_text: String, integer: bool) -> (f: Fragment)
        ensures
            f == (Fragment::Column { name, type_text, integer }),
    {
        Fragment::Column { name, type_text, integer }
    }

    /// Wraps the fragment as a primary key.
    pub fn primary_key(self) -> (f: Fragment)
        ensures
            f matches Fragment::PrimaryKey { inner } && *inner == self,
    {
        Fragment::PrimaryKey { inner: Box::new(self) }
    }

    /// Wraps an already primary-keyed integer column as auto-incrementing.
    /// Any other shape is a composition error, rejected here — before any
    /// render attempt — with `ShapeMismatch`.
    pub fn auto_increment(self) -> (r: Result<Fragment, BuildError>)
        ensures
            auto_increment_shape_ok(self) ==> (r matches Ok(f) && f matches Fragment::AutoIncrement {
                inner,
            } && *inner == self),
            !auto_increment_shape_ok(self) ==> r == Err::<Fragment, BuildError>(
                BuildError::ShapeMismatch,
            ),
    {
        let shape_ok = match &self {
            Fragment::PrimaryKey { inner } => match &**inner {
                Fragment::Column { integer, .. } => *integer,
                _ => false,
            },
            _ => false,
        };
        if shape_ok {
            Ok(Fragment::AutoIncrement { inner: Box::new(self) })
        } else {
            Err(BuildError::ShapeMismatch)
        }
    }

    /// Wraps the fragment as not nullable.
    pub fn not_null(self) -> (f: Fragment)
        ensures
            f matches Fragment::NotNull { inner } && *inner == self,
    {
        Fragment::NotNull { inner: Box::new(self) }
    }

    /// Gives the fragment a default value. The literal is raw trusted text:
    /// it is rendered as it stands, with no escaping.
    pub fn default_value(self, literal: String) -> (f: Fragment)
        ensures
            f matches Fragment::DefaultValue { inner, literal: l } && *inner == self && l == literal,
    {
        Fragment::DefaultValue { inner: Box::new(self), literal }
    }

    /// A guarded create-table statement over a list of column definitions.
    pub fn table(name: String, columns: Vec<Fragment>) -> (f: Fragment)
        ensures
            f matches Fragment::Table { name: n, columns: c } && n == name && c@ == columns@,
    {
        Fragment::Table { name, columns }
    }

    /// Decides `renderable` for this tree: whether every auto-increment
    /// node wraps a primary-key integer column and the dialect has a rule
    /// for it. A caller that did not build the tree through the builder
    /// methods can test a render's precondition with this.
    pub fn is_renderable(&self, dialect: Dialect) -> (r: bool)
        ensures
            r == renderable(*self, dialect),
        decreases *self,
    {
        match self {
            Fragment::Column { .. } => true,
            Fragment::PrimaryKey { inner } => inner.is_renderable(dialect),
            Fragment::NotNull { inner } => inner.is_renderable(dialect),
            Fragment::DefaultValue { inner, .. } => inner.is_renderable(dialect),
            Fragment::AutoIncrement { inner } => {
                let shape_ok = match &**inner {
                    Fragment::PrimaryKey { inner: pk } => match &**pk {
                        Fragment::Column { integer, .. } => *integer,
                        _ => false,
                    },
                    _ => false,
                };
                shape_ok && dialect == Dialect::Mssql
            },
            Fragment::Table { columns, .. } => {
                let n: usize = columns.len();
                let mut k: usize = 0;
                #[verifier::loop_isolation(false)]
                while k < n
                    invariant
                        k <= n,
                        forall|j: int| 0 <= j < k ==> renderable(#[trigger] columns@[j], dialect),
                    decreases n - k,
                {
                    if !columns[k].is_renderable(dialect) {
                        return false;
                    }
                    k = k + 1;
                }
                true
            },
        }
    }

    /// Whether a statement built from this fragment may be cached under a
    /// stable query identity. DDL text embeds literal identifiers and cannot
    /// be parameterized, so no fragment ever has one.
    pub fn has_static_query_id(&self) -> (r: bool)
        ensures
            !r,
    {
        false
    }
}

/// The mutable output cursor of one rendering pass: the append-only SQL
/// buffer, the not-cacheable marker, and the target dialect the pass
/// renders for.
pub struct AstPass {
    /// The SQL text emitted so far.
    pub sql: String,
    /// Set by every node that renders into this pass; once set it stays.
    pub not_cacheable: bool,
    /// The target dialect of this pass.
    pub dialect: Dialect,
}

impl AstPass {
    /// An empty pass for the given target dialect.
    pub fn new(dialect: Dialect) -> (r: AstPass)
        ensures
            r.sql@ == Seq::<char>::empty(),
            !r.not_cacheable,
            r.dialect == dialect,
    {
        AstPass { sql: String::new(), not_cacheable: false, dialect }
    }

    /// Marks the statement as not safely cacheable as a prepared query
    /// plan. Idempotent: once marked, a statement stays marked.
    pub fn mark_not_cacheable(&mut self)
        ensures
            final(self).sql == old(self).sql,
            final(self).not_cacheable,
            final(self).dialect == old(self).dialect,
    {
        self.not_cacheable = true;
    }

    /// Appends raw SQL text to the buffer, unescaped.
    pub fn push_sql(&mut self, sql_text: &str)
        ensures
            final(self).sql@ == old(self).sql@ + sql_text@,
            final(self).not_cacheable == old(self).not_cacheable,
            final(self).dialect == old(self).dialect,
    {
        self.sql.append(sql_text);
    }

    /// Appends a name under the backend's bracket-quoting convention, or
    /// rejects it — leaving the buffer untouched — where the quoting rules
    /// cannot represent it.
    pub fn push_identifier(&mut self, name: &str) -> (r: Result<(), BuildError>)
        ensures
            final(self).not_cacheable == old(self).not_cacheable,
            final(self).dialect == old(self).dialect,
            r is Ok <==> quote_ok(name@),
            r matches Ok(_) ==> final(self).sql@ == old(self).sql@ + spec_quoted(name@),
            r matches Err(e) ==> e == BuildError::IdentifierRejected && final(self).sql
                == old(self).sql,
    {
        let n = name.unicode_len();
        let mut i: usize = 0;
        while i < n
            invariant
                n == name@.len(),
                i <= n,
                forall|j: int| 0 <= j < i ==> name@[j] != ']',
            decreases n - i,
        {
            if name.get_char(i) == ']' {
                return Err(BuildError::IdentifierRejected);
            }
            i = i + 1;
        }
        self.push_sql("[");
        self.push_sql(name);
        self.push_sql("]");
        proof {
            assert(self.sql@ =~= old(self).sql@ + spec_quoted(name@));
        }
        Ok(())
    }
}

impl Fragment {
    /// Renders this fragment into the pass: marks the statement as not
    /// cacheable, then emits its own textual contribution, delegating to
    /// child nodes for theirs. Succeeds exactly when every identifier the
    /// tree quotes is acceptable; a rejected identifier aborts the pass.
    pub fn walk_ast(&self, out: &mut AstPass) -> (r: Result<(), BuildError>)
        requires
            renderable(*self, old(out).dialect),
        ensures
            final(out).dialect == old(out).dialect,
            final(out).not_cacheable,
            r is Ok <==> idents_ok(*self),
            r matches Ok(_) ==> final(out).sql@ == old(out).sql@ + spec_sql(
                *self,
                old(out).dialect,
            ),
            r matches Err(e) ==> e == BuildError::IdentifierRejected,
        decreases *self,
    {
        match self {
            Fragment::Column { name, type_text, .. } => {
                out.mark_not_cacheable();
                match out.push_identifier(name.as_str()) {
                    Ok(_) => {},
                    Err(e) => {
                        return Err(e);
                    },
                }
                out.push_sql(" ");
                out.push_sql(type_text.as_str());
                proof {
                    assert(idents_ok(*self));
                    assert(out.sql@ =~= old(out).sql@ + spec_sql(*self, old(out).dialect));
                }
                Ok(())
            },
            Fragment::PrimaryKey { inner } => {
                out.mark_not_cacheable();
                match inner.walk_ast(out) {
                    Ok(_) => {},
                    Err(e) => {
                        return Err(e);
                    },
                }
                out.push_sql(" PRIMARY KEY");
                proof {
                    assert(out.sql@ =~= old(out).sql@ + spec_sql(*self, old(out).dialect));
                }
                Ok(())
            },
            Fragment::NotNull { inner } => {
                out.mark_not_cacheable();
                match inner.walk_ast(out) {
                    Ok(_) => {},
                    Err(e) => {
                        return Err(e);
                    },
                }
                out.push_sql(" NOT NULL");
                proof {
                    assert(out.sql@ =~= old(out).sql@ + spec_sql(*self, old(out).dialect));
                }
                Ok(())
            },
            Fragment::DefaultValue { inner, literal } => {
                out.mark_not_cacheable();
                match inner.walk_ast(out) {
                    Ok(_) => {},
                    Err(e) => {
                        return Err(e);
                    },
                }
                out.push_sql(" DEFAULT ");
                out.push_sql(literal.as_str());
                proof {
                    assert(out.sql@ =~= old(out).sql@ + spec_sql(*self, old(out).dialect));
                }
                Ok(())
            },
            Fragment::AutoIncrement { inner } => {
                out.mark_not_cacheable();
                match &**inner {
                    Fragment::PrimaryKey { inner: pk } => match &**pk {
                        Fragment::Column { name, .. } => {
                            proof {
                                assert(idents_ok(*self) == idents_ok(**inner));
                                assert(idents_ok(**inner) == idents_ok(**pk));
                                assert(idents_ok(**pk) == quote_ok(name@));
                            }
                            match out.push_identifier(name.as_str()) {
                                Ok(_) => {},
                                Err(e) => {
                                    return Err(e);
                                },
                            }
                            out.push_sql(" INT IDENTITY(1,1) PRIMARY KEY");
                            proof {
                                assert(out.sql@ =~= old(out).sql@ + spec_sql(
                                    *self,
                                    old(out).dialect,
                                ));
                            }
                            Ok(())
                        },
                        // Dead under the precondition: a renderable
                        // auto-increment node wraps exactly a primary-key
                        // integer column.
                        _ => Ok(()),
                    },
                    _ => Ok(()),
                }
            },
            Fragment::Table { name, columns } => {
                out.mark_not_cacheable();
                out.push_sql("IF OBJECT_ID('");
                match out.push_identifier(name.as_str()) {
                    Ok(_) => {},
                    Err(e) => {
                        return Err(e);
                    },
                }
                out.push_sql("') IS NULL CREATE TABLE ");
                match out.push_identifier(name.as_str()) {
                    Ok(_) => {},
                    Err(e) => {
                        return Err(e);
                    },
                }
                out.push_sql(" (");
                let ghost d = out.dialect;
                let ghost sql0 = out.sql@;
                let n = columns.len();
                let mut k: usize = 0;
                #[verifier::loop_isolation(false)]
                while k < n
                    invariant
                        n == columns@.len(),
                        k <= n,
                        out.dialect == d,
                        out.not_cacheable,
                        forall|j: int| 0 <= j < n ==> renderable(#[trigger] columns@[j], d),
                        forall|j: int| 0 <= j < k ==> idents_ok(#[trigger] columns@[j]),
                        out.sql@ == sql0 + spec_columns_sql(columns@.subrange(0, k as int), d),
                    decreases n - k,
                {
                    if k > 0 {
                        out.push_sql(", ");
                    }
                    match columns[k].walk_ast(out) {
                        Ok(_) => {},
                        Err(e) => {
                            return Err(e);
                        },
                    }
                    proof {
                        let cs = columns@;
                        assert(cs.subrange(0, (k + 1) as int).subrange(0, k as int) =~= cs.subrange(
                            0,
                            k as int,
                        ));
                        assert(cs.subrange(0, (k + 1) as int)[k as int] == cs[k as int]);
                        assert(out.sql@ =~= sql0 + spec_columns_sql(
                            cs.subrange(0, (k + 1) as int),
                            d,
                        ));
                    }
                    k = k + 1;
                }
                out.push_sql(")");
                proof {
                    assert(columns@.subrange(0, n as int) =~= columns@);
                    assert(out.sql@ =~= old(out).sql@ + spec_sql(*self, old(out).dialect));
                }
                Ok(())
            },
        }
    }
}

/// One rendered schema-definition statement: the SQL text and the marker
/// that forbids reusing it as a cached prepared plan.
pub struct SqlQuery {
    /// The complete statement text.
    pub sql: String,
    /// Always set by a successful render: DDL is never cacheable.
    pub not_cacheable: bool,
}

/// Renders a fragment tree to a single SQL statement for the target
/// dialect. Succeeds exactly when every quoted identifier is acceptable;
/// a rejected identifier aborts the render, and no partial statement is
/// surfaced.
pub fn render(fragment: &Fragment, dialect: Dialect) -> (r: Result<SqlQuery, BuildError>)
    requires
        renderable(*fragment, dialect),
    ensures
        r is Ok <==> idents_ok(*fragment),
        r matches Ok(q) ==> q.sql@ == spec_sql(*fragment, dialect) && q.not_cacheable,
        r matches Err(e) ==> e == BuildError::IdentifierRejected,
{
    let mut out = AstPass::new(dialect);
    match fragment.walk_ast(&mut out) {
        Ok(_) => {
            proof {
                assert(out.sql@ =~= spec_sql(*fragment, dialect));
            }
            Ok(SqlQuery { sql: out.sql, not_cacheable: out.not_cacheable })
        },
        Err(e) => Err(e),
    }
}

/// Law: the rendering of a table fragment begins with the existence-guarded
/// create phrase, whatever the dialect. (That every render also sets the
/// not-cacheable marker is part of the contracts of `render` and
/// `Fragment::walk_ast` themselves.)
pub proof fn lemma_table_sql_begins_with_guard(fragment: Fragment, dialect: Dialect)
    requires
        fragment matches Fragment::Table { .. },
    ensures
        spec_sql(fragment, dialect).take("IF OBJECT_ID('"@.len() as int) == "IF OBJECT_ID('"@,
{
    let guard = "IF OBJECT_ID('"@;
    assert(spec_sql(fragment, dialect).take(guard.len() as int) =~= guard);
}

} // verus!
