//! A reference dialect: renders PostgreSQL syntax fragments.
//!
//! [`Postgres`] implements both generator contracts, with one spec function
//! per operation pinning the rendered fragment down exactly, and discharges
//! the proof obligations every dialect owes. [`Postgres::column`] renders a
//! whole column description — kind, size hint, nullability and uniqueness —
//! into one fragment.

use crate::generators::contains_seq;
use crate::generators::ident_ok;
use crate::generators::lemma_contains_at;
use crate::generators::DatabaseGenerator;
use crate::generators::TableGenerator;
use crate::types::BaseType;
use crate::types::Type;
use vstd::prelude::*;

verus! {

/// The decimal digit character for `d`.
pub open spec fn spec_digit(d: int) -> char {
    if d == 0 {
        '0'
    } else if d == 1 {
        '1'
    } else if d == 2 {
        '2'
    } else if d == 3 {
        '3'
    } else if d == 4 {
        '4'
    } else if d == 5 {
        '5'
    } else if d == 6 {
        '6'
    } else if d == 7 {
        '7'
    } else if d == 8 {
        '8'
    } else {
        '9'
    }
}

/// The decimal rendering of `n`: most significant digit first, no leading
/// zeros except for `n == 0` itself.
pub open spec fn spec_decimal(n: nat) -> Seq<char>
    decreases n,
{
    if n < 10 {
        seq![spec_digit(n as int)]
    } else {
        spec_decimal(n / 10).push(spec_digit((n % 10) as int))
    }
}

/// The one-character string for the digit `d`.
fn digit_str(d: usize) -> (r: &'static str)
    requires
        d < 10,
    ensures
        r@ == seq![spec_digit(d as int)],
{
    proof {
        reveal_strlit("0");
        reveal_strlit("1");
        reveal_strlit("2");
        reveal_strlit("3");
        reveal_strlit("4");
        reveal_strlit("5");
        reveal_strlit("6");
        reveal_strlit("7");
        reveal_strlit("8");
        reveal_strlit("9");
    }
    let r: &'static str = if d == 0 {
        "0"
    } else if d == 1 {
        "1"
    } else if d == 2 {
        "2"
    } else if d == 3 {
        "3"
    } else if d == 4 {
        "4"
    } else if d == 5 {
        "5"
    } else if d == 6 {
        "6"
    } else if d == 7 {
        "7"
    } else if d == 8 {
        "8"
    } else {
        "9"
    };
    proof {
        assert(r@ =~= seq![spec_digit(d as int)]);
    }
    r
}

/// Render `n` in decimal.
pub fn render_decimal(n: usize) -> (r: String)
    ensures
        r@ == spec_decimal(n as nat),
    decreases n,
{
    let d = digit_str(n % 10);
    if n < 10 {
        String::from_str(d)
    } else {
        let mut s = render_decimal(n / 10);
        s.append(d);
        proof {
            assert(s@ =~= spec_decimal(n as nat));
        }
        s
    }
}

/// Swapping the two identifiers around a separator that opens with a space
/// changes the rendered statement, provided the identifiers are distinct,
/// non-empty and space-free.
proof fn lemma_swap_distinct(p: Seq<char>, m: Seq<char>, a: Seq<char>, b: Seq<char>)
    requires
        ident_ok(a),
        ident_ok(b),
        a != b,
        m.len() > 0,
        m[0] == ' ',
    ensures
        p + a + m + b != p + b + m + a,
{
    let s1 = p + a + m + b;
    let s2 = p + b + m + a;
    if a.len() == b.len() {
        assert(exists|i: int| 0 <= i < a.len() && a[i] != b[i]) by {
            if forall|i: int| 0 <= i < a.len() ==> a[i] == b[i] {
                assert(a =~= b);
            }
        }
        let i = choose|i: int| 0 <= i < a.len() && a[i] != b[i];
        assert(s1[p.len() + i] == a[i]);
        assert(s2[p.len() + i] == b[i]);
        if s1 == s2 {
            assert(s1[p.len() + i] == s2[p.len() + i]);
            assert(false);
        }
    } else if a.len() < b.len() {
        let k = p.len() + a.len();
        assert(s1[k as int] == m[0]);
        assert(s2[k as int] == b[a.len() as int]);
        assert(b[a.len() as int] != ' ');
        if s1 == s2 {
            assert(s1[k as int] == s2[k as int]);
            assert(false);
        }
    } else {
        let k = p.len() + b.len();
        assert(s1[k as int] == a[b.len() as int]);
        assert(s2[k as int] == m[0]);
        assert(a[b.len() as int] != ' ');
        if s1 == s2 {
            assert(s1[k as int] == s2[k as int]);
            assert(false);
        }
    }
}

/// The PostgreSQL dialect.
pub struct Postgres;

impl DatabaseGenerator for Postgres {
    open spec fn spec_create_table(name: Seq<char>) -> Seq<char> {
        "CREATE TABLE "@ + name
    }

    open spec fn spec_create_table_if_not_exists(name: Seq<char>) -> Seq<char> {
        "CREATE TABLE IF NOT EXISTS "@ + name
    }

    open spec fn spec_drop_table(name: Seq<char>) -> Seq<char> {
        "DROP TABLE "@ + name
    }

    open spec fn spec_drop_table_if_exists(name: Seq<char>) -> Seq<char> {
        "DROP TABLE IF EXISTS "@ + name
    }

    open spec fn spec_rename_table(old_name: Seq<char>, new_name: Seq<char>) -> Seq<char> {
        "ALTER TABLE "@ + old_name + " RENAME TO "@ + new_name
    }

    open spec fn spec_modify_table(name: Seq<char>) -> Seq<char> {
        "ALTER TABLE "@ + name
    }

    fn create_table(name: &str) -> (r: String) {
        let mut s = String::from_str("CREATE TABLE ");
        s.append(name);
        proof {
            let p = "CREATE TABLE "@;
            assert(s@.subrange(p.len() as int, p.len() + name@.len() as int) =~= name@);
            lemma_contains_at(s@, name@, p.len() as int);
        }
        s
    }

    fn create_table_if_not_exists(name: &str) -> (r: String) {
        let mut s = String::from_str("CREATE TABLE IF NOT EXISTS ");
        s.append(name);
        proof {
            let p = "CREATE TABLE IF NOT EXISTS "@;
            assert(s@.subrange(p.len() as int, p.len() + name@.len() as int) =~= name@);
            lemma_contains_at(s@, name@, p.len() as int);
        }
        s
    }

    fn drop_table(name: &str) -> (r: String) {
        let mut s = String::from_str("DROP TABLE ");
        s.append(name);
        proof {
            let p = "DROP TABLE "@;
            assert(s@.subrange(p.len() as int, p.len() + name@.len() as int) =~= name@);
            lemma_contains_at(s@, name@, p.len() as int);
        }
        s
    }

    fn drop_table_if_exists(name: &str) -> (r: String) {
        let mut s = String::from_str("DROP TABLE IF EXISTS ");
        s.append(name);
        proof {
            let p = "DROP TABLE IF EXISTS "@;
            assert(s@.subrange(p.len() as int, p.len() + name@.len() as int) =~= name@);
            lemma_contains_at(s@, name@, p.len() as int);
        }
        s
    }

    fn rename_table(old_name: &str, new_name: &str) -> (r: String) {
        let mut s = String::from_str("ALTER TABLE ");
        s.append(old_name);
        s.append(" RENAME TO ");
        s.append(new_name);
        proof {
            let p = "ALTER TABLE "@;
            assert(s@.subrange(p.len() as int, p.len() + old_name@.len() as int) =~= old_name@);
            lemma_contains_at(s@, old_name@, p.len() as int);
            assert(s@.subrange(s@.len() - new_name@.len(), s@.len() as int) =~= new_name@);
            lemma_contains_at(s@, new_name@, s@.len() - new_name@.len());
        }
        s
    }

    fn modify_table(name: &str) -> (r: String) {
        let mut s = String::from_str("ALTER TABLE ");
        s.append(name);
        proof {
            let p = "ALTER TABLE "@;
            assert(s@.subrange(p.len() as int, p.len() + name@.len() as int) =~= name@);
            lemma_contains_at(s@, name@, p.len() as int);
        }
        s
    }

    proof fn lemma_conditional_create_differs(name: Seq<char>) {
        reveal_strlit("CREATE TABLE ");
        reveal_strlit("CREATE TABLE IF NOT EXISTS ");
        assert(Self::spec_create_table_if_not_exists(name).len()
            != Self::spec_create_table(name).len());
    }

    proof fn lemma_conditional_drop_differs(name: Seq<char>) {
        reveal_strlit("DROP TABLE ");
        reveal_strlit("DROP TABLE IF EXISTS ");
        assert(Self::spec_drop_table_if_exists(name).len() != Self::spec_drop_table(name).len());
    }

    proof fn lemma_rename_table_asymmetric(old_name: Seq<char>, new_name: Seq<char>) {
        reveal_strlit(" RENAME TO ");
        lemma_swap_distinct("ALTER TABLE "@, " RENAME TO "@, old_name, new_name);
    }
}

impl TableGenerator for Postgres {
    open spec fn spec_drop_column(name: Seq<char>) -> Seq<char> {
        "DROP COLUMN "@ + name
    }

    open spec fn spec_rename_column(old_name: Seq<char>, new_name: Seq<char>) -> Seq<char> {
        "RENAME COLUMN "@ + old_name + " TO "@ + new_name
    }

    open spec fn spec_increments() -> Seq<char> {
        "SERIAL PRIMARY KEY"@
    }

    open spec fn spec_integer(name: Seq<char>) -> Seq<char> {
        name + " INTEGER"@
    }

    open spec fn spec_text(name: Seq<char>) -> Seq<char> {
        name + " TEXT"@
    }

    open spec fn spec_string(name: Seq<char>) -> Seq<char> {
        name + " VARCHAR(255)"@
    }

    open spec fn spec_timestamp(name: Seq<char>) -> Seq<char> {
        name + " TIMESTAMP"@
    }

    fn drop_column(name: &str) -> (r: String) {
        let mut s = String::from_str("DROP COLUMN ");
        s.append(name);
        proof {
            let p = "DROP COLUMN "@;
            assert(s@.subrange(p.len() as int, p.len() + name@.len() as int) =~= name@);
            lemma_contains_at(s@, name@, p.len() as int);
        }
        s
    }

    fn rename_column(old_name: &str, new_name: &str) -> (r: String) {
        let mut s = String::from_str("RENAME COLUMN ");
        s.append(old_name);
        s.append(" TO ");
        s.append(new_name);
        proof {
            let p = "RENAME COLUMN "@;
            assert(s@.subrange(p.len() as int, p.len() + old_name@.len() as int) =~= old_name@);
            lemma_contains_at(s@, old_name@, p.len() as int);
            assert(s@.subrange(s@.len() - new_name@.len(), s@.len() as int) =~= new_name@);
            lemma_contains_at(s@, new_name@, s@.len() - new_name@.len());
        }
        s
    }

    fn increments() -> (r: String) {
        String::from_str("SERIAL PRIMARY KEY")
    }

    fn integer(name: &str) -> (r: String) {
        let mut s = String::from_str(name);
        s.append(" INTEGER");
        proof {
            assert(s@.subrange(0, name@.len() as int) =~= name@);
            lemma_contains_at(s@, name@, 0);
        }
        s
    }

    fn text(name: &str) -> (r: String) {
        let mut s = String::from_str(name);
        s.append(" TEXT");
        proof {
            assert(s@.subrange(0, name@.len() as int) =~= name@);
            lemma_contains_at(s@, name@, 0);
        }
        s
    }

    fn string(name: &str) -> (r: String) {
        let mut s = String::from_str(name);
        s.append(" VARCHAR(255)");
        proof {
            assert(s@.subrange(0, name@.len() as int) =~= name@);
            lemma_contains_at(s@, name@, 0);
        }
        s
    }

    fn timestamp(name: &str) -> (r: String) {
        let mut s = String::from_str(name);
        s.append(" TIMESTAMP");
        proof {
            assert(s@.subrange(0, name@.len() as int) =~= name@);
            lemma_contains_at(s@, name@, 0);
        }
        s
    }

    proof fn lemma_increments_distinct_from_integer(name: Seq<char>) {
        reveal_strlit("SERIAL PRIMARY KEY");
        reveal_strlit(" INTEGER");
        let s1 = Self::spec_increments();
        let s2 = Self::spec_integer(name);
        assert(s1[s1.len() - 1] == 'Y');
        assert(s2[s2.len() - 1] == 'R');
        if s1 == s2 {
            assert(s1[s1.len() - 1] == s2[s2.len() - 1]);
            assert(false);
        }
    }
}

/// The PostgreSQL type name for a column kind, with the size hint applied.
/// A sized `Varchar` renders its bound in decimal; on an array the hint
/// applies to the element kind, so a sized varchar array renders as
/// `VARCHAR(n)[]`.
pub open spec fn spec_base_sql(b: BaseType, size: Option<usize>) -> Seq<char>
    decreases b,
{
    match b {
        BaseType::Text => "TEXT"@,
        BaseType::Varchar => match size {
            Some(n) => "VARCHAR("@ + spec_decimal(n as nat) + ")"@,
            None => "VARCHAR"@,
        },
        BaseType::Primary => "SERIAL PRIMARY KEY"@,
        BaseType::Integer => "INTEGER"@,
        BaseType::Float => "REAL"@,
        BaseType::Double => "DOUBLE PRECISION"@,
        BaseType::Boolean => "BOOLEAN"@,
        BaseType::Binary => "BYTEA"@,
        BaseType::Foreign(t) => "INTEGER REFERENCES "@ + t@,
        BaseType::Custom(t) => t@,
        BaseType::Array(e) => spec_base_sql(*e, size) + "[]"@,
    }
}

/// Render the PostgreSQL type name for a column kind, exactly as
/// [`spec_base_sql`] states.
pub fn base_sql(b: &BaseType, size: Option<usize>) -> (r: String)
    ensures
        r@ == spec_base_sql(*b, size),
    decreases *b,
{
    match b {
        BaseType::Text => String::from_str("TEXT"),
        BaseType::Varchar => match size {
            Option::Some(n) => {
                let mut s = String::from_str("VARCHAR(");
                let d = render_decimal(n);
                s.append(d.as_str());
                s.append(")");
                s
            },
            Option::None => String::from_str("VARCHAR"),
        },
        BaseType::Primary => String::from_str("SERIAL PRIMARY KEY"),
        BaseType::Integer => String::from_str("INTEGER"),
        BaseType::Float => String::from_str("REAL"),
        BaseType::Double => String::from_str("DOUBLE PRECISION"),
        BaseType::Boolean => String::from_str("BOOLEAN"),
        BaseType::Binary => String::from_str("BYTEA"),
        BaseType::Foreign(t) => {
            let mut s = String::from_str("INTEGER REFERENCES ");
            s.append(t);
            s
        },
        BaseType::Custom(t) => String::from_str(t),
        BaseType::Array(e) => {
            let mut s = base_sql(&**e, size);
            s.append("[]");
            s
        },
    }
}

/// What a whole column definition renders to: the column name, the SQL for
/// its kind with the size hint applied, then a `NOT NULL` marker unless the
/// column is nullable and a `UNIQUE` marker when it is unique.
pub open spec fn spec_column<T>(name: Seq<char>, t: Type<T>) -> Seq<char> {
    name + " "@ + spec_base_sql(t.inner, t.size) + (if !t.nullable {
        " NOT NULL"@
    } else {
        Seq::<char>::empty()
    }) + (if t.unique {
        " UNIQUE"@
    } else {
        Seq::<char>::empty()
    })
}

/// A rendered column fragment surfaces its constraints: for a sized,
/// non-nullable, unique varchar column the output contains the decimal
/// rendering of the size bound, a `NOT NULL` marker and a `UNIQUE` marker.
pub proof fn lemma_column_surfaces_constraints<T>(name: Seq<char>, t: Type<T>)
    requires
        t.inner == BaseType::Varchar,
        t.size is Some,
        !t.nullable,
        t.unique,
    ensures
        contains_seq(spec_column(name, t), spec_decimal(t.size->Some_0 as nat)),
        contains_seq(spec_column(name, t), " NOT NULL"@),
        contains_seq(spec_column(name, t), " UNIQUE"@),
{
    let s = spec_column(name, t);
    let dec = spec_decimal(t.size->Some_0 as nat);
    let i = name.len() + " "@.len() + "VARCHAR("@.len();
    assert(s.subrange(i as int, i + dec.len() as int) =~= dec);
    lemma_contains_at(s, dec, i as int);
    let j = s.len() - " UNIQUE"@.len();
    assert(s.subrange(j, s.len() as int) =~= " UNIQUE"@);
    lemma_contains_at(s, " UNIQUE"@, j);
    let k = j - " NOT NULL"@.len();
    assert(s.subrange(k, j) =~= " NOT NULL"@);
    lemma_contains_at(s, " NOT NULL"@, k);
}

impl Postgres {
    /// Render a whole column description into one fragment, exactly as
    /// [`spec_column`] states. The default value and the index mark are not
    /// rendered here: a default needs a value rendering for `T`, and an
    /// index is a separate statement, both outside the column fragment.
    pub fn column<T>(name: &str, t: &Type<T>) -> (r: String)
        ensures
            r@ == spec_column(name@, *t),
            contains_seq(r@, name@),
    {
        let mut s = String::from_str(name);
        s.append(" ");
        let inner = t.get_inner();
        let base = base_sql(&inner, t.size);
        s.append(base.as_str());
        if !t.nullable {
            s.append(" NOT NULL");
        }
        if t.unique {
            s.append(" UNIQUE");
        }
        proof {
            assert(s@ =~= spec_column(name@, *t));
            assert(s@.subrange(0, name@.len() as int) =~= name@);
            lemma_contains_at(s@, name@, 0);
        }
        s
    }
}

} // verus!
