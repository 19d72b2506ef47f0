//! The generator protocol: the two capability contracts a SQL dialect
//! implements to turn schema descriptions into syntax fragments.
//!
//! [`DatabaseGenerator`] covers table-level statements, [`TableGenerator`]
//! covers column-level fragments. Keeping them separate lets a dialect reuse
//! one while varying the other. Every operation is a pure function from
//! identifiers to a string; statement ordering is the caller's business.
//!
//! Each implementation pins its own output down with a spec function per
//! operation, and owes its callers the guarantees every correct dialect
//! shares: a rendered fragment contains the identifiers it was given, the
//! conditional form of a statement differs from the plain form, renaming is
//! asymmetric, and an auto-increment fragment is never mistakable for a
//! plain integer column.

use vstd::prelude::*;

verus! {

/// `needle` occurs contiguously somewhere in `hay`.
pub open spec fn contains_seq(hay: Seq<char>, needle: Seq<char>) -> bool {
    exists|i: int|
        0 <= i && i + needle.len() <= hay.len() && #[trigger] hay.subrange(i, i + needle.len())
            == needle
}

/// `needle` stands in `hay` at position `i`, so `hay` contains it: the
/// witness a dialect implementation hands to `contains_seq`.
pub proof fn lemma_contains_at(hay: Seq<char>, needle: Seq<char>, i: int)
    requires
        0 <= i,
        i + needle.len() <= hay.len(),
        hay.subrange(i, i + needle.len()) == needle,
    ensures
        contains_seq(hay, needle),
{
}

/// A well-formed identifier: non-empty and without spaces. Identifier
/// validation proper belongs to the schema-builder layer; the contracts
/// here only ever assume this much.
pub open spec fn ident_ok(name: Seq<char>) -> bool {
    name.len() > 0 && (forall|i: int| 0 <= i < name.len() ==> name[i] != ' ')
}

/// The table-level contract: one implementation covers exactly one backend
/// dialect and renders full table-structure statements.
///
/// The `spec_*` function for each operation is the implementation's own
/// statement of what it renders; the executable operation must return
/// exactly that, and must keep the identifiers it was given visible in the
/// output. The proof obligations bind every dialect to the observable
/// distinctions callers rely on.
pub trait DatabaseGenerator {
    /// What `create_table` renders.
    spec fn spec_create_table(name: Seq<char>) -> Seq<char>;

    /// What `create_table_if_not_exists` renders.
    spec fn spec_create_table_if_not_exists(name: Seq<char>) -> Seq<char>;

    /// What `drop_table` renders.
    spec fn spec_drop_table(name: Seq<char>) -> Seq<char>;

    /// What `drop_table_if_exists` renders.
    spec fn spec_drop_table_if_exists(name: Seq<char>) -> Seq<char>;

    /// What `rename_table` renders.
    spec fn spec_rename_table(old_name: Seq<char>, new_name: Seq<char>) -> Seq<char>;

    /// What `modify_table` renders.
    spec fn spec_modify_table(name: Seq<char>) -> Seq<char>;

    /// Open a statement creating the table `name`; the column body is
    /// composed separately from column fragments.
    fn create_table(name: &str) -> (r: String)
        ensures
            r@ == Self::spec_create_table(name@),
            contains_seq(r@, name@),
    ;

    /// Like `create_table`, with the dialect's conditional-existence guard.
    fn create_table_if_not_exists(name: &str) -> (r: String)
        ensures
            r@ == Self::spec_create_table_if_not_exists(name@),
            contains_seq(r@, name@),
    ;

    /// A full statement dropping the table `name`.
    fn drop_table(name: &str) -> (r: String)
        ensures
            r@ == Self::spec_drop_table(name@),
            contains_seq(r@, name@),
    ;

    /// Like `drop_table`, with the dialect's conditional-existence guard.
    fn drop_table_if_exists(name: &str) -> (r: String)
        ensures
            r@ == Self::spec_drop_table_if_exists(name@),
            contains_seq(r@, name@),
    ;

    /// A statement renaming the table `old_name` to `new_name`. Callers must
    /// keep the two distinct; what a dialect renders for equal names is not
    /// specified beyond the clauses here.
    fn rename_table(old_name: &str, new_name: &str) -> (r: String)
        ensures
            r@ == Self::spec_rename_table(old_name@, new_name@),
            contains_seq(r@, old_name@),
            contains_seq(r@, new_name@),
    ;

    /// Open an ALTER-style statement on the table `name`; the column-level
    /// changes are supplied separately.
    fn modify_table(name: &str) -> (r: String)
        ensures
            r@ == Self::spec_modify_table(name@),
            contains_seq(r@, name@),
    ;

    /// The conditional create is observably different from the plain one.
    proof fn lemma_conditional_create_differs(name: Seq<char>)
        ensures
            Self::spec_create_table_if_not_exists(name) != Self::spec_create_table(name),
    ;

    /// The conditional drop is observably different from the plain one.
    proof fn lemma_conditional_drop_differs(name: Seq<char>)
        ensures
            Self::spec_drop_table_if_exists(name) != Self::spec_drop_table(name),
    ;

    /// Renaming is asymmetric: for two distinct well-formed identifiers,
    /// renaming one to the other and the reverse render different statements.
    proof fn lemma_rename_table_asymmetric(old_name: Seq<char>, new_name: Seq<char>)
        requires
            ident_ok(old_name),
            ident_ok(new_name),
            old_name != new_name,
        ensures
            Self::spec_rename_table(old_name, new_name) != Self::spec_rename_table(
                new_name,
                old_name,
            ),
    ;
}

/// The column-level contract: fragments that manipulate or declare single
/// columns, composed by the caller into full statements.
pub trait TableGenerator {
    /// What `drop_column` renders.
    spec fn spec_drop_column(name: Seq<char>) -> Seq<char>;

    /// What `rename_column` renders.
    spec fn spec_rename_column(old_name: Seq<char>, new_name: Seq<char>) -> Seq<char>;

    /// What `increments` renders.
    spec fn spec_increments() -> Seq<char>;

    /// What `integer` renders.
    spec fn spec_integer(name: Seq<char>) -> Seq<char>;

    /// What `text` renders.
    spec fn spec_text(name: Seq<char>) -> Seq<char>;

    /// What `string` renders.
    spec fn spec_string(name: Seq<char>) -> Seq<char>;

    /// What `timestamp` renders.
    spec fn spec_timestamp(name: Seq<char>) -> Seq<char>;

    /// A fragment dropping an existing column.
    fn drop_column(name: &str) -> (r: String)
        ensures
            r@ == Self::spec_drop_column(name@),
            contains_seq(r@, name@),
    ;

    /// A fragment renaming an existing column.
    fn rename_column(old_name: &str, new_name: &str) -> (r: String)
        ensures
            r@ == Self::spec_rename_column(old_name@, new_name@),
            contains_seq(r@, old_name@),
            contains_seq(r@, new_name@),
    ;

    /// A fragment declaring an auto-incrementing primary-key column.
    fn increments() -> (r: String)
        ensures
            r@ == Self::spec_increments(),
    ;

    /// A fragment declaring an integer column.
    fn integer(name: &str) -> (r: String)
        ensures
            r@ == Self::spec_integer(name@),
            contains_seq(r@, name@),
    ;

    /// A fragment declaring a text column.
    fn text(name: &str) -> (r: String)
        ensures
            r@ == Self::spec_text(name@),
            contains_seq(r@, name@),
    ;

    /// A fragment declaring a bounded-length string column; the dialect
    /// picks the default bound.
    fn string(name: &str) -> (r: String)
        ensures
            r@ == Self::spec_string(name@),
            contains_seq(r@, name@),
    ;

    /// A fragment declaring a timestamp column.
    fn timestamp(name: &str) -> (r: String)
        ensures
            r@ == Self::spec_timestamp(name@),
            contains_seq(r@, name@),
    ;

    /// An auto-increment fragment is never byte-identical to an integer
    /// column fragment, whatever the column name.
    proof fn lemma_increments_distinct_from_integer(name: Seq<char>)
        ensures
            Self::spec_increments() != Self::spec_integer(name),
    ;
}

} // verus!
