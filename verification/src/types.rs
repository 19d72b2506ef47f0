//! The column type model: column kinds and the metadata envelope around them.
//!
//! A column is described by a [`BaseType`] — the kind of data it stores,
//! independent of any dialect — wrapped in a [`Type`], which carries the
//! per-column metadata (nullable, unique, auto-increment, indexed, default
//! value, size hint). `Type` values are immutable: every builder call consumes
//! the value and returns an updated copy, so a column description is never
//! observed in a partially-configured state.

use vstd::prelude::*;
use vstd::std_specs::convert::IntoSpec;

verus! {

/// The kind of a column, independent of any SQL dialect.
///
/// `Array` wraps exactly one other `BaseType`, recursively, so arrays of
/// arrays are representable. `Foreign` and `Custom` carry identifiers of
/// process-lifetime validity: they name external things, they do not own
/// data. No variant carries rendering logic; rendering belongs to the
/// dialect implementations of the generator contracts.
#[derive(Debug, PartialEq)]
pub enum BaseType {
    /// Unbounded text
    Text,
    /// Bounded-length string
    Varchar,
    /// Auto-incrementing primary key
    Primary,
    /// Simple integer
    Integer,
    /// Single-precision floating point column (the kind only; this crate
    /// never computes with such values)
    Float,
    /// Double-precision floating point column
    Double,
    /// True or false
    Boolean,
    /// Raw bytes
    Binary,
    /// Foreign key into the named table
    Foreign(&'static str),
    /// An escape hatch: a raw type name passed through verbatim
    Custom(&'static str),
    /// An array of the wrapped kind
    Array(Box<BaseType>),
}

impl Clone for BaseType {
    /// A clone is equal to the original, nested arrays included.
    fn clone(&self) -> (r: Self)
        ensures
            r == *self,
        decreases *self,
    {
        match self {
            BaseType::Text => BaseType::Text,
            BaseType::Varchar => BaseType::Varchar,
            BaseType::Primary => BaseType::Primary,
            BaseType::Integer => BaseType::Integer,
            BaseType::Float => BaseType::Float,
            BaseType::Double => BaseType::Double,
            BaseType::Boolean => BaseType::Boolean,
            BaseType::Binary => BaseType::Binary,
            BaseType::Foreign(t) => BaseType::Foreign(t),
            BaseType::Custom(t) => BaseType::Custom(t),
            BaseType::Array(b) => BaseType::Array(Box::new((**b).clone())),
        }
    }
}

/// The kinds on which a size or length hint is meaningful: the
/// variable-length ones. On an array the hint bounds the element kind (for
/// example a sized `Varchar` element), not the number of elements.
pub open spec fn size_compatible(b: BaseType) -> bool {
    match b {
        BaseType::Varchar => true,
        BaseType::Binary => true,
        BaseType::Array(_) => true,
        _ => false,
    }
}

/// The kinds on which auto-increment is meaningful: the integer-like ones.
pub open spec fn increments_compatible(b: BaseType) -> bool {
    match b {
        BaseType::Integer => true,
        BaseType::Primary => true,
        _ => false,
    }
}

/// A database column type and all the metadata attached to it.
///
/// The type parameter `T` is the type of the column's default value. The
/// `inner` field holds the underlying kind, set once at construction and
/// replaced only wholesale; callers outside the generator layer should not
/// depend on it and should go through [`Type::get_inner`], which is the
/// accessor meant for dialect implementations.
#[derive(Debug, PartialEq)]
pub struct Type<T> {
    pub nullable: bool,
    pub unique: bool,
    pub increments: bool,
    pub indexed: bool,
    pub default: Option<T>,
    pub size: Option<usize>,
    pub inner: BaseType,
}

impl<T> Type<T> {
    /// The underlying kind, as an abstract value.
    pub open spec fn spec_inner(self) -> BaseType {
        self.inner
    }

    /// A freshly constructed envelope: every metadata field at its default.
    pub open spec fn spec_new(inner: BaseType) -> Self {
        Type {
            nullable: false,
            unique: false,
            increments: false,
            indexed: false,
            default: None,
            size: None,
            inner,
        }
    }

    /// The value after a `nullable` builder call.
    pub open spec fn with_nullable(self, arg: bool) -> Self {
        Type { nullable: arg, ..self }
    }

    /// The value after a `unique` builder call.
    pub open spec fn with_unique(self, arg: bool) -> Self {
        Type { unique: arg, ..self }
    }

    /// The value after an `increments` builder call.
    pub open spec fn with_increments(self, arg: bool) -> Self {
        Type { increments: arg, ..self }
    }

    /// The value after an `indexed` builder call.
    pub open spec fn with_indexed(self, arg: bool) -> Self {
        Type { indexed: arg, ..self }
    }

    /// The value after a `default` builder call whose argument converted to `v`.
    pub open spec fn with_default(self, v: T) -> Self {
        Type { default: Some(v), ..self }
    }

    /// The value after a `size` builder call.
    pub open spec fn with_size(self, n: usize) -> Self {
        Type { size: Some(n), ..self }
    }

    /// Construct a new envelope around `inner` with all metadata at its
    /// default: not nullable, not unique, not auto-incrementing, not indexed,
    /// no default value, no size hint.
    pub fn new(inner: BaseType) -> (r: Self)
        ensures
            r == Type::<T>::spec_new(inner),
            r.spec_inner() == inner,
            !r.nullable,
            !r.unique,
            !r.increments,
            !r.indexed,
            r.default is None,
            r.size is None,
    {
        Type {
            nullable: false,
            unique: false,
            increments: false,
            indexed: false,
            default: None,
            size: None,
            inner,
        }
    }

    /// The accumulated metadata is internally consistent for this column
    /// kind: a size hint stands only on a variable-length kind, and
    /// auto-increment only on an integer-like kind. A default value is
    /// accepted on any kind at this layer: its type is fixed by `T` at the
    /// call boundary, not inspected here.
    pub open spec fn spec_valid(self) -> bool {
        &&& self.size is Some ==> size_compatible(self.inner)
        &&& self.increments ==> increments_compatible(self.inner)
    }

    /// Report whether the accumulated metadata is internally consistent for
    /// this column kind, as [`Type::spec_valid`] states. Meant to be checked
    /// before the description is handed to a renderer.
    pub fn validate(&self) -> (r: bool)
        ensures
            r == self.spec_valid(),
    {
        let size_ok = match (&self.size, &self.inner) {
            (Option::None, _) => true,
            (Option::Some(_), BaseType::Varchar) => true,
            (Option::Some(_), BaseType::Binary) => true,
            (Option::Some(_), BaseType::Array(_)) => true,
            (Option::Some(_), _) => false,
        };
        let increments_ok = match (self.increments, &self.inner) {
            (false, _) => true,
            (true, BaseType::Integer) => true,
            (true, BaseType::Primary) => true,
            (true, _) => false,
        };
        size_ok && increments_ok
    }

    /// The underlying kind. Intended for generator implementations, which
    /// render it; other callers should treat the kind as opaque.
    pub fn get_inner(&self) -> (r: BaseType)
        ensures
            r == self.spec_inner(),
    {
        self.inner.clone()
    }

    /// Set the nullability of this type.
    pub fn nullable(self, arg: bool) -> (r: Self)
        ensures
            r == self.with_nullable(arg),
            r.nullable == arg,
            r.unique == self.unique,
            r.increments == self.increments,
            r.indexed == self.indexed,
            r.default == self.default,
            r.size == self.size,
            r.spec_inner() == self.spec_inner(),
    {
        Type { nullable: arg, ..self }
    }

    /// Set the uniqueness of this type.
    pub fn unique(self, arg: bool) -> (r: Self)
        ensures
            r == self.with_unique(arg),
            r.unique == arg,
            r.nullable == self.nullable,
            r.increments == self.increments,
            r.indexed == self.indexed,
            r.default == self.default,
            r.size == self.size,
            r.spec_inner() == self.spec_inner(),
    {
        Type { unique: arg, ..self }
    }

    /// Mark this type as auto-incrementing. Only meaningful for integer-like
    /// kinds; [`Type::validate`] reports the mismatch, the builder does not
    /// reject it.
    pub fn increments(self, arg: bool) -> (r: Self)
        ensures
            r == self.with_increments(arg),
            r.increments == arg,
            r.nullable == self.nullable,
            r.unique == self.unique,
            r.indexed == self.indexed,
            r.default == self.default,
            r.size == self.size,
            r.spec_inner() == self.spec_inner(),
    {
        Type { increments: arg, ..self }
    }

    /// Mark that the backend should create an index for this column.
    pub fn indexed(self, arg: bool) -> (r: Self)
        ensures
            r == self.with_indexed(arg),
            r.indexed == arg,
            r.nullable == self.nullable,
            r.unique == self.unique,
            r.increments == self.increments,
            r.default == self.default,
            r.size == self.size,
            r.spec_inner() == self.spec_inner(),
    {
        Type { indexed: arg, ..self }
    }

    /// Set a size or length hint, replacing any earlier one. Only meaningful
    /// for variable-length kinds; [`Type::validate`] reports the mismatch.
    pub fn size(self, arg: usize) -> (r: Self)
        ensures
            r == self.with_size(arg),
            r.size == Some(arg),
            r.nullable == self.nullable,
            r.unique == self.unique,
            r.increments == self.increments,
            r.indexed == self.indexed,
            r.default == self.default,
            r.spec_inner() == self.spec_inner(),
    {
        Type { size: Some(arg), ..self }
    }

    /// Provide a default value for the column, replacing any earlier one.
    /// The argument is converted into `T` at this call boundary; when the
    /// conversion obeys its specification, the stored default is exactly the
    /// converted argument.
    pub fn default<V: Into<T>>(self, arg: V) -> (r: Self)
        ensures
            r.default is Some,
            V::obeys_into_spec() ==> r == self.with_default(V::into_spec(arg)),
            r.nullable == self.nullable,
            r.unique == self.unique,
            r.increments == self.increments,
            r.indexed == self.indexed,
            r.size == self.size,
            r.spec_inner() == self.spec_inner(),
    {
        Type { default: Some(arg.into()), ..self }
    }
}

/// One builder call on a [`Type`], as data: which field it touches and the
/// value it sets. `Default` carries the value after conversion into `T`.
pub enum Setter<T> {
    Nullable(bool),
    Unique(bool),
    Increments(bool),
    Indexed(bool),
    Default(T),
    Size(usize),
}

/// Two builder calls touch the same metadata field.
pub open spec fn touches_same_field<T>(a: Setter<T>, b: Setter<T>) -> bool {
    match (a, b) {
        (Setter::Nullable(_), Setter::Nullable(_)) => true,
        (Setter::Unique(_), Setter::Unique(_)) => true,
        (Setter::Increments(_), Setter::Increments(_)) => true,
        (Setter::Indexed(_), Setter::Indexed(_)) => true,
        (Setter::Default(_), Setter::Default(_)) => true,
        (Setter::Size(_), Setter::Size(_)) => true,
        _ => false,
    }
}

/// The value after one builder call.
pub open spec fn apply<T>(t: Type<T>, s: Setter<T>) -> Type<T> {
    match s {
        Setter::Nullable(b) => t.with_nullable(b),
        Setter::Unique(b) => t.with_unique(b),
        Setter::Increments(b) => t.with_increments(b),
        Setter::Indexed(b) => t.with_indexed(b),
        Setter::Default(v) => t.with_default(v),
        Setter::Size(n) => t.with_size(n),
    }
}

/// The value after a whole sequence of builder calls, first to last.
pub open spec fn apply_all<T>(t: Type<T>, calls: Seq<Setter<T>>) -> Type<T>
    decreases calls.len(),
{
    if calls.len() == 0 {
        t
    } else {
        apply(apply_all(t, calls.drop_last()), calls.last())
    }
}

/// The nullability set by the last call in `calls` that touched it, or the
/// starting value if none did.
pub open spec fn last_nullable<T>(t: Type<T>, calls: Seq<Setter<T>>) -> bool
    decreases calls.len(),
{
    if calls.len() == 0 {
        t.nullable
    } else {
        match calls.last() {
            Setter::Nullable(b) => b,
            _ => last_nullable(t, calls.drop_last()),
        }
    }
}

/// The uniqueness set by the last call that touched it.
pub open spec fn last_unique<T>(t: Type<T>, calls: Seq<Setter<T>>) -> bool
    decreases calls.len(),
{
    if calls.len() == 0 {
        t.unique
    } else {
        match calls.last() {
            Setter::Unique(b) => b,
            _ => last_unique(t, calls.drop_last()),
        }
    }
}

/// The auto-increment mark set by the last call that touched it.
pub open spec fn last_increments<T>(t: Type<T>, calls: Seq<Setter<T>>) -> bool
    decreases calls.len(),
{
    if calls.len() == 0 {
        t.increments
    } else {
        match calls.last() {
            Setter::Increments(b) => b,
            _ => last_increments(t, calls.drop_last()),
        }
    }
}

/// The index mark set by the last call that touched it.
pub open spec fn last_indexed<T>(t: Type<T>, calls: Seq<Setter<T>>) -> bool
    decreases calls.len(),
{
    if calls.len() == 0 {
        t.indexed
    } else {
        match calls.last() {
            Setter::Indexed(b) => b,
            _ => last_indexed(t, calls.drop_last()),
        }
    }
}

/// The default value set by the last call that touched it.
pub open spec fn last_default<T>(t: Type<T>, calls: Seq<Setter<T>>) -> Option<T>
    decreases calls.len(),
{
    if calls.len() == 0 {
        t.default
    } else {
        match calls.last() {
            Setter::Default(v) => Some(v),
            _ => last_default(t, calls.drop_last()),
        }
    }
}

/// The size hint set by the last call that touched it.
pub open spec fn last_size<T>(t: Type<T>, calls: Seq<Setter<T>>) -> Option<usize>
    decreases calls.len(),
{
    if calls.len() == 0 {
        t.size
    } else {
        match calls.last() {
            Setter::Size(n) => Some(n),
            _ => last_size(t, calls.drop_last()),
        }
    }
}

/// Last write wins, field by field: after any sequence of builder calls, in
/// any order and with any number of repeats, each metadata field holds the
/// value set by the last call that touched that field — or its starting
/// value, if none did — and the underlying kind is untouched.
pub proof fn lemma_last_write_wins<T>(t: Type<T>, calls: Seq<Setter<T>>)
    ensures
        apply_all(t, calls).nullable == last_nullable(t, calls),
        apply_all(t, calls).unique == last_unique(t, calls),
        apply_all(t, calls).increments == last_increments(t, calls),
        apply_all(t, calls).indexed == last_indexed(t, calls),
        apply_all(t, calls).default == last_default(t, calls),
        apply_all(t, calls).size == last_size(t, calls),
        apply_all(t, calls).inner == t.inner,
    decreases calls.len(),
{
    if calls.len() > 0 {
        lemma_last_write_wins(t, calls.drop_last());
    }
}

/// Builder calls on different fields commute: swapping two calls that touch
/// different fields yields the same value.
pub proof fn lemma_builder_calls_commute<T>(t: Type<T>, a: Setter<T>, b: Setter<T>)
    requires
        !touches_same_field(a, b),
    ensures
        apply(apply(t, a), b) == apply(apply(t, b), a),
{
}

/// On one field, only the last call counts: setting nullability twice leaves
/// exactly the second value, so toggling it on and back off on a fresh value
/// gives back a value equal to a freshly constructed one.
pub proof fn lemma_nullable_last_write_wins<T>(b: BaseType)
    ensures
        Type::<T>::spec_new(b).with_nullable(true).with_nullable(false) == Type::<T>::spec_new(b),
{
}

/// The hidden kind round-trips unchanged through construction and the
/// accessor, nested arrays included: an envelope built around
/// `Array(Array(b))` yields exactly `Array(Array(b))` back.
pub proof fn lemma_nested_array_round_trip<T>(b: BaseType)
    ensures
        Type::<T>::spec_new(
            BaseType::Array(Box::new(BaseType::Array(Box::new(b)))),
        ).spec_inner() == BaseType::Array(Box::new(BaseType::Array(Box::new(b)))),
{
}

} // verus!
