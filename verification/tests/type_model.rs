use barrel::types::BaseType;
use barrel::types::Type;

#[test]
fn nested_array_round_trip() {
    let nested = BaseType::Array(Box::new(BaseType::Array(Box::new(BaseType::Boolean))));
    let t = Type::<String>::new(nested.clone());
    assert_eq!(t.get_inner(), nested);
}

#[test]
fn foreign_round_trip() {
    let t = Type::<String>::new(BaseType::Foreign("users"));
    assert_eq!(t.get_inner(), BaseType::Foreign("users"));
}

#[test]
fn clone_preserves_nested_arrays() {
    let nested = BaseType::Array(Box::new(BaseType::Array(Box::new(BaseType::Varchar))));
    assert_eq!(nested.clone(), nested);
}

#[test]
fn new_has_all_defaults() {
    let t = Type::<i64>::new(BaseType::Integer);
    assert!(!t.nullable);
    assert!(!t.unique);
    assert!(!t.increments);
    assert!(!t.indexed);
    assert_eq!(t.default, None);
    assert_eq!(t.size, None);
}

#[test]
fn builders_set_each_field() {
    let t = Type::<i64>::new(BaseType::Integer)
        .nullable(true)
        .unique(true)
        .increments(true)
        .indexed(true)
        .default(7i64)
        .size(32);
    assert!(t.nullable);
    assert!(t.unique);
    assert!(t.increments);
    assert!(t.indexed);
    assert_eq!(t.default, Some(7));
    assert_eq!(t.size, Some(32));
    assert_eq!(t.get_inner(), BaseType::Integer);
}

#[test]
fn builder_order_is_irrelevant() {
    let a = Type::<i64>::new(BaseType::Integer).nullable(true).size(16).unique(true);
    let b = Type::<i64>::new(BaseType::Integer).unique(true).nullable(true).size(16);
    assert_eq!(a, b);
}

#[test]
fn repeated_builder_last_write_wins() {
    let t = Type::<i64>::new(BaseType::Varchar).size(10).size(20).size(30);
    assert_eq!(t.size, Some(30));
    let u = Type::<i64>::new(BaseType::Varchar).default(1i64).default(2i64);
    assert_eq!(u.default, Some(2));
}

#[test]
fn nullable_toggle_equals_fresh() {
    let toggled = Type::<String>::new(BaseType::Text).nullable(true).nullable(false);
    assert_eq!(toggled, Type::<String>::new(BaseType::Text));
}

#[test]
fn default_converts_at_call_boundary() {
    let t = Type::<String>::new(BaseType::Varchar).default("unknown");
    assert_eq!(t.default, Some(String::from("unknown")));
}

#[test]
fn validate_accepts_fresh_value() {
    assert!(Type::<String>::new(BaseType::Text).validate());
}

#[test]
fn validate_accepts_size_on_variable_length_kinds() {
    assert!(Type::<String>::new(BaseType::Varchar).size(255).validate());
    assert!(Type::<String>::new(BaseType::Binary).size(16).validate());
    let array = BaseType::Array(Box::new(BaseType::Varchar));
    assert!(Type::<String>::new(array).size(8).validate());
}

#[test]
fn validate_rejects_size_on_fixed_length_kinds() {
    assert!(!Type::<i64>::new(BaseType::Integer).size(4).validate());
    assert!(!Type::<bool>::new(BaseType::Boolean).size(1).validate());
}

#[test]
fn validate_accepts_increments_on_integer_like_kinds() {
    assert!(Type::<i64>::new(BaseType::Integer).increments(true).validate());
    assert!(Type::<i64>::new(BaseType::Primary).increments(true).validate());
}

#[test]
fn validate_rejects_increments_on_other_kinds() {
    assert!(!Type::<String>::new(BaseType::Text).increments(true).validate());
    assert!(!Type::<String>::new(BaseType::Varchar).increments(true).validate());
}
