use expression::expression::extract_property_path;
use expression::expression::ArgumentExpression;
use expression::expression::Expression;
use expression::expression::ExpressionCore;
use expression::expression::PropertyAccessExpression;
use expression::expression::PropertyPathExtractor;

#[derive(Debug)]
struct User {
    id: u64,
    name: String,
    is_deleted: bool,
}

#[derive(Debug)]
struct NestedUser {
    id: u64,
    info: UserInfo,
    is_deleted: bool,
}

#[derive(Debug)]
struct UserInfo {
    name: String,
    email: String,
}

fn test_expr<'a, T: core::fmt::Debug + Eq, E: ExpressionCore<Input = &'a User, Output = T>>(
    prop_name: &str,
    prop_expr: E,
    getter: fn(&'a User) -> T,
    users_set: &'a [User],
) {
    for user in users_set {
        let expr_result = prop_expr.dynamic_call(user);
        let native_result = getter(user);
        assert_eq!(
            expr_result, native_result,
            "Testing {prop_name:?} property of {user:?}",
        );
    }
}

#[test]
fn property_access_works() {
    let users = [
        User { id: 1, name: "The first user".into(), is_deleted: false },
        User { id: 2, name: "The second user".into(), is_deleted: true },
        User { id: 3, name: "The third user".into(), is_deleted: true },
        User { id: 4, name: "The fourth user".into(), is_deleted: false },
    ];

    test_expr(
        "id",
        PropertyAccessExpression::new(ArgumentExpression::new(), "id", |u: &User| u.id),
        |u| u.id,
        &users,
    );
    test_expr(
        "name",
        PropertyAccessExpression::new(ArgumentExpression::new(), "name", |u: &User| {
            u.name.as_str()
        }),
        |u| u.name.as_str(),
        &users,
    );
    test_expr(
        "is_deleted",
        PropertyAccessExpression::new(ArgumentExpression::new(), "is_deleted", |u: &User| {
            u.is_deleted
        }),
        |u| u.is_deleted,
        &users,
    );
}

fn nested_users() -> [NestedUser; 4] {
    [
        NestedUser {
            id: 1,
            info: UserInfo { name: "The first user".into(), email: "first@mail.com".into() },
            is_deleted: false,
        },
        NestedUser {
            id: 2,
            info: UserInfo { name: "The second user".into(), email: "second@mail.com".into() },
            is_deleted: true,
        },
        NestedUser {
            id: 3,
            info: UserInfo { name: "The third user".into(), email: "third@mail.com".into() },
            is_deleted: true,
        },
        NestedUser {
            id: 4,
            info: UserInfo { name: "The fourth user".into(), email: "fourth@mail.com".into() },
            is_deleted: false,
        },
    ]
}

#[test]
fn nested_property_access_works() {
    let user_email_expr = PropertyAccessExpression::new(
        PropertyAccessExpression::new(
            ArgumentExpression::<&NestedUser>::new(),
            "info",
            |u: &NestedUser| &u.info,
        ),
        "email",
        |i: &UserInfo| &i.email,
    );

    let users = nested_users();

    for user in &users {
        let expr_result = user_email_expr.dynamic_call(user);
        let native_result = &user.info.email;
        assert_eq!(
            expr_result, native_result,
            "Testing \"info.email\" property of {user:?}",
        );
    }
}

#[test]
fn prop_path_visitor_test() {
    let user_email_expr = PropertyAccessExpression::new(
        PropertyAccessExpression::new(
            ArgumentExpression::<&NestedUser>::new(),
            "info",
            |u: &NestedUser| &u.info,
        ),
        "email",
        |i: &UserInfo| &i.email,
    );

    assert_eq!(user_email_expr.visit(PropertyPathExtractor), ["info", "email"]);
    assert_eq!(extract_property_path(&user_email_expr), ["info", "email"]);
}

#[test]
fn argument_expression_is_identity() {
    let node = ArgumentExpression::<u64>::new();
    for x in [0u64, 1, 7, u64::MAX] {
        assert_eq!(node.dynamic_call(x), x);
    }
    let text_node = ArgumentExpression::<&str>::new();
    assert_eq!(text_node.dynamic_call("unchanged"), "unchanged");
}

#[test]
fn chain_applies_accessors_innermost_first() {
    fn double(x: u64) -> u64 {
        x * 2
    }
    fn add_three(x: u64) -> u64 {
        x + 3
    }
    let chain = PropertyAccessExpression::new(
        PropertyAccessExpression::new(ArgumentExpression::<u64>::new(), "double", double),
        "add_three",
        add_three,
    );
    // (5 * 2) + 3, never (5 + 3) * 2.
    assert_eq!(chain.dynamic_call(5), 13);
    assert_eq!(chain.dynamic_call(0), 3);
}

#[test]
fn visit_on_argument_yields_empty_path() {
    let node = ArgumentExpression::<u64>::new();
    let path = node.visit(PropertyPathExtractor);
    assert_eq!(path, Vec::<&'static str>::new());
}

#[test]
fn clone_evaluates_like_the_original() {
    let chain = PropertyAccessExpression::new(
        PropertyAccessExpression::new(
            ArgumentExpression::<&NestedUser>::new(),
            "info",
            |u: &NestedUser| &u.info,
        ),
        "name",
        |i: &UserInfo| i.name.as_str(),
    );
    let copy = chain.clone();
    let users = nested_users();
    for user in &users {
        assert_eq!(copy.dynamic_call(user), chain.dynamic_call(user));
    }
    assert_eq!(copy.visit(PropertyPathExtractor), chain.visit(PropertyPathExtractor));
}

#[test]
fn prepare_binds_name_and_accessor() {
    let user = User { id: 9, name: "The ninth user".into(), is_deleted: true };
    let builder = PropertyAccessExpression::prepare("is_deleted", |u: &User| u.is_deleted);
    let node = builder(ArgumentExpression::new());
    assert_eq!(node.property_name, "is_deleted");
    assert!(node.dynamic_call(&user));
    let path = node.visit(PropertyPathExtractor);
    assert_eq!(path, ["is_deleted"]);
}

#[test]
fn end_to_end_nested_records() {
    let chain = PropertyAccessExpression::new(
        PropertyAccessExpression::new(
            ArgumentExpression::<&NestedUser>::new(),
            "info",
            |u: &NestedUser| &u.info,
        ),
        "email",
        |i: &UserInfo| i.email.as_str(),
    );
    let users = nested_users();
    for user in &users {
        assert_eq!(chain.dynamic_call(user), user.info.email.as_str());
    }
    assert_eq!(chain.visit(PropertyPathExtractor), ["info", "email"]);
}
