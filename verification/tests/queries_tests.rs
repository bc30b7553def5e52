use authcore::queries::{
    ExternalImageQuery, ItemStatus, ItemType, LangFileQuery, MarketQuery, NotificationsQuery,
    PaginatedQuery, PartialReactionsProps, PasswordQuery, ProfileQuery, SearchHomeQuery,
    SearchQuery,
};

#[test]
fn query_shapes_carry_their_fields() {
    let q = PaginatedQuery { page: 3 };
    assert_eq!(q.page, 3);
    let q = NotificationsQuery { page: 0, profile: "p".to_string() };
    assert_eq!(q.profile, "p");
    let q = SearchQuery { page: 1, q: "hello".to_string(), tag: "t".to_string() };
    assert_eq!(q.q, "hello");
    let q = SearchHomeQuery { driver: 2 };
    assert_eq!(q.driver, 2);
    let q = ProfileQuery { page: 0, tag: None, q: Some("x".to_string()), password: String::new() };
    assert_eq!(q.q.as_deref(), Some("x"));
    let q = PasswordQuery { password: "s".to_string() };
    assert_eq!(q.password, "s");
    let q = PartialReactionsProps { id: "r1".to_string() };
    assert_eq!(q.id, "r1");
    let q = ExternalImageQuery { img: "https://a/b.png".to_string() };
    assert_eq!(q.img, "https://a/b.png");
    let q = LangFileQuery { id: "en-US".to_string() };
    assert_eq!(q.id, "en-US");
}

#[test]
fn market_query_defaults_to_pending_status() {
    let q = MarketQuery {
        page: 0,
        q: String::new(),
        status: ItemStatus::default(),
        creator: String::new(),
        customer: String::new(),
        item_type: Some(ItemType::UserTheme),
    };
    assert_eq!(q.status, ItemStatus::Pending);
    assert_eq!(q.item_type, Some(ItemType::UserTheme));
}
