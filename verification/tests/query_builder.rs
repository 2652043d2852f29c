use product_service::domain::Decimal;
use product_service::query::{
    available_sizes_where, build_filters, build_order_by, count_sql, filter_options_where, page_sql,
    resolve_category_size_group, size_group_source, AvailableSizes, AvailableSizesQuery,
    FilterOptionsQuery, ProductListQuery, ProductSortField, SizeGroupSource, SortOrder, SqlArg,
};

fn empty_query() -> ProductListQuery {
    ProductListQuery {
        page: None,
        per_page: None,
        brand_id: None,
        category_id: None,
        product_type: None,
        status: None,
        gender: None,
        price_min: None,
        price_max: None,
        condition: None,
        size_value: None,
        size_value2: None,
        size_system: None,
        size_group: None,
        sort_by: None,
        sort_order: None,
        search: None,
    }
}

#[test]
fn search_filter_targets_name_and_sku_with_single_placeholder() {
    let mut q = empty_query();
    q.search = Some("ava-001".to_string());

    let filters = build_filters(&q);

    assert_eq!(
        filters.where_clause,
        "WHERE 1=1 AND (name ILIKE $1 OR sku ILIKE $1)"
    );
    assert_eq!(filters.param_count, 1);
}

#[test]
fn blank_search_is_ignored() {
    let mut q = empty_query();
    q.search = Some("   ".to_string());

    let filters = build_filters(&q);

    assert_eq!(filters.where_clause, "WHERE 1=1");
    assert_eq!(filters.param_count, 0);
}

#[test]
fn search_placeholder_index_is_correct_with_other_filters() {
    let mut q = empty_query();
    q.brand_id = Some(10);
    q.search = Some("new".to_string());
    q.price_min = Some(Decimal::new(1000, 2));

    let filters = build_filters(&q);

    assert_eq!(
        filters.where_clause,
        "WHERE 1=1 AND brand_id = $1 AND (name ILIKE $2 OR sku ILIKE $2) AND purchase_price >= $3"
    );
    assert_eq!(filters.param_count, 3);
}

#[test]
fn search_pattern_is_trimmed_and_wrapped() {
    let mut q = empty_query();
    q.search = Some("  ava  ".to_string());
    let filters = build_filters(&q);
    match &filters.args[0] {
        SqlArg::Text(t) => assert_eq!(t, "%ava%"),
        _ => panic!("expected text"),
    }
}

#[test]
fn every_filter_gets_the_next_placeholder() {
    let mut q = empty_query();
    q.brand_id = Some(1);
    q.category_id = Some(2);
    q.product_type = Some("clothing".to_string());
    q.status = Some("ready".to_string());
    q.gender = Some("women".to_string());
    q.condition = Some("good".to_string());
    q.size_value = Some("M".to_string());
    q.size_value2 = Some("32".to_string());
    q.size_system = Some("eu".to_string());
    q.size_group = Some("letter".to_string());
    q.search = Some("x".to_string());
    q.price_min = Some(Decimal::new(1, 0));
    q.price_max = Some(Decimal::new(9, 0));
    let f = build_filters(&q);
    assert_eq!(
        f.where_clause,
        "WHERE 1=1 AND brand_id = $1 AND category_id = $2 AND \"type\" = $3 AND status = $4 \
         AND gender = $5 AND condition = $6 AND size_value = $7 AND size_value2 = $8 \
         AND size_system = $9 AND size_group = $10 AND (name ILIKE $11 OR sku ILIKE $11) \
         AND purchase_price >= $12 AND purchase_price <= $13"
    );
    assert_eq!(f.param_count, 13);
    assert_eq!(f.args.len(), 13);
}

#[test]
fn order_by_defaults_to_newest_first() {
    let q = empty_query();
    assert_eq!(build_order_by(&q), "ORDER BY created_at DESC");
    let mut q = empty_query();
    q.sort_by = Some(ProductSortField::Price);
    q.sort_order = Some(SortOrder::Asc);
    assert_eq!(build_order_by(&q), "ORDER BY purchase_price ASC");
    q.sort_by = Some(ProductSortField::Name);
    q.sort_order = None;
    assert_eq!(build_order_by(&q), "ORDER BY name DESC");
    q.sort_by = Some(ProductSortField::UpdatedAt);
    assert_eq!(build_order_by(&q), "ORDER BY updated_at DESC");
}

#[test]
fn page_statement_numbers_limit_after_filters() {
    let mut q = empty_query();
    q.brand_id = Some(3);
    let f = build_filters(&q);
    let order = build_order_by(&q);
    assert_eq!(
        page_sql(&f, &order),
        "SELECT * FROM v_product_full WHERE 1=1 AND brand_id = $1 ORDER BY created_at DESC LIMIT $2 OFFSET $3"
    );
    assert_eq!(
        count_sql(&f.where_clause),
        "SELECT COUNT(*) as count FROM v_product_full WHERE 1=1 AND brand_id = $1"
    );
}

#[test]
fn filter_options_where_skips_missing_filters() {
    let q = FilterOptionsQuery {
        brand_id: None,
        category_id: Some(4),
        product_type: None,
        gender: None,
        status: None,
        condition: None,
        color: Some("red".to_string()),
        price_min: None,
        price_max: Some(Decimal::new(500, 0)),
    };
    let f = filter_options_where(&q);
    assert_eq!(
        f.where_clause,
        "p.is_deleted = false AND p.category_id = $1 AND pd.color = $2 AND p.purchase_price <= $3"
    );
    assert_eq!(f.param_count, 3);
}

fn sizes_query() -> AvailableSizesQuery {
    AvailableSizesQuery {
        category_id: None,
        size_group: None,
        brand_id: None,
        gender: None,
        status: None,
        condition: None,
        color: None,
        size_system: None,
        size_systems: None,
        price_min: None,
        price_max: None,
    }
}

#[test]
fn available_sizes_binds_size_group_first() {
    let mut q = sizes_query();
    q.category_id = Some(12);
    q.brand_id = Some(7);
    let systems = vec!["eu".to_string(), "us".to_string()];
    let f = available_sizes_where(&q, "shoe", &systems);
    assert_eq!(
        f.where_clause,
        "p.is_deleted = false AND c.size_group = $1 AND p.category_id = $2 AND p.brand_id = $3 \
         AND pd.size_system = ANY($4)"
    );
    assert_eq!(f.param_count, 4);
    match &f.args[3] {
        SqlArg::TextList(v) => assert_eq!(v, &systems),
        _ => panic!("expected a list"),
    }
}

#[test]
fn size_group_comes_from_the_category_first() {
    let mut q = sizes_query();
    q.size_group = Some("ring".to_string());
    assert!(matches!(size_group_source(&q), SizeGroupSource::Given(ref g) if g == "ring"));
    q.category_id = Some(3);
    assert!(matches!(size_group_source(&q), SizeGroupSource::Category(3)));
    let none = sizes_query();
    assert!(matches!(size_group_source(&none), SizeGroupSource::Unknown));
    assert_eq!(resolve_category_size_group(None), "one_size");
    assert_eq!(resolve_category_size_group(Some("hat".to_string())), "hat");
    let unknown = AvailableSizes::unknown();
    assert_eq!(unknown.size_group, "unknown");
    assert!(unknown.values.is_empty() && unknown.widths.is_empty());
}
