use product_service::tags::{insert_tag_writes, replace_tag_writes, TagTable, TagWrite};

#[test]
fn insert_links_only_non_empty_lists() {
    let plan = insert_tag_writes(&vec![1, 2], &vec![], &vec![7]);
    assert_eq!(plan, vec![TagWrite::Link(TagTable::Style), TagWrite::Link(TagTable::Season)]);
}

#[test]
fn insert_with_no_tags_writes_nothing() {
    let plan = insert_tag_writes(&vec![], &vec![], &vec![]);
    assert!(plan.is_empty());
}

#[test]
fn replace_clears_then_links_given_lists() {
    let style = vec![3];
    let vibe: Vec<i32> = vec![];
    let plan = replace_tag_writes(Some(&style), Some(&vibe), None);
    assert_eq!(
        plan,
        vec![
            TagWrite::Clear(TagTable::Style),
            TagWrite::Link(TagTable::Style),
            TagWrite::Clear(TagTable::Vibe),
        ]
    );
}

#[test]
fn replace_leaves_absent_lists_untouched() {
    let plan = replace_tag_writes(None, None, None);
    assert!(plan.is_empty());
}

#[test]
fn tag_tables_have_their_statements() {
    assert_eq!(TagTable::Vibe.clear_sql(), "DELETE FROM product_vibe_tag WHERE product_id = $1");
    assert_eq!(
        TagTable::Season.link_sql(),
        "INSERT INTO product_season (product_id, season_id) SELECT $1, UNNEST($2::int[])"
    );
}
