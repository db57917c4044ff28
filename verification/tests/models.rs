use tabnews::models::content::Content;
use tabnews::models::content::ContentParams;

#[test]
fn default_content_is_blank_and_published() {
    let content = Content::default();
    assert_eq!(content.status, Some("published".to_owned()));
    assert!(content.id.is_none());
    assert!(content.parent_id.is_none());
    assert!(content.owner_id.is_none());
    assert!(content.slug.is_none());
    assert!(content.body.is_none());
    assert!(content.title.is_none());
    assert!(content.source_url.is_none());
    assert!(content.created_at.is_none());
    assert!(content.updated_at.is_none());
    assert!(content.published_at.is_none());
    assert!(content.deleted_at.is_none());
    assert!(content.tabcoins.is_none());
    assert!(content.owner_username.is_none());
    assert!(content.children_deep_count.is_none());
    assert!(content.children.is_none());
}

#[test]
fn setters_chain_and_touch_one_field_each() {
    let mut post = Content::default();
    post.set_title("This is a Cool Title")
        .set_body("Here comes text/markdown")
        .set_source_url("https://example.com")
        .set_slug("example-of-a-cool-post");
    assert_eq!(post.title, Some("This is a Cool Title".to_owned()));
    assert_eq!(post.body, Some("Here comes text/markdown".to_owned()));
    assert_eq!(post.source_url, Some("https://example.com".to_owned()));
    assert_eq!(post.slug, Some("example-of-a-cool-post".to_owned()));
    assert!(post.parent_id.is_none());
    assert_eq!(post.status, Some("published".to_owned()));
    assert!(post.id.is_none());
}

#[test]
fn set_parent_id_marks_a_comment() {
    let mut comment = Content::default();
    comment.set_parent_id("0000-4002-8922-0000");
    assert_eq!(comment.parent_id, Some("0000-4002-8922-0000".to_owned()));
    assert!(comment.title.is_none());
    assert!(comment.body.is_none());
}

#[test]
fn a_setter_replaces_what_was_set() {
    let mut post = Content::default();
    post.set_body("first");
    post.set_body("second");
    assert_eq!(post.body, Some("second".to_owned()));
}

#[test]
fn default_params_set_nothing() {
    let params = ContentParams::default();
    assert!(params.page.is_none());
    assert!(params.per_page.is_none());
    assert!(params.strategy.is_none());
}
