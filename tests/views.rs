use wiki::article_provider::{article_id, ids_from_file_names, is_valid_id, LocalArticleProvider};
use wiki::handlers::{
    edit_article, handle_not_found, init_article_provider, list_articles, show_article,
    show_raw_article,
};
use wiki::render::{
    init_handlebars, render_html, render_html_from_markdown, PageLink, WikiConfig, WikiError,
};
use wiki::response::{ContentType, Css, Markdown, NOT_FOUND, OK};

fn config() -> WikiConfig {
    WikiConfig {
        title: "Test Wiki".to_string(),
        article_dir: "articles".to_string(),
        not_found_msg: "404 NotFound".to_string(),
    }
}

fn names(v: &[&str]) -> Vec<String> {
    v.iter().map(|s| s.to_string()).collect()
}

#[test]
fn empty_listing_shows_no_articles() {
    let reply = list_articles(&config(), &init_handlebars(), Ok(Vec::new()));
    assert_eq!(reply.status, OK);
    assert_eq!(reply.content_type, ContentType::Html);
    assert!(reply.body.contains("No articles"));
    assert!(reply.body.contains("Test Wiki"));
    assert!(!reply.body.contains("<li>"));
}

#[test]
fn failed_listing_shows_no_articles() {
    let reply = list_articles(&config(), &init_handlebars(), Err(()));
    assert_eq!(reply.status, OK);
    assert!(reply.body.contains("No articles"));
}

#[test]
fn listing_links_each_article() {
    let reply = list_articles(&config(), &init_handlebars(), Ok(names(&["a", "b"])));
    assert_eq!(reply.status, OK);
    assert_eq!(reply.content_type, ContentType::Html);
    assert!(reply.body.contains("href=\"wiki/a\""));
    assert!(reply.body.contains("href=\"wiki/b\""));
    assert_eq!(reply.body.matches("<li>").count(), 2);
    assert!(!reply.body.contains("No articles"));
}

#[test]
fn raw_view_returns_text_verbatim() {
    let text = "# Hi\n\nSome *text* & more.\n";
    let reply = show_raw_article(Ok(text.to_string()));
    assert_eq!(reply.status, 200);
    assert_eq!(reply.content_type.mime(), "text/markdown");
    assert_eq!(reply.body, text);
}

#[test]
fn raw_view_of_empty_article_is_empty_and_ok() {
    let reply = show_raw_article(Ok(String::new()));
    assert_eq!(reply.status, 200);
    assert_eq!(reply.body, "");
}

#[test]
fn raw_view_of_missing_article_is_not_found() {
    let reply = show_raw_article(Err(()));
    assert_eq!(reply.status, 404);
    assert_eq!(reply.content_type.mime(), "text/markdown");
    assert_eq!(reply.body, "");
}

#[test]
fn rendered_view_renders_markdown() {
    let reply = show_article(&config(), &init_handlebars(), Ok("# Hi".to_string()));
    assert_eq!(reply.status, 200);
    assert_eq!(reply.content_type.mime(), "text/html");
    assert!(reply.body.contains("<h1>Hi</h1>"));
    assert!(reply.body.contains("<title>Test Wiki</title>"));
}

#[test]
fn rendered_view_of_missing_article_is_ok() {
    let reply = show_article(&config(), &init_handlebars(), Err(()));
    assert_eq!(reply.status, 200);
    assert_eq!(reply.content_type, ContentType::Html);
    assert!(reply.body.contains("<p>Not found</p>"));
}

#[test]
fn missing_article_views_differ_in_status() {
    let raw = show_raw_article(Err(()));
    let rendered = show_article(&config(), &init_handlebars(), Err(()));
    assert_eq!(raw.status, NOT_FOUND);
    assert_eq!(rendered.status, OK);
}

#[test]
fn unmatched_route_is_not_found_with_message() {
    let reply = handle_not_found(&config(), &init_handlebars());
    assert_eq!(reply.status, 404);
    assert_eq!(reply.content_type, ContentType::Html);
    assert!(reply.body.contains("404 NotFound"));
    assert!(!reply.body.contains("<p>404 NotFound</p>"));
}

#[test]
fn editing_is_refused() {
    assert_eq!(edit_article("a").unwrap_err(), WikiError::NotImplemented);
}

#[test]
fn markdown_is_converted_before_layout() {
    let page = render_html_from_markdown(&config(), &init_handlebars(), "*x*");
    assert!(page.contains("<p><em>x</em></p>"));
    assert!(!page.contains("*x*"));
}

#[test]
fn layout_escapes_title_and_keeps_fragment() {
    let mut c = config();
    c.title = "A & B".to_string();
    let links = vec![PageLink { href: "wiki/x".to_string(), text: "x<y".to_string() }];
    let page = render_html(&c, &init_handlebars(), Some("<b>bold</b>"), Some(links));
    assert!(page.contains("A &amp; B"));
    assert!(page.contains("<b>bold</b>"));
    assert!(page.contains("x&lt;y"));
    assert!(page.starts_with("<!DOCTYPE html>"));
}

#[test]
fn listing_keeps_markdown_files_only() {
    let ids = ids_from_file_names(&names(&["a.md", "notes.txt", "b.md", "md", "c.md.bak"]));
    assert_eq!(ids, names(&["a", "b"]));
}

#[test]
fn listing_of_no_files_is_empty() {
    assert!(ids_from_file_names(&Vec::new()).is_empty());
}

#[test]
fn file_name_maps_to_identifier() {
    assert_eq!(article_id("hello.md"), Some("hello".to_string()));
    assert_eq!(article_id(".md"), Some(String::new()));
    assert_eq!(article_id("hello.txt"), None);
    assert_eq!(article_id("md"), None);
    assert_eq!(article_id("a\\b.md"), None);
}

#[test]
fn identifiers_cannot_leave_the_root() {
    assert!(is_valid_id("hello"));
    assert!(is_valid_id("é-ü"));
    assert!(!is_valid_id("../secret"));
    assert!(!is_valid_id("a\\b"));
}

#[test]
fn article_path_joins_root_and_file_name() {
    let store = LocalArticleProvider::new("articles".to_string());
    assert_eq!(store.article_path("hello"), Some("articles/hello.md".to_string()));
    assert_eq!(store.article_path("../etc/passwd"), None);
}

#[test]
fn listed_identifiers_resolve_to_their_files() {
    let store = LocalArticleProvider::new("root".to_string());
    let files = names(&["one.md", "two.md", "skip.txt"]);
    for id in ids_from_file_names(&files) {
        let path = store.article_path(&id).unwrap();
        let file = path.strip_prefix("root/").unwrap();
        assert!(files.iter().any(|f| f == file));
    }
}

#[test]
fn provider_uses_configured_directory() {
    assert_eq!(init_article_provider(&config()).dir, "articles");
}

#[test]
fn response_wrappers_set_content_type() {
    let css = Css("body {}".to_string()).into_reply();
    assert_eq!(css.status, 200);
    assert_eq!(css.content_type.mime(), "text/css");
    assert_eq!(css.body, "body {}");
    let md = Markdown("x".to_string()).into_reply();
    assert_eq!(md.content_type.mime(), "text/markdown");
    assert_eq!(ContentType::Html.mime(), "text/html");
}

#[test]
fn absent_links_render_as_empty_links() {
    let layout = init_handlebars();
    let a = render_html(&config(), &layout, Some("<p>x</p>"), None);
    let b = render_html(&config(), &layout, Some("<p>x</p>"), Some(Vec::new()));
    assert_eq!(a, b);
    assert_eq!(a, render_html(&config(), &layout, Some("<p>x</p>"), None));
}

#[test]
fn malformed_markdown_still_renders() {
    let page = render_html_from_markdown(&config(), &init_handlebars(), "**[unclosed](\n```");
    assert!(page.contains("<title>Test Wiki</title>"));
}
