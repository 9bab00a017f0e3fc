//! What each route answers, given what the store returned.

use crate::article_provider::LocalArticleProvider;
use crate::render::{
    page_html, markdown_html, render_html, render_html_from_markdown, Layout, PageLink, WikiConfig,
    WikiError,
};
use crate::response::{html, ContentType, Markdown, Reply, NOT_FOUND, OK};
use vstd::prelude::*;

verus! {

/// Body of the listing when there is nothing to list.
pub const NO_ARTICLES: &'static str = "No articles";

/// Markdown shown in place of an article that cannot be read.
pub const NOT_FOUND_TEXT: &'static str = "Not found";

/// Route prefix of an article, relative to the listing.
pub const ARTICLE_ROUTE: &'static str = "wiki/";

/// The identifiers a listing shows: none when the store failed.
pub open spec fn listing_ids(listing: Result<Vec<String>, ()>) -> Seq<Seq<char>> {
    match listing {
        Ok(v) => v@.map_values(|s: String| s@),
        Err(_) => Seq::empty(),
    }
}

/// The link to the article `id`.
pub open spec fn link_of(id: Seq<char>) -> (Seq<char>, Seq<char>) {
    (ARTICLE_ROUTE@ + id, id)
}

pub open spec fn list_main(ids: Seq<Seq<char>>) -> Option<Seq<char>> {
    if ids.len() == 0 {
        Some(NO_ARTICLES@)
    } else {
        None
    }
}

pub open spec fn list_links(ids: Seq<Seq<char>>) -> Seq<(Seq<char>, Seq<char>)> {
    ids.map_values(|id: Seq<char>| link_of(id))
}

/// The markdown that the rendered view of an article shows.
pub open spec fn article_markdown(article: Result<String, ()>) -> Seq<char> {
    match article {
        Ok(s) => s@,
        Err(_) => NOT_FOUND_TEXT@,
    }
}

pub fn init_article_provider(config: &WikiConfig) -> (r: LocalArticleProvider)
    ensures
        r.dir@ == config.article_dir@,
{
    LocalArticleProvider::new(config.article_dir.clone())
}

/// The listing page. A failed listing shows as an empty one; an empty one
/// shows "No articles"; otherwise one link per identifier, in order.
pub fn list_articles(config: &WikiConfig, handlebars: &Layout, listing: Result<Vec<String>, ()>) -> (r: Reply)
    ensures
        r.status == OK,
        r.content_type == ContentType::Html,
        r.body@ == page_html(
            config.title@,
            list_main(listing_ids(listing)),
            list_links(listing_ids(listing)),
        ),
{
    let articles = match listing {
        Ok(v) => v,
        Err(_) => Vec::new(),
    };
    let ghost ids = articles@.map_values(|s: String| s@);
    assert(ids =~= listing_ids(listing));
    let html_body = if articles.len() == 0 {
        Some(NO_ARTICLES)
    } else {
        None
    };
    let mut links: Vec<PageLink> = Vec::new();
    let mut i: usize = 0;
    while i < articles.len()
        invariant
            i <= articles@.len(),
            ids == articles@.map_values(|s: String| s@),
            links@.map_values(|l: PageLink| l@) =~= list_links(ids.subrange(0, i as int)),
        decreases articles@.len() - i,
    {
        let mut href = String::from_str(ARTICLE_ROUTE);
        href.append(articles[i].as_str());
        let link = PageLink { href, text: articles[i].clone() };
        assert(link@ == link_of(ids[i as int]));
        let ghost before = links@;
        links.push(link);
        assert(links@ =~= before.push(link));
        assert(links@.map_values(|l: PageLink| l@) =~= before.map_values(|l: PageLink| l@).push(
            link@,
        ));
        assert(ids.subrange(0, i + 1) =~= ids.subrange(0, i as int).push(ids[i as int]));
        assert(list_links(ids.subrange(0, i + 1)) =~= list_links(ids.subrange(0, i as int)).push(
            link_of(ids[i as int]),
        ));
        i += 1;
    }
    assert(ids.subrange(0, articles@.len() as int) =~= ids);
    html(render_html(config, handlebars, html_body, Some(links)))
}

/// The rendered view of an article: its markdown, or "Not found" where it
/// cannot be read, through the markdown pipeline. Status OK either way.
pub fn show_article(config: &WikiConfig, handlebars: &Layout, article: Result<String, ()>) -> (r: Reply)
    ensures
        r.status == OK,
        r.content_type == ContentType::Html,
        r.body@ == page_html(
            config.title@,
            Some(markdown_html(article_markdown(article))),
            Seq::empty(),
        ),
{
    let md = match article {
        Ok(s) => s,
        Err(_) => String::from_str(NOT_FOUND_TEXT),
    };
    html(render_html_from_markdown(config, handlebars, md.as_str()))
}

/// The raw view of an article: its text verbatim with status OK, or an empty
/// body with status Not Found; markdown either way.
pub fn show_raw_article(article: Result<String, ()>) -> (r: Reply)
    ensures
        r.content_type == ContentType::Markdown,
        match article {
            Ok(s) => r.status == OK && r.body@ == s@,
            Err(_) => r.status == NOT_FOUND && r.body@.len() == 0,
        },
{
    match article {
        Ok(s) => Markdown(s).into_reply(),
        Err(_) => {
            let mut reply = Markdown(String::new()).into_reply();
            reply.status = NOT_FOUND;
            reply
        },
    }
}

/// Editing is not built: every call is refused.
pub fn edit_article(_article_id: &str) -> (r: Result<Reply, WikiError>)
    ensures
        r == Err::<Reply, WikiError>(WikiError::NotImplemented),
{
    Err(WikiError::NotImplemented)
}

/// The page for a request that no route matched: the configured message
/// through the plain layout, with status Not Found.
pub fn handle_not_found(config: &WikiConfig, handlebars: &Layout) -> (r: Reply)
    ensures
        r.status == NOT_FOUND,
        r.content_type == ContentType::Html,
        r.body@ == page_html(config.title@, Some(config.not_found_msg@), Seq::empty()),
{
    let mut reply = html(render_html(config, handlebars, Some(config.not_found_msg.as_str()), None));
    reply.status = NOT_FOUND;
    reply
}

} // verus!
