//! Turning markdown and page data into complete HTML documents.

use handlebars::{to_json, Handlebars, RenderError, TemplateError};
use std::collections::BTreeMap;
use vstd::prelude::*;

verus! {

/// The error of handlebars' rendering; rendering `LAYOUT` never raises it.
#[verifier::external_type_specification]
#[verifier::external_body]
pub struct ExRenderError(handlebars::RenderError);

/// The registry of handlebars templates, opaque to proofs.
#[verifier::external_type_specification]
#[verifier::external_body]
pub struct ExHandlebars<'reg>(handlebars::Handlebars<'reg>);

/// The error of registering a template; `LAYOUT` never raises it.
#[verifier::external_type_specification]
#[verifier::external_body]
pub struct ExTemplateError(handlebars::TemplateError);

/// Name under which `LAYOUT` is registered.
pub const LAYOUT_NAME: &'static str = "layout";

/// The page layout every HTML view is rendered through.
pub const LAYOUT: &'static str = "<!DOCTYPE html>
<html>
<head>
<meta charset=\"utf-8\">
<title>{{title}}</title>
<link rel=\"stylesheet\" href=\"/styles.css\">
</head>
<body>
<header><h1><a href=\"/\">{{title}}</a></h1></header>
<main>
{{#if main}}{{{main}}}{{/if}}
{{#if links}}<ul>
{{#each links}}<li><a href=\"{{href}}\">{{text}}</a></li>
{{/each}}</ul>{{/if}}
</main>
</body>
</html>
";

/// Site-wide values, fixed at startup and shared by every request.
pub struct WikiConfig {
    pub title: String,
    pub article_dir: String,
    pub not_found_msg: String,
}

/// A link in a listing: where it points and what it shows.
pub struct PageLink {
    pub href: String,
    pub text: String,
}

impl View for PageLink {
    type V = (Seq<char>, Seq<char>);

    open spec fn view(&self) -> (Seq<char>, Seq<char>) {
        (self.href@, self.text@)
    }
}

/// What the layout is filled with: the site title, an optional HTML
/// fragment for the body, and links.
pub struct Page {
    pub title: String,
    pub main: Option<String>,
    pub links: Vec<PageLink>,
}

/// Why a request was refused.
#[derive(Debug, PartialEq, Eq, Structural, Clone, Copy)]
pub enum WikiError {
    /// Editing articles is not built.
    NotImplemented,
}

pub open spec fn links_view(links: Seq<PageLink>) -> Seq<(Seq<char>, Seq<char>)> {
    links.map_values(|l: PageLink| l@)
}

pub open spec fn string_opt_view(o: Option<String>) -> Option<Seq<char>> {
    match o {
        Some(s) => Some(s@),
        None => None,
    }
}

pub open spec fn str_opt_view(o: Option<&str>) -> Option<Seq<char>> {
    match o {
        Some(s) => Some(s@),
        None => None,
    }
}

/// The HTML fragment that pulldown-cmark makes of a markdown text.
pub uninterp spec fn markdown_html(md: Seq<char>) -> Seq<char>;

/// What handlebars makes of the template `template` filled with a page's title, body
/// fragment and links.
pub uninterp spec fn handlebars_output(
    template: Seq<char>,
    title: Seq<char>,
    main: Option<Seq<char>>,
    links: Seq<(Seq<char>, Seq<char>)>,
) -> Seq<char>;

/// The document that the layout makes of this title, body and links.
pub open spec fn page_html(
    title: Seq<char>,
    main: Option<Seq<char>>,
    links: Seq<(Seq<char>, Seq<char>)>,
) -> Seq<char> {
    handlebars_output(LAYOUT@, title, main, links)
}

/// Relies on pulldown_cmark::Parser::new and pulldown_cmark::html::push_html:
/// every text parses, and the HTML written for it depends on the text alone.
#[verifier::external_body]
fn markdown_to_html(md: &str) -> (r: String)
    ensures
        r@ == markdown_html(md@),
{
    let mut out = String::new();
    pulldown_cmark::html::push_html(&mut out, pulldown_cmark::Parser::new(md));
    out
}

/// Relies on handlebars::Handlebars::new and register_template_string: a
/// fresh registry (not strict, HTML escaping, built-in helpers) with `LAYOUT`
/// compiled under `LAYOUT_NAME`. `LAYOUT` parses, so this does not fail.
#[verifier::external_body]
fn register_layout() -> (r: Result<Handlebars<'static>, TemplateError>)
    ensures
        r is Ok,
{
    let mut registry = Handlebars::new();
    registry.register_template_string(LAYOUT_NAME, LAYOUT).map(|_| registry)
}

/// The compiled page layout, built once and shared by every request.
pub struct Layout {
    registry: Handlebars<'static>,
}

/// Compiles `LAYOUT` into a registry of its own.
pub fn init_handlebars() -> (r: Layout) {
    match register_layout() {
        Ok(registry) => Layout { registry },
        Err(_) => unreached(),
    }
}

/// Relies on handlebars::Handlebars::render of `LAYOUT_NAME` in the registry
/// that `register_layout` built, the only one a `Layout` can hold: its output
/// depends on the template and the data alone. The data holds `title`, `main`
/// (null when absent) and `links` as `href`/`text` objects. The registry is
/// not strict, so missing values render empty; `LAYOUT` uses only the
/// built-in `if` and `each` helpers over strings, a null and an array of
/// string maps, so rendering it does not fail.
#[verifier::external_body]
fn render_layout(layout: &Layout, page: &Page) -> (r: Result<String, RenderError>)
    ensures
        r is Ok,
        r matches Ok(s) ==> s@ == handlebars_output(
            LAYOUT@,
            page.title@,
            string_opt_view(page.main),
            links_view(page.links@),
        ),
{
    let links: Vec<BTreeMap<&str, &str>> = page.links.iter().map(
        |l| BTreeMap::from([("href", l.href.as_str()), ("text", l.text.as_str())]),
    ).collect();
    let mut data = BTreeMap::new();
    data.insert("title", to_json(&page.title));
    data.insert("main", to_json(&page.main));
    data.insert("links", to_json(&links));
    layout.registry.render(LAYOUT_NAME, &data)
}

/// Fills the layout with the site title, `body` as the main fragment and
/// `links` (none when absent).
pub fn render_html(
    config: &WikiConfig,
    handlebars: &Layout,
    body: Option<&str>,
    links: Option<Vec<PageLink>>,
) -> (r: String)
    ensures
        r@ == page_html(
            config.title@,
            str_opt_view(body),
            match links {
                Some(v) => links_view(v@),
                None => Seq::empty(),
            },
        ),
{
    let main = match body {
        Some(b) => Some(String::from_str(b)),
        None => None,
    };
    let links = match links {
        Some(v) => v,
        None => {
            let empty: Vec<PageLink> = Vec::new();
            assert(links_view(empty@) =~= Seq::empty());
            empty
        },
    };
    let page = Page { title: config.title.clone(), main, links };
    match render_layout(handlebars, &page) {
        Ok(s) => s,
        Err(_) => unreached(),
    }
}

/// Renders `md` to an HTML fragment and fills the layout with it, with no links.
pub fn render_html_from_markdown(config: &WikiConfig, handlebars: &Layout, md: &str) -> (r:
    String)
    ensures
        r@ == page_html(config.title@, Some(markdown_html(md@)), Seq::empty()),
{
    let html_output = markdown_to_html(md);
    render_html(config, handlebars, Some(html_output.as_str()), None)
}

/// An absent link list renders as an empty one.
pub proof fn lemma_no_links_is_empty_links(title: Seq<char>, main: Option<Seq<char>>)
    ensures
        page_html(title, main, Seq::empty()) == page_html(
            title,
            main,
            links_view(Seq::<PageLink>::empty()),
        ),
{
    assert(links_view(Seq::<PageLink>::empty()) =~= Seq::empty());
}

} // verus!
