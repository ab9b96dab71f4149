use vstd::prelude::*;
use select::document::Document;
use select::predicate::{Attr, Name, Or};

verus! {

/// What a page says about itself, for showing a link to it.
#[derive(Debug, Clone, Default)]
pub struct UrlPreview {
    pub title: Option<String>,
    pub description: Option<String>,
    pub image: Option<String>,
    pub favicon: Option<String>,
    pub url: String,
}

/// The attributes of one `<meta>` element that a preview reads.
#[derive(Debug, Clone)]
pub struct MetaTag {
    pub name: Option<String>,
    pub property: Option<String>,
    pub content: Option<String>,
}

/// Why no preview was made.
#[derive(Debug, Clone, Copy, PartialEq, Eq, Structural)]
pub enum PreviewError {
    /// The text is no URL.
    InvalidUrl,
    /// The URL is neither `http` nor `https`.
    UnsupportedScheme,
    /// The server answered with a status other than success.
    HttpStatus,
    /// The page is not HTML.
    NotHtml,
}

pub open spec fn opt_view(s: Option<String>) -> Option<Seq<char>> {
    match s {
        Some(t) => Some(t@),
        None => None,
    }
}

pub open spec fn or_else(a: Option<Seq<char>>, b: Option<Seq<char>>) -> Option<Seq<char>> {
    match a {
        Some(_) => a,
        None => b,
    }
}

/// A `<meta>` element's `name`, `property` and `content`, as text.
pub type MetaView = (Option<Seq<char>>, Option<Seq<char>>, Option<Seq<char>>);

pub open spec fn meta_view(t: MetaTag) -> MetaView {
    (opt_view(t.name), opt_view(t.property), opt_view(t.content))
}

/// The scheme `url::Url::parse` finds in a text, if it parses.
pub uninterp spec fn parsed_scheme(s: Seq<char>) -> Option<Seq<char>>;

/// The text of `url::Url::join` of `link` onto `base`, if both parse.
pub uninterp spec fn joined_url(base: Seq<char>, link: Seq<char>) -> Option<Seq<char>>;

/// The text of the first `<title>` element of an HTML page, if any.
pub uninterp spec fn html_title(html: Seq<char>) -> Option<Seq<char>>;

/// The `<meta>` elements of an HTML page, in document order.
pub uninterp spec fn html_metas(html: Seq<char>) -> Seq<MetaView>;

/// The `href` (if any) of each element of an HTML page whose `rel` is
/// `icon` or `shortcut icon`, in document order.
pub uninterp spec fn html_icon_hrefs(html: Seq<char>) -> Seq<Option<Seq<char>>>;

/// What `str::to_lowercase` makes of a text.
pub uninterp spec fn lower_of(s: Seq<char>) -> Seq<char>;

/// Relies on `url::Url::parse` and `Url::scheme`: the scheme of a URL, which
/// depends on the text alone.
#[verifier::external_body]
fn url_scheme(s: &str) -> (r: Option<String>)
    ensures
        opt_view(r) == parsed_scheme(s@),
{
    url::Url::parse(s).ok().map(|u| u.scheme().to_string())
}

/// Relies on `url::Url::parse` of the base and `Url::join`: the joined URL as
/// text, which depends on the two texts alone.
#[verifier::external_body]
fn url_join(base: &str, link: &str) -> (r: Option<String>)
    ensures
        opt_view(r) == joined_url(base@, link@),
{
    url::Url::parse(base).ok().and_then(|b| b.join(link).ok()).map(|u| u.to_string())
}

/// Relies on `select::document::Document::from` and `Node::text` of the
/// first node that `find(Name("title"))` yields.
#[verifier::external_body]
fn title_of(html: &str) -> (r: Option<String>)
    ensures
        opt_view(r) == html_title(html@),
{
    Document::from(html).find(Name("title")).next().map(|n| n.text())
}

/// Relies on `select::document::Document::from`, `find(Name("meta"))` and
/// `Node::attr`: the three attributes of each `<meta>` element, in order.
#[verifier::external_body]
fn metas_of(html: &str) -> (r: Vec<MetaTag>)
    ensures
        r@.len() == html_metas(html@).len(),
        forall|i: int| 0 <= i < r@.len() ==> meta_view(#[trigger] r@[i]) == html_metas(html@)[i],
{
    Document::from(html).find(Name("meta")).map(|n| MetaTag {
        name: n.attr("name").map(|s| s.to_string()),
        property: n.attr("property").map(|s| s.to_string()),
        content: n.attr("content").map(|s| s.to_string()),
    }).collect()
}

/// Relies on `select::document::Document::from`, `find` with
/// `Or(Attr("rel", "icon"), Attr("rel", "shortcut icon"))` and `Node::attr`:
/// the `href` of each icon link, in order.
#[verifier::external_body]
fn icon_hrefs_of(html: &str) -> (r: Vec<Option<String>>)
    ensures
        r@.len() == html_icon_hrefs(html@).len(),
        forall|i: int| 0 <= i < r@.len() ==> opt_view(#[trigger] r@[i]) == html_icon_hrefs(html@)[i],
{
    Document::from(html).find(Or(Attr("rel", "icon"), Attr("rel", "shortcut icon"))).map(
        |n| n.attr("href").map(|s| s.to_string()),
    ).collect()
}

/// Relies on `str::to_lowercase`, whose result depends on the text alone.
#[verifier::external_body]
fn lowercase(s: &str) -> (r: String)
    ensures
        r@ == lower_of(s@),
{
    s.to_lowercase()
}

/// Whether a URL may be previewed: it must parse, with scheme `http` or
/// `https`.
pub fn check_url(input: &str) -> (r: Result<(), PreviewError>)
    ensures
        match parsed_scheme(input@) {
            None => r == Err::<(), PreviewError>(PreviewError::InvalidUrl),
            Some(s) => if s == "http"@ || s == "https"@ {
                r is Ok
            } else {
                r == Err::<(), PreviewError>(PreviewError::UnsupportedScheme)
            },
        },
{
    match url_scheme(input) {
        None => Err(PreviewError::InvalidUrl),
        Some(s) => {
            if s == "http".to_string() || s == "https".to_string() {
                Ok(())
            } else {
                Err(PreviewError::UnsupportedScheme)
            }
        },
    }
}

/// Whether a fetched page may be previewed: the status must be a success
/// and the content type (empty when absent) must start with `text/html`.
pub fn check_response(success: bool, content_type: &Option<String>) -> (r: Result<(), PreviewError>)
    ensures
        !success ==> r == Err::<(), PreviewError>(PreviewError::HttpStatus),
        success ==> {
            let ct = match content_type {
                Some(c) => c@,
                None => Seq::empty(),
            };
            if ct.len() >= 9 && ct.subrange(0, 9) == "text/html"@ {
                r is Ok
            } else {
                r == Err::<(), PreviewError>(PreviewError::NotHtml)
            }
        },
{
    if !success {
        return Err(PreviewError::HttpStatus);
    }
    match content_type {
        None => Err(PreviewError::NotHtml),
        Some(c) => {
            let n = c.as_str().unicode_len();
            if n >= 9 && c.as_str().substring_char(0, 9).to_string() == "text/html".to_string() {
                Ok(())
            } else {
                Err(PreviewError::NotHtml)
            }
        },
    }
}

/// The key a `<meta>` element is filed under: its `name`, else its
/// `property`.
pub open spec fn meta_key(t: MetaView) -> Option<Seq<char>> {
    or_else(t.0, t.1)
}

/// The (lowercased key, content) pairs that the `<meta>` elements give, in
/// order; an element without a key or without content gives none.
pub open spec fn meta_entries(tags: Seq<MetaView>) -> Seq<(Seq<char>, Seq<char>)>
    decreases tags.len(),
{
    if tags.len() == 0 {
        Seq::empty()
    } else {
        let prev = meta_entries(tags.drop_last());
        let t = tags.last();
        match (meta_key(t), t.2) {
            (Some(k), Some(c)) => prev.push((lower_of(k), c)),
            _ => prev,
        }
    }
}

/// The content filed under `key`: where several elements share it, the
/// last one wins.
pub open spec fn meta_lookup(es: Seq<(Seq<char>, Seq<char>)>, key: Seq<char>) -> Option<Seq<char>>
    decreases es.len(),
{
    if es.len() == 0 {
        None
    } else if es.last().0 == key {
        Some(es.last().1)
    } else {
        meta_lookup(es.drop_last(), key)
    }
}

/// The first icon link that has an `href`.
pub open spec fn first_href(hrefs: Seq<Option<Seq<char>>>) -> Option<Seq<char>>
    decreases hrefs.len(),
{
    if hrefs.len() == 0 {
        None
    } else if hrefs[0] is Some {
        hrefs[0]
    } else {
        first_href(hrefs.drop_first())
    }
}

/// `link` resolved against `base`, or `link` itself where joining fails.
pub open spec fn resolved(base: Seq<char>, link: Seq<char>) -> Seq<char> {
    match joined_url(base, link) {
        Some(j) => j,
        None => link,
    }
}

pub open spec fn entries_view(v: Seq<(String, String)>) -> Seq<(Seq<char>, Seq<char>)> {
    v.map_values(|e: (String, String)| (e.0@, e.1@))
}

/// The (lowercased key, content) pairs of `tags`.
pub fn meta_map(tags: &Vec<MetaTag>) -> (r: Vec<(String, String)>)
    ensures
        entries_view(r@) == meta_entries(tags@.map_values(|t: MetaTag| meta_view(t))),
{
    let ghost views = tags@.map_values(|t: MetaTag| meta_view(t));
    let mut out: Vec<(String, String)> = Vec::new();
    let mut i: usize = 0;
    while i < tags.len()
        invariant
            0 <= i <= tags@.len(),
            views == tags@.map_values(|t: MetaTag| meta_view(t)),
            entries_view(out@) == meta_entries(views.subrange(0, i as int)),
        decreases tags@.len() - i,
    {
        let t = &tags[i];
        proof {
            assert(views.subrange(0, i + 1).drop_last() =~= views.subrange(0, i as int));
            assert(views.subrange(0, i + 1).last() == meta_view(*t));
        }
        let key = match &t.name {
            Some(n) => Some(n),
            None => match &t.property {
                Some(p) => Some(p),
                None => None,
            },
        };
        match (key, &t.content) {
            (Some(k), Some(c)) => {
                let entry = (lowercase(k.as_str()), c.clone());
                out.push(entry);
                assert(entries_view(out@) =~= meta_entries(views.subrange(0, i + 1)));
            },
            _ => {},
        }
        i += 1;
    }
    assert(views.subrange(0, tags@.len() as int) =~= views);
    out
}

/// The content filed under `key` in `entries`.
pub fn lookup_meta(entries: &Vec<(String, String)>, key: &str) -> (r: Option<String>)
    ensures
        opt_view(r) == meta_lookup(entries_view(entries@), key@),
{
    let ghost es = entries_view(entries@);
    let mut i: usize = entries.len();
    assert(es.subrange(0, i as int) =~= es);
    while i > 0
        invariant
            i <= entries@.len(),
            es == entries_view(entries@),
            meta_lookup(es, key@) == meta_lookup(es.subrange(0, i as int), key@),
        decreases i,
    {
        let ghost pre = es.subrange(0, i as int);
        assert(pre.last() == (entries@[i - 1].0@, entries@[i - 1].1@));
        assert(pre.drop_last() =~= es.subrange(0, i - 1));
        if entries[i - 1].0.as_str().to_string() == key.to_string() {
            return Some(entries[i - 1].1.clone());
        }
        i -= 1;
    }
    None
}

/// The first icon link that has an `href`.
fn first_icon(hrefs: &Vec<Option<String>>) -> (r: Option<String>)
    ensures
        opt_view(r) == first_href(hrefs@.map_values(|h: Option<String>| opt_view(h))),
{
    let ghost hs = hrefs@.map_values(|h: Option<String>| opt_view(h));
    let mut i: usize = 0;
    assert(hs.subrange(0, hs.len() as int) =~= hs);
    while i < hrefs.len()
        invariant
            0 <= i <= hrefs@.len(),
            hs == hrefs@.map_values(|h: Option<String>| opt_view(h)),
            first_href(hs) == first_href(hs.subrange(i as int, hs.len() as int)),
        decreases hrefs@.len() - i,
    {
        let ghost rest = hs.subrange(i as int, hs.len() as int);
        assert(rest[0] == opt_view(hrefs@[i as int]));
        assert(rest.drop_first() =~= hs.subrange(i + 1, hs.len() as int));
        match &hrefs[i] {
            Some(h) => {
                return Some(h.clone());
            },
            None => {},
        }
        i += 1;
    }
    None
}

/// The favicon: the first icon link's `href`, resolved against the page's
/// URL.
pub fn resolve_url(base: &str, link: &str) -> (r: String)
    ensures
        r@ == resolved(base@, link@),
{
    match url_join(base, link) {
        Some(j) => j,
        None => link.to_string(),
    }
}

/// The preview a page gives, from its parts: the title is the `<title>`
/// text, else `og:title`; the description is `description`, else
/// `og:description`; the image is `og:image`, else `twitter:image`; the
/// favicon is the first icon link, resolved against `url`.
pub open spec fn preview_spec(
    title_tag: Option<Seq<char>>,
    entries: Seq<(Seq<char>, Seq<char>)>,
    hrefs: Seq<Option<Seq<char>>>,
    url: Seq<char>,
    p: UrlPreview,
) -> bool {
    &&& opt_view(p.title) == or_else(title_tag, meta_lookup(entries, "og:title"@))
    &&& opt_view(p.description) == or_else(
        meta_lookup(entries, "description"@),
        meta_lookup(entries, "og:description"@),
    )
    &&& opt_view(p.image) == or_else(
        meta_lookup(entries, "og:image"@),
        meta_lookup(entries, "twitter:image"@),
    )
    &&& opt_view(p.favicon) == match first_href(hrefs) {
        Some(h) => Some(resolved(url, h)),
        None => None,
    }
    &&& p.url@ == url
}

fn pick(a: Option<String>, b: Option<String>) -> (r: Option<String>)
    ensures
        opt_view(r) == or_else(opt_view(a), opt_view(b)),
{
    match a {
        Some(_) => a,
        None => b,
    }
}

/// Assembles a preview from the parts of a page fetched from `url`.
pub fn build_preview(
    title_tag: Option<String>,
    entries: &Vec<(String, String)>,
    hrefs: &Vec<Option<String>>,
    url: String,
) -> (r: UrlPreview)
    ensures
        preview_spec(
            opt_view(title_tag),
            entries_view(entries@),
            hrefs@.map_values(|h: Option<String>| opt_view(h)),
            url@,
            r,
        ),
{
    let title = pick(title_tag, lookup_meta(entries, "og:title"));
    let description = pick(lookup_meta(entries, "description"), lookup_meta(entries, "og:description"));
    let image = pick(lookup_meta(entries, "og:image"), lookup_meta(entries, "twitter:image"));
    let favicon = match first_icon(hrefs) {
        Some(h) => Some(resolve_url(url.as_str(), h.as_str())),
        None => None,
    };
    UrlPreview { title, description, image, favicon, url }
}

/// The preview of an HTML page that was fetched from `url`.
pub fn preview_from_page(html: &str, url: String) -> (r: UrlPreview)
    ensures
        preview_spec(html_title(html@), meta_entries(html_metas(html@)), html_icon_hrefs(html@), url@, r),
{
    let title = title_of(html);
    let tags = metas_of(html);
    let entries = meta_map(&tags);
    let hrefs = icon_hrefs_of(html);
    assert(tags@.map_values(|t: MetaTag| meta_view(t)) =~= html_metas(html@));
    assert(hrefs@.map_values(|h: Option<String>| opt_view(h)) =~= html_icon_hrefs(html@));
    build_preview(title, &entries, &hrefs, url)
}

} // verus!
