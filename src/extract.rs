//! Extraction rules: from a fetched page to the work it gives rise to.
//!
//! HTML parsing and selection are done by `scraper`, the next-chapter
//! pattern is matched by `regex`; what they return is named below and the
//! rules built on it are verified for every value of it.
use vstd::prelude::*;
use vstd::string::StringExecFns;
use crate::item::{ExtractionError, ItemView, WorkItem, items_view, opt_str_view, opt_strs_view};
use crate::text::{last_segment, last_segment_of};

verus! {

/// For each element of the HTML document `html` that `selector` selects, in
/// document order, the value of its attribute `attr`, if it has one;
/// `None` when `selector` is not a valid selector.
pub uninterp spec fn selected_attrs(html: Seq<char>, selector: Seq<char>, attr: Seq<char>) -> Option<
    Seq<Option<Seq<char>>>,
>;

/// The first text node of the first element of `html` that `selector`
/// selects; `None` when there is none or `selector` is not valid.
pub uninterp spec fn first_selected_text(html: Seq<char>, selector: Seq<char>) -> Option<Seq<char>>;

/// For each successive non-overlapping match of the regular expression
/// `pattern` in `text`, the text of its capture group `group`, if that group
/// took part; `None` when `pattern` is not a valid expression.
pub uninterp spec fn captured_groups(pattern: Seq<char>, text: Seq<char>, group: usize) -> Option<
    Seq<Option<Seq<char>>>,
>;

/// The view of an optional list of optional strings.
pub open spec fn opt_list_view(r: Option<Vec<Option<String>>>) -> Option<Seq<Option<Seq<char>>>> {
    match r {
        Some(v) => Some(opt_strs_view(v@)),
        None => None,
    }
}

/// Relies on scraper's `Selector::parse`, `Html::parse_document`,
/// `Html::select` and `Element::attr`: the attribute of every selected element.
#[verifier::external_body]
fn select_attrs(html: &str, selector: &str, attr: &str) -> (r: Option<Vec<Option<String>>>)
    ensures
        opt_list_view(r) == selected_attrs(html@, selector@, attr@),
{
    let sel = match scraper::Selector::parse(selector) {
        Ok(sel) => sel,
        Err(_) => return None,
    };
    let doc = scraper::Html::parse_document(html);
    Some(doc.select(&sel).map(|e| e.value().attr(attr).map(|a| a.to_string())).collect())
}

/// Relies on scraper's `Selector::parse`, `Html::parse_document`,
/// `Html::select` and `ElementRef::text`: the first text of the first selected element.
#[verifier::external_body]
fn select_first_text(html: &str, selector: &str) -> (r: Option<String>)
    ensures
        opt_str_view(r) == first_selected_text(html@, selector@),
{
    let sel = match scraper::Selector::parse(selector) {
        Ok(sel) => sel,
        Err(_) => return None,
    };
    let doc = scraper::Html::parse_document(html);
    let first = doc.select(&sel).next();
    first.and_then(|e| e.text().next()).map(|t| t.to_string())
}

/// Relies on regex's `Regex::new` and `Regex::captures_iter`: one capture
/// group of every match, in order.
#[verifier::external_body]
fn capture_all(pattern: &str, text: &str, group: usize) -> (r: Option<Vec<Option<String>>>)
    ensures
        opt_list_view(r) == captured_groups(pattern@, text@, group),
{
    let re = match regex::Regex::new(pattern) {
        Ok(re) => re,
        Err(_) => return None,
    };
    Some(re.captures_iter(text).map(|c| c.get(group).map(|m| m.as_str().to_string())).collect())
}

/// The name under which the catalog page is stored, and which a next-chapter
/// link carries when the chain has come back to the catalog.
pub open spec fn catalog_name() -> Seq<char> {
    "catalog"@
}

/// Selector of the chapter-list anchors of a catalog page.
pub open spec fn chapter_link_selector() -> Seq<char> {
    "a.chapter-li-a"@
}

/// Selector of the images in a chapter page's image containers.
pub open spec fn image_selector() -> Seq<char> {
    "div.divimage img"@
}

/// Selector of a chapter page's chapter title.
pub open spec fn title_selector() -> Seq<char> {
    "h3"@
}

/// Selector of a chapter page's sub-chapter title.
pub open spec fn subtitle_selector() -> Seq<char> {
    "h1"@
}

/// Pattern of the next-chapter pointer in a chapter page's raw text; its
/// first group is the link.
pub open spec fn next_link_pattern() -> Seq<char> {
    "url_next:'([^']+)'"@
}

/// The work derived from a catalog page whose chapter-list anchors carry the
/// link targets `hrefs`: one chapter fetch for the final segment of the first.
pub open spec fn catalog_derivation(novel_id: Seq<char>, hrefs: Seq<Option<Seq<char>>>) -> Result<
    Seq<ItemView>,
    ExtractionError,
> {
    if hrefs.len() == 0 {
        Err(ExtractionError::NoChapterLink)
    } else {
        match hrefs[0] {
            None => Err(ExtractionError::NoLinkTarget),
            Some(h) => Ok(
                seq![ItemView::ChapterFetch { novel_id, chapter_filename: last_segment_of(h) }],
            ),
        }
    }
}

/// The view of a derivation result.
pub open spec fn derived_view(r: Result<Vec<WorkItem>, ExtractionError>) -> Result<
    Seq<ItemView>,
    ExtractionError,
> {
    match r {
        Ok(v) => Ok(items_view(v@)),
        Err(e) => Err(e),
    }
}

/// The image fetches for a chapter whose image elements carry the sources
/// `srcs`: one per non-empty source, in order.
pub open spec fn image_items(novel_id: Seq<char>, chapter: Seq<char>, srcs: Seq<Option<Seq<char>>>) -> Seq<
    ItemView,
>
    decreases srcs.len(),
{
    if srcs.len() == 0 {
        Seq::empty()
    } else {
        let rest = image_items(novel_id, chapter, srcs.drop_last());
        match srcs.last() {
            Some(u) => if u.len() > 0 {
                rest.push(
                    ItemView::ImageFetch { novel_id, chapter_filename: chapter, image_url: u },
                )
            } else {
                rest
            },
            None => rest,
        }
    }
}

/// The work one next-chapter link gives: the sentinel when it leads back to
/// the catalog, else a fetch of the chapter it names.
pub open spec fn next_item(novel_id: Seq<char>, link: Seq<char>) -> ItemView {
    if last_segment_of(link) == catalog_name() {
        ItemView::Completion
    } else {
        ItemView::ChapterFetch { novel_id, chapter_filename: last_segment_of(link) }
    }
}

/// The work the next-chapter links `links` give, in order.
pub open spec fn next_items(novel_id: Seq<char>, links: Seq<Option<Seq<char>>>) -> Seq<ItemView>
    decreases links.len(),
{
    if links.len() == 0 {
        Seq::empty()
    } else {
        let rest = next_items(novel_id, links.drop_last());
        match links.last() {
            Some(l) => rest.push(next_item(novel_id, l)),
            None => rest,
        }
    }
}

/// The work derived from a catalog page, given the link targets of its
/// chapter-list anchors in document order.
pub fn catalog_items(novel_id: &str, hrefs: &Vec<Option<String>>) -> (r: Result<
    Vec<WorkItem>,
    ExtractionError,
>)
    ensures
        derived_view(r) == catalog_derivation(novel_id@, opt_strs_view(hrefs@)),
{
    if hrefs.len() == 0 {
        return Err(ExtractionError::NoChapterLink);
    }
    match &hrefs[0] {
        None => Err(ExtractionError::NoLinkTarget),
        Some(h) => {
            let filename = last_segment(h.as_str());
            let mut v: Vec<WorkItem> = Vec::new();
            v.push(
                WorkItem::ChapterFetch {
                    novel_id: String::from_str(novel_id),
                    chapter_filename: filename,
                },
            );
            assert(items_view(v@) =~= seq![
                ItemView::ChapterFetch { novel_id: novel_id@, chapter_filename: last_segment_of(h@) },
            ]);
            Ok(v)
        },
    }
}

/// Whether `name` is the catalog's name.
pub fn is_catalog_name(name: &String) -> (r: bool)
    ensures
        r == (name@ == catalog_name()),
{
    let catalog = String::from_str("catalog");
    name.eq(&catalog)
}

/// The image fetches for a chapter, given the sources of its image elements
/// in document order: one per non-empty source.
pub fn image_fetches(novel_id: &str, chapter: &str, srcs: &Vec<Option<String>>) -> (r: Vec<WorkItem>)
    ensures
        items_view(r@) == image_items(novel_id@, chapter@, opt_strs_view(srcs@)),
{
    let mut out: Vec<WorkItem> = Vec::new();
    let mut i: usize = 0;
    while i < srcs.len()
        invariant
            i <= srcs@.len(),
            items_view(out@) == image_items(
                novel_id@,
                chapter@,
                opt_strs_view(srcs@).subrange(0, i as int),
            ),
        decreases srcs@.len() - i,
    {
        let ghost pre = opt_strs_view(srcs@).subrange(0, i as int);
        let ghost next = opt_strs_view(srcs@).subrange(0, i + 1);
        assert(next.drop_last() =~= pre);
        match &srcs[i] {
            Some(u) => {
                if !u.as_str().is_empty() {
                    out.push(
                        WorkItem::ImageFetch {
                            novel_id: String::from_str(novel_id),
                            chapter_filename: String::from_str(chapter),
                            image_url: u.clone(),
                        },
                    );
                }
            },
            None => {},
        }
        assert(items_view(out@) =~= image_items(novel_id@, chapter@, next));
        i = i + 1;
    }
    assert(opt_strs_view(srcs@).subrange(0, srcs@.len() as int) =~= opt_strs_view(srcs@));
    out
}

/// The work given by next-chapter links, in order: the sentinel for a link
/// back to the catalog, a chapter fetch for any other.
pub fn next_fetches(novel_id: &str, links: &Vec<Option<String>>) -> (r: Vec<WorkItem>)
    ensures
        items_view(r@) == next_items(novel_id@, opt_strs_view(links@)),
{
    let mut out: Vec<WorkItem> = Vec::new();
    let mut i: usize = 0;
    while i < links.len()
        invariant
            i <= links@.len(),
            items_view(out@) == next_items(novel_id@, opt_strs_view(links@).subrange(0, i as int)),
        decreases links@.len() - i,
    {
        let ghost pre = opt_strs_view(links@).subrange(0, i as int);
        let ghost next = opt_strs_view(links@).subrange(0, i + 1);
        assert(next.drop_last() =~= pre);
        match &links[i] {
            Some(l) => {
                let filename = last_segment(l.as_str());
                if is_catalog_name(&filename) {
                    out.push(WorkItem::Completion);
                } else {
                    out.push(
                        WorkItem::ChapterFetch {
                            novel_id: String::from_str(novel_id),
                            chapter_filename: filename,
                        },
                    );
                }
            },
            None => {},
        }
        assert(items_view(out@) =~= next_items(novel_id@, next));
        i = i + 1;
    }
    assert(opt_strs_view(links@).subrange(0, links@.len() as int) =~= opt_strs_view(links@));
    out
}

/// The outcome of processing a catalog page `html` of novel `novel_id`.
pub open spec fn catalog_outcome(novel_id: Seq<char>, html: Seq<char>) -> Result<
    Seq<ItemView>,
    ExtractionError,
> {
    match selected_attrs(html, chapter_link_selector(), "href"@) {
        None => Err(ExtractionError::InvalidRule),
        Some(hrefs) => catalog_derivation(novel_id, hrefs),
    }
}

/// Processes a fetched catalog page: the work it gives rise to, which is a
/// fetch of the first chapter named by its first chapter-list anchor.
pub fn process_catalog(novel_id: &str, html: &str) -> (r: Result<Vec<WorkItem>, ExtractionError>)
    ensures
        derived_view(r) == catalog_outcome(novel_id@, html@),
{
    match select_attrs(html, "a.chapter-li-a", "href") {
        None => Err(ExtractionError::InvalidRule),
        Some(hrefs) => catalog_items(novel_id, &hrefs),
    }
}

/// What a chapter page yields: its titles and the work derived from it.
#[derive(Debug)]
pub struct ChapterPage {
    pub title: String,
    pub subtitle: String,
    pub items: Vec<WorkItem>,
}

/// A chapter page seen through views: titles and derived work.
pub struct ChapterPageView {
    pub title: Seq<char>,
    pub subtitle: Seq<char>,
    pub items: Seq<ItemView>,
}

impl View for ChapterPage {
    type V = ChapterPageView;

    open spec fn view(&self) -> ChapterPageView {
        ChapterPageView { title: self.title@, subtitle: self.subtitle@, items: items_view(self.items@) }
    }
}

/// The view of the result of processing a chapter page.
pub open spec fn page_view(r: Result<ChapterPage, ExtractionError>) -> Result<
    ChapterPageView,
    ExtractionError,
> {
    match r {
        Ok(p) => Ok(p@),
        Err(e) => Err(e),
    }
}

/// The work derived from a chapter page with image sources `srcs` and
/// next-chapter links `links`: its images first, then what the links give.
pub open spec fn chapter_derivation(
    novel_id: Seq<char>,
    chapter: Seq<char>,
    srcs: Seq<Option<Seq<char>>>,
    links: Seq<Option<Seq<char>>>,
) -> Seq<ItemView> {
    image_items(novel_id, chapter, srcs) + next_items(novel_id, links)
}

/// The outcome of processing the page `body` of chapter `chapter` of novel
/// `novel_id`: both titles are required, images and links are optional.
pub open spec fn chapter_outcome(novel_id: Seq<char>, chapter: Seq<char>, body: Seq<char>) -> Result<
    ChapterPageView,
    ExtractionError,
> {
    match selected_attrs(body, image_selector(), "src"@) {
        None => Err(ExtractionError::InvalidRule),
        Some(srcs) => match first_selected_text(body, title_selector()) {
            None => Err(ExtractionError::NoTitle),
            Some(title) => match first_selected_text(body, subtitle_selector()) {
                None => Err(ExtractionError::NoTitle),
                Some(subtitle) => match captured_groups(next_link_pattern(), body, 1) {
                    None => Err(ExtractionError::InvalidRule),
                    Some(links) => Ok(
                        ChapterPageView {
                            title,
                            subtitle,
                            items: chapter_derivation(novel_id, chapter, srcs, links),
                        },
                    ),
                },
            },
        },
    }
}

/// Processes a fetched chapter page: its titles, then one image fetch per
/// non-empty image source and the work its next-chapter links give, which is
/// scanned for in the raw text of the page.
pub fn process_chapter(novel_id: &str, chapter: &str, body: &str) -> (r: Result<
    ChapterPage,
    ExtractionError,
>)
    ensures
        page_view(r) == chapter_outcome(novel_id@, chapter@, body@),
{
    let srcs = match select_attrs(body, "div.divimage img", "src") {
        None => return Err(ExtractionError::InvalidRule),
        Some(srcs) => srcs,
    };
    let title = match select_first_text(body, "h3") {
        None => return Err(ExtractionError::NoTitle),
        Some(t) => t,
    };
    let subtitle = match select_first_text(body, "h1") {
        None => return Err(ExtractionError::NoTitle),
        Some(t) => t,
    };
    let links = match capture_all("url_next:'([^']+)'", body, 1) {
        None => return Err(ExtractionError::InvalidRule),
        Some(links) => links,
    };
    let mut items = image_fetches(novel_id, chapter, &srcs);
    let mut next = next_fetches(novel_id, &links);
    items.append(&mut next);
    proof {
        assert(items_view(items@) =~= chapter_derivation(
            novel_id@,
            chapter@,
            opt_strs_view(srcs@),
            opt_strs_view(links@),
        ));
    }
    Ok(ChapterPage { title, subtitle, items })
}

/// Every item derived from image sources is an image fetch.
proof fn image_items_are_images(novel_id: Seq<char>, chapter: Seq<char>, srcs: Seq<Option<Seq<char>>>)
    ensures
        forall|j: int|
            0 <= j < image_items(novel_id, chapter, srcs).len() ==> #[trigger] image_items(
                novel_id,
                chapter,
                srcs,
            )[j] is ImageFetch,
    decreases srcs.len(),
{
    if srcs.len() > 0 {
        image_items_are_images(novel_id, chapter, srcs.drop_last());
    }
}

/// No item derived from next-chapter links is an image fetch.
proof fn next_items_are_not_images(novel_id: Seq<char>, links: Seq<Option<Seq<char>>>)
    ensures
        forall|j: int|
            0 <= j < next_items(novel_id, links).len() ==> !(#[trigger] next_items(
                novel_id,
                links,
            )[j] is ImageFetch),
    decreases links.len(),
{
    if links.len() > 0 {
        next_items_are_not_images(novel_id, links.drop_last());
    }
}

/// Image sources that are all present and non-empty give one image fetch
/// each, for that source verbatim, in order.
proof fn image_items_of_sources(novel_id: Seq<char>, chapter: Seq<char>, srcs: Seq<Seq<char>>)
    requires
        forall|i: int| 0 <= i < srcs.len() ==> (#[trigger] srcs[i]).len() > 0,
    ensures
        image_items(novel_id, chapter, srcs.map_values(|u: Seq<char>| Some(u))) == srcs.map_values(
            |u: Seq<char>| ItemView::ImageFetch { novel_id, chapter_filename: chapter, image_url: u },
        ),
    decreases srcs.len(),
{
    let opt = srcs.map_values(|u: Seq<char>| Some(u));
    let want = srcs.map_values(
        |u: Seq<char>| ItemView::ImageFetch { novel_id, chapter_filename: chapter, image_url: u },
    );
    if srcs.len() > 0 {
        let prev = srcs.drop_last();
        image_items_of_sources(novel_id, chapter, prev);
        assert(opt.drop_last() =~= prev.map_values(|u: Seq<char>| Some(u)));
        assert(want =~= prev.map_values(
            |u: Seq<char>| ItemView::ImageFetch { novel_id, chapter_filename: chapter, image_url: u },
        ).push(want.last()));
        assert(srcs[srcs.len() - 1].len() > 0);
    } else {
        assert(want =~= Seq::<ItemView>::empty());
    }
}

/// A catalog page whose only chapter-list anchor links to `href` gives rise
/// to exactly one chapter fetch, for the final path segment of `href`.
pub proof fn catalog_with_one_anchor(novel_id: Seq<char>, html: Seq<char>, href: Seq<char>)
    requires
        selected_attrs(html, chapter_link_selector(), "href"@) == Some(seq![Some(href)]),
    ensures
        catalog_outcome(novel_id, html) == Ok::<Seq<ItemView>, ExtractionError>(
            seq![ItemView::ChapterFetch { novel_id, chapter_filename: last_segment_of(href) }],
        ),
{
}

/// A chapter page whose image elements carry the non-empty sources `srcs`
/// gives rise to exactly `srcs.len()` image fetches, one per source verbatim
/// and in document order, ahead of everything else it gives rise to.
pub proof fn chapter_images_in_order(
    novel_id: Seq<char>,
    chapter: Seq<char>,
    body: Seq<char>,
    srcs: Seq<Seq<char>>,
)
    requires
        selected_attrs(body, image_selector(), "src"@) == Some(
            srcs.map_values(|u: Seq<char>| Some(u)),
        ),
        forall|i: int| 0 <= i < srcs.len() ==> (#[trigger] srcs[i]).len() > 0,
        chapter_outcome(novel_id, chapter, body) is Ok,
    ensures
        ({
            let items = chapter_outcome(novel_id, chapter, body)->Ok_0.items;
            &&& items.len() >= srcs.len()
            &&& items.take(srcs.len() as int) == srcs.map_values(
                |u: Seq<char>| ItemView::ImageFetch { novel_id, chapter_filename: chapter, image_url: u },
            )
            &&& forall|j: int| srcs.len() <= j < items.len() ==> !(#[trigger] items[j] is ImageFetch)
        }),
{
    let links = captured_groups(next_link_pattern(), body, 1)->Some_0;
    let opt = srcs.map_values(|u: Seq<char>| Some(u));
    image_items_of_sources(novel_id, chapter, srcs);
    next_items_are_not_images(novel_id, links);
    let imgs = image_items(novel_id, chapter, opt);
    let nexts = next_items(novel_id, links);
    let items = imgs + nexts;
    assert(items.take(srcs.len() as int) =~= imgs);
    assert forall|j: int| srcs.len() <= j < items.len() implies !(#[trigger] items[j] is ImageFetch) by {
        assert(items[j] == nexts[j - srcs.len()]);
    }
}

/// A chapter page whose one next-chapter link leads back to the catalog gives
/// rise to exactly one sentinel, after its images, and to no chapter fetch.
pub proof fn chapter_link_to_catalog_completes(
    novel_id: Seq<char>,
    chapter: Seq<char>,
    body: Seq<char>,
    link: Seq<char>,
)
    requires
        captured_groups(next_link_pattern(), body, 1) == Some(seq![Some(link)]),
        last_segment_of(link) == catalog_name(),
        chapter_outcome(novel_id, chapter, body) is Ok,
    ensures
        ({
            let items = chapter_outcome(novel_id, chapter, body)->Ok_0.items;
            let srcs = selected_attrs(body, image_selector(), "src"@)->Some_0;
            &&& items == image_items(novel_id, chapter, srcs).push(ItemView::Completion)
            &&& forall|j: int| 0 <= j < items.len() ==> !(#[trigger] items[j] is ChapterFetch)
            &&& forall|j: int|
                0 <= j < items.len() ==> (#[trigger] items[j] is Completion <==> j == items.len() - 1)
        }),
{
    let srcs = selected_attrs(body, image_selector(), "src"@)->Some_0;
    let links = seq![Some(link)];
    let imgs = image_items(novel_id, chapter, srcs);
    image_items_are_images(novel_id, chapter, srcs);
    assert(links.drop_last() =~= Seq::<Option<Seq<char>>>::empty());
    assert(next_items(novel_id, links.drop_last()) =~= Seq::<ItemView>::empty());
    assert(links.last() == Some(link));
    assert(next_items(novel_id, links) =~= seq![ItemView::Completion]);
    let items = imgs + next_items(novel_id, links);
    assert(items =~= imgs.push(ItemView::Completion));
    assert forall|j: int| 0 <= j < items.len() - 1 implies #[trigger] items[j] is ImageFetch by {
        assert(items[j] == imgs[j]);
    }
}

/// A chapter page whose one next-chapter link names a page other than the
/// catalog gives rise to a fetch of that page, after its images, and to no
/// sentinel.
pub proof fn chapter_link_to_chapter_continues(
    novel_id: Seq<char>,
    chapter: Seq<char>,
    body: Seq<char>,
    link: Seq<char>,
)
    requires
        captured_groups(next_link_pattern(), body, 1) == Some(seq![Some(link)]),
        last_segment_of(link) != catalog_name(),
        chapter_outcome(novel_id, chapter, body) is Ok,
    ensures
        ({
            let items = chapter_outcome(novel_id, chapter, body)->Ok_0.items;
            let srcs = selected_attrs(body, image_selector(), "src"@)->Some_0;
            &&& items == image_items(novel_id, chapter, srcs).push(
                ItemView::ChapterFetch { novel_id, chapter_filename: last_segment_of(link) },
            )
            &&& forall|j: int| 0 <= j < items.len() ==> !(#[trigger] items[j] is Completion)
        }),
{
    let srcs = selected_attrs(body, image_selector(), "src"@)->Some_0;
    let links = seq![Some(link)];
    let imgs = image_items(novel_id, chapter, srcs);
    let fetch = ItemView::ChapterFetch { novel_id, chapter_filename: last_segment_of(link) };
    image_items_are_images(novel_id, chapter, srcs);
    assert(links.drop_last() =~= Seq::<Option<Seq<char>>>::empty());
    assert(next_items(novel_id, links.drop_last()) =~= Seq::<ItemView>::empty());
    assert(links.last() == Some(link));
    assert(next_items(novel_id, links) =~= seq![fetch]);
    let items = imgs + next_items(novel_id, links);
    assert(items =~= imgs.push(fetch));
    assert forall|j: int| 0 <= j < items.len() implies !(#[trigger] items[j] is Completion) by {
        if j < imgs.len() {
            assert(items[j] == imgs[j]);
        }
    }
}

} // verus!
