use linovelib::crawl::Crawl;
use linovelib::extract::{is_catalog_name, process_catalog, process_chapter};
use linovelib::item::{ExtractionError, WorkItem};
use linovelib::naming::{artifact_path, catalog_url, chapter_url, image_name, novel_dir};
use linovelib::text::last_segment;

fn chapter(novel_id: &str, filename: &str) -> WorkItem {
    WorkItem::ChapterFetch { novel_id: novel_id.to_string(), chapter_filename: filename.to_string() }
}

fn image(novel_id: &str, filename: &str, url: &str) -> WorkItem {
    WorkItem::ImageFetch {
        novel_id: novel_id.to_string(),
        chapter_filename: filename.to_string(),
        image_url: url.to_string(),
    }
}

const TWO_IMAGES_BACK_TO_CATALOG: &str = "<html><body><h3>Volume 1</h3><h1>Chapter 1</h1>\
<div class=\"divimage\"><img src=\"http://cdn/x.jpg\"></div>\
<div class=\"divimage\"><img src=\"http://cdn/x.jpg\"></div>\
<script>var ReadParams={url_next:'/novel/123/catalog'};</script></body></html>";

#[test]
fn last_segment_takes_text_after_last_slash() {
    assert_eq!(last_segment("/novel/123/456.html"), "456.html");
    assert_eq!(last_segment("456.html"), "456.html");
    assert_eq!(last_segment("a/b/"), "");
    assert_eq!(last_segment(""), "");
    assert_eq!(last_segment("http://cdn/x.jpg"), "x.jpg");
}

#[test]
fn catalog_name_is_recognised() {
    assert!(is_catalog_name(&"catalog".to_string()));
    assert!(!is_catalog_name(&"catalogue".to_string()));
    assert!(!is_catalog_name(&"789.html".to_string()));
}

#[test]
fn urls_and_artifact_names() {
    assert_eq!(catalog_url("123"), "https://w.linovelib.com/novel/123/catalog");
    assert_eq!(chapter_url("123", "456.html"), "https://w.linovelib.com/novel/123/456.html");
    assert_eq!(image_name("456.html", "http://cdn/x.jpg"), "456.html_x.jpg");
    assert_eq!(novel_dir("123"), "./data/123");
    assert_eq!(artifact_path("123", "catalog"), "./data/123/catalog");
    assert_eq!(artifact_path("123", "456.html_x.jpg"), "./data/123/456.html_x.jpg");
}

#[test]
fn catalog_with_one_anchor_gives_first_chapter() {
    let html = "<html><body><ul><li><a class=\"chapter-li-a\" href=\"/novel/123/456.html\">One</a></li></ul></body></html>";
    let items = process_catalog("123", html).unwrap();
    assert_eq!(items, vec![chapter("123", "456.html")]);
    assert_eq!(artifact_path("123", "catalog"), "./data/123/catalog");
}

#[test]
fn catalog_takes_only_the_first_anchor() {
    let html = "<a class=\"chapter-li-a\" href=\"/novel/9/1.html\">1</a>\
<a class=\"chapter-li-a\" href=\"/novel/9/2.html\">2</a>";
    assert_eq!(process_catalog("9", html).unwrap(), vec![chapter("9", "1.html")]);
}

#[test]
fn catalog_without_anchor_fails() {
    let html = "<html><body><a href=\"/novel/123/456.html\">One</a></body></html>";
    assert_eq!(process_catalog("123", html), Err(ExtractionError::NoChapterLink));
}

#[test]
fn catalog_anchor_without_target_fails() {
    let html = "<html><body><a class=\"chapter-li-a\">One</a></body></html>";
    assert_eq!(process_catalog("123", html), Err(ExtractionError::NoLinkTarget));
}

#[test]
fn chapter_with_images_and_link_to_catalog_completes() {
    let page = process_chapter("123", "456.html", TWO_IMAGES_BACK_TO_CATALOG).unwrap();
    assert_eq!(page.title, "Volume 1");
    assert_eq!(page.subtitle, "Chapter 1");
    assert_eq!(
        page.items,
        vec![
            image("123", "456.html", "http://cdn/x.jpg"),
            image("123", "456.html", "http://cdn/x.jpg"),
            WorkItem::Completion,
        ]
    );
    assert_eq!(
        artifact_path("123", &image_name("456.html", "http://cdn/x.jpg")),
        "./data/123/456.html_x.jpg"
    );
}

#[test]
fn chapter_with_link_to_next_chapter_continues() {
    let body = "<h3>V</h3><h1>C</h1><script>url_next:'/novel/123/789.html'</script>";
    let page = process_chapter("123", "456.html", body).unwrap();
    assert_eq!(page.items, vec![chapter("123", "789.html")]);
}

#[test]
fn chapter_skips_empty_image_sources() {
    let body = "<h3>V</h3><h1>C</h1><div class=\"divimage\"><img src=\"\"><img src=\"http://cdn/a.png\"><img></div>\
<img src=\"http://cdn/outside.png\">";
    let page = process_chapter("7", "1.html", body).unwrap();
    assert_eq!(page.items, vec![image("7", "1.html", "http://cdn/a.png")]);
}

#[test]
fn chapter_without_links_dead_ends() {
    let body = "<h3>V</h3><h1>C</h1><p>text</p>";
    let page = process_chapter("7", "1.html", body).unwrap();
    assert!(page.items.is_empty());
}

#[test]
fn chapter_with_several_links_follows_all() {
    let body = "<h3>V</h3><h1>C</h1><script>url_next:'/novel/7/2.html' url_next:'/novel/7/catalog'</script>";
    let page = process_chapter("7", "1.html", body).unwrap();
    assert_eq!(page.items, vec![chapter("7", "2.html"), WorkItem::Completion]);
}

#[test]
fn chapter_without_title_fails() {
    let body = "<h1>C</h1><script>url_next:'/novel/7/2.html'</script>";
    assert_eq!(process_chapter("7", "1.html", body).unwrap_err(), ExtractionError::NoTitle);
    let body = "<h3>V</h3><script>url_next:'/novel/7/2.html'</script>";
    assert_eq!(process_chapter("7", "1.html", body).unwrap_err(), ExtractionError::NoTitle);
}

#[test]
fn crawl_runs_catalog_chapters_images_then_stops() {
    let mut crawl = Crawl::new("123");
    assert_eq!(crawl.pending(), 1);
    assert_eq!(crawl.next_item(), Some(WorkItem::CatalogFetch { novel_id: "123".to_string() }));
    let catalog = "<a class=\"chapter-li-a\" href=\"/novel/123/456.html\">1</a>";
    crawl.handle_catalog("123", catalog).unwrap();
    assert_eq!(crawl.next_item(), Some(chapter("123", "456.html")));
    let first = "<h3>V</h3><h1>C1</h1><div class=\"divimage\"><img src=\"http://cdn/a.jpg\"></div>\
<script>url_next:'/novel/123/789.html'</script>";
    let titles = crawl.handle_chapter("123", "456.html", first).unwrap();
    assert_eq!(titles, ("V".to_string(), "C1".to_string()));
    assert_eq!(crawl.next_item(), Some(image("123", "456.html", "http://cdn/a.jpg")));
    assert_eq!(crawl.next_item(), Some(chapter("123", "789.html")));
    let last = "<h3>V</h3><h1>C2</h1><script>url_next:'/novel/123/catalog'</script>";
    crawl.handle_chapter("123", "789.html", last).unwrap();
    assert!(!crawl.is_finished());
    assert_eq!(crawl.next_item(), None);
    assert!(crawl.is_finished());
    assert_eq!(crawl.next_item(), None);
}

#[test]
fn crawl_stops_when_queue_runs_dry() {
    let mut crawl = Crawl::new("5");
    assert!(crawl.next_item().is_some());
    assert_eq!(crawl.pending(), 0);
    assert_eq!(crawl.next_item(), None);
    assert!(crawl.is_finished());
}

#[test]
fn failed_step_leaves_queue_unchanged() {
    let mut crawl = Crawl::new("5");
    crawl.next_item();
    assert_eq!(crawl.handle_catalog("5", "<p>nothing</p>"), Err(ExtractionError::NoChapterLink));
    assert_eq!(crawl.pending(), 0);
    let mut crawl = Crawl::new("5");
    assert_eq!(crawl.handle_chapter("5", "1.html", "<p>nothing</p>"), Err(ExtractionError::NoTitle));
    assert_eq!(crawl.pending(), 1);
}

#[test]
fn enqueue_keeps_order_behind_pending_work() {
    let mut crawl = Crawl::new("5");
    crawl.enqueue(vec![chapter("5", "a"), WorkItem::Completion, chapter("5", "b")]);
    assert_eq!(crawl.pending(), 4);
    assert_eq!(crawl.next_item(), Some(WorkItem::CatalogFetch { novel_id: "5".to_string() }));
    assert_eq!(crawl.next_item(), Some(chapter("5", "a")));
    assert_eq!(crawl.next_item(), None);
    assert!(crawl.is_finished());
    assert_eq!(crawl.next_item(), None);
}
