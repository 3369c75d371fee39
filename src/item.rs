//! Work items of a crawl and their mathematical views.
use vstd::prelude::*;

verus! {

/// One unit of crawl work.
#[derive(Debug, PartialEq, Eq)]
pub enum WorkItem {
    /// Fetch the table of contents of a novel; starts the crawl.
    CatalogFetch { novel_id: String },
    /// Fetch and process one chapter page.
    ChapterFetch { novel_id: String, chapter_filename: String },
    /// Fetch and store one image; `chapter_filename` names the chapter it came from.
    ImageFetch { novel_id: String, chapter_filename: String, image_url: String },
    /// The sentinel whose consumption ends the crawl.
    Completion,
}

/// A work item with its strings seen as character sequences.
pub enum ItemView {
    CatalogFetch { novel_id: Seq<char> },
    ChapterFetch { novel_id: Seq<char>, chapter_filename: Seq<char> },
    ImageFetch { novel_id: Seq<char>, chapter_filename: Seq<char>, image_url: Seq<char> },
    Completion,
}

impl View for WorkItem {
    type V = ItemView;

    open spec fn view(&self) -> ItemView {
        match self {
            WorkItem::CatalogFetch { novel_id } => ItemView::CatalogFetch { novel_id: novel_id@ },
            WorkItem::ChapterFetch { novel_id, chapter_filename } => ItemView::ChapterFetch {
                novel_id: novel_id@,
                chapter_filename: chapter_filename@,
            },
            WorkItem::ImageFetch { novel_id, chapter_filename, image_url } => ItemView::ImageFetch {
                novel_id: novel_id@,
                chapter_filename: chapter_filename@,
                image_url: image_url@,
            },
            WorkItem::Completion => ItemView::Completion,
        }
    }
}

/// The views of a sequence of work items.
pub open spec fn items_view(items: Seq<WorkItem>) -> Seq<ItemView> {
    items.map_values(|i: WorkItem| i@)
}

/// The view of an optional string.
pub open spec fn opt_str_view(o: Option<String>) -> Option<Seq<char>> {
    match o {
        Some(s) => Some(s@),
        None => None,
    }
}

/// The views of a sequence of optional strings.
pub open spec fn opt_strs_view(v: Seq<Option<String>>) -> Seq<Option<Seq<char>>> {
    v.map_values(|o: Option<String>| opt_str_view(o))
}

/// A required piece of a page that could not be found.
#[derive(Debug, PartialEq, Eq, Structural)]
pub enum ExtractionError {
    /// A selector or pattern of the extraction rules was refused by its engine.
    InvalidRule,
    /// The catalog page holds no chapter-list anchor.
    NoChapterLink,
    /// The chapter-list anchor carries no link target.
    NoLinkTarget,
    /// The chapter page lacks its chapter or sub-chapter title.
    NoTitle,
}

} // verus!
