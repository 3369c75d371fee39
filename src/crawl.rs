//! The crawl driver's decisions: a work queue consumed one item at a time,
//! follow-on work appended in derivation order, and completion once the
//! sentinel is consumed or the queue runs dry.
use std::collections::VecDeque;
use vstd::prelude::*;
use vstd::string::StringExecFns;
use crate::extract::{
    ChapterPage, catalog_outcome, chapter_outcome, process_catalog, process_chapter,
};
use crate::item::{ExtractionError, ItemView, WorkItem, items_view};

verus! {

/// The state of one crawl over a single novel.
pub struct Crawl {
    queue: VecDeque<WorkItem>,
    finished: bool,
}

/// A crawl seen through views: pending work in queue order, and whether the
/// crawl has ended.
pub struct CrawlView {
    pub queue: Seq<ItemView>,
    pub finished: bool,
}

impl View for Crawl {
    type V = CrawlView;

    closed spec fn view(&self) -> CrawlView {
        CrawlView { queue: items_view(self.queue@), finished: self.finished }
    }
}

impl Crawl {
    /// Starts a crawl of novel `novel_id`: the catalog fetch is the only work.
    pub fn new(novel_id: &str) -> (r: Crawl)
        ensures
            r@.queue == seq![ItemView::CatalogFetch { novel_id: novel_id@ }],
            !r@.finished,
    {
        let mut queue: VecDeque<WorkItem> = VecDeque::new();
        queue.push_back(WorkItem::CatalogFetch { novel_id: String::from_str(novel_id) });
        assert(items_view(queue@) =~= seq![ItemView::CatalogFetch { novel_id: novel_id@ }]);
        Crawl { queue, finished: false }
    }

    /// Whether the crawl has ended.
    pub fn is_finished(&self) -> (r: bool)
        ensures
            r == self@.finished,
    {
        self.finished
    }

    /// The number of items waiting in the queue.
    pub fn pending(&self) -> (r: usize)
        ensures
            r == self@.queue.len(),
    {
        self.queue.len()
    }

    /// Takes the next item to work on. The crawl ends, and `None` comes back,
    /// when the sentinel is taken or the queue is empty; an ended crawl hands
    /// out nothing more.
    pub fn next_item(&mut self) -> (r: Option<WorkItem>)
        ensures
            old(self)@.finished ==> r is None && final(self)@ == old(self)@,
            !old(self)@.finished && old(self)@.queue.len() == 0 ==> r is None
                && final(self)@.finished && final(self)@.queue == old(self)@.queue,
            !old(self)@.finished && old(self)@.queue.len() > 0 ==> final(self)@.queue
                == old(self)@.queue.drop_first() && (old(self)@.queue[0] is Completion ==> r is None
                && final(self)@.finished) && (!(old(self)@.queue[0] is Completion) ==> r is Some
                && r->Some_0@ == old(self)@.queue[0] && !final(self)@.finished),
    {
        if self.finished {
            return None;
        }
        let ghost q = self.queue@;
        match self.queue.pop_front() {
            None => {
                self.finished = true;
                None
            },
            Some(item) => {
                assert(items_view(self.queue@) =~= items_view(q).drop_first());
                match item {
                    WorkItem::Completion => {
                        self.finished = true;
                        None
                    },
                    other => Some(other),
                }
            },
        }
    }

    /// Appends `items` to the queue, keeping their order.
    pub fn enqueue(&mut self, items: Vec<WorkItem>)
        ensures
            final(self)@.queue == old(self)@.queue + items_view(items@),
            final(self)@.finished == old(self)@.finished,
    {
        let mut items = items;
        let ghost all = items@;
        let mut tail: VecDeque<WorkItem> = VecDeque::new();
        while items.len() > 0
            invariant
                all == items@ + tail@,
            decreases items@.len(),
        {
            let ghost before = items@;
            let item = items.pop().unwrap();
            tail.push_front(item);
            assert(before =~= items@.push(item));
        }
        assert(all =~= tail@);
        let ghost q = self.queue@;
        self.queue.append(&mut tail);
        assert(items_view(self.queue@) =~= items_view(q) + items_view(all));
    }

    /// Processes the fetched catalog page `html` of novel `novel_id`; on
    /// success its work joins the queue, on failure the queue is unchanged.
    pub fn handle_catalog(&mut self, novel_id: &str, html: &str) -> (r: Result<(), ExtractionError>)
        ensures
            final(self)@.finished == old(self)@.finished,
            match catalog_outcome(novel_id@, html@) {
                Ok(items) => r is Ok && final(self)@.queue == old(self)@.queue + items,
                Err(e) => r == Err::<(), ExtractionError>(e) && final(self)@.queue == old(
                    self,
                )@.queue,
            },
    {
        match process_catalog(novel_id, html) {
            Ok(items) => {
                self.enqueue(items);
                Ok(())
            },
            Err(e) => Err(e),
        }
    }

    /// Processes the fetched page `body` of chapter `chapter` of novel
    /// `novel_id`; on success its work joins the queue and its titles come
    /// back, on failure the queue is unchanged.
    pub fn handle_chapter(&mut self, novel_id: &str, chapter: &str, body: &str) -> (r: Result<
        (String, String),
        ExtractionError,
    >)
        ensures
            final(self)@.finished == old(self)@.finished,
            match chapter_outcome(novel_id@, chapter@, body@) {
                Ok(page) => r is Ok && r->Ok_0.0@ == page.title && r->Ok_0.1@ == page.subtitle
                    && final(self)@.queue == old(self)@.queue + page.items,
                Err(e) => r is Err && r->Err_0 == e && final(self)@.queue == old(self)@.queue,
            },
    {
        match process_chapter(novel_id, chapter, body) {
            Ok(page) => {
                let ChapterPage { title, subtitle, items } = page;
                self.enqueue(items);
                Ok((title, subtitle))
            },
            Err(e) => Err(e),
        }
    }
}

} // verus!
