//! Where pages are fetched from and the names their artifacts are stored under.
use vstd::prelude::*;
use vstd::string::StringExecFns;
use crate::text::{last_segment, last_segment_of};

verus! {

/// The address under which a novel's pages lie.
pub open spec fn site_novel_root() -> Seq<char> {
    "https://w.linovelib.com/novel/"@
}

/// The directory under which every novel's artifacts are stored.
pub open spec fn data_root() -> Seq<char> {
    "./data/"@
}

/// The address of a novel's page `page` (its catalog or one of its chapters).
pub open spec fn page_url_of(novel_id: Seq<char>, page: Seq<char>) -> Seq<char> {
    site_novel_root() + novel_id + "/"@ + page
}

/// The logical name of an image: the chapter it came from, an underscore,
/// and the final segment of its address.
pub open spec fn image_name_of(chapter: Seq<char>, image_url: Seq<char>) -> Seq<char> {
    chapter + "_"@ + last_segment_of(image_url)
}

/// The directory holding a novel's artifacts.
pub open spec fn novel_dir_of(novel_id: Seq<char>) -> Seq<char> {
    data_root() + novel_id
}

/// The path of the artifact with logical name `name` of a novel.
pub open spec fn artifact_path_of(novel_id: Seq<char>, name: Seq<char>) -> Seq<char> {
    novel_dir_of(novel_id) + "/"@ + name
}

/// The address of the catalog page of novel `novel_id`.
pub fn catalog_url(novel_id: &str) -> (r: String)
    ensures
        r@ == page_url_of(novel_id@, "catalog"@),
{
    chapter_url(novel_id, "catalog")
}

/// The address of the page `filename` of novel `novel_id`.
pub fn chapter_url(novel_id: &str, filename: &str) -> (r: String)
    ensures
        r@ == page_url_of(novel_id@, filename@),
{
    let mut r = String::from_str("https://w.linovelib.com/novel/");
    r.append(novel_id);
    r.append("/");
    r.append(filename);
    r
}

/// The logical name of the image at `image_url` found in chapter `chapter`.
pub fn image_name(chapter: &str, image_url: &str) -> (r: String)
    ensures
        r@ == image_name_of(chapter@, image_url@),
{
    let base = last_segment(image_url);
    let mut r = String::from_str(chapter);
    r.append("_");
    r.append(base.as_str());
    r
}

/// The directory holding the artifacts of novel `novel_id`.
pub fn novel_dir(novel_id: &str) -> (r: String)
    ensures
        r@ == novel_dir_of(novel_id@),
{
    let mut r = String::from_str("./data/");
    r.append(novel_id);
    r
}

/// The path of the artifact with logical name `name` of novel `novel_id`.
pub fn artifact_path(novel_id: &str, name: &str) -> (r: String)
    ensures
        r@ == artifact_path_of(novel_id@, name@),
{
    let mut r = novel_dir(novel_id);
    r.append("/");
    r.append(name);
    r
}

} // verus!
