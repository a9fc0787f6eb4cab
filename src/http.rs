//! The decisions of the static file server: what a request path is answered
//! with, and the HTML listing of a directory.

use vstd::prelude::*;

verus! {

/// What the server answers for a request path.
#[derive(Debug, Clone, Copy, PartialEq, Eq, Structural)]
pub enum Reply {
    /// Nothing is there: 404.
    NotFound,
    /// A directory: its listing.
    Listing,
    /// A file: its contents.
    Contents,
}

/// Decides the reply from what the file system says of the path.
pub fn reply_for(exists: bool, is_dir: bool) -> (r: Reply)
    ensures
        r == (if !exists {
            Reply::NotFound
        } else if is_dir {
            Reply::Listing
        } else {
            Reply::Contents
        }),
{
    if !exists {
        Reply::NotFound
    } else if is_dir {
        Reply::Listing
    } else {
        Reply::Contents
    }
}

/// The opening of a listing page.
pub open spec fn listing_head() -> Seq<char> {
    "<html><head><title>Directory listing</title></head><body><ul>"@
}

/// The closing of a listing page.
pub open spec fn listing_tail() -> Seq<char> {
    "</ul></body></html>"@
}

/// One entry of a listing: a link to its path, labelled with its name.
pub open spec fn listing_item(path: Seq<char>, name: Seq<char>) -> Seq<char> {
    "<li><a href=\""@ + path + "\">"@ + name + "</a></li>"@
}

/// The items of a listing, one per entry, in order.
pub open spec fn listing_items(entries: Seq<(String, String)>) -> Seq<char>
    decreases entries.len(),
{
    if entries.len() == 0 {
        Seq::empty()
    } else {
        listing_items(entries.drop_last()) + listing_item(
            entries.last().0@,
            entries.last().1@,
        )
    }
}

/// The HTML page that lists a directory's entries, each a (path, name)
/// pair.
pub fn dir_listing(entries: &Vec<(String, String)>) -> (r: String)
    ensures
        r@ == listing_head() + listing_items(entries@) + listing_tail(),
{
    let mut content = String::from_str("<html><head><title>Directory listing</title></head><body><ul>");
    let mut i: usize = 0;
    while i < entries.len()
        invariant
            i <= entries@.len(),
            content@ == listing_head() + listing_items(entries@.subrange(0, i as int)),
        decreases entries@.len() - i,
    {
        let ghost before = content@;
        content.append("<li><a href=\"");
        content.append(entries[i].0.as_str());
        content.append("\">");
        content.append(entries[i].1.as_str());
        content.append("</a></li>");
        proof {
            let done = entries@.subrange(0, i + 1);
            assert(done.drop_last() =~= entries@.subrange(0, i as int));
            assert(done.last() == entries@[i as int]);
            assert(content@ =~= before + listing_item(entries@[i as int].0@, entries@[i as int].1@));
        }
        i += 1;
    }
    assert(entries@.subrange(0, entries@.len() as int) =~= entries@);
    content.append("</ul></body></html>");
    content
}

} // verus!
