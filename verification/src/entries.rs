//! What the pipeline and the command surface need to know of journal
//! entries: how a list of them is paged and previewed.

use vstd::prelude::*;
use vstd::string::StrSliceExecFns;
use crate::text::{join2, same_text, trim, trimmed};

verus! {

/// A panel handed over for export.
#[derive(Debug)]
pub struct ExportPanel {
    pub panel_id: String,
    pub image_path: Option<String>,
    pub dialogue_cipher: Option<Vec<u8>>,
}

/// Which part of the list of entries is asked for.
#[derive(Debug, Clone, Copy)]
pub struct ListParams {
    pub limit: Option<i64>,
    pub offset: Option<i64>,
}

/// Entries listed where no limit is given.
pub const DEFAULT_LIMIT: i64 = 100;

/// Characters of an entry that its preview shows at most.
pub const PREVIEW_CHARS: usize = 50;

/// The limit and the offset of a listing: those given, else 100 entries
/// from the first on.
pub open spec fn page_of(params: Option<ListParams>) -> (i64, i64) {
    match params {
        Some(p) => (
            match p.limit {
                Some(limit) => limit,
                None => DEFAULT_LIMIT,
            },
            match p.offset {
                Some(offset) => offset,
                None => 0,
            },
        ),
        None => (DEFAULT_LIMIT, 0),
    }
}

/// Works out the limit and the offset of a listing.
pub fn page_bounds(params: Option<ListParams>) -> (page: (i64, i64))
    ensures
        page == page_of(params),
{
    match params {
        Some(p) => {
            let limit: i64 = match p.limit {
                Some(limit) => limit,
                None => DEFAULT_LIMIT,
            };
            let offset: i64 = match p.offset {
                Some(offset) => offset,
                None => 0,
            };
            (limit, offset)
        },
        None => (DEFAULT_LIMIT, 0),
    }
}

/// The preview of an entry: its first 50 characters without the white space
/// around them, followed by an ellipsis where the entry takes more than 50
/// bytes.
pub open spec fn preview_of(text: Seq<char>, byte_len: usize) -> Seq<char> {
    let head = trimmed(
        text.take(
            if text.len() < PREVIEW_CHARS {
                text.len() as int
            } else {
                PREVIEW_CHARS as int
            },
        ),
    );
    if byte_len > PREVIEW_CHARS {
        head + "..."@
    } else {
        head
    }
}

/// Makes the preview under which an entry is listed.
pub fn body_preview(text: &str) -> (preview: String)
    ensures
        preview@ == preview_of(text@, text.len()),
{
    let count = text.unicode_len();
    let shown: usize = if count < PREVIEW_CHARS {
        count
    } else {
        PREVIEW_CHARS
    };
    let head = text.substring_char(0, shown);
    assert(text@.subrange(0, shown as int) == text@.take(shown as int));
    let head = trim(head);
    if text.len() > PREVIEW_CHARS {
        join2(head, "...")
    } else {
        head.to_owned()
    }
}

/// Whether one of the first `upto` column names is `title`.
pub open spec fn has_title(columns: Seq<String>, upto: int) -> bool {
    exists|i: int| 0 <= i < upto && i < columns.len() && (#[trigger] columns[i])@ == "title"@
}

/// Whether the table of entries still has the column `title`, which an
/// older layout had, and has to be rebuilt without it.
pub fn needs_title_migration(columns: &Vec<String>) -> (r: bool)
    ensures
        r == has_title(columns@, columns@.len() as int),
{
    let mut i: usize = 0;
    while i < columns.len()
        invariant
            i <= columns.len(),
            !has_title(columns@, i as int),
        decreases columns.len() - i,
    {
        if same_text(columns[i].as_str(), "title") {
            return true;
        }
        i += 1;
    }
    false
}

} // verus!
