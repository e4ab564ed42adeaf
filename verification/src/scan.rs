//! Content classification results and candidate selection.
//!
//! The shell walks an extraction directory, filters by the container-image
//! extension, classifies each entry with an external reader tool, and hands
//! the resulting list here; selection among the candidates is decided by the
//! verified functions below.

use vstd::prelude::*;
use vstd::string::*;

verus! {

/// The content kind of one container-image entry.
#[derive(Debug, Clone, Copy, PartialEq, Eq, Structural)]
pub enum ContentType {
    Program,
    Control,
    Meta,
    Unknown,
}

/// One classified container-image entry: where it lies, what it is, the
/// title identifier its header carries (when present), and its file size.
#[derive(Debug, Clone)]
pub struct ContentEntry {
    pub path: String,
    pub content_type: ContentType,
    pub title_id: Option<String>,
    pub size: u64,
}

/// Why a scan yielded no entry.
#[derive(Debug, Clone, Copy, PartialEq, Eq, Structural)]
pub enum ScanError {
    /// No entry of the required kind exists in the scanned directory.
    NotFound(ContentType),
}

/// Whether a path ends in the container-image extension.  A file whose name
/// is nothing but the literal extension is a dotfile, not an entry: some
/// character of the file name must stand before the dot.
pub open spec fn has_nca_ext_spec(s: Seq<char>) -> bool {
    s.len() >= 5
        && s[s.len() - 5] != '/'
        && s[s.len() - 4] == '.'
        && s[s.len() - 3] == 'n'
        && s[s.len() - 2] == 'c'
        && s[s.len() - 1] == 'a'
}

/// Whether `path` names a container-image entry, by its extension.
pub fn has_nca_extension(path: &str) -> (r: bool)
    ensures
        r == has_nca_ext_spec(path@),
{
    let n = path.unicode_len();
    if n < 5 {
        return false;
    }
    path.get_char(n - 5) != '/' && path.get_char(n - 4) == '.'
        && path.get_char(n - 3) == 'n' && path.get_char(n - 2) == 'c'
        && path.get_char(n - 1) == 'a'
}

/// Whether some entry of this kind exists.
pub open spec fn has_kind(es: Seq<ContentEntry>, kind: ContentType) -> bool {
    exists|j: int| 0 <= j < es.len() && es[j].content_type == kind
}

/// `i` indexes the entry of this kind with the largest size, the first such
/// entry in scan order among equal sizes.
pub open spec fn is_largest_first(es: Seq<ContentEntry>, kind: ContentType, i: int) -> bool {
    &&& 0 <= i < es.len()
    &&& es[i].content_type == kind
    &&& forall|j: int| 0 <= j < es.len() && es[j].content_type == kind
        ==> es[j].size <= es[i].size
    &&& forall|j: int| 0 <= j < i && es[j].content_type == kind ==> es[j].size < es[i].size
}

/// `i` indexes the first entry of this kind in scan order.
pub open spec fn is_first_of(es: Seq<ContentEntry>, kind: ContentType, i: int) -> bool {
    &&& 0 <= i < es.len()
    &&& es[i].content_type == kind
    &&& forall|j: int| 0 <= j < i ==> es[j].content_type != kind
}

/// An exact copy of a classified entry.
pub fn clone_entry(e: &ContentEntry) -> (r: ContentEntry)
    ensures
        r == *e,
{
    ContentEntry {
        path: e.path.clone(),
        content_type: e.content_type,
        title_id: match &e.title_id {
            Some(t) => Some(t.clone()),
            None => None,
        },
        size: e.size,
    }
}

/// Select the entry of the required kind with the largest size; among equal
/// sizes, the first in scan order wins.  `NotFound` exactly when no entry of
/// the kind exists.
pub fn scan_for(entries: &Vec<ContentEntry>, kind: ContentType) -> (r: Result<usize, ScanError>)
    ensures
        match r {
            Ok(i) => is_largest_first(entries@, kind, i as int),
            Err(e) => e == ScanError::NotFound(kind) && !has_kind(entries@, kind),
        },
{
    let mut best: Option<usize> = None;
    let mut i: usize = 0;
    while i < entries.len()
        invariant
            0 <= i <= entries@.len(),
            match best {
                Some(b) => 0 <= b < i
                    && entries@[b as int].content_type == kind
                    && (forall|j: int| 0 <= j < i && entries@[j].content_type == kind
                        ==> entries@[j].size <= entries@[b as int].size)
                    && (forall|j: int| 0 <= j < b && entries@[j].content_type == kind
                        ==> entries@[j].size < entries@[b as int].size),
                None => forall|j: int| 0 <= j < i ==> entries@[j].content_type != kind,
            },
        decreases entries@.len() - i,
    {
        if entries[i].content_type == kind {
            match best {
                Some(b) => {
                    if entries[i].size > entries[b].size {
                        best = Some(i);
                    }
                },
                None => {
                    best = Some(i);
                },
            }
        }
        i += 1;
    }
    match best {
        Some(b) => Ok(b),
        None => Err(ScanError::NotFound(kind)),
    }
}

/// Select the first entry of the required kind in scan order, independent of
/// size.  `NotFound` exactly when no entry of the kind exists.
pub fn find_first(entries: &Vec<ContentEntry>, kind: ContentType) -> (r: Result<usize, ScanError>)
    ensures
        match r {
            Ok(i) => is_first_of(entries@, kind, i as int),
            Err(e) => e == ScanError::NotFound(kind) && !has_kind(entries@, kind),
        },
{
    let mut i: usize = 0;
    while i < entries.len()
        invariant
            0 <= i <= entries@.len(),
            forall|j: int| 0 <= j < i ==> entries@[j].content_type != kind,
        decreases entries@.len() - i,
    {
        if entries[i].content_type == kind {
            return Ok(i);
        }
        i += 1;
    }
    Err(ScanError::NotFound(kind))
}

/// Whether one reader's classification attempt is a definitive answer of the
/// wanted kind.
pub open spec fn is_definitive(o: Option<ContentEntry>, kind: ContentType) -> bool {
    o matches Some(e) && e.content_type == kind
}

/// Ordered-fallback classification: among the per-reader attempts, in
/// configured reader order, the first that produced a definitive entry of
/// the wanted kind wins; `None` when no reader did.
pub fn first_definitive(attempts: &Vec<Option<ContentEntry>>, kind: ContentType) -> (r: Option<
    usize,
>)
    ensures
        match r {
            Some(i) => 0 <= i < attempts@.len()
                && is_definitive(attempts@[i as int], kind)
                && (forall|j: int| 0 <= j < i ==> !is_definitive(attempts@[j], kind)),
            None => forall|j: int| 0 <= j < attempts@.len()
                ==> !is_definitive(attempts@[j], kind),
        },
{
    let mut i: usize = 0;
    while i < attempts.len()
        invariant
            0 <= i <= attempts@.len(),
            forall|j: int| 0 <= j < i ==> !is_definitive(attempts@[j], kind),
        decreases attempts@.len() - i,
    {
        match &attempts[i] {
            Some(e) => {
                if e.content_type == kind {
                    return Some(i);
                }
            },
            None => {},
        }
        i += 1;
    }
    None
}

} // verus!
