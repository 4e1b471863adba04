use vstd::prelude::*;
use crate::ids::{fresh_id, now_millis};
use crate::text::{is_substring, lower_of, lowercase, str_contains, str_eq};

verus! {

/// A single captured clipboard entry.
pub struct ClipboardItem {
    pub id: String,
    pub content: String,
    pub timestamp: u64,
    pub favorite: bool,
    pub pinned: bool,
    pub category: Option<String>,
    pub translation: Option<String>,
    pub summary: Option<String>,
    pub ai_analysis_count: Option<u32>,
}

/// The predicates a history query may switch on; active predicates are
/// conjoined.
pub struct ClipboardFilter {
    pub search_text: Option<String>,
    pub show_favorites_only: bool,
    pub show_pinned_only: bool,
    pub category: Option<String>,
}

/// Whether `item` passes `filter`: a non-empty search string must occur in
/// the content ignoring case, the two flag predicates must hold when set,
/// and a requested category must equal the entry's category.
pub open spec fn spec_matches_filter(item: ClipboardItem, filter: ClipboardFilter) -> bool {
    &&& match filter.search_text {
        Some(s) => s@.len() == 0 || is_substring(lower_of(s@), lower_of(item.content@)),
        None => true,
    }
    &&& (filter.show_favorites_only ==> item.favorite)
    &&& (filter.show_pinned_only ==> item.pinned)
    &&& match filter.category {
        Some(c) => match item.category {
            Some(ic) => ic@ == c@,
            None => false,
        },
        None => true,
    }
}

fn clone_opt_string(s: &Option<String>) -> (r: Option<String>)
    ensures
        r == *s,
{
    match s {
        Some(x) => Some(x.clone()),
        None => None,
    }
}

impl ClipboardItem {
    /// A fresh text entry: unique identifier, current timestamp, no flags and
    /// no cached analysis.
    pub fn new(content: String) -> (r: Self)
        ensures
            r.id@.len() == 36,
            r.content == content,
            !r.favorite,
            !r.pinned,
            r.category is None,
            r.translation is None,
            r.summary is None,
            r.ai_analysis_count is None,
    {
        ClipboardItem {
            id: fresh_id(),
            content,
            timestamp: now_millis(),
            favorite: false,
            pinned: false,
            category: None,
            translation: None,
            summary: None,
            ai_analysis_count: None,
        }
    }

    /// A field-for-field copy of the entry.
    pub fn duplicate(&self) -> (r: Self)
        ensures
            r == *self,
    {
        ClipboardItem {
            id: self.id.clone(),
            content: self.content.clone(),
            timestamp: self.timestamp,
            favorite: self.favorite,
            pinned: self.pinned,
            category: clone_opt_string(&self.category),
            translation: clone_opt_string(&self.translation),
            summary: clone_opt_string(&self.summary),
            ai_analysis_count: self.ai_analysis_count,
        }
    }

    /// Whether the entry passes the filter.
    pub fn matches_filter(&self, filter: &ClipboardFilter) -> (r: bool)
        ensures
            r == spec_matches_filter(*self, *filter),
    {
        match &filter.search_text {
            Some(search) => {
                if !search.as_str().is_empty() {
                    let needle = lowercase(search.as_str());
                    let hay = lowercase(self.content.as_str());
                    if !str_contains(hay.as_str(), needle.as_str()) {
                        return false;
                    }
                }
            },
            None => {},
        }
        if filter.show_favorites_only && !self.favorite {
            return false;
        }
        if filter.show_pinned_only && !self.pinned {
            return false;
        }
        match &filter.category {
            Some(c) => {
                match &self.category {
                    Some(ic) => {
                        if !str_eq(ic.as_str(), c.as_str()) {
                            return false;
                        }
                    },
                    None => {
                        return false;
                    },
                }
            },
            None => {},
        }
        true
    }
}

} // verus!
