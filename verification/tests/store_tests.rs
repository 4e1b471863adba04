use copy2ai::entry::{ClipboardFilter, ClipboardItem};
use copy2ai::errors::StoreError;
use copy2ai::store::Storage;

fn item(id: &str, content: &str, ts: u64, favorite: bool, pinned: bool) -> ClipboardItem {
    ClipboardItem {
        id: id.to_string(),
        content: content.to_string(),
        timestamp: ts,
        favorite,
        pinned,
        category: None,
        translation: None,
        summary: None,
        ai_analysis_count: None,
    }
}

fn no_filter() -> ClipboardFilter {
    ClipboardFilter {
        search_text: None,
        show_favorites_only: false,
        show_pinned_only: false,
        category: None,
    }
}

#[test]
fn add_and_get_item() {
    let mut store = Storage::new(100);
    store.add_item(item("a", "hello", 1, false, false));
    let got = store.get_item("a").expect("entry should be present");
    assert_eq!(got.content, "hello");
    assert_eq!(got.timestamp, 1);
    assert!(store.get_item("missing").is_none());
}

#[test]
fn add_replaces_by_id() {
    let mut store = Storage::new(100);
    store.add_item(item("a", "first", 1, false, false));
    store.add_item(item("a", "second", 2, false, false));
    assert_eq!(store.get_filtered_count(None), 1);
    assert_eq!(store.get_item("a").unwrap().content, "second");
}

#[test]
fn update_item_replaces_or_fails() {
    let mut store = Storage::new(100);
    store.add_item(item("a", "x", 1, false, false));
    assert!(store.update_item(item("a", "y", 5, true, false)).is_ok());
    let got = store.get_item("a").unwrap();
    assert_eq!(got.content, "y");
    assert!(got.favorite);
    let err = store.update_item(item("b", "z", 1, false, false)).unwrap_err();
    assert_eq!(err, StoreError::NotFound);
}

#[test]
fn remove_item_deletes_or_fails() {
    let mut store = Storage::new(100);
    store.add_item(item("a", "x", 1, false, false));
    assert!(store.remove_item("a").is_ok());
    assert!(store.get_item("a").is_none());
    assert_eq!(store.remove_item("a").unwrap_err(), StoreError::NotFound);
}

#[test]
fn clear_all_empties_the_store() {
    let mut store = Storage::new(100);
    store.add_item(item("a", "x", 1, false, false));
    store.add_item(item("b", "y", 2, false, false));
    store.clear_all();
    assert_eq!(store.get_filtered_count(None), 0);
}

#[test]
fn three_entry_display_order() {
    let mut store = Storage::new(100);
    store.add_item(item("a", "A", 1, false, false));
    store.add_item(item("b", "B", 2, false, true));
    store.add_item(item("c", "C", 3, true, false));
    let all = store.get_all_items();
    let ids: Vec<&str> = all.iter().map(|e| e.id.as_str()).collect();
    assert_eq!(ids, vec!["b", "c", "a"]);
}

#[test]
fn display_order_with_ties_at_each_tier() {
    let mut store = Storage::new(100);
    store.add_item(item("p1", "", 5, false, true));
    store.add_item(item("p2", "", 9, true, true));
    store.add_item(item("p3", "", 9, false, true));
    store.add_item(item("f1", "", 2, true, false));
    store.add_item(item("f2", "", 7, true, false));
    store.add_item(item("n1", "", 4, false, false));
    store.add_item(item("n2", "", 4, false, false));
    store.add_item(item("n3", "", 8, false, false));
    let all = store.get_all_items();
    for i in 0..all.len() {
        for j in (i + 1)..all.len() {
            let a = &all[i];
            let b = &all[j];
            // pinned first, then favorite, then newest first
            assert!(a.pinned >= b.pinned, "pinned order broken at {} {}", i, j);
            if a.pinned == b.pinned {
                assert!(a.favorite >= b.favorite, "favorite order broken at {} {}", i, j);
                if a.favorite == b.favorite {
                    assert!(a.timestamp >= b.timestamp, "time order broken at {} {}", i, j);
                }
            }
        }
    }
}

#[test]
fn eviction_removes_oldest_unprotected() {
    let mut store = Storage::new(2);
    store.add_item(item("a", "A", 1, false, false));
    store.add_item(item("b", "B", 2, false, false));
    store.add_item(item("c", "C", 3, false, false));
    assert_eq!(store.get_filtered_count(None), 2);
    assert!(store.get_item("a").is_none());
    assert!(store.get_item("b").is_some());
    assert!(store.get_item("c").is_some());
}

#[test]
fn eviction_skips_pinned_and_favorite() {
    let mut store = Storage::new(3);
    store.add_item(item("old_pin", "", 1, false, true));
    store.add_item(item("old_fav", "", 2, true, false));
    store.add_item(item("plain", "", 3, false, false));
    store.add_item(item("new", "", 4, false, false));
    // the oldest unprotected entry leaves, not the older protected ones
    assert!(store.get_item("plain").is_none());
    assert!(store.get_item("old_pin").is_some());
    assert!(store.get_item("old_fav").is_some());
    assert!(store.get_item("new").is_some());
}

#[test]
fn fully_protected_store_exceeds_capacity() {
    let mut store = Storage::new(2);
    store.add_item(item("a", "", 1, true, false));
    store.add_item(item("b", "", 2, false, true));
    store.add_item(item("c", "", 3, true, true));
    assert_eq!(store.get_filtered_count(None), 3);
}

#[test]
fn edit_content_clears_translation_and_summary() {
    let mut store = Storage::new(100);
    let mut e = item("a", "original", 7, true, true);
    e.translation = Some("cached translation".to_string());
    e.summary = Some("cached summary".to_string());
    e.category = Some("notes".to_string());
    e.ai_analysis_count = Some(3);
    store.add_item(e);
    store.edit_item_content("a", "edited".to_string()).unwrap();
    let got = store.get_item("a").unwrap();
    assert_eq!(got.content, "edited");
    assert!(got.translation.is_none());
    assert!(got.summary.is_none());
    assert_eq!(got.timestamp, 7);
    assert!(got.favorite);
    assert!(got.pinned);
    assert_eq!(got.category.as_deref(), Some("notes"));
    assert_eq!(got.ai_analysis_count, Some(3));
    let err = store.edit_item_content("nope", "x".to_string()).unwrap_err();
    assert_eq!(err, StoreError::NotFound);
}

#[test]
fn filter_search_is_case_insensitive() {
    let mut store = Storage::new(100);
    store.add_item(item("a", "Hello World", 1, false, false));
    store.add_item(item("b", "other text", 2, false, false));
    let filter = ClipboardFilter {
        search_text: Some("HELLO W".to_string()),
        ..no_filter()
    };
    let got = store.get_filtered_items(&filter);
    assert_eq!(got.len(), 1);
    assert_eq!(got[0].id, "a");
}

#[test]
fn filter_flags_and_category() {
    let mut store = Storage::new(100);
    let mut img = item("img", "data:image/png", 1, false, false);
    img.category = Some("image".to_string());
    store.add_item(img);
    store.add_item(item("fav", "x", 2, true, false));
    store.add_item(item("pin", "y", 3, false, true));

    let favs = ClipboardFilter { show_favorites_only: true, ..no_filter() };
    let got = store.get_filtered_items(&favs);
    assert_eq!(got.len(), 1);
    assert_eq!(got[0].id, "fav");

    let pins = ClipboardFilter { show_pinned_only: true, ..no_filter() };
    let got = store.get_filtered_items(&pins);
    assert_eq!(got.len(), 1);
    assert_eq!(got[0].id, "pin");

    let images = ClipboardFilter { category: Some("image".to_string()), ..no_filter() };
    let got = store.get_filtered_items(&images);
    assert_eq!(got.len(), 1);
    assert_eq!(got[0].id, "img");

    let empty_search = ClipboardFilter { search_text: Some(String::new()), ..no_filter() };
    assert_eq!(store.get_filtered_items(&empty_search).len(), 3);
}

#[test]
fn pagination_bounds_and_reassembly() {
    let mut store = Storage::new(100);
    for k in 0..7u64 {
        store.add_item(item(&format!("e{}", k), "text", k, false, false));
    }
    // offset at or past the end yields an empty page, never an error
    assert!(store.get_filtered_paged_items(None, 7, 3).is_empty());
    assert!(store.get_filtered_paged_items(None, 100, 3).is_empty());
    // a page that runs past the end yields the remainder only
    let tail = store.get_filtered_paged_items(None, 6, 10);
    assert_eq!(tail.len(), 1);
    // pages at increasing offsets with a fixed limit reassemble the full read
    let full = store.get_filtered_items(&no_filter());
    let mut rebuilt: Vec<ClipboardItem> = Vec::new();
    let mut offset = 0usize;
    loop {
        let page = store.get_filtered_paged_items(None, offset, 3);
        if page.is_empty() {
            break;
        }
        rebuilt.extend(page);
        offset += 3;
    }
    assert_eq!(rebuilt.len(), full.len());
    for (a, b) in rebuilt.iter().zip(full.iter()) {
        assert_eq!(a.id, b.id);
    }
}

#[test]
fn count_respects_filter() {
    let mut store = Storage::new(100);
    store.add_item(item("a", "apple pie", 1, true, false));
    store.add_item(item("b", "banana", 2, false, false));
    assert_eq!(store.get_filtered_count(None), 2);
    let filter = ClipboardFilter {
        search_text: Some("APPLE".to_string()),
        ..no_filter()
    };
    assert_eq!(store.get_filtered_count(Some(&filter)), 1);
}

#[test]
fn max_items_is_clamped_and_floored() {
    let mut store = Storage::new(100);
    store.set_max_items(9000);
    assert_eq!(store.get_max_items(), 4000);
    store.set_max_items(50);
    assert_eq!(store.get_max_items(), 50);
    let err = store.set_max_items_checked(9).unwrap_err();
    assert_eq!(err, StoreError::Validation);
    assert_eq!(store.get_max_items(), 50);
    assert!(store.set_max_items_checked(10).is_ok());
    assert_eq!(store.get_max_items(), 10);
}

#[test]
fn fresh_entry_has_defaults_and_real_id() {
    let e = ClipboardItem::new("clip".to_string());
    assert_eq!(e.content, "clip");
    assert_eq!(e.id.chars().count(), 36);
    assert!(!e.favorite && !e.pinned);
    assert!(e.category.is_none() && e.translation.is_none() && e.summary.is_none());
    assert!(e.ai_analysis_count.is_none());
    let e2 = ClipboardItem::new("clip".to_string());
    assert_ne!(e.id, e2.id);
}

#[test]
fn history_read_defaults() {
    let mut store = Storage::new(100);
    for k in 0..5u64 {
        store.add_item(item(&format!("h{}", k), "text", k, false, false));
    }
    let whole = store.get_history(None, None, None);
    let all = store.get_all_items();
    assert_eq!(whole.len(), all.len());
    for (a, b) in whole.iter().zip(all.iter()) {
        assert_eq!(a.id, b.id);
    }
    // an explicit page
    let page = store.get_history(Some(2), Some(1), None);
    assert_eq!(page.len(), 2);
    assert_eq!(page[0].id, all[1].id);
    assert_eq!(page[1].id, all[2].id);
    // a missing limit falls back to the filtered count
    let tail = store.get_history(None, Some(2), None);
    assert_eq!(tail.len(), 3);
    assert_eq!(tail[0].id, all[2].id);
}
