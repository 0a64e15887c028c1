use minutes::commands::pipeline::first_sample_in_clip;
use minutes::db::segments::sql_param_list;
use minutes::db::sessions::{SessionFilter, SortBy, SortDir};
use minutes::text::{is_blank, is_whitespace, word_count};

#[test]
fn words_are_runs_of_non_whitespace() {
    assert_eq!(word_count(""), 0);
    assert_eq!(word_count("   "), 0);
    assert_eq!(word_count("hello world"), 2);
    assert_eq!(word_count("  hello\t\nworld  again "), 3);
    // no-break space and ideographic space separate words too
    assert_eq!(word_count("a\u{a0}b\u{3000}c"), 3);
    for s in ["x", " a  b ", "\u{2028}q\u{85}r", "déjà vu"] {
        assert_eq!(word_count(s), s.split_whitespace().count());
    }
}

#[test]
fn blank_queries_hold_only_whitespace() {
    assert!(is_blank(""));
    assert!(is_blank(" \t\n\u{200a}"));
    assert!(!is_blank("  q "));
    for s in ["", " ", " x", "\u{feff}"] {
        assert_eq!(is_blank(s), s.trim().is_empty());
    }
}

#[test]
fn whitespace_matches_std() {
    for u in 0u32..0x3100 {
        if let Some(c) = char::from_u32(u) {
            assert_eq!(is_whitespace(c), c.is_whitespace(), "U+{u:04X}");
        }
    }
}

#[test]
fn sql_param_lists_are_numbered_from_one() {
    assert_eq!(sql_param_list(0), "");
    assert_eq!(sql_param_list(1), "?1");
    assert_eq!(sql_param_list(3), "?1, ?2, ?3");
    let twelve = sql_param_list(12);
    assert!(twelve.ends_with("?10, ?11, ?12"));
}

#[test]
fn one_voice_sample_per_speaker_per_clip() {
    let mut sampled = Vec::new();
    assert!(first_sample_in_clip(&mut sampled, 4));
    assert!(first_sample_in_clip(&mut sampled, 9));
    assert!(!first_sample_in_clip(&mut sampled, 4));
    assert_eq!(sampled, vec![4, 9]);
}

#[test]
fn rest_listing_defaults_to_newest_first_page_of_twenty() {
    let f = SessionFilter::from_query(None, Some(5), None, None);
    assert_eq!(f.page, 1);
    assert_eq!(f.page_size, 20);
    assert_eq!(f.sort_by, SortBy::Date);
    assert_eq!(f.sort_dir, SortDir::Desc);
    assert_eq!(f.end_date, Some(5));
    let f = SessionFilter::from_query(Some(1), None, Some(3), Some(7));
    assert_eq!((f.page, f.page_size, f.start_date), (3, 7, Some(1)));
}
