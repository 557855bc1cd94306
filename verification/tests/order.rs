use assay_core::order::{chars_not_after, sort_by_rank};
use assay_core::project::ProjectInfo;
use assay_core::stamp::Timestamp;

fn project(name: &str, secs: i64, nanos: u32) -> ProjectInfo {
    ProjectInfo {
        id: 0,
        name: String::from(name),
        path: String::new(),
        created_at: Timestamp { secs, nanos },
        version: String::new(),
        db_path: String::new(),
    }
}

fn names(items: &[ProjectInfo]) -> Vec<&str> {
    items.iter().map(|p| p.name.as_str()).collect()
}

#[test]
fn items_are_put_in_rank_order() {
    let sorted = sort_by_rank(vec![
        project("c", 3, 0),
        project("a", 1, 0),
        project("d", 3, 1),
        project("b", 2, 999_999_999),
        project("z", -1, 5),
    ]);
    assert_eq!(names(&sorted), vec!["z", "a", "b", "c", "d"]);
}

#[test]
fn items_of_equal_rank_keep_their_order() {
    let sorted = sort_by_rank(vec![
        project("x1", 5, 0),
        project("y1", 4, 0),
        project("x2", 5, 0),
        project("y2", 4, 0),
        project("x3", 5, 0),
    ]);
    assert_eq!(names(&sorted), vec!["y1", "y2", "x1", "x2", "x3"]);
}

#[test]
fn short_and_sorted_inputs_stay_as_they_are() {
    assert!(sort_by_rank(Vec::<ProjectInfo>::new()).is_empty());
    assert_eq!(names(&sort_by_rank(vec![project("only", 1, 1)])), vec!["only"]);
    let sorted = sort_by_rank(vec![project("a", 1, 0), project("b", 1, 0), project("c", 2, 0)]);
    assert_eq!(names(&sorted), vec!["a", "b", "c"]);
}

#[test]
fn texts_compare_by_code_point() {
    let chars = |s: &str| -> Vec<char> { s.chars().collect() };
    let samples = ["", "a", "b", "ab", "abc", "abd", "B", "é", "z", "日本", "a\u{10ffff}", "aa"];
    for x in samples {
        for y in samples {
            assert_eq!(chars_not_after(&chars(x), &chars(y)), x <= y, "{:?} {:?}", x, y);
        }
    }
}
