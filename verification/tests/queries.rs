use tidybee_agent::agent::get_files::{
    get_amount_files_from_vec, get_files_that_match_path, get_files_that_match_string,
    get_heaviest_files_from_vec, get_oldest_files_from_vec, FileInfo as ListedFile, Params,
};
use tidybee_agent::file_info::{FileInfo, Timestamp};
use tidybee_agent::http_server::{get_files_sorted, sort_key_of, SortKey};
use tidybee_agent::sorting::sort_desc_by_key;

fn listed(path: &str, size: u64, last_access: u64) -> ListedFile {
    ListedFile { path: path.to_string(), size, last_access }
}

fn paths(files: &[ListedFile]) -> Vec<&str> {
    files.iter().map(|f| f.path.as_str()).collect()
}

#[test]
fn sorting_is_stable_and_descending() {
    let items = vec!['a', 'b', 'c', 'd', 'e'];
    let keys = vec![1i128, 3, 1, 3, 2];
    assert_eq!(sort_desc_by_key(items, &keys), vec!['b', 'd', 'e', 'a', 'c']);
    assert!(sort_desc_by_key(Vec::<u8>::new(), &vec![]).is_empty());
}

#[test]
fn heaviest_and_oldest_orders() {
    let files = vec![listed("a", 10, 5), listed("b", 30, 1), listed("c", 20, 9), listed("d", 30, 9)];
    assert_eq!(paths(&get_heaviest_files_from_vec(files.clone())), vec!["b", "d", "c", "a"]);
    assert_eq!(paths(&get_oldest_files_from_vec(files.clone())), vec!["c", "d", "a", "b"]);
    assert_eq!(paths(&get_amount_files_from_vec(files.clone(), 2)), vec!["b", "d"]);
    assert_eq!(get_amount_files_from_vec(files, 10).len(), 4);
}

#[test]
fn matching_keeps_paths_that_hold_the_text() {
    let files = vec![listed("/x/report.pdf", 1, 1), listed("/y/notes.txt", 1, 1), listed("/x/a.txt", 1, 1)];
    assert_eq!(paths(&get_files_that_match_string(files.clone(), ".txt".to_string())), vec!["/y/notes.txt", "/x/a.txt"]);
    assert_eq!(paths(&get_files_that_match_path(files.clone(), "/x/".to_string())), vec!["/x/report.pdf", "/x/a.txt"]);
    let p = Params::new();
    assert_eq!(paths(&p.match_path(files.clone(), "/z".to_string())), Vec::<&str>::new());
    assert_eq!(paths(&p.amount(files, 1)), vec!["/x/report.pdf"]);
}

fn record(path: &str, size: u64, secs: i64, nanos: u32) -> FileInfo {
    let mut f = FileInfo::default();
    f.path = path.to_string();
    f.size = size;
    f.last_modified = Timestamp { secs, nanos };
    f
}

#[test]
fn sort_parameter_is_read_in_any_case() {
    assert_eq!(sort_key_of("SIZE"), (SortKey::Size, true));
    assert_eq!(sort_key_of("Last_Update"), (SortKey::LastUpdate, true));
    assert_eq!(sort_key_of("name"), (SortKey::Size, false));
}

#[test]
fn files_route_sorts_and_truncates() {
    let files = vec![record("a", 5, 10, 0), record("b", 7, -3, 0), record("c", 5, 10, 1)];
    let by_size: Vec<String> = get_files_sorted(
        vec![record("a", 5, 10, 0), record("b", 7, -3, 0), record("c", 5, 10, 1)],
        "size",
        10,
    )
    .into_iter()
    .map(|f| f.path)
    .collect();
    assert_eq!(by_size, vec!["b", "a", "c"]);
    let by_time: Vec<String> = get_files_sorted(files, "last_update", 2).into_iter().map(|f| f.path).collect();
    assert_eq!(by_time, vec!["c", "a"]);
}

#[test]
fn hello_world() {
    let greeting = tidybee_agent::http_server::hello_world();
    assert_eq!(greeting.message.as_bytes(), b"Hello, World!");
}
