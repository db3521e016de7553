use wysiwyg::{Error, ErrorKind, Store};

fn store_of(lines: &[&str]) -> Store {
    Store::from_lines(lines.iter().map(|l| l.to_string()).collect())
}

#[test]
fn round_trip_returns_value() {
    let mut store = Store::new();
    store.set("abc123", "hello world");
    assert_eq!(store.get("abc123"), Ok("hello world".to_string()));
}

#[test]
fn last_write_wins_with_one_line() {
    let mut store = store_of(&["other 1"]);
    store.set("k", "a");
    store.set("k", "b");
    assert_eq!(store.get("k"), Ok("b".to_string()));
    let with_key = store.lines().iter().filter(|l| l.starts_with("k ")).count();
    assert_eq!(with_key, 1);
    assert_eq!(store.lines().len(), 2);
    assert_eq!(store.lines()[1], "k b");
}

#[test]
fn get_twice_gives_same_value() {
    let store = store_of(&["a 1", "b 2"]);
    let first = store.get("b");
    let second = store.get("b");
    assert_eq!(first, Ok("2".to_string()));
    assert_eq!(first, second);
}

#[test]
fn unknown_key_is_not_found() {
    let store = store_of(&["alpha 1"]);
    let r = store.get("nope");
    assert_eq!(r, Err(Error::NotFound));
    assert_eq!(r.unwrap_err().kind(), ErrorKind::NotFound);
    assert_eq!(Store::new().get("nope"), Err(Error::NotFound));
}

#[test]
fn interrupted_set_leaves_store_intact() {
    let lines = vec!["alpha 1".to_string(), "beta 2".to_string()];
    let current = Store::from_lines(lines.clone());
    let text_before = current.to_text();
    let mut pending = Store::from_lines(lines);
    pending.set("alpha", "9");
    // the pending text is never put in place
    assert_eq!(pending.to_text(), "beta 2\nalpha 9");
    assert_eq!(current.to_text(), text_before);
    assert_eq!(current.get("alpha"), Ok("1".to_string()));
    assert_eq!(current.get("beta"), Ok("2".to_string()));
}

#[test]
fn value_keeps_inner_spaces() {
    let store = store_of(&["k  a b "]);
    assert_eq!(store.get("k"), Ok(" a b ".to_string()));
}

#[test]
fn lines_without_space_are_skipped() {
    let store = store_of(&["garbage", "k v"]);
    assert_eq!(store.get("garbage"), Err(Error::NotFound));
    assert_eq!(store.get("k"), Ok("v".to_string()));
}

#[test]
fn first_record_of_key_wins() {
    let store = store_of(&["k first", "k second"]);
    assert_eq!(store.get("k"), Ok("first".to_string()));
}

#[test]
fn set_drops_duplicates_and_unsplittable_lines() {
    let mut store = store_of(&["k 1", "junk", "a x", "k 2", "b y"]);
    store.set("k", "3");
    let lines: Vec<String> = store.lines().clone();
    assert_eq!(lines, vec!["a x", "b y", "k 3"]);
}

#[test]
fn set_keeps_key_with_common_prefix() {
    let mut store = store_of(&["ab 1"]);
    store.set("a", "2");
    assert_eq!(store.get("ab"), Ok("1".to_string()));
    assert_eq!(store.get("a"), Ok("2".to_string()));
}

#[test]
fn text_joins_lines_with_newlines() {
    assert_eq!(Store::new().to_text(), "");
    assert_eq!(store_of(&["a 1"]).to_text(), "a 1");
    assert_eq!(store_of(&["a 1", "b 2", "c 3"]).to_text(), "a 1\nb 2\nc 3");
}

#[test]
fn get_all_in_order() {
    let store = store_of(&["alpha 1", "beta 2"]);
    let keys = vec!["beta".to_string(), "alpha".to_string()];
    assert_eq!(store.get_all(&keys), Ok(vec!["2".to_string(), "1".to_string()]));
    let keys = vec!["alpha".to_string(), "gamma".to_string()];
    assert_eq!(store.get_all(&keys), Err(Error::NotFound));
}
