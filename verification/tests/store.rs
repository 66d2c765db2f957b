use notes_service::note::Note;
use notes_service::store::Store;

fn note(id: usize, title: &str, content: &str) -> Note {
    Note::new(id, String::from(title), String::from(content))
}

#[test]
fn snapshot_of_empty_store_is_empty() {
    let store = Store::new();
    let notes = store.snapshot();
    assert_eq!(notes.len(), 0);
    assert_eq!(store.len(), 0);
}

#[test]
fn append_grows_by_one_and_new_note_is_last() {
    let mut store = Store::new();
    store.append(note(1, "first", "x"));
    assert_eq!(store.len(), 1);
    store.append(note(2, "second", "y"));
    assert_eq!(store.len(), 2);
    let notes = store.snapshot();
    assert_eq!(notes.len(), 2);
    assert_eq!(notes[1].id, 2);
    assert_eq!(notes[1].title, "second");
    assert_eq!(notes[1].content, "y");
}

#[test]
fn snapshot_does_not_mutate_the_store() {
    let mut store = Store::new();
    store.append(note(1, "a", "b"));
    let first = store.snapshot();
    let second = store.snapshot();
    assert_eq!(first.len(), 1);
    assert_eq!(second.len(), 1);
    assert_eq!(second[0].id, 1);
    assert_eq!(second[0].title, "a");
    assert_eq!(second[0].content, "b");
}

#[test]
fn snapshot_order_equals_append_call_order() {
    let mut store = Store::new();
    let titles = ["one", "two", "three", "four", "five"];
    for (i, t) in titles.iter().enumerate() {
        store.append(note(i, t, "body"));
    }
    let notes = store.snapshot();
    assert_eq!(notes.len(), titles.len());
    for (i, t) in titles.iter().enumerate() {
        assert_eq!(notes[i].id, i);
        assert_eq!(notes[i].title, *t);
        assert_eq!(notes[i].content, "body");
    }
}

#[test]
fn distinct_appends_all_present_exactly_once() {
    let mut store = Store::new();
    let n: usize = 8;
    for i in 0..n {
        store.append(note(i, &format!("title {i}"), &format!("content {i}")));
    }
    let notes = store.snapshot();
    assert_eq!(notes.len(), n);
    for i in 0..n {
        let occurrences = notes
            .iter()
            .filter(|m| m.id == i && m.title == format!("title {i}") && m.content == format!("content {i}"))
            .count();
        assert_eq!(occurrences, 1);
    }
}

#[test]
fn duplicate_preserves_every_field() {
    let original = note(42, "title", "content");
    let copy = original.duplicate();
    assert_eq!(copy.id, 42);
    assert_eq!(copy.title, "title");
    assert_eq!(copy.content, "content");
}
