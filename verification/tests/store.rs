use blog_posts::post::Post;
use blog_posts::store::{PostStore, StoreCommand, StoreError, StoreReply};

fn post(id: i32, title: &str, text: &str) -> Post {
    Post { id, title: title.to_owned(), text: text.to_owned() }
}

fn filled(n: i32) -> PostStore {
    let mut store = PostStore::new();
    for i in 1..=n {
        store.create(format!("title {}", i), format!("text {}", i)).unwrap();
    }
    store
}

#[test]
fn new_store_is_empty() {
    let store = PostStore::new();
    assert_eq!(store.count(), 0);
    assert_eq!(store.list(0, 10), Vec::<Post>::new());
    assert_eq!(store.find_by_id(1), Err(StoreError::NotFound));
}

#[test]
fn created_post_is_found_again() {
    let mut store = PostStore::new();
    let created = store.create("T".to_owned(), "B".to_owned()).unwrap();
    assert_eq!(created, post(1, "T", "B"));
    assert_eq!(store.find_by_id(created.id), Ok(post(1, "T", "B")));
    assert_eq!(store.count(), 1);
}

#[test]
fn ids_count_up_from_one_and_are_not_used_again() {
    let mut store = PostStore::new();
    assert_eq!(store.create("a".to_owned(), "x".to_owned()).unwrap().id, 1);
    assert_eq!(store.create("b".to_owned(), "y".to_owned()).unwrap().id, 2);
    assert_eq!(store.delete(2), Ok(()));
    assert_eq!(store.create("c".to_owned(), "z".to_owned()).unwrap().id, 3);
    assert_eq!(store.list(0, 10), vec![post(3, "c", "z"), post(1, "a", "x")]);
}

#[test]
fn deleted_post_is_gone_and_second_delete_is_not_found() {
    let mut store = filled(3);
    assert_eq!(store.delete(2), Ok(()));
    assert_eq!(store.find_by_id(2), Err(StoreError::NotFound));
    assert_eq!(store.delete(2), Err(StoreError::NotFound));
    assert_eq!(store.count(), 2);
    assert_eq!(store.find_by_id(1), Ok(post(1, "title 1", "text 1")));
    assert_eq!(store.find_by_id(3), Ok(post(3, "title 3", "text 3")));
}

#[test]
fn delete_of_a_missing_post_changes_nothing() {
    let mut store = filled(2);
    assert_eq!(store.delete(999999), Err(StoreError::NotFound));
    assert_eq!(store.delete(0), Err(StoreError::NotFound));
    assert_eq!(store.delete(-1), Err(StoreError::NotFound));
    assert_eq!(store.count(), 2);
}

#[test]
fn update_replaces_title_and_text() {
    let mut store = filled(3);
    let updated = store.update(2, "new title".to_owned(), "new text".to_owned());
    assert_eq!(updated, Ok(post(2, "new title", "new text")));
    assert_eq!(store.find_by_id(2), Ok(post(2, "new title", "new text")));
    assert_eq!(store.find_by_id(1), Ok(post(1, "title 1", "text 1")));
    assert_eq!(store.find_by_id(3), Ok(post(3, "title 3", "text 3")));
    assert_eq!(store.count(), 3);
}

#[test]
fn update_of_a_missing_post_is_not_found() {
    let mut store = filled(1);
    assert_eq!(store.update(7, "t".to_owned(), "b".to_owned()), Err(StoreError::NotFound));
    assert_eq!(store.list(0, 10), vec![post(1, "title 1", "text 1")]);
}

#[test]
fn list_gives_the_window_with_the_newest_post_first() {
    let store = filled(7);
    let ids = |posts: Vec<Post>| posts.iter().map(|p| p.id).collect::<Vec<i32>>();
    assert_eq!(ids(store.list(0, 5)), vec![7, 6, 5, 4, 3]);
    assert_eq!(ids(store.list(5, 5)), vec![2, 1]);
    assert_eq!(ids(store.list(10, 5)), Vec::<i32>::new());
    assert_eq!(ids(store.list(7, 5)), Vec::<i32>::new());
    assert_eq!(ids(store.list(2, 0)), Vec::<i32>::new());
    assert_eq!(ids(store.list(6, u64::MAX)), vec![1]);
    assert_eq!(ids(store.list(u64::MAX, u64::MAX)), Vec::<i32>::new());
    assert_eq!(ids(store.list(0, 100)), vec![7, 6, 5, 4, 3, 2, 1]);
    assert_eq!(store.list(3, 1), vec![post(4, "title 4", "text 4")]);
}

#[test]
fn commands_are_answered_as_the_operations_are() {
    let mut store = PostStore::new();
    assert_eq!(
        store.execute(StoreCommand::Create { title: "T".to_owned(), text: "B".to_owned() }),
        StoreReply::Created { post: post(1, "T", "B") },
    );
    assert_eq!(store.execute(StoreCommand::Find { id: 1 }), StoreReply::Found { post: post(1, "T", "B") });
    assert_eq!(store.execute(StoreCommand::Find { id: 2 }), StoreReply::NotFound);
    assert_eq!(
        store.execute(StoreCommand::Update { id: 1, title: "U".to_owned(), text: "C".to_owned() }),
        StoreReply::Updated { post: post(1, "U", "C") },
    );
    assert_eq!(
        store.execute(StoreCommand::Update { id: 5, title: "U".to_owned(), text: "C".to_owned() }),
        StoreReply::NotFound,
    );
    assert_eq!(
        store.execute(StoreCommand::List { offset: 0, limit: 5 }),
        StoreReply::Listed { posts: vec![post(1, "U", "C")], total: 1 },
    );
    assert_eq!(store.execute(StoreCommand::Delete { id: 1 }), StoreReply::Deleted);
    assert_eq!(store.execute(StoreCommand::Delete { id: 1 }), StoreReply::NotFound);
    assert_eq!(
        store.execute(StoreCommand::List { offset: 0, limit: 5 }),
        StoreReply::Listed { posts: vec![], total: 0 },
    );
}

#[test]
fn creation_fails_once_every_id_is_handed_out() {
    let mut store = PostStore::starting_at(i32::MAX).unwrap();
    let last = store.create("last".to_owned(), "one".to_owned());
    assert_eq!(last, Ok(post(i32::MAX, "last", "one")));
    assert_eq!(store.create("one".to_owned(), "more".to_owned()), Err(StoreError::Storage));
    assert_eq!(store.count(), 1);
    assert_eq!(store.list(0, 5), vec![post(i32::MAX, "last", "one")]);
    assert_eq!(
        store.execute(StoreCommand::Create { title: "t".to_owned(), text: "b".to_owned() }),
        StoreReply::Failed,
    );
    assert_eq!(store.delete(i32::MAX), Ok(()));
    assert_eq!(store.create("one".to_owned(), "more".to_owned()), Err(StoreError::Storage));
}

#[test]
fn store_starts_at_a_positive_id_only() {
    assert!(PostStore::starting_at(0).is_none());
    assert!(PostStore::starting_at(-5).is_none());
    let mut store = PostStore::starting_at(40).unwrap();
    assert_eq!(store.count(), 0);
    assert_eq!(store.create("a".to_owned(), "b".to_owned()).unwrap().id, 40);
    assert_eq!(store.create("c".to_owned(), "d".to_owned()).unwrap().id, 41);
}

#[test]
fn posts_are_found_among_many() {
    let store = filled(100);
    for id in 1..=100 {
        assert_eq!(store.find_by_id(id).map(|p| p.id), Ok(id));
    }
    assert_eq!(store.find_by_id(0), Err(StoreError::NotFound));
    assert_eq!(store.find_by_id(101), Err(StoreError::NotFound));
    assert_eq!(store.find_by_id(i32::MIN), Err(StoreError::NotFound));
}

#[test]
fn replies_are_made_from_rows_and_counts() {
    assert_eq!(StoreReply::found(Some(post(1, "a", "b"))), StoreReply::Found { post: post(1, "a", "b") });
    assert_eq!(StoreReply::found(None), StoreReply::NotFound);
    assert_eq!(StoreReply::removed(0), StoreReply::NotFound);
    assert_eq!(StoreReply::removed(1), StoreReply::Deleted);
    assert_eq!(StoreReply::removed(3), StoreReply::Deleted);
}
