use quvyn::comment::Comment;
use quvyn::notifier::Notifier;
use quvyn::repository::{CommentRepository, StoreError};

fn for_testing() -> CommentRepository {
    let mut repository = CommentRepository::new("/r");
    repository.set_reload_flag(false);
    repository
}

#[test]
fn adding_comment_makes_it_available_in_list() {
    let mut repository = for_testing();
    let comment = Comment::new("/test-topic/", "Test", None, None);

    repository.add_comment(&comment);
    let list = repository.all_comments();

    assert_eq!(1, list.len());
}

#[test]
fn removing_comment_makes_it_unavailable_in_list() {
    let mut repository = for_testing();
    let comment1 = Comment::new("/test-topic/", "First comment", None, None);
    repository.add_comment(&comment1);
    repository.add_comment(&Comment::new("/test-topic/", "Second comment", None, None));

    repository.remove_comment(&comment1);

    assert_eq!(1, repository.all_comments().len());
    let found = repository.comment_with_id(comment1.id).is_some();
    assert_eq!(false, found);
}

#[test]
fn comment_can_be_retrieved_by_id() {
    let mut repository = for_testing();
    let new_comment = Comment::new("/test-topic/", "Test", None, None);
    repository.add_comment(&new_comment);

    let result = repository.comment_with_id(new_comment.id);

    let returned_comment = result.expect("expected a comment");
    assert_eq!(returned_comment.id, new_comment.id);
    assert_eq!(returned_comment.content, "Test");
}

#[test]
fn comments_can_be_retrieved_by_path() {
    let mut repository = for_testing();
    repository.add_comment(&Comment::new("/test-topic/", "First comment", None, None));
    repository.add_comment(&Comment::new("/something-else/", "Second comment", None, None));

    let list = repository.comments_for_path("/test-topic/");

    assert_eq!(list.len(), 1);
    assert_eq!(list[0].content, "First comment");
}

#[test]
fn comments_are_sorted_by_timestamp() {
    let mut repository = for_testing();
    let mut c1 = Comment::new("/test-topic/", "Second comment", None, None);
    c1.timestamp = c1.timestamp - 5 * 60;
    repository.add_comment(&c1);
    let c2 = Comment::new("/test-topic/", "Third comment", None, None);
    repository.add_comment(&c2);
    let mut c3 = Comment::new("/test-topic/", "First comment", None, None);
    c3.timestamp = c3.timestamp - 2 * 60 * 60;
    repository.add_comment(&c3);

    let list = repository.comments_for_path("/test-topic/");

    assert_eq!(list.len(), 3);
    assert_eq!(list[0].content, "First comment");
    assert_eq!(list[1].content, "Second comment");
    assert_eq!(list[2].content, "Third comment");
}

#[test]
fn it_stores_and_retrieves_comment() {
    let mut repo1 = CommentRepository::new("var/it/repository/it_stores_and_retrieves_comment");
    let original = Comment::new("/some-topic/", "Nice work!", None, None);
    repo1.save_comment(&original, Ok(())).unwrap();

    // The documents under the root hold what was saved; a second repository
    // over the same root is handed what it reads from them.
    let mut repo2 = CommentRepository::new("var/it/repository/it_stores_and_retrieves_comment");
    repo2.load_all_comments(repo1.all_comments());
    let comments = repo2.all_comments();

    assert_eq!(1, comments.len());
    assert_eq!("Nice work!", comments[0].content);
}

#[test]
fn it_saving_a_comment_adds_it_to_the_list() {
    let mut repo = CommentRepository::new("var/it/repository/it_saving_a_comment_adds_it_to_the_list");
    let original = Comment::new("/some-topic/", "Nice work!", None, None);
    repo.save_comment(&original, Ok(())).unwrap();

    let comments = repo.all_comments();

    assert_eq!(1, comments.len());
    assert_eq!("Nice work!", comments[0].content);
}

#[test]
fn saved_comment_is_listed_once_and_found_by_id() {
    let mut repo = for_testing();
    let c = Comment::new("/1/", "Nice work!", None, None);
    repo.save_comment(&c, Ok(())).unwrap();
    repo.save_comment(&c, Ok(())).unwrap();
    let all = repo.all_comments();
    assert_eq!(1, all.iter().filter(|x| x.id == c.id).count());
    let found = repo.comment_with_id(c.id).unwrap();
    assert_eq!(c.id, found.id);
    assert_eq!(c.content, found.content);
}

#[test]
fn adding_a_comment_again_replaces_the_cached_one() {
    let mut repo = for_testing();
    let c = Comment::new("/1/", "old", None, None);
    repo.add_comment(&Comment::new("/2/", "other", None, None));
    repo.add_comment(&c);
    let mut changed = c.duplicate();
    changed.content = String::from("new");
    repo.add_comment(&changed);
    let all = repo.all_comments();
    assert_eq!(2, all.len());
    assert_eq!("new", all[1].content);
    assert_eq!("new", repo.comment_with_id(c.id).unwrap().content);
}

#[test]
fn failed_write_leaves_the_cache_unchanged() {
    let mut repo = for_testing();
    let c = Comment::new("/1/", "Nice work!", None, None);
    assert_eq!(Err(StoreError::WriteFailure), repo.save_comment(&c, Err(StoreError::WriteFailure)).map(|_| ()));
    assert!(repo.all_comments().is_empty());
    assert!(repo.comment_with_id(c.id).is_none());
}

#[test]
fn save_hands_back_the_notifier() {
    let mut repo = for_testing();
    let c = Comment::new("/1/", "Nice work!", None, None);
    assert!(repo.save_comment(&c, Ok(())).unwrap().is_none());
    repo.set_notifier(Notifier::new("admin@example.org"));
    let n = repo.save_comment(&Comment::new("/1/", "More", None, None), Ok(())).unwrap().unwrap();
    assert_eq!("admin@example.org", n.recipient);
}

#[test]
fn save_then_delete_leaves_nothing_to_find() {
    let mut repo = for_testing();
    let c = Comment::new("/1/", "Nice work!", None, None);
    repo.save_comment(&c, Ok(())).unwrap();
    assert_eq!(Ok(()), repo.delete_comment(&c, Ok(())));
    assert!(repo.comment_with_id(c.id).is_none());
    assert!(repo.all_comments().is_empty());
}

#[test]
fn deleting_an_unknown_comment_reports_not_found_and_changes_nothing() {
    let mut repo = for_testing();
    let kept = Comment::new("/1/", "kept", None, None);
    repo.save_comment(&kept, Ok(())).unwrap();
    let unknown = Comment::new("/1/", "never saved", None, None);
    assert_eq!(Err(StoreError::NotFound), repo.delete_comment(&unknown, Err(StoreError::NotFound)));
    assert_eq!(1, repo.all_comments().len());
    assert!(!repo.remove_comment(&unknown));
    assert_eq!(1, repo.all_comments().len());
}

#[test]
fn failed_delete_keeps_the_comment() {
    let mut repo = for_testing();
    let c = Comment::new("/1/", "x", None, None);
    repo.save_comment(&c, Ok(())).unwrap();
    assert_eq!(Err(StoreError::DeleteFailure), repo.delete_comment(&c, Err(StoreError::DeleteFailure)));
    assert!(repo.comment_with_id(c.id).is_some());
}

#[test]
fn scenario_save_then_fresh_store_loads_it() {
    let mut repo = CommentRepository::new("var/scenario");
    let c = Comment::new("/1/", "Nice work!", None, None);
    repo.save_comment(&c, Ok(())).unwrap();
    assert_eq!(1, repo.all_comments().len());
    let mut fresh = CommentRepository::new("var/scenario");
    assert!(fresh.consume_reload_request());
    fresh.reload_all_comments(repo.all_comments());
    assert!(fresh.all_comments().iter().any(|x| x.content == "Nice work!"));
}

#[test]
fn scenario_path_order_follows_time_not_saving() {
    let mut repo = for_testing();
    let t: i64 = 1_700_000_000;
    let a = Comment::from_parts(1, t - 2 * 3600, "/t/", "a", None, None);
    let b = Comment::from_parts(2, t, "/t/", "b", None, None);
    let c = Comment::from_parts(3, t - 5 * 60, "/t/", "c", None, None);
    repo.save_comment(&a, Ok(())).unwrap();
    repo.save_comment(&b, Ok(())).unwrap();
    repo.save_comment(&c, Ok(())).unwrap();
    repo.add_comment(&Comment::from_parts(4, t - 9000, "/u/", "elsewhere", None, None));
    let list = repo.comments_for_path("/t/");
    let times: Vec<i64> = list.iter().map(|x| x.timestamp).collect();
    assert_eq!(vec![t - 2 * 3600, t - 5 * 60, t], times);
}

#[test]
fn path_query_on_unknown_path_is_empty() {
    let mut repo = for_testing();
    repo.add_comment(&Comment::new("/a/", "x", None, None));
    assert!(repo.comments_for_path("/b/").is_empty());
    assert!(repo.comments_for_path("/a").is_empty());
}

#[test]
fn reload_replaces_the_cache_in_one_step() {
    let mut repo = for_testing();
    repo.add_comment(&Comment::from_parts(1, 10, "/a/", "stale", None, None));
    repo.set_reload_flag(true);
    assert!(repo.consume_reload_request());
    assert!(!repo.consume_reload_request());
    let on_disk = vec![
        Comment::from_parts(2, 20, "/a/", "fresh", None, None),
        Comment::from_parts(3, 30, "/b/", "other", None, None),
    ];
    repo.reload_all_comments(on_disk);
    let all = repo.all_comments();
    assert_eq!(2, all.len());
    assert!(repo.comment_with_id(1).is_none());
    assert_eq!("fresh", repo.comment_with_id(2).unwrap().content);
}

#[test]
fn loading_keeps_what_is_cached() {
    let mut repo = for_testing();
    repo.add_comment(&Comment::from_parts(1, 10, "/a/", "one", None, None));
    repo.load_all_comments(vec![
        Comment::from_parts(2, 20, "/a/", "two", None, None),
        Comment::from_parts(1, 10, "/a/", "one again", None, None),
    ]);
    let all = repo.all_comments();
    assert_eq!(2, all.len());
    assert_eq!("two", all[0].content);
    assert_eq!("one again", all[1].content);
}

#[test]
fn new_repository_asks_for_a_first_load() {
    let mut repo = CommentRepository::new("/data");
    assert_eq!("/data", repo.root_path());
    assert!(repo.notifier().is_none());
    assert!(repo.consume_reload_request());
    assert!(!repo.consume_reload_request());
}

#[test]
fn document_names_follow_the_identifier() {
    let repo = CommentRepository::new("/data");
    let id: u128 = 0xa1a2a3a4b1b2c1c2d1d2d3d4d5d6d7d8;
    assert_eq!("/data/a1a2a3a4b1b2c1c2d1d2d3d4d5d6d7d8.json", repo.document_path(id));
    assert_eq!("/data/00000000000000000000000000000001.json", repo.document_path(1));
    assert_eq!("/data/*.json", repo.document_pattern());
}
