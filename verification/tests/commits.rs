use launcher_core::datatypes::commit::{Commit, CommitAuthor, CommitRange, FetchError};
use launcher_core::states::commits::CommitState;

fn commit(title: &str, author: &str) -> Commit {
    Commit { title: title.to_string(), author: CommitAuthor { name: author.to_string() } }
}

#[test]
fn new_log_is_empty() {
    assert_eq!(CommitState::new().count(), 0);
    assert_eq!(CommitState::default().count(), 0);
}

#[test]
fn update_appends_in_order() {
    let mut state = CommitState::new();
    state.update(CommitRange(vec![commit("one", "ann"), commit("two", "bob")]));
    assert_eq!(state.count(), 2);
    state.update(CommitRange(vec![commit("three", "cyd")]));
    assert_eq!(state.count(), 3);
    assert_eq!(state.items[0], commit("one", "ann"));
    assert_eq!(state.items[1], commit("two", "bob"));
    assert_eq!(state.items[2], commit("three", "cyd"));
}

#[test]
fn update_with_nothing_changes_nothing() {
    let mut state = CommitState::new();
    state.update(CommitRange(vec![commit("one", "ann")]));
    state.update(CommitRange(Vec::new()));
    assert_eq!(state.items, vec![commit("one", "ann")]);
}

#[test]
fn load_takes_in_a_fetch() {
    let mut state = CommitState::new();
    state.load(Ok(CommitRange(vec![commit("one", "ann")])));
    state.load(Ok(CommitRange(vec![commit("two", "bob")])));
    assert_eq!(state.items, vec![commit("one", "ann"), commit("two", "bob")]);
}

#[test]
fn failed_request_leaves_the_log() {
    let mut state = CommitState::new();
    state.load(Ok(CommitRange(vec![commit("one", "ann")])));
    state.load(Err(FetchError::Request));
    assert_eq!(state.items, vec![commit("one", "ann")]);
}

#[test]
fn bad_status_leaves_the_log() {
    let mut state = CommitState::new();
    state.load(Ok(CommitRange(vec![commit("one", "ann")])));
    state.load(Err(FetchError::Status));
    assert_eq!(state.items, vec![commit("one", "ann")]);
}

#[test]
fn undecodable_answer_leaves_the_log() {
    let mut state = CommitState::new();
    state.load(Err(FetchError::Decode));
    assert_eq!(state.count(), 0);
}
