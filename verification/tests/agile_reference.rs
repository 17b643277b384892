//! The agile reference: cloning and resolving shared handles.

use sf_rs::agile::AgileRef;

#[test]
fn a_wrapped_handle_resolves_to_what_was_wrapped() {
    let agile = AgileRef::new(String::from("client"));
    assert_eq!(agile.resolve(), "client");
}

#[test]
fn every_clone_resolves_to_the_same_underlying_object() {
    let original = AgileRef::new(vec![1u32, 2, 3]);
    let first = original.clone();
    let second = original.clone();
    assert_eq!(first.resolve(), original.resolve());
    assert_eq!(second.resolve(), original.resolve());
    assert_eq!(first.resolve(), &vec![1, 2, 3]);
}

#[test]
fn a_clone_outlives_the_wrapper_it_was_taken_from() {
    let original = AgileRef::new(String::from("still-here"));
    let clone = original.clone();
    drop(original);
    assert_eq!(clone.resolve(), "still-here");
}

#[test]
fn clones_resolved_from_concurrent_tasks_see_the_same_object() {
    // Each task owns its clone and resolves its own handle, as a native
    // callback does; no resolved handle crosses a thread boundary.
    let rt = tokio::runtime::Runtime::new().unwrap();
    let agile = AgileRef::new(String::from("shared-client"));
    let (a, b) = rt.block_on(async {
        let clone_a = agile.clone();
        let clone_b = agile.clone();
        let task_a = tokio::spawn(async move { clone_a.resolve().clone() });
        let task_b = tokio::spawn(async move { clone_b.resolve().clone() });
        (task_a.await.unwrap(), task_b.await.unwrap())
    });
    assert_eq!(a, "shared-client");
    assert_eq!(b, "shared-client");
}
