use std::cell::{Cell, RefCell};
use std::rc::Rc;

use vrcx_application::error::Error;
use vrcx_application::social::saved_group_favorites::{
    check_group_id, require_collection_name, require_owner, SavedGroupCollectionCreateInput,
    SavedGroupCollectionDeleteInput, SavedGroupFavoriteAddInput, SavedGroupFavoriteRemoveInput,
    SavedGroupFavoritesPort, SavedGroupFavoritesRuntime, SessionScope,
};

#[derive(Default)]
struct RecordingPort {
    calls: RefCell<Vec<Vec<String>>>,
    fail: Cell<bool>,
}

impl RecordingPort {
    fn record(&self, operation: &str, owner: &str, values: &[&str]) -> Result<i64, Error> {
        let mut call = vec![operation.to_string(), owner.to_string()];
        call.extend(values.iter().map(|value| value.to_string()));
        self.calls.borrow_mut().push(call);
        if self.fail.get() {
            return Err(Error::Custom("storage failed".into()));
        }
        Ok(0)
    }
}

impl SavedGroupFavoritesPort for RecordingPort {
    type Snapshot = ();

    fn snapshot(&self, owner: &str) -> Result<(), Error> {
        self.record("snapshot", owner, &[])?;
        Ok(())
    }

    fn create_collection(&self, owner: &str, id: &str, name: &str) -> Result<i64, Error> {
        self.record("create", owner, &[id, name])
    }

    fn delete_collection(&self, owner: &str, id: &str) -> Result<i64, Error> {
        self.record("delete", owner, &[id])
    }

    fn add_group(&self, owner: &str, id: &str, group: &str) -> Result<i64, Error> {
        self.record("add", owner, &[id, group])
    }

    fn remove_group(&self, owner: &str, group: &str) -> Result<i64, Error> {
        self.record("remove", owner, &[group])
    }

    fn favorites_changed(&self) {
        self.calls.borrow_mut().push(vec!["changed".into()]);
    }
}

#[derive(Clone)]
struct TestScope(Rc<RefCell<(bool, String)>>);

impl TestScope {
    fn set(&self, user_id: &str) {
        *self.0.borrow_mut() = (!user_id.is_empty(), user_id.to_string());
    }
}

impl SessionScope for TestScope {
    fn current(&self) -> (bool, String) {
        self.0.borrow().clone()
    }
}

fn runtime() -> (SavedGroupFavoritesRuntime<RecordingPort, TestScope>, TestScope) {
    let scope = TestScope(Rc::new(RefCell::new((true, "usr_a".to_string()))));
    (
        SavedGroupFavoritesRuntime::new(RecordingPort::default(), scope.clone()),
        scope,
    )
}

fn message(error: Error) -> String {
    error.message()
}

const GROUP: &str = "grp_11111111-1111-4111-8111-111111111111";

#[test]
fn creation_normalizes_name_generates_id_and_invalidates_after_success() {
    let (runtime, _) = runtime();
    assert_eq!(
        runtime
            .create_collection(SavedGroupCollectionCreateInput { name: "  Group A  ".into() })
            .unwrap(),
        0
    );
    let calls = runtime.port.calls.borrow();
    assert_eq!(calls[0][0], "create");
    assert_eq!(calls[0][1], "usr_a");
    assert_eq!(uuid::Uuid::parse_str(&calls[0][2]).unwrap().get_version_num(), 4);
    assert_eq!(calls[0][3], "Group A");
    assert_eq!(calls[1], vec!["changed"]);
}

#[test]
fn validation_precedes_authentication_and_never_calls_storage() {
    let (runtime, scope) = runtime();
    scope.set("");
    assert_eq!(
        message(
            runtime
                .create_collection(SavedGroupCollectionCreateInput { name: "  ".into() })
                .unwrap_err()
        ),
        "Saved group collection name is required."
    );
    assert_eq!(
        message(
            runtime
                .add_group(SavedGroupFavoriteAddInput {
                    collection_id: "c".into(),
                    group_id: "invalid".into()
                })
                .unwrap_err()
        ),
        "Saved group favorite requires a canonical group ID."
    );
    assert_eq!(
        message(runtime.snapshot().unwrap_err()),
        "Saved group favorites require an authenticated session."
    );
    assert!(runtime.port.calls.borrow().is_empty());

    assert_eq!(require_collection_name("  Group A  ").unwrap(), "Group A");
    assert!(check_group_id(" grp_11111111-1111-4111-8111-111111111111 ").is_ok());
    assert!(require_owner(false, "usr_a").is_err());
}

#[test]
fn each_operation_captures_current_owner_and_keeps_original_group_input() {
    let (runtime, scope) = runtime();
    runtime.snapshot().unwrap();
    scope.set("usr_b");
    let padded = format!(" {GROUP} ");
    runtime
        .add_group(SavedGroupFavoriteAddInput {
            collection_id: " c ".into(),
            group_id: padded.clone(),
        })
        .unwrap();
    let calls = runtime.port.calls.borrow();
    assert_eq!(calls[0], vec!["snapshot", "usr_a"]);
    assert_eq!(calls[1], vec!["add", "usr_b", " c ", padded.as_str()]);
    assert_eq!(calls[2], vec!["changed"]);
}

#[test]
fn failed_mutations_propagate_error_without_invalidating() {
    let (runtime, _) = runtime();
    runtime.port.fail.set(true);
    assert_eq!(
        message(
            runtime
                .delete_collection(SavedGroupCollectionDeleteInput { collection_id: "c".into() })
                .unwrap_err()
        ),
        "storage failed"
    );
    assert_eq!(
        message(
            runtime
                .remove_group(SavedGroupFavoriteRemoveInput { group_id: GROUP.into() })
                .unwrap_err()
        ),
        "storage failed"
    );
    assert_eq!(runtime.port.calls.borrow().len(), 2);
}

#[test]
fn successful_no_op_removals_still_invalidate_each_time() {
    let (runtime, _) = runtime();
    runtime
        .delete_collection(SavedGroupCollectionDeleteInput { collection_id: "c".into() })
        .unwrap();
    runtime
        .remove_group(SavedGroupFavoriteRemoveInput { group_id: GROUP.into() })
        .unwrap();
    let calls = runtime.port.calls.borrow();
    assert_eq!(
        calls.iter().map(|call| call[0].as_str()).collect::<Vec<_>>(),
        vec!["delete", "changed", "remove", "changed"]
    );
}
