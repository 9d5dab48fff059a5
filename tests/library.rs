use std::collections::HashMap;
use std::time::Duration;

use theme_demo::{
    check_response_status, helper_function, merge_maps, process_numbers, user_data_url, AppError,
    Cache, Repository, User, UserRepository, API_VERSION, MAX_BUFFER_SIZE,
};

#[test]
fn test_user_validation() {
    let user = User::new("john_doe".to_string(), "john@example.com".to_string());
    assert!(user.validate().is_ok());

    let invalid_user = User::new("".to_string(), "invalid-email".to_string());
    assert!(invalid_user.validate().is_err());
}

#[test]
fn new_user_defaults() {
    let user = User::new("alice".to_string(), "alice@example.com".to_string());
    assert_eq!(user.id, 0);
    assert_eq!(user.username, "alice");
    assert_eq!(user.email, "alice@example.com");
    assert!(user.full_name.is_none());
    assert!(user.active);
    assert!(user.created_at > 0);
}

#[test]
fn empty_username_is_reported_first() {
    let user = User::new("".to_string(), "invalid-email".to_string());
    match user.validate() {
        Err(AppError::InvalidInput { field, value }) => {
            assert_eq!(field, "username");
            assert_eq!(value, "");
        }
        other => panic!("unexpected result: {:?}", other),
    }
}

#[test]
fn malformed_email_is_reported() {
    for email in ["invalid-email", "a@b.c", "@example.com", "a@.com", "a@example.c0m", "a b@x.org"] {
        let user = User::new("bob".to_string(), email.to_string());
        match user.validate() {
            Err(AppError::InvalidInput { field, value }) => {
                assert_eq!(field, "email");
                assert_eq!(value, email);
            }
            other => panic!("unexpected result for {}: {:?}", email, other),
        }
    }
}

#[test]
fn well_formed_emails_pass() {
    for email in ["a@b.co", "first.last+tag@sub.example.org", "x_y%z@my-host.io", "A1@B2.CD"] {
        let user = User::new("bob".to_string(), email.to_string());
        assert!(user.validate().is_ok(), "{}", email);
    }
}

#[test]
fn error_messages() {
    assert_eq!(AppError::NotFound("user 7".to_string()).message(), "Not found: user 7");
    let e = AppError::InvalidInput { field: "email".to_string(), value: "x".to_string() };
    assert_eq!(e.message(), "Invalid input for email: x");
    assert_eq!(AppError::DatabaseError("down".to_string()).message(), "Database error: down");
    let e = AppError::NetworkError { code: 404, message: "404 Not Found".to_string() };
    assert_eq!(e.message(), "Network error 404: 404 Not Found");
    let e = AppError::NetworkError { code: 0, message: String::new() };
    assert_eq!(e.message(), "Network error 0: ");
    let e = AppError::NetworkError { code: u32::MAX, message: "m".to_string() };
    assert_eq!(e.message(), "Network error 4294967295: m");
}

#[test]
fn cache_get_and_insert() {
    let mut cache: Cache<String> = Cache::new("sessions", Duration::from_secs(60));
    assert_eq!(cache.len(), 0);
    assert_eq!(cache.get("a"), None);
    assert_eq!(cache.insert("a".to_string(), "one".to_string()), None);
    assert_eq!(cache.insert("b".to_string(), "two".to_string()), None);
    assert_eq!(cache.get("a"), Some(&"one".to_string()));
    assert_eq!(cache.get("b"), Some(&"two".to_string()));
    assert_eq!(cache.insert("a".to_string(), "uno".to_string()), Some("one".to_string()));
    assert_eq!(cache.get("a"), Some(&"uno".to_string()));
    assert_eq!(cache.get("c"), None);
    assert_eq!(cache.len(), 2);
}

#[test]
fn cache_description() {
    let mut cache: Cache<String> = Cache::new("users", Duration::from_secs(5));
    assert_eq!(cache.describe(), "Cache 'users' with 0 items");
    cache.insert("k".to_string(), "v".to_string());
    cache.insert("l".to_string(), "w".to_string());
    assert_eq!(cache.describe(), "Cache 'users' with 2 items");
}

#[test]
fn merge_keeps_base_values() {
    let mut base: HashMap<u64, String> = HashMap::new();
    base.insert(1, "base-one".to_string());
    base.insert(2, "base-two".to_string());
    let mut other: HashMap<u64, String> = HashMap::new();
    other.insert(2, "other-two".to_string());
    other.insert(3, "other-three".to_string());
    let merged = merge_maps(base, other);
    assert_eq!(merged.len(), 3);
    assert_eq!(merged[&1], "base-one");
    assert_eq!(merged[&2], "base-two");
    assert_eq!(merged[&3], "other-three");
}

#[test]
fn merge_with_empty_maps() {
    let empty: HashMap<String, i32> = HashMap::new();
    let mut one: HashMap<String, i32> = HashMap::new();
    one.insert("x".to_string(), 5);
    let merged = merge_maps(empty.clone(), one.clone());
    assert_eq!(merged, one);
    let merged = merge_maps(one.clone(), empty);
    assert_eq!(merged, one);
}

#[test]
fn numbers_are_filtered_and_doubled() {
    assert_eq!(process_numbers(vec![1, -2, 0, 25, 49, 50, 60, 3]), vec![2, 50, 98, 6]);
    assert_eq!(process_numbers(vec![]), Vec::<i32>::new());
    assert_eq!(process_numbers(vec![i32::MAX, i32::MIN, -1]), Vec::<i32>::new());
}

#[test]
fn repository_save_find_delete() {
    let mut repo = UserRepository::new();
    let alice = User::new("alice".to_string(), "alice@example.com".to_string());
    let bob = User::new("bob".to_string(), "bob@example.org".to_string());
    assert_eq!(repo.save(&alice).unwrap(), 1);
    assert_eq!(repo.save(&bob).unwrap(), 2);
    assert_eq!(repo.len(), 2);
    let found = repo.find_by_id(1).unwrap().unwrap();
    assert_eq!(found.id, 1);
    assert_eq!(found.username, "alice");
    assert!(repo.find_by_id(3).unwrap().is_none());
    assert!(repo.delete(1).unwrap());
    assert!(!repo.delete(1).unwrap());
    assert!(repo.find_by_id(1).unwrap().is_none());
    assert_eq!(repo.len(), 1);
}

#[test]
fn repository_rejects_invalid_user() {
    let mut repo = UserRepository::new();
    let user = User::new("carol".to_string(), "not-an-email".to_string());
    match repo.save(&user) {
        Err(AppError::InvalidInput { field, .. }) => assert_eq!(field, "email"),
        other => panic!("unexpected result: {:?}", other),
    }
    assert_eq!(repo.len(), 0);
}

#[test]
fn repository_id_follows_size() {
    let mut repo = UserRepository::new();
    let user = User::new("dave".to_string(), "dave@example.com".to_string());
    assert_eq!(repo.save(&user).unwrap(), 1);
    assert_eq!(repo.save(&user).unwrap(), 2);
    assert!(repo.delete(1).unwrap());
    // One user is left, so the next id is 2 again and replaces it.
    assert_eq!(repo.save(&user).unwrap(), 2);
    assert_eq!(repo.len(), 1);
}

#[test]
fn url_for_user() {
    assert_eq!(user_data_url("https://api.example.com", 42), "https://api.example.com/users/42");
    assert_eq!(user_data_url("", 0), "/users/0");
    assert_eq!(user_data_url("h", u64::MAX), "h/users/18446744073709551615");
}

#[test]
fn response_status_classes() {
    assert!(check_response_status(200, "200 OK".to_string()).is_ok());
    assert!(check_response_status(299, String::new()).is_ok());
    match check_response_status(404, "404 Not Found".to_string()) {
        Err(AppError::NetworkError { code, message }) => {
            assert_eq!(code, 404);
            assert_eq!(message, "404 Not Found");
        }
        other => panic!("unexpected result: {:?}", other),
    }
    assert!(check_response_status(199, String::new()).is_err());
    assert!(check_response_status(300, String::new()).is_err());
}

#[test]
fn fixed_values() {
    assert_eq!(helper_function(), 42);
    assert_eq!(MAX_BUFFER_SIZE, 1048576);
    assert_eq!(API_VERSION, "2.0.0");
}

#[test]
fn user_with_given_creation_time() {
    let user = User::with_created_at("erin".to_string(), "erin@example.net".to_string(), -86400);
    assert_eq!(user.id, 0);
    assert_eq!(user.username, "erin");
    assert_eq!(user.email, "erin@example.net");
    assert!(user.full_name.is_none());
    assert!(user.active);
    assert_eq!(user.created_at, -86400);
    assert!(user.validate().is_ok());
}

#[test]
fn merge_is_associative_and_idempotent() {
    let mut a: HashMap<u64, u64> = HashMap::new();
    a.insert(1, 10);
    let mut b: HashMap<u64, u64> = HashMap::new();
    b.insert(1, 11);
    b.insert(2, 20);
    let mut c: HashMap<u64, u64> = HashMap::new();
    c.insert(2, 21);
    c.insert(3, 30);
    let left = merge_maps(merge_maps(a.clone(), b.clone()), c.clone());
    let right = merge_maps(a.clone(), merge_maps(b.clone(), c.clone()));
    assert_eq!(left, right);
    assert_eq!(left[&1], 10);
    assert_eq!(left[&2], 20);
    assert_eq!(left[&3], 30);
    let once = merge_maps(a.clone(), b.clone());
    assert_eq!(merge_maps(once.clone(), b.clone()), once);
    assert_eq!(merge_maps(b.clone(), b.clone()), b);
}
