use ratquest::text::{str_eq, str_lt};
use ratquest::{ApiRequest, GroupList, RequestType, StringMap, ValidationError};

#[test]
fn created_group_is_listed_once() {
    let mut list = GroupList::new();
    assert_eq!(list.create_group("g1"), Ok(()));
    let names = list.list_groups();
    assert_eq!(names.iter().filter(|n| n.as_str() == "g1").count(), 1);
    assert_eq!(names, vec!["g1".to_string()]);
}

#[test]
fn second_creation_of_a_group_is_refused() {
    let mut list = GroupList::new();
    assert_eq!(list.create_group("g1"), Ok(()));
    assert_eq!(
        list.create_request("g1", "r1", RequestType::GET),
        Ok(())
    );
    assert_eq!(
        list.create_group("g1"),
        Err(ValidationError::DuplicateGroup)
    );
    assert_eq!(list.list_groups(), vec!["g1".to_string()]);
    assert_eq!(list.get("g1").unwrap().len(), 1);
}

#[test]
fn empty_names_are_refused() {
    let mut list = GroupList::new();
    assert_eq!(list.create_group(""), Err(ValidationError::EmptyName));
    assert!(list.is_empty());
    assert_eq!(list.create_group("g"), Ok(()));
    assert_eq!(
        list.create_request("g", "", RequestType::GET),
        Err(ValidationError::EmptyName)
    );
    assert_eq!(
        list.create_request("missing", "", RequestType::GET),
        Err(ValidationError::EmptyName)
    );
}

#[test]
fn requests_need_a_known_group_and_a_fresh_name() {
    let mut list = GroupList::new();
    assert_eq!(
        list.create_request("g", "r", RequestType::GET),
        Err(ValidationError::UnknownGroup)
    );
    assert_eq!(list.create_group("g"), Ok(()));
    assert_eq!(list.create_request("g", "r", RequestType::POST), Ok(()));
    assert_eq!(
        list.create_request("g", "r", RequestType::GET),
        Err(ValidationError::DuplicateRequest)
    );
    assert_eq!(list.create_group("h"), Ok(()));
    assert_eq!(list.create_request("h", "r", RequestType::GET), Ok(()));
    let requests = list.get("g").unwrap();
    assert_eq!(requests.len(), 1);
    assert_eq!(requests[0].request_type, RequestType::POST);
}

#[test]
fn groups_are_listed_in_the_order_of_their_names() {
    let mut list = GroupList::new();
    for name in ["pear", "apple", "zoo", "Apple", "apple2", "app", "\u{e9}t\u{e9}"] {
        assert_eq!(list.create_group(name), Ok(()));
    }
    let mut expected: Vec<String> = ["pear", "apple", "zoo", "Apple", "apple2", "app", "\u{e9}t\u{e9}"]
        .iter()
        .map(|s| s.to_string())
        .collect();
    expected.sort();
    assert_eq!(list.list_groups(), expected);
    assert_eq!(list.position("Apple"), Some(0));
    assert_eq!(list.position("app"), Some(1));
    assert_eq!(list.position("zoo"), Some(5));
    assert_eq!(list.position("nothing"), None);
    assert_eq!(list.len(), 7);
    let (name, requests) = list.get_index(2).unwrap();
    assert_eq!(name, "apple");
    assert!(requests.is_empty());
    assert!(list.get_index(7).is_none());
}

#[test]
fn requests_keep_their_insertion_order() {
    let mut list = GroupList::new();
    assert_eq!(list.create_group("g"), Ok(()));
    for name in ["z", "a", "m"] {
        assert_eq!(list.create_request("g", name, RequestType::GET), Ok(()));
    }
    let names: Vec<&str> = list.get("g").unwrap().iter().map(|r| r.name.as_str()).collect();
    assert_eq!(names, vec!["z", "a", "m"]);
}

#[test]
fn deleting_removes_a_group_or_a_request() {
    let mut list = GroupList::new();
    assert_eq!(list.create_group("a"), Ok(()));
    assert_eq!(list.create_group("b"), Ok(()));
    assert_eq!(list.create_request("a", "r1", RequestType::GET), Ok(()));
    assert_eq!(list.create_request("a", "r2", RequestType::GET), Ok(()));
    assert!(!list.delete_request("a", "r3"));
    assert!(!list.delete_request("c", "r1"));
    assert!(list.delete_request("a", "r1"));
    assert_eq!(list.get("a").unwrap().len(), 1);
    assert_eq!(list.get("a").unwrap()[0].name, "r2");
    assert!(list.delete_group("a"));
    assert!(!list.delete_group("a"));
    assert!(!list.contains_key("a"));
    assert_eq!(list.list_groups(), vec!["b".to_string()]);
}

#[test]
fn insert_replaces_the_requests_of_a_group() {
    let mut list = GroupList::new();
    assert!(list
        .insert(
            "g".to_string(),
            vec![ApiRequest::new("r1".to_string(), RequestType::GET)]
        )
        .is_none());
    let previous = list.insert("g".to_string(), Vec::new()).unwrap();
    assert_eq!(previous.len(), 1);
    assert!(list.get("g").unwrap().is_empty());
    list.get_mut("g")
        .unwrap()
        .push(ApiRequest::new("r2".to_string(), RequestType::PATCH));
    assert_eq!(list.get("g").unwrap()[0].name, "r2");
    assert!(list.get_mut("h").is_none());
    let removed = list.remove("g").unwrap();
    assert_eq!(removed[0].request_type, RequestType::PATCH);
    assert!(list.remove("g").is_none());
}

#[test]
fn string_order_is_the_order_of_the_bytes() {
    let samples = ["", "a", "A", "ab", "b", "\u{e9}", "z", "zz", "\u{10348}", "~"];
    for a in samples {
        for b in samples {
            assert_eq!(str_lt(a, b), a < b, "{:?} < {:?}", a, b);
            assert_eq!(str_eq(a, b), a == b, "{:?} == {:?}", a, b);
        }
    }
}

#[test]
fn string_map_keeps_insertion_order() {
    let mut map = StringMap::new();
    assert!(map.is_empty());
    assert!(map.insert("b".to_string(), "1".to_string()).is_none());
    assert!(map.insert("a".to_string(), "2".to_string()).is_none());
    assert_eq!(
        map.insert("b".to_string(), "3".to_string()),
        Some("1".to_string())
    );
    assert_eq!(map.len(), 2);
    assert_eq!(
        map.to_vec(),
        vec![
            ("b".to_string(), "3".to_string()),
            ("a".to_string(), "2".to_string())
        ]
    );
    assert_eq!(map.get("a").unwrap(), "2");
    assert!(map.get("c").is_none());
    let (key, value) = map.get_index(1).unwrap();
    assert_eq!((key.as_str(), value.as_str()), ("a", "2"));
    assert!(map.get_index(2).is_none());
    let copy = map.clone();
    assert_eq!(map.remove("b"), Some("3".to_string()));
    assert_eq!(map.remove("b"), None);
    assert_eq!(map.to_vec(), vec![("a".to_string(), "2".to_string())]);
    assert_eq!(copy.len(), 2);
}

#[test]
fn string_map_from_pairs_keeps_the_last_value() {
    let map = StringMap::from_pairs(vec![
        ("k".to_string(), "1".to_string()),
        ("j".to_string(), "2".to_string()),
        ("k".to_string(), "3".to_string()),
    ]);
    assert_eq!(
        map.to_vec(),
        vec![
            ("k".to_string(), "3".to_string()),
            ("j".to_string(), "2".to_string())
        ]
    );
}
