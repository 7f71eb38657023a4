use rit::{
    format_datastore_list_entry, format_datastore_list_entry_version, format_datastore_list_store,
    format_json, u64_to_string, EntryInfo, EntryListPage, FormatError, StoreInfo, StoreListPage,
    VersionInfo, VersionListPage,
};

const YELLOW: &str = "\u{1b}[33m";
const GREEN: &str = "\u{1b}[32m";
const RED: &str = "\u{1b}[31m";
const RESET: &str = "\u{1b}[0m";

#[test]
fn store_list_renders_blocks_without_trailing_separator() {
    let page = StoreListPage {
        datastores: vec![
            StoreInfo {
                name: "DS1".to_string(),
                created_time: "2022-01-01T00:00:00Z".to_string(),
            },
            StoreInfo {
                name: "DS2".to_string(),
                created_time: "2022-02-02T00:00:00Z".to_string(),
            },
        ],
        next_page_cursor: None,
    };
    let expected = format!(
        "{YELLOW}datastore DS1{RESET}\nCreated: 2022-01-01T00:00:00Z\n\n\
         {YELLOW}datastore DS2{RESET}\nCreated: 2022-02-02T00:00:00Z\n"
    );
    assert_eq!(format_datastore_list_store(&page), expected);
}

#[test]
fn store_list_of_one_item_has_one_block() {
    let page = StoreListPage {
        datastores: vec![StoreInfo {
            name: "Only".to_string(),
            created_time: "T".to_string(),
        }],
        next_page_cursor: Some("c".to_string()),
    };
    let expected = format!("{YELLOW}datastore Only{RESET}\nCreated: T\n");
    assert_eq!(format_datastore_list_store(&page), expected);
}

#[test]
fn empty_store_list_renders_nothing() {
    let page = StoreListPage {
        datastores: vec![],
        next_page_cursor: None,
    };
    assert_eq!(format_datastore_list_store(&page), "");
}

#[test]
fn entry_list_renders_key_and_scope() {
    let page = EntryListPage {
        keys: vec![
            EntryInfo {
                key: "user_1".to_string(),
                scope: "v1".to_string(),
            },
            EntryInfo {
                key: "user_2".to_string(),
                scope: "global".to_string(),
            },
        ],
        next_page_cursor: None,
    };
    let expected = format!(
        "{YELLOW}key user_1{RESET}\nScope: v1\n\n{YELLOW}key user_2{RESET}\nScope: global\n"
    );
    assert_eq!(format_datastore_list_entry(&page), expected);
}

#[test]
fn version_list_marks_tombstones_and_counts_length() {
    let page = VersionListPage {
        versions: vec![
            VersionInfo {
                version: "v1".to_string(),
                deleted: false,
                content_length: 42,
                created_time: "T1".to_string(),
                object_created_time: "T0".to_string(),
            },
            VersionInfo {
                version: "v2".to_string(),
                deleted: true,
                content_length: 0,
                created_time: "T2".to_string(),
                object_created_time: "T0".to_string(),
            },
        ],
        next_page_cursor: None,
    };
    let expected = format!(
        "{YELLOW}version v1{RESET} ({GREEN}ACTIVE{RESET})\nLength:  42\nCreated: T1\n\n    Object Created: T0\n\n\
         {YELLOW}version v2{RESET} ({RED}DELETING{RESET})\nLength:  0\nCreated: T2\n\n    Object Created: T0\n"
    );
    assert_eq!(format_datastore_list_entry_version(&page), expected);
}

#[test]
fn numbers_render_in_decimal() {
    assert_eq!(u64_to_string(0), "0");
    assert_eq!(u64_to_string(7), "7");
    assert_eq!(u64_to_string(100), "100");
    assert_eq!(u64_to_string(120345), "120345");
    assert_eq!(u64_to_string(u64::MAX), "18446744073709551615");
}

#[test]
fn json_is_reformatted_with_stable_indentation() {
    let out = format_json("{\"a\":1}".to_string()).unwrap();
    assert_eq!(out, "{\n  \"a\": 1\n}");
}

#[test]
fn non_json_values_fail_formatting_distinctly() {
    let err = format_json("not json".to_string()).unwrap_err();
    assert_eq!(err, FormatError::InvalidJson);
    assert_eq!(err.message(), "Value is not valid JSON");
}

#[test]
fn formatted_json_reparses_to_an_equal_value() {
    // Round trip: the pretty form holds the same value, and formatting it
    // again changes nothing.
    let raw = "{\"b\": [1, 2.5, null], \"a\": \"x\"}".to_string();
    let pretty = format_json(raw.clone()).unwrap();
    let before: serde_json::Value = serde_json::from_str(&raw).unwrap();
    let after: serde_json::Value = serde_json::from_str(&pretty).unwrap();
    assert_eq!(before, after);
    assert_eq!(format_json(pretty.clone()).unwrap(), pretty);
}
