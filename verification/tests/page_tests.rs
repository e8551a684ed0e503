use minigh::page::{Page, PageDocument, PageValue, ParsePageError};
use minigh::decode_page;

#[derive(Clone, Debug, PartialEq, Eq)]
struct Widget {
    name: String,
    color: String,
    power: u64,
}

fn widget(name: &str, color: &str, power: u64) -> Widget {
    Widget {
        name: name.to_string(),
        color: color.to_string(),
        power,
    }
}

fn widget_from_value(v: &serde_json::Value) -> Option<Widget> {
    Some(Widget {
        name: v.get("name")?.as_str()?.to_string(),
        color: v.get("color")?.as_str()?.to_string(),
        power: v.get("power")?.as_u64()?,
    })
}

/// Classify one top-level field value the way the page decoder reads it: a
/// non-negative integer, a boolean, an array whose elements all decode as
/// widgets, or anything else.
fn widget_page_value(v: serde_json::Value) -> PageValue<Widget> {
    if let Some(n) = v.as_u64() {
        return PageValue::Count(n);
    }
    if let Some(b) = v.as_bool() {
        return PageValue::Flag(b);
    }
    if let Some(arr) = v.as_array() {
        let mut items = Vec::new();
        for elem in arr {
            match widget_from_value(elem) {
                Some(w) => items.push(w),
                None => return PageValue::Other,
            }
        }
        return PageValue::List(items);
    }
    PageValue::Other
}

fn widget_document(src: &str) -> Option<PageDocument<Widget>> {
    let v: serde_json::Value = serde_json::from_str(src).ok()?;
    match v {
        serde_json::Value::Array(arr) => {
            let mut items = Vec::new();
            for elem in &arr {
                items.push(widget_from_value(elem)?);
            }
            Some(PageDocument::Array(items))
        }
        serde_json::Value::Object(map) => {
            let mut fields = Vec::new();
            for (k, val) in map {
                fields.push((k, widget_page_value(val)));
            }
            Some(PageDocument::Object(fields))
        }
        _ => None,
    }
}

fn decode_widget_page(src: &str) -> Option<Page<Widget>> {
    decode_page(widget_document(src)?).ok()
}

#[test]
fn from_list() {
    let src = r#"
    [
        {
            "name": "Steve",
            "color": "aquamarine",
            "power": 9001
        },
        {
            "name": "Widget O'Malley",
            "color": "taupe",
            "power": 42
        }
    ]
    "#;
    let page = decode_widget_page(src).unwrap();
    assert_eq!(
        page,
        Page {
            items: vec![
                widget("Steve", "aquamarine", 9001),
                widget("Widget O'Malley", "taupe", 42),
            ],
            total_count: None,
            incomplete_results: None,
        }
    );
}

#[test]
fn from_map() {
    let src = r#"
    {
        "total_count": 17,
        "widgets": [
            {
                "name": "Steve",
                "color": "aquamarine",
                "power": 9001
            },
            {
                "name": "Widget O'Malley",
                "color": "taupe",
                "power": 42
            }
        ]
    }
    "#;
    let page = decode_widget_page(src).unwrap();
    assert_eq!(
        page,
        Page {
            items: vec![
                widget("Steve", "aquamarine", 9001),
                widget("Widget O'Malley", "taupe", 42),
            ],
            total_count: Some(17),
            incomplete_results: None,
        }
    );
}

#[test]
fn from_map_no_total() {
    let src = r#"
    {
        "widgets": [
            {
                "name": "Steve",
                "color": "aquamarine",
                "power": 9001
            },
            {
                "name": "Widget O'Malley",
                "color": "taupe",
                "power": 42
            }
        ]
    }
    "#;
    let page = decode_widget_page(src).unwrap();
    assert_eq!(
        page,
        Page {
            items: vec![
                widget("Steve", "aquamarine", 9001),
                widget("Widget O'Malley", "taupe", 42),
            ],
            total_count: None,
            incomplete_results: None,
        }
    );
}

#[test]
fn from_map_extra_field() {
    let src = r#"
    {
        "total_count": 17,
        "widgets": [
            {
                "name": "Steve",
                "color": "aquamarine",
                "power": 9001
            },
            {
                "name": "Widget O'Malley",
                "color": "taupe",
                "power": 42
            }
        ],
        "mode": "ponens"
    }
    "#;
    let page = decode_widget_page(src).unwrap();
    assert_eq!(
        page,
        Page {
            items: vec![
                widget("Steve", "aquamarine", 9001),
                widget("Widget O'Malley", "taupe", 42),
            ],
            total_count: Some(17),
            incomplete_results: None,
        }
    );
}

#[test]
fn from_map_extra_list_field() {
    let src = r#"
    {
        "total_count": 17,
        "widgets": [
            {
                "name": "Steve",
                "color": "aquamarine",
                "power": 9001
            },
            {
                "name": "Widget O'Malley",
                "color": "taupe",
                "power": 42
            }
        ],
        "modes": ["ponens", "tollens"]
    }
    "#;
    let page = decode_widget_page(src).unwrap();
    assert_eq!(
        page,
        Page {
            items: vec![
                widget("Steve", "aquamarine", 9001),
                widget("Widget O'Malley", "taupe", 42),
            ],
            total_count: Some(17),
            incomplete_results: None,
        }
    );
}

#[test]
fn from_map_extra_item_list_field() {
    let src = r#"
    {
        "total_count": 17,
        "widgets": [
            {
                "name": "Steve",
                "color": "aquamarine",
                "power": 9001
            },
            {
                "name": "Widget O'Malley",
                "color": "taupe",
                "power": 42
            }
        ],
        "more_widgets": [
            {
                "name": "Gidget",
                "color": "chartreuse",
                "power": 23
            }
        ],
    }
    "#;
    assert!(decode_widget_page(src).is_none());
}

#[test]
fn from_map_extra_no_list_field() {
    let src = r#"
    {
        "total_count": 0
    }
    "#;
    assert!(decode_widget_page(src).is_none());
}

#[test]
fn from_search_results() {
    let src = r#"
    {
        "total_count": 100,
        "incomplete_results": true,
        "items": [
            {
                "name": "Steve",
                "color": "aquamarine",
                "power": 9001
            },
            {
                "name": "Widget O'Malley",
                "color": "taupe",
                "power": 42
            }
        ]
    }
    "#;
    let page = decode_widget_page(src).unwrap();
    assert_eq!(
        page,
        Page {
            items: vec![
                widget("Steve", "aquamarine", 9001),
                widget("Widget O'Malley", "taupe", 42),
            ],
            total_count: Some(100),
            incomplete_results: Some(true),
        }
    );
}

/// Classify a JSON document whose items are arbitrary JSON values.
fn value_document(src: &str) -> Option<PageDocument<serde_json::Value>> {
    let v: serde_json::Value = serde_json::from_str(src).ok()?;
    match v {
        serde_json::Value::Array(arr) => Some(PageDocument::Array(arr)),
        serde_json::Value::Object(map) => {
            let mut fields = Vec::new();
            for (k, val) in map {
                let pv = if let Some(n) = val.as_u64() {
                    PageValue::Count(n)
                } else if let Some(b) = val.as_bool() {
                    PageValue::Flag(b)
                } else if let serde_json::Value::Array(arr) = val {
                    PageValue::List(arr)
                } else {
                    PageValue::Other
                };
                fields.push((k, pv));
            }
            Some(PageDocument::Object(fields))
        }
        _ => None,
    }
}

fn json(src: &str) -> serde_json::Value {
    serde_json::from_str(src).unwrap()
}

#[test]
fn bare_array_has_no_counters() {
    let doc = value_document(r#"[{"a":1}]"#).unwrap();
    let page = decode_page(doc).unwrap();
    assert_eq!(page.items, vec![json(r#"{"a":1}"#)]);
    assert_eq!(page.total_count, None);
    assert_eq!(page.incomplete_results, None);
}

#[test]
fn wrapped_object_supplies_total_count() {
    let doc = value_document(r#"{"total_count":3,"widgets":[{"a":1}]}"#).unwrap();
    let page = decode_page(doc).unwrap();
    assert_eq!(page.items, vec![json(r#"{"a":1}"#)]);
    assert_eq!(page.total_count, Some(3));
    assert_eq!(page.incomplete_results, None);
}

#[test]
fn two_item_lists_are_ambiguous() {
    let doc = value_document(r#"{"total_count":3,"w1":[{"a":1}],"w2":[{"b":2}]}"#).unwrap();
    let err = decode_page(doc).unwrap_err();
    assert_eq!(err, ParsePageError::ListQty(2));
}

#[test]
fn zero_item_lists_are_ambiguous() {
    let doc = value_document(r#"{"total_count":3}"#).unwrap();
    let err = decode_page(doc).unwrap_err();
    assert_eq!(err, ParsePageError::ListQty(0));
}

#[test]
fn an_empty_item_list_decodes_to_an_empty_page() {
    let doc: PageDocument<u64> = PageDocument::Object(vec![
        ("total_count".to_string(), PageValue::Count(0)),
        ("widgets".to_string(), PageValue::List(vec![])),
    ]);
    let page = decode_page(doc).unwrap();
    assert_eq!(page.items, Vec::<u64>::new());
    assert_eq!(page.total_count, Some(0));
}

#[test]
fn the_first_field_of_a_name_decides() {
    let doc: PageDocument<u64> = PageDocument::Object(vec![
        ("total_count".to_string(), PageValue::Count(4)),
        ("total_count".to_string(), PageValue::Count(9)),
        ("widgets".to_string(), PageValue::List(vec![1, 2])),
    ]);
    let page = decode_page(doc).unwrap();
    assert_eq!(page.total_count, Some(4));
    assert_eq!(page.items, vec![1, 2]);
}

#[test]
fn a_list_valued_total_count_supplies_no_count_but_counts_as_a_list() {
    let doc: PageDocument<u64> = PageDocument::Object(vec![
        ("total_count".to_string(), PageValue::List(vec![3])),
        ("widgets".to_string(), PageValue::List(vec![1, 2])),
    ]);
    let err = decode_page(doc).unwrap_err();
    assert_eq!(err, ParsePageError::ListQty(2));
}

#[test]
fn page_values_expose_their_contents() {
    assert_eq!(PageValue::<u64>::Count(5).as_u64(), Some(5));
    assert_eq!(PageValue::<u64>::Flag(true).as_u64(), None);
    assert_eq!(PageValue::<u64>::Flag(false).as_bool(), Some(false));
    assert_eq!(PageValue::<u64>::Count(5).as_bool(), None);
    assert_eq!(PageValue::<u64>::List(vec![1]).into_list(), Some(vec![1]));
    assert_eq!(PageValue::<u64>::Other.into_list(), None);
}

#[test]
fn decoding_twice_yields_equal_pages() {
    let src = r#"{"total_count":3,"widgets":[{"a":1},{"b":2}]}"#;
    let first = decode_page(value_document(src).unwrap()).unwrap();
    let second = decode_page(value_document(src).unwrap()).unwrap();
    assert_eq!(first, second);
}
