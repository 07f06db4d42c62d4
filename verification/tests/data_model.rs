use ddv::data::AttributeType;
use ddv::data::Item;
use ddv::data::ItemAttribute;
use ddv::data::KeySchemaElement;
use ddv::data::KeySchemaType;
use ddv::data::KeyType;
use ddv::data::ProjectionType;
use ddv::data::ScalarAttributeType;
use ddv::data::TableDescription;
use ddv::data::TableInsight;
use ddv::data::TableStatus;
use ddv::data::list_attribute_keys;
use ddv::data::sort_keys;
use ddv::data::to_key_schema_type;
use ddv::data::to_key_string;
use ddv::digits;

fn attr(name: &str, kind: AttributeType, text: &str) -> ItemAttribute {
    ItemAttribute { name: name.to_string(), kind, text: text.to_string() }
}

fn item_with_keys(keys: &[&str]) -> Item {
    Item { attributes: keys.iter().map(|k| attr(k, AttributeType::Null, "null")).collect() }
}

#[test]
fn test_list_attribute_keys() {
    let items = vec![
        item_with_keys(&["a", "b", "c"]),
        item_with_keys(&["c", "d"]),
        item_with_keys(&["e", "b"]),
    ];

    let schema = KeySchemaType::Hash("b".into());
    let keys = list_attribute_keys(&items, &schema);
    assert_eq!(keys, vec!["b", "a", "c", "d", "e"]);

    let schema = KeySchemaType::HashRange("b".into(), "c".into());
    let keys = list_attribute_keys(&items, &schema);
    assert_eq!(keys, vec!["b", "c", "a", "d", "e"]);
}

#[test]
fn sort_keys_puts_key_attributes_first() {
    let mut keys: Vec<String> =
        ["zeta", "id", "alpha", "stamp"].iter().map(|s| s.to_string()).collect();
    let schema = KeySchemaType::HashRange("id".into(), "stamp".into());
    sort_keys(&mut keys, &schema);
    assert_eq!(keys, vec!["id", "stamp", "alpha", "zeta"]);
}

#[test]
fn to_key_schema_type_classifies_hash_and_range() {
    let hash_only = vec![KeySchemaElement {
        attribute_name: "pk".to_string(),
        key_type: KeyType::Hash,
    }];
    assert!(matches!(to_key_schema_type(hash_only), KeySchemaType::Hash(h) if h == "pk"));

    let both = vec![
        KeySchemaElement { attribute_name: "sk".to_string(), key_type: KeyType::Range },
        KeySchemaElement { attribute_name: "pk".to_string(), key_type: KeyType::Hash },
    ];
    match to_key_schema_type(both) {
        KeySchemaType::HashRange(h, r) => {
            assert_eq!(h, "pk");
            assert_eq!(r, "sk");
        },
        _ => panic!("expected a hash-range schema"),
    }
}

#[test]
fn to_key_string_joins_hash_and_range_values() {
    let item = Item {
        attributes: vec![
            attr("pk", AttributeType::S, "user-1"),
            attr("sk", AttributeType::N, "42"),
            attr("other", AttributeType::S, "x"),
        ],
    };
    let hash = KeySchemaType::Hash("pk".into());
    assert_eq!(to_key_string(&item, &hash), "user-1");
    let both = KeySchemaType::HashRange("pk".into(), "sk".into());
    assert_eq!(to_key_string(&item, &both), "user-1 / 42");
}

#[test]
fn enum_tags_render_their_wire_names() {
    assert_eq!(ScalarAttributeType::B.as_str(), "B");
    assert_eq!(ScalarAttributeType::N.as_str(), "N");
    assert_eq!(ScalarAttributeType::S.as_str(), "S");
    assert_eq!(KeyType::Hash.as_str(), "HASH");
    assert_eq!(KeyType::Range.as_str(), "RANGE");
    assert_eq!(TableStatus::Active.as_str(), "ACTIVE");
    assert_eq!(
        TableStatus::InaccessibleEncryptionCredentials.as_str(),
        "INACCESSIBLE_ENCRYPTION_CREDENTIALS"
    );
    assert_eq!(ProjectionType::KeysOnly.as_str(), "KEYS_ONLY");
    assert_eq!(AttributeType::Ss.as_str(), "SS");
    assert_eq!(AttributeType::Absent.as_str(), "undefined");
}

#[test]
fn digits_counts_decimal_places() {
    assert_eq!(digits(0), 1);
    assert_eq!(digits(9), 1);
    assert_eq!(digits(10), 2);
    assert_eq!(digits(99), 2);
    assert_eq!(digits(100), 3);
    assert_eq!(digits(12345), 5);
}

fn empty_description(name: &str, schema: KeySchemaType) -> TableDescription {
    TableDescription {
        attribute_definitions: Vec::new(),
        table_name: name.to_string(),
        key_schema: Vec::new(),
        table_status: TableStatus::Active,
        creation_date_time: 0,
        provisioned_throughput: None,
        total_size_bytes: 0,
        item_count: 0,
        table_arn: String::new(),
        local_secondary_indexes: None,
        global_secondary_indexes: None,
        key_schema_type: schema,
    }
}

#[test]
fn insight_counts_attribute_types_sorted_by_frequency() {
    let items = vec![
        Item {
            attributes: vec![
                attr("a", AttributeType::S, "one"),
                attr("b", AttributeType::N, "1"),
            ],
        },
        Item { attributes: vec![attr("a", AttributeType::S, "two")] },
        Item {
            attributes: vec![
                attr("a", AttributeType::N, "3"),
                attr("b", AttributeType::Bool, "true"),
            ],
        },
    ];
    let desc = empty_description("T", KeySchemaType::Hash("a".into()));
    let insight = TableInsight::new(&desc, &items);
    assert_eq!(insight.table_name, "T");
    assert_eq!(insight.total_items, 3);
    assert_eq!(insight.attribute_distributions.len(), 2);

    let a = &insight.attribute_distributions[0];
    assert_eq!(a.attribute_name, "a");
    assert_eq!(a.distributions, vec![(AttributeType::S, 2), (AttributeType::N, 1)]);

    let b = &insight.attribute_distributions[1];
    assert_eq!(b.attribute_name, "b");
    assert_eq!(
        b.distributions,
        vec![(AttributeType::N, 1), (AttributeType::Bool, 1), (AttributeType::Absent, 1)]
    );
}
