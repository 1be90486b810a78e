//! Batch-level tests: the original envelopes, decoded from JSON text at the
//! boundary and handed to the library as generic JSON values.

use products::envelope::DynamoDBEvent;
use products::error::Error;
use products::error::StructuralIssue;
use products::event::Event;
use products::json::JsonValue;
use products::pipeline::json_to_ddb_event_structs;
use products::pipeline::parse_ddb_events;

fn to_json_value(v: &serde_json::Value) -> JsonValue {
    match v {
        serde_json::Value::Null => JsonValue::Null,
        serde_json::Value::Bool(b) => JsonValue::Bool(*b),
        serde_json::Value::Number(n) => JsonValue::Num(n.to_string()),
        serde_json::Value::String(s) => JsonValue::Str(s.clone()),
        serde_json::Value::Array(items) => {
            JsonValue::Arr(items.iter().map(to_json_value).collect())
        }
        serde_json::Value::Object(map) => {
            JsonValue::Obj(map.iter().map(|(k, v)| (k.clone(), to_json_value(v))).collect())
        }
    }
}

fn parse_json(data: &str) -> JsonValue {
    to_json_value(&serde_json::from_str::<serde_json::Value>(data).unwrap())
}

fn get_ddb_event() -> DynamoDBEvent {
    let data = r#"
    {
        "Records": [
          {
            "eventID": "1",
            "eventVersion": "1.0",
            "dynamodb": {
              "Keys": {
                "Id": {
                  "S": "101"
                }
              },
              "NewImage": {
                "Id": {
                    "S": "101"
                },
                "Name": {
                  "S": "new-item"
                },
                "Price": {
                  "N": "10.5"
                }
              },
              "StreamViewType": "NEW_AND_OLD_IMAGES",
              "SequenceNumber": "111",
              "SizeBytes": 26
            },
            "awsRegion": "us-west-2",
            "eventName": "INSERT",
            "eventSourceARN": "someARN",
            "eventSource": "aws:dynamodb"
          },
          {
            "eventID": "2",
            "eventVersion": "1.0",
            "dynamodb": {
              "OldImage": {
                "Id": {
                  "S": "102"
                },
                "Name": {
                  "S": "new-item2"
                },
                "Price": {
                  "N": "20.5"
                }
              },
              "SequenceNumber": "222",
              "Keys": {
                "Id": {
                  "S": "102"
                }
              },
              "SizeBytes": 59,
              "NewImage": {
                "Id": {
                    "S": "102"
                },
                "Name": { "S": "new-item2" },
                "Price": {
                  "N": "30.5"
                }
              },
              "StreamViewType": "NEW_AND_OLD_IMAGES"
            },
            "awsRegion": "us-west-2",
            "eventName": "MODIFY",
            "eventSourceARN": "someARN",
            "eventSource": "aws:dynamodb"
        }]
    }"#;

    DynamoDBEvent::from_json(&parse_json(data)).unwrap()
}

// to restore the id, add this in NewImage:   "Id":  { "S": "0F7ylDuZdSWz77F9"}
fn get_ddb_event_with_unparseable_id() -> DynamoDBEvent {
    let data = r#"
{ "Records": [{
    "eventID": "923c4e9082935f91618487d93856d306",
    "eventVersion": "1.1" ,

    "awsRegion": "eu-central-1",
    "dynamodb": {
        "Keys": {
            "Id": {"S": "0F7ylDuZdSWz77F9"}
        },
        "NewImage": {
            "Price": {"N":"148.82767174148367"} ,
            "Name": {"S": "3Ow8LNjBsGj60ecw" }            },
        "ApproximateCreationDateTime": 1637075657.0,
    "OldImage": {},
    "SequenceNumber": "100000000009615304022",
    "SizeBytes": 71.0,
    "StreamViewType": "NEW_AND_OLD_IMAGES"
   },
    "eventSourceARN": "arn:aws:dynamodb:eu-central-1:961051767741:table/rust-products-Table-VNYFY0FE9HRT/stream/2021-11-16T14:43:56.931",
    "eventName": "INSERT",
    "eventSource": "aws:dynamodb"       }]
}"#;

    DynamoDBEvent::from_json(&parse_json(data)).unwrap()
}

fn ddb_event_with_missing_id() -> DynamoDBEvent {
    let data = r#"
    { "Records": [{
        "eventID": "923c4e9082935f91618487d93856d306",
        "eventVersion": "1.1" ,

        "awsRegion": "eu-central-1",
        "dynamodb": {
            "Keys": {
                "Id": {"S": "0F7ylDuZdSWz77F9"}
            },
            "NewImage": {
                "Price": {"N":"148.82767174148367"} ,
                "Name": {"S": "3Ow8LNjBsGj60ecw" }            },
            "ApproximateCreationDateTime": 1637075657.0,
        "OldImage": {},
        "SequenceNumber": "100000000009615304022",
        "SizeBytes": 71.0,
        "StreamViewType": "NEW_AND_OLD_IMAGES"
       },
        "eventSourceARN": "arn:aws:dynamodb:eu-central-1:your_aws_id:table/rust-products-Table-VNYFY0FE9HRT/stream/2021-11-16T14:43:56.931",
        "eventName": "INSERT",
        "eventSource": "aws:dynamodb"       }]
    }"#;

    DynamoDBEvent::from_json(&parse_json(data)).unwrap()
}

fn v1_1_insert_then_remove_events() -> DynamoDBEvent {
    let data = r#"
     {
         "Records": [
             {
                 "eventVersion": "1.1",
                 "eventSourceARN": "arn",
                 "eventSource": "aws:dynamodb",
                 "eventName": "INSERT",
                 "eventID": "d69bccd67495b56b4f20e519affc36a3",
                 "dynamodb": {
                     "StreamViewType": "NEW_AND_OLD_IMAGES",
                     "SizeBytes": 70,
                     "SequenceNumber": "100000000015685215244",
                     "NewImage": {
                         "price": {
                             "N": "39.2717623435658"
                         },
                         "name": {
                             "S": "yOMOpvOushHuresH"
                         },
                         "id": {
                             "S": "fy4HHRVQnwUEhfbP"
                         }
                     },
                     "Keys": {
                         "id": {
                             "S": "fy4HHRVQnwUEhfbP"
                         }
                     },
                     "ApproximateCreationDateTime": 1637143367.0},
                 "awsRegion": "eu-central-1"
             },
             {
                 "eventVersion": "1.1",
                 "eventSourceARN": "arn",
                 "eventSource": "aws:dynamodb",
                 "eventName": "REMOVE",
                 "eventID": "16d28ae84dd7c907550d1c96b0bff53f",
                 "dynamodb": {
                     "StreamViewType": "NEW_AND_OLD_IMAGES",
                     "SizeBytes": 70,
                     "SequenceNumber": "200000000015685215680",
                     "OldImage": {
                         "price": {
                             "N": "39.2717623435658"
                         },
                         "name": {
                             "S": "yOMOpvOushHuresH"
                         },
                         "id": {
                             "S": "fy4HHRVQnwUEhfbP"
                         }
                     },
                     "Keys": {
                         "id": {
                             "S": "fy4HHRVQnwUEhfbP"
                         }
                     },
                     "ApproximateCreationDateTime": 1637143368.0
                 },
                 "awsRegion": "eu-central-1"
             }
         ]
     }"#;

    DynamoDBEvent::from_json(&parse_json(data)).unwrap()
}

#[test]
fn version_1_1_to_product_created_event_fails_when_id_missing() {
    let ddb_event = ddb_event_with_missing_id();
    let result_events = parse_ddb_events(ddb_event);

    match result_events {
        Err(err) => {
            let message = err.message();
            assert_eq!(message, "InternalError: Missing id in lambda");
        }
        _ => {
            panic!("Expected parsing to fail with missing ID");
        }
    }
}

#[test]
fn can_parse_v1_1_insert_event_product_id() {
    let ddb_event = v1_1_insert_then_remove_events();
    let result_events = parse_ddb_events(ddb_event);

    match result_events {
        Err(err) => {
            panic!("Expected parsing to succeed but got: {}", err.message());
        }
        Ok(events) => {
            let created: &Event = &events[0];
            match created {
                Event::Created { product } => {
                    assert_eq!(product.id, "fy4HHRVQnwUEhfbP");
                }
                _ => {
                    panic!("Expected Created event, but was something else");
                }
            }
        }
    }
}

#[test]
fn can_parse_v1_1_remove_event_product_id() {
    let ddb_event = v1_1_insert_then_remove_events();
    let result_events = parse_ddb_events(ddb_event);

    match result_events {
        Err(err) => {
            panic!("Expected parsing to succeed but got: {}", err.message());
        }
        Ok(events) => {
            let created: &Event = &events[1];
            match created {
                Event::Deleted { product } => {
                    assert_eq!(product.id, "fy4HHRVQnwUEhfbP");
                    assert_eq!(product.name, "yOMOpvOushHuresH");
                    assert_eq!(product.price.parse::<f64>().unwrap(), 39.2717623435658);
                }
                _ => {
                    panic!("Expected Deleted event, but was something else");
                }
            }
        }
    }
}

#[test]
fn test_deserialize_version_1_1() {
    let event = get_ddb_event_with_unparseable_id();

    assert_eq!(event.records.len(), 1);
    assert_eq!(event.records[0].event_name, "INSERT");
    assert_eq!(
        event.records[0]
            .dynamodb
            .new_image
            .as_ref()
            .unwrap()
            .get("Name")
            .unwrap()
            .as_s(),
        Some("3Ow8LNjBsGj60ecw")
    );
}

#[test]
fn test_deserialize_v_1_0() {
    let event = get_ddb_event();

    assert_eq!(event.records.len(), 2);
    assert_eq!(event.records[0].event_name, "INSERT");
    assert_eq!(
        event.records[0]
            .dynamodb
            .new_image
            .as_ref()
            .unwrap()
            .get("Name")
            .unwrap()
            .as_s(),
        Some("new-item")
    );
    assert_eq!(event.records[1].event_name, "MODIFY");
    assert_eq!(
        event.records[1]
            .dynamodb
            .old_image
            .as_ref()
            .unwrap()
            .get("Name")
            .unwrap()
            .as_s(),
        Some("new-item2")
    );
}

#[test]
fn test_dynamodb_into_event() {
    let ddb_event = get_ddb_event();

    let events = ddb_event
        .records
        .iter()
        .map(Event::try_from)
        .collect::<Result<Vec<Event>, _>>()
        .unwrap();

    assert_eq!(events.len(), 2);
    match &events[0] {
        Event::Created { product } => {
            assert_eq!(product.id, "101");
            assert_eq!(product.name, "new-item");
            assert_eq!(product.price.parse::<f64>().unwrap(), 10.5);
        }
        _ => {
            assert!(false)
        }
    };
    match &events[1] {
        Event::Updated { new, old } => {
            assert_eq!(new.id, "102");
            assert_eq!(new.name, "new-item2");
            assert_eq!(new.price.parse::<f64>().unwrap(), 30.5);
            assert_eq!(old.id, "102");
            assert_eq!(old.name, "new-item2");
            assert_eq!(old.price.parse::<f64>().unwrap(), 20.5);
        }
        _ => {
            assert!(false)
        }
    };
}

#[test]
fn test_dynamodb_into_product() {
    let ddb_event = get_ddb_event();

    let product = products::product::Product::try_from(
        ddb_event.records[0].dynamodb.new_image.as_ref().unwrap(),
    )
    .unwrap();

    assert_eq!(product.id, "101");
    assert_eq!(product.name, "new-item");
    assert_eq!(product.price.parse::<f64>().unwrap(), 10.5);
}

#[test]
fn two_record_batch_aborts_whole_batch_on_second_malformed() {
    // The second record's new image binds the name to a boolean, so its
    // classification fails; the whole transform must fail and hand back no
    // events at all, not even for the valid first record.
    let data = r#"
    { "Records": [
        {
            "eventID": "1", "eventVersion": "1.0", "awsRegion": "eu-central-1",
            "eventName": "INSERT", "eventSource": "aws:dynamodb", "eventSourceARN": "arn",
            "dynamodb": {
                "Keys": { "id": { "S": "a" } },
                "NewImage": {
                    "id": { "S": "a" }, "name": { "S": "first" }, "price": { "N": "1.0" }
                },
                "SequenceNumber": "1", "SizeBytes": 10, "StreamViewType": "NEW_AND_OLD_IMAGES"
            }
        },
        {
            "eventID": "2", "eventVersion": "1.0", "awsRegion": "eu-central-1",
            "eventName": "INSERT", "eventSource": "aws:dynamodb", "eventSourceARN": "arn",
            "dynamodb": {
                "Keys": { "id": { "S": "b" } },
                "NewImage": {
                    "id": { "S": "b" }, "name": { "BOOL": true }, "price": { "N": "2.0" }
                },
                "SequenceNumber": "2", "SizeBytes": 10, "StreamViewType": "NEW_AND_OLD_IMAGES"
            }
        }
    ] }"#;
    let result = json_to_ddb_event_structs(&parse_json(data));
    match result {
        Err(err) => {
            assert_eq!(err.message(), "InternalError: name is not a string");
        }
        Ok(_) => panic!("Expected the whole batch to abort"),
    }
}

#[test]
fn malformed_envelope_is_a_structural_error() {
    let result = json_to_ddb_event_structs(&parse_json(r#"{ "Records": 7 }"#));
    match result {
        Err(err) => {
            assert_eq!(err, Error::StructuralDecode(StructuralIssue::Envelope));
            assert_eq!(err.message(), "ClientError: Error parsing json");
        }
        Ok(_) => panic!("Expected a structural failure"),
    }
}

#[test]
fn output_order_equals_input_order_under_parallel_classification() {
    // A batch large enough that the classification fan-out actually runs on
    // several workers; the collected events must still line up with the
    // records, position for position.
    let mut records = String::new();
    for i in 0..300 {
        if i > 0 {
            records.push(',');
        }
        records.push_str(&format!(
            r#"{{
                "eventID": "{i}", "eventVersion": "1.0", "awsRegion": "eu-central-1",
                "eventName": "INSERT", "eventSource": "aws:dynamodb", "eventSourceARN": "arn",
                "dynamodb": {{
                    "Keys": {{ "id": {{ "S": "k{i}" }} }},
                    "NewImage": {{
                        "id": {{ "S": "p{i}" }}, "name": {{ "S": "n{i}" }},
                        "price": {{ "N": "{i}.25" }}
                    }},
                    "SequenceNumber": "{i}", "SizeBytes": 10,
                    "StreamViewType": "NEW_AND_OLD_IMAGES"
                }}
            }}"#
        ));
    }
    let data = format!(r#"{{ "Records": [ {records} ] }}"#);
    let events = json_to_ddb_event_structs(&parse_json(&data)).unwrap();
    assert_eq!(events.len(), 300);
    for (i, event) in events.iter().enumerate() {
        match event {
            Event::Created { product } => {
                assert_eq!(product.id, format!("p{i}"));
                assert_eq!(product.name, format!("n{i}"));
                assert_eq!(product.price, format!("{i}.25"));
            }
            _ => panic!("Expected a Created event"),
        }
    }
}
