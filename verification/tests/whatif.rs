use output_tester::classifier::parse_azure_resource_change;
use output_tester::resource::AzureResourceChangeType;

fn sample_whatif() -> &'static str {
    r#"
        {
            "changes": [
                {
                    "after": {
                        "apiVersion": "2021-04-01",
                        "id": "/subscriptions/13ae0661-466f-4189-9095-cbd2e68a485f/resourceGroups/rg-nevermore",
                        "location": "eastus",
                        "name": "rg-nevermore",
                        "tags": {
                            "azd-env-name": "nevermore"
                        },
                        "type": "Microsoft.Resources/resourceGroups"
                    },
                    "before": null,
                    "changeType": "Create",
                    "delta": null,
                    "resourceId": "/subscriptions/13ae0661-466f-4189-9095-cbd2e68a485f/resourceGroups/rg-nevermore",
                    "unsupportedReason": null
                },
                {
                    "after": {
                        "apiVersion": "2021-04-01",
                        "id": "/subscriptions/13ae0661-466f-4189-9095-cbd2e68a485f/resourceGroups/rg-nevermore/providers/Microsoft.ContainerService/managedClusters/aks-nevermore",
                        "location": "eastus",
                        "name": "aks-nevermore",
                        "tags": {
                            "azd-env-name": "nevermore"
                        },
                        "type": "Microsoft.ContainerService/managedClusters"
                    },
                    "before": null,
                    "changeType": "Create",
                    "delta": null,
                    "resourceId": "/subscriptions/13ae0661-466f-4189-9095-cbd2e68a485f/resourceGroups/rg-nevermore/providers/Microsoft.ContainerService/managedClusters/aks-nevermore",
                    "unsupportedReason": null
                }
            ]
        }
        "#
}

#[test]
fn azure_test_deserialize_azure_resource_change() {
    let changes = parse_azure_resource_change(sample_whatif()).unwrap();
    assert_eq!(changes.changes.len(), 2);
    assert_eq!(
        &changes.changes[0].resource_id,
        "/subscriptions/13ae0661-466f-4189-9095-cbd2e68a485f/resourceGroups/rg-nevermore"
    );
    assert_eq!(
        changes.changes[0].change_type,
        AzureResourceChangeType::Create
    );
    assert_eq!(
        &changes.changes[0].after.as_ref().unwrap().api_version,
        "2021-04-01"
    );
    assert_eq!(
        &changes.changes[0].after.as_ref().unwrap().id,
        "/subscriptions/13ae0661-466f-4189-9095-cbd2e68a485f/resourceGroups/rg-nevermore"
    );
    assert_eq!(
        changes.changes[0]
            .after
            .as_ref()
            .unwrap()
            .location
            .as_ref()
            .unwrap(),
        "eastus"
    );
    assert_eq!(
        &changes.changes[0].after.as_ref().unwrap().name,
        "rg-nevermore"
    );
    let tags = changes.changes[0].after.as_ref().unwrap().tags.as_ref().unwrap();
    assert_eq!(
        &tags.iter().find(|e| e.0 == "azd-env-name").unwrap().1,
        "nevermore"
    );
    assert_eq!(
        &changes.changes[0].after.as_ref().unwrap().resource_type,
        "Microsoft.Resources/resourceGroups"
    );
}

#[test]
fn mod_test_deserialize_azure_resource_change() {
    let changes = parse_azure_resource_change(sample_whatif()).unwrap();
    assert_eq!(changes.changes.len(), 2);
    assert_eq!(
        changes.changes[1].change_type,
        AzureResourceChangeType::Create
    );
    assert!(changes.changes[1].before.is_none());
    assert!(changes.changes[1].delta.is_none());
    assert!(changes.changes[1].unsupported_reason.is_none());
    assert_eq!(
        &changes.changes[1].after.as_ref().unwrap().name,
        "aks-nevermore"
    );
    assert_eq!(
        &changes.changes[1].after.as_ref().unwrap().resource_type,
        "Microsoft.ContainerService/managedClusters"
    );
    assert_eq!(
        &changes.changes[1].resource_id,
        "/subscriptions/13ae0661-466f-4189-9095-cbd2e68a485f/resourceGroups/rg-nevermore/providers/Microsoft.ContainerService/managedClusters/aks-nevermore"
    );
}

#[test]
fn test_whatif_malformed_document_is_rejected() {
    assert!(parse_azure_resource_change("not json at all").is_none());
    // a change entry without its required resourceId is malformed
    let missing = r#"{"changes":[{"changeType":"Create"}]}"#;
    assert!(parse_azure_resource_change(missing).is_none());
    // an unknown changeType name is malformed
    let unknown = r#"{"changes":[{"changeType":"Replace","resourceId":"x"}]}"#;
    assert!(parse_azure_resource_change(unknown).is_none());
}

#[test]
fn test_whatif_empty_change_list() {
    let changes = parse_azure_resource_change(r#"{"changes":[]}"#).unwrap();
    assert_eq!(changes.changes.len(), 0);
}

#[test]
fn test_whatif_reads_past_the_tenth_change() {
    // more than ten entries exercise multi-digit array indices
    let mut entries: Vec<String> = Vec::new();
    for i in 0..12 {
        entries.push(format!(
            r#"{{"after":null,"before":null,"changeType":"Create","delta":null,"resourceId":"/r{}","unsupportedReason":null}}"#,
            i
        ));
    }
    let doc = format!(r#"{{"changes":[{}]}}"#, entries.join(","));
    let changes = parse_azure_resource_change(&doc).unwrap();
    assert_eq!(changes.changes.len(), 12);
    assert_eq!(&changes.changes[10].resource_id, "/r10");
    assert_eq!(&changes.changes[11].resource_id, "/r11");
}
