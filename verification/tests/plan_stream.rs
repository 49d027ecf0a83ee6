use output_tester::classifier::{convert_to_terraform_plan, parse_plan_step};

#[test]
fn test_deserialize_terraform_version() {
    let json = r#"
        {
            "@level": "info",
            "@message": "Terraform 1.6.5",
            "@module": "terraform.ui",
            "@timestamp": "2024-02-23T13:49:28.479064-06:00",
            "terraform": "1.6.5",
            "type": "version",
            "ui": "1.2"
        }
        "#;
    let version = parse_plan_step(json).unwrap();
    assert_eq!(version.record_type, "version");
    assert_eq!(version.level, "info");
    assert_eq!(version.message, "Terraform 1.6.5");
    assert_eq!(version.module, "terraform.ui");
    assert_eq!(version.timestamp, "2024-02-23T13:49:28.479064-06:00");
    assert_eq!(version.terraform.unwrap(), "1.6.5");
    assert_eq!(version.ui.unwrap(), "1.2");
}

#[test]
fn test_deserialize_terraform_apply_start() {
    let json = r#"
        {
            "@level": "info",
            "@message": "data.azurerm_client_config.current: Refreshing...",
            "@module": "terraform.ui",
            "@timestamp": "2024-02-23T13:50:03.507371-06:00",
            "hook": {
                "resource": {
                    "addr": "data.azurerm_client_config.current",
                    "module": "",
                    "resource": "data.azurerm_client_config.current",
                    "implied_provider": "azurerm",
                    "resource_type": "azurerm_client_config",
                    "resource_name": "current",
                    "resource_key": null
                },
                "action": "read"
            },
            "type": "apply_start"
        }
        "#;
    let apply_start = parse_plan_step(json).unwrap();
    assert_eq!(apply_start.record_type, "apply_start");
    assert_eq!(apply_start.level, "info");
    assert_eq!(
        apply_start.message,
        "data.azurerm_client_config.current: Refreshing..."
    );
    assert_eq!(apply_start.module, "terraform.ui");
    assert_eq!(apply_start.timestamp, "2024-02-23T13:50:03.507371-06:00");

    let hook = apply_start.hook.unwrap();
    assert_eq!(&hook.resource.addr, "data.azurerm_client_config.current");
    assert_eq!(&hook.resource.module, "");
    assert_eq!(
        &hook.resource.resource,
        "data.azurerm_client_config.current"
    );
    assert_eq!(&hook.resource.implied_provider, "azurerm");
    assert_eq!(&hook.resource.resource_type, "azurerm_client_config");
    assert_eq!(&hook.resource.resource_name, "current");
    assert_eq!(&hook.action, "read");
    assert!(&hook.resource.resource_key.is_none());
}

#[test]
fn test_deserialize_terraform_apply_complete() {
    let json = r#"
        {
            "@level": "info",
            "@message": "data.azurerm_client_config.current: Refresh complete after 0s [id=Y2xpZW50Q29uZmlncy9jbGllbnRJZD0wNGIwNzc5NS04ZGRiLTQ2MWEtYmJlZS0wMmY5ZTFiZjdiNDY7b2JqZWN0SWQ9YmIwOTk4MDctMGI5ZC00YzYzLTk1YWMtZDg2ZjM4MjQ4ZjYyO3N1YnNjcmlwdGlvbklkPTEzYWUwNjYxLTQ2NmYtNDE4OS05MDk1LWNiZDJlNjhhNDg1Zjt0ZW5hbnRJZD03MmY5ODhiZi04NmYxLTQxYWYtOTFhYi0yZDdjZDAxMWRiNDc=]",
            "@module": "terraform.ui",
            "@timestamp": "2024-02-23T13:50:03.508973-06:00",
            "hook": {
                "resource": {
                    "addr": "data.azurerm_client_config.current",
                    "module": "",
                    "resource": "data.azurerm_client_config.current",
                    "implied_provider": "azurerm",
                    "resource_type": "azurerm_client_config",
                    "resource_name": "current",
                    "resource_key": null
                },
                "action": "read",
                "id_key": "id",
                "id_value": "Y2xpZW50Q29uZmlncy9jbGllbnRJZD0wNGIwNzc5NS04ZGRiLTQ2MWEtYmJlZS0wMmY5ZTFiZjdiNDY7b2JqZWN0SWQ9YmIwOTk4MDctMGI5ZC00YzYzLTk1YWMtZDg2ZjM",
                "elapsed_seconds": 0
            },
            "type": "apply_complete"
        }
        "#;
    let apply_complete = parse_plan_step(json).unwrap();
    assert_eq!(apply_complete.record_type, "apply_complete");
    assert_eq!(apply_complete.level, "info");
    assert_eq!(apply_complete.message, "data.azurerm_client_config.current: Refresh complete after 0s [id=Y2xpZW50Q29uZmlncy9jbGllbnRJZD0wNGIwNzc5NS04ZGRiLTQ2MWEtYmJlZS0wMmY5ZTFiZjdiNDY7b2JqZWN0SWQ9YmIwOTk4MDctMGI5ZC00YzYzLTk1YWMtZDg2ZjM4MjQ4ZjYyO3N1YnNjcmlwdGlvbklkPTEzYWUwNjYxLTQ2NmYtNDE4OS05MDk1LWNiZDJlNjhhNDg1Zjt0ZW5hbnRJZD03MmY5ODhiZi04NmYxLTQxYWYtOTFhYi0yZDdjZDAxMWRiNDc=]");
    assert_eq!(apply_complete.module, "terraform.ui");
    assert_eq!(apply_complete.timestamp, "2024-02-23T13:50:03.508973-06:00");
    let hook = apply_complete.hook.unwrap();
    assert_eq!(&hook.resource.addr, "data.azurerm_client_config.current");
    assert_eq!(&hook.resource.module, "");
    assert_eq!(
        &hook.resource.resource,
        "data.azurerm_client_config.current"
    );
    assert_eq!(&hook.resource.implied_provider, "azurerm");
    assert_eq!(&hook.resource.resource_type, "azurerm_client_config");
    assert_eq!(&hook.resource.resource_name, "current");
    assert!(&hook.resource.resource_key.is_none());
    assert_eq!(&hook.action, "read");
    assert_eq!(&hook.id_key.unwrap(), "id");
    assert_eq!(&hook.id_value.unwrap(), "Y2xpZW50Q29uZmlncy9jbGllbnRJZD0wNGIwNzc5NS04ZGRiLTQ2MWEtYmJlZS0wMmY5ZTFiZjdiNDY7b2JqZWN0SWQ9YmIwOTk4MDctMGI5ZC00YzYzLTk1YWMtZDg2ZjM");
    assert_eq!(hook.elapsed_seconds.unwrap(), 0);
}

#[test]
fn test_deserialize_terraform_planned_change() {
    let json = r#"
        {
            "@level": "info",
            "@message": "random_integer.example: Plan to create",
            "@module": "terraform.ui",
            "@timestamp": "2024-02-23T13:50:04.650549-06:00",
            "change": {
                "resource": {
                    "addr": "random_integer.example",
                    "module": "",
                    "resource": "random_integer.example",
                    "implied_provider": "random",
                    "resource_type": "random_integer",
                    "resource_name": "example",
                    "resource_key": null
                },
                "action": "create"
            },
            "type": "planned_change"
        }
        "#;
    let planned_change = parse_plan_step(json).unwrap();
    assert_eq!(planned_change.record_type, "planned_change");
    assert_eq!(planned_change.level, "info");
    assert_eq!(
        planned_change.message,
        "random_integer.example: Plan to create"
    );
    assert_eq!(planned_change.module, "terraform.ui");
    assert_eq!(planned_change.timestamp, "2024-02-23T13:50:04.650549-06:00");
    let changes = planned_change.change.unwrap();
    assert_eq!(&changes.resource.addr, "random_integer.example");
    assert_eq!(&changes.resource.module, "");
    assert_eq!(&changes.resource.resource, "random_integer.example");
    assert_eq!(&changes.resource.implied_provider, "random");
    assert_eq!(&changes.resource.resource_type, "random_integer");
    assert_eq!(&changes.resource.resource_name, "example");
    assert!(&changes.resource.resource_key.is_none());
    assert_eq!(&changes.action, "create");
}

#[test]
fn test_deserialize_terraform_change_summary() {
    let json = r#"
        {
            "@level": "info",
            "@message": "Plan: 5 to add, 0 to change, 0 to destroy.",
            "@module": "terraform.ui",
            "@timestamp": "2024-02-23T13:50:04.652705-06:00",
            "changes": {
                "add": 5,
                "change": 0,
                "import": 0,
                "remove": 0,
                "operation": "plan"
            },
            "type": "change_summary"
        }
        "#;
    let change_summary = parse_plan_step(json).unwrap();
    assert_eq!(change_summary.record_type, "change_summary");
    assert_eq!(change_summary.level, "info");
    assert_eq!(
        change_summary.message,
        "Plan: 5 to add, 0 to change, 0 to destroy."
    );
    assert_eq!(change_summary.module, "terraform.ui");
    assert_eq!(change_summary.timestamp, "2024-02-23T13:50:04.652705-06:00");
    let changes = change_summary.changes.unwrap();
    assert_eq!(changes.add, 5);
    assert_eq!(changes.change, 0);
    assert_eq!(changes.import, 0);
    assert_eq!(changes.remove, 0);
    assert_eq!(&changes.operation, "plan");
}

#[test]
fn test_deserialize_terraform_outputs() {
    let json = r#"
        {
            "@level": "info",
            "@message": "Outputs: 25",
            "@module": "terraform.ui",
            "@timestamp": "2024-02-23T13:50:04.652705-06:00",
            "outputs": {
                "AZURE_AKS_CLUSTER_ID": {
                    "sensitive": false,
                    "action": "create"
                },
                "AZURE_AKS_CLUSTER_NAME": {
                    "sensitive": false,
                    "action": "create"
                },
                "AZURE_AKS_CLUSTER_NODE_RESOURCEGROUP_NAME": {
                    "sensitive": false,
                    "action": "create"
                },
                "AZURE_AKS_NAMESPACE": {
                    "sensitive": false,
                    "action": "create"
                },
                "AZURE_AKS_OIDC_ISSUER_URL": {
                    "sensitive": false,
                    "action": "create"
                },
                "AZURE_COSMOS_DATABASE_KEY": {
                    "sensitive": true,
                    "action": "create"
                },
                "AZURE_COSMOS_DATABASE_NAME": {
                    "sensitive": false,
                    "action": "create"
                },
                "AZURE_COSMOS_DATABASE_URI": {
                    "sensitive": false,
                    "action": "create"
                },
                "AZURE_DATABASE_API": {
                    "sensitive": false,
                    "action": "create"
                },
                "AZURE_IDENTITY_CLIENT_ID": {
                    "sensitive": false,
                    "action": "create"
                },
                "AZURE_KEY_VAULT_NAME": {
                    "sensitive": false,
                    "action": "create"
                },
                "AZURE_OPENAI_ENDPOINT": {
                    "sensitive": false,
                    "action": "create"
                },
                "AZURE_OPENAI_KEY": {
                    "sensitive": true,
                    "action": "create"
                },
                "AZURE_OPENAI_MODEL_NAME": {
                    "sensitive": false,
                    "action": "create"
                },
                "AZURE_REGISTRY_NAME": {
                    "sensitive": false,
                    "action": "create"
                },
                "AZURE_REGISTRY_URI": {
                    "sensitive": false,
                    "action": "create"
                },
                "AZURE_RESOURCE_GROUP_NAME": {
                    "sensitive": false,
                    "action": "create"
                },
                "AZURE_RESOURCENAME_SUFFIX": {
                    "sensitive": false,
                    "action": "create"
                },
                "AZURE_SERVICE_BUS_HOST": {
                    "sensitive": false,
                    "action": "create"
                },
                "AZURE_SERVICE_BUS_LISTENER_KEY": {
                    "sensitive": true,
                    "action": "create"
                },
                "AZURE_SERVICE_BUS_LISTENER_NAME": {
                    "sensitive": false,
                    "action": "create"
                },
                "AZURE_SERVICE_BUS_SENDER_KEY": {
                    "sensitive": true,
                    "action": "create"
                },
                "AZURE_SERVICE_BUS_SENDER_NAME": {
                    "sensitive": false,
                    "action": "create"
                },
                "AZURE_SERVICE_BUS_URI": {
                    "sensitive": true,
                    "action": "create"
                },
                "AZURE_TENANT_ID": {
                    "sensitive": false,
                    "action": "create"
                }
            },
            "type": "outputs"
        }
        "#;
    let outputs = parse_plan_step(json).unwrap();
    assert_eq!(outputs.record_type, "outputs");
    assert_eq!(outputs.level, "info");
    assert_eq!(outputs.message, "Outputs: 25");
    assert_eq!(outputs.module, "terraform.ui");
    assert_eq!(outputs.timestamp, "2024-02-23T13:50:04.652705-06:00");
    let inner_outputs = outputs.outputs.unwrap();
    assert_eq!(inner_outputs.len(), 25);
    let cluster_id = inner_outputs
        .iter()
        .find(|e| e.0 == "AZURE_AKS_CLUSTER_ID")
        .unwrap();
    assert_eq!(cluster_id.1.sensitive, false);
    assert_eq!(cluster_id.1.action, "create");
    let cluster_name = inner_outputs
        .iter()
        .find(|e| e.0 == "AZURE_AKS_CLUSTER_NAME")
        .unwrap();
    assert_eq!(cluster_name.1.sensitive, false);
    assert_eq!(cluster_name.1.action, "create");
}

#[test]
fn test_convert_version_and_planned_change_stream() {
    let line1 = r#"{"@level":"info","@message":"Terraform 1.6.5","@module":"terraform.ui","@timestamp":"2024-02-23T13:49:28.479064-06:00","terraform":"1.6.5","type":"version","ui":"1.2"}"#;
    let line2 = r#"{"@level":"info","@message":"random_integer.example: Plan to create","@module":"terraform.ui","@timestamp":"2024-02-23T13:50:04.650549-06:00","change":{"resource":{"addr":"random_integer.example","module":"","resource":"random_integer.example","implied_provider":"random","resource_type":"random_integer","resource_name":"example","resource_key":null},"action":"create"},"type":"planned_change"}"#;
    let stream = format!("{}\n{}", line1, line2);
    let doc = convert_to_terraform_plan(&stream).unwrap();
    let version = doc.version.expect("version slot set from line 1");
    assert_eq!(version.terraform.unwrap(), "1.6.5");
    assert_eq!(doc.planned_change.len(), 1);
    assert_eq!(
        doc.planned_change[0]
            .change
            .as_ref()
            .unwrap()
            .resource
            .resource_type,
        "random_integer"
    );
}

#[test]
fn test_convert_blank_lines_do_not_alter_document() {
    let line1 = r#"{"@level":"info","@message":"m","@module":"terraform.ui","@timestamp":"t","type":"apply_start","hook":{"resource":{"addr":"a.b","module":"","resource":"a.b","implied_provider":"a","resource_type":"a","resource_name":"b","resource_key":null},"action":"read"}}"#;
    let line2 = r#"{"@level":"info","@message":"m2","@module":"terraform.ui","@timestamp":"t2","type":"change_summary","changes":{"add":1,"change":0,"import":0,"remove":0,"operation":"plan"}}"#;
    let plain = format!("{}\n{}", line1, line2);
    let padded = format!("\n\n{}\n\n\n{}\n\n", line1, line2);
    let doc_plain = convert_to_terraform_plan(&plain).unwrap();
    let doc_padded = convert_to_terraform_plan(&padded).unwrap();
    assert_eq!(doc_plain, doc_padded);
}

#[test]
fn test_convert_slot_lengths_match_histogram() {
    let start = r#"{"@level":"info","@message":"s","@module":"m","@timestamp":"t","type":"apply_start","hook":{"resource":{"addr":"a.b","module":"","resource":"a.b","implied_provider":"a","resource_type":"a","resource_name":"b","resource_key":null},"action":"read"}}"#;
    let complete = r#"{"@level":"info","@message":"c","@module":"m","@timestamp":"t","type":"apply_complete","hook":{"resource":{"addr":"a.b","module":"","resource":"a.b","implied_provider":"a","resource_type":"a","resource_name":"b","resource_key":null},"action":"read"}}"#;
    let version1 = r#"{"@level":"info","@message":"Terraform 1.6.4","@module":"m","@timestamp":"t1","terraform":"1.6.4","type":"version","ui":"1.2"}"#;
    let version2 = r#"{"@level":"info","@message":"Terraform 1.6.5","@module":"m","@timestamp":"t2","terraform":"1.6.5","type":"version","ui":"1.2"}"#;
    let unknown = r#"{"@level":"info","@message":"d","@module":"m","@timestamp":"t","type":"diagnostic"}"#;
    let stream = format!(
        "{}\n{}\n{}\n{}\n{}\n{}",
        version1, start, start, complete, unknown, version2
    );
    let doc = convert_to_terraform_plan(&stream).unwrap();
    assert_eq!(doc.apply_start.len(), 2);
    assert_eq!(doc.apply_complete.len(), 1);
    assert_eq!(doc.planned_change.len(), 0);
    // the singleton slot holds the last record of its kind
    assert_eq!(doc.version.unwrap().terraform.unwrap(), "1.6.5");
    assert!(doc.change_summary.is_none());
    assert!(doc.outputs.is_none());
}

#[test]
fn test_convert_malformed_line_is_fatal() {
    let good = r#"{"@level":"info","@message":"m","@module":"m","@timestamp":"t","type":"version","terraform":"1.6.5"}"#;
    let stream = format!("\n{}\n{{oops\n", good);
    let err = convert_to_terraform_plan(&stream).unwrap_err();
    assert_eq!(err.line_index, 1);
    assert_eq!(err.line, "{oops");
}

#[test]
fn test_convert_missing_required_field_is_fatal() {
    // a record without a "type" discriminator is malformed
    let stream = r#"{"@level":"info","@message":"m","@module":"m","@timestamp":"t"}"#;
    let err = convert_to_terraform_plan(stream).unwrap_err();
    assert_eq!(err.line_index, 0);
}

#[test]
fn test_parse_step_output_key_with_slash() {
    // a key holding a slash exercises the pointer-token escaping
    let json = r#"{"@level":"info","@message":"o","@module":"m","@timestamp":"t","type":"outputs","outputs":{"a/b":{"sensitive":true,"action":"create"}}}"#;
    let step = parse_plan_step(json).unwrap();
    let outputs = step.outputs.unwrap();
    assert_eq!(outputs.len(), 1);
    assert_eq!(outputs[0].0, "a/b");
    assert_eq!(outputs[0].1.sensitive, true);
}
