use output_tester::azcli::{parse_account_info, subscription_matches, trim_quotes, AzCliError};
use output_tester::classifier::{convert_to_terraform_plan, parse_azure_resource_change};
use output_tester::output_tester::{
    ApplicationConfig, CompareError, ExpectedResults, InfraParameters, OutputTester, Provider,
};
use output_tester::resource::AzureResource;

fn expected(resource_type: &str) -> ExpectedResults {
    ExpectedResults {
        resource_type: resource_type.to_string(),
        resource_name: None,
        provider: None,
        is_expected: None,
    }
}

fn keys(ks: &[&str]) -> Vec<String> {
    ks.iter().map(|k| k.to_string()).collect()
}

#[test]
fn test_normalizer_fixed_table() {
    let cases = [
        ("Microsoft.Resources/resourceGroups", "resource_group"),
        (
            "Microsoft.ContainerService/managedClusters",
            "kubernetes_cluster",
        ),
        ("Microsoft.Network/virtualNetworks", "virtual_network"),
        ("Microsoft.Network/publicIPAddresses", "public_ip"),
        ("Microsoft.Network/networkInterfaces", "network_interface"),
        (
            "Microsoft.Network/networkSecurityGroups",
            "network_security_group",
        ),
        ("Microsoft.KeyVault/vaults", "key_vault"),
        ("Microsoft.Authorization/roleAssignments", "role_assignment"),
        // anything outside the table passes through verbatim
        ("Microsoft.Storage/storageAccounts", "Microsoft.Storage/storageAccounts"),
        ("random_integer", "random_integer"),
    ];
    for (input, want) in cases {
        let resource = AzureResource {
            api_version: "2021-04-01".to_string(),
            id: "/id".to_string(),
            location: None,
            name: "thing".to_string(),
            tags: None,
            resource_type: input.to_string(),
        };
        let identity = resource.get_comparison_resource();
        assert_eq!(identity.resource_type, want);
        assert_eq!(identity.resource_name.as_deref(), Some("thing"));
        assert!(identity.provider.is_none());
        assert!(identity.is_expected.is_none());
    }
}

#[test]
fn test_remove_matched_resource_removes_exactly_one() {
    let tester = OutputTester::new();
    let mut vec = keys(&["a", "b", "a"]);
    tester.remove_matched_resource("a", &mut vec);
    assert_eq!(vec, keys(&["b", "a"]));
    tester.remove_matched_resource("missing", &mut vec);
    assert_eq!(vec, keys(&["b", "a"]));
    tester.remove_matched_resource("a", &mut vec);
    assert_eq!(vec, keys(&["b"]));
}

#[test]
fn test_scenario_expected_found_on_bicep_side_only() {
    let tester = OutputTester::new();
    let expected_list = vec![expected("resource_group")];
    let mut side_a = keys(&["resource_group"]);
    let mut side_b: Vec<String> = Vec::new();
    let actual = tester.reconcile(&expected_list, &mut side_a, &mut side_b);
    assert_eq!(actual.len(), 1);
    assert_eq!(actual[0].resource_type, "resource_group");
    assert_eq!(
        actual[0].provider,
        Some(Provider { bicep: true, terraform: false })
    );
    assert_eq!(actual[0].is_expected, Some(true));
    assert!(side_a.is_empty());
}

#[test]
fn test_scenario_duplicate_keys_attributed_across_passes() {
    let tester = OutputTester::new();
    let expected_list: Vec<ExpectedResults> = Vec::new();
    let mut side_a = keys(&["key_vault", "key_vault"]);
    let mut side_b = keys(&["key_vault"]);
    let actual = tester.reconcile(&expected_list, &mut side_a, &mut side_b);
    assert_eq!(actual.len(), 2);
    // the sideB leftover matches one sideA occurrence: both coverage bits
    assert_eq!(actual[0].resource_type, "key_vault");
    assert_eq!(actual[0].is_expected, Some(false));
    assert_eq!(
        actual[0].provider,
        Some(Provider { bicep: true, terraform: true })
    );
    // the remaining sideA occurrence is found on the bicep side alone
    assert_eq!(actual[1].resource_type, "key_vault");
    assert_eq!(actual[1].is_expected, Some(false));
    assert_eq!(
        actual[1].provider,
        Some(Provider { bicep: true, terraform: false })
    );
}

#[test]
fn test_scenario_empty_expectation_list_is_soft_skip() {
    let mut tester = OutputTester::new();
    tester.authenticate_azure_cli(true);
    let report = tester.compare_bicep_whatif_and_terraform_plan().unwrap();
    assert_eq!(report.actual_results.len(), 0);
    assert_eq!(report.expected_results.len(), 0);
}

#[test]
fn test_compare_requires_authentication() {
    let tester = OutputTester::new();
    let err = tester.compare_bicep_whatif_and_terraform_plan().unwrap_err();
    assert_eq!(err, CompareError::NotAuthenticated);
}

#[test]
fn test_compare_full_run() {
    let whatif = r#"{"changes":[
        {"after":{"apiVersion":"2021-04-01","id":"/a","location":"eastus","name":"rg","type":"Microsoft.Resources/resourceGroups"},"before":null,"changeType":"Create","delta":null,"resourceId":"/a","unsupportedReason":null},
        {"after":{"apiVersion":"2021-04-01","id":"/b","location":"eastus","name":"kv","type":"Microsoft.KeyVault/vaults"},"before":null,"changeType":"Create","delta":null,"resourceId":"/b","unsupportedReason":null}
    ]}"#;
    let plan_line = r#"{"@level":"info","@message":"random_integer.example: Plan to create","@module":"terraform.ui","@timestamp":"t","change":{"resource":{"addr":"random_integer.example","module":"","resource":"random_integer.example","implied_provider":"random","resource_type":"resource_group","resource_name":"example","resource_key":null},"action":"create"},"type":"planned_change"}"#;
    let mut tester = OutputTester::new();
    tester.authenticate_azure_cli(true);
    let mut config = ApplicationConfig::default();
    config.expected_results = vec![expected("resource_group")];
    tester.set_application_config(config);
    tester.set_bicep_whatif_output(parse_azure_resource_change(whatif).unwrap());
    tester.set_terraform_plan_output(convert_to_terraform_plan(plan_line).unwrap());
    let report = tester.compare_bicep_whatif_and_terraform_plan().unwrap();
    assert_eq!(report.expected_results.len(), 1);
    assert_eq!(report.actual_results.len(), 2);
    // the expected resource_group is matched on both sides
    assert_eq!(report.actual_results[0].resource_type, "resource_group");
    assert_eq!(report.actual_results[0].is_expected, Some(true));
    assert_eq!(
        report.actual_results[0].provider,
        Some(Provider { bicep: true, terraform: true })
    );
    // the what-if key_vault is left over, found on the bicep side alone
    assert_eq!(report.actual_results[1].resource_type, "key_vault");
    assert_eq!(report.actual_results[1].is_expected, Some(false));
    assert_eq!(
        report.actual_results[1].provider,
        Some(Provider { bicep: true, terraform: false })
    );
}

#[test]
fn test_expected_pass_sets_is_expected_even_when_nothing_matched() {
    let tester = OutputTester::new();
    let expected_list = vec![expected("virtual_network")];
    let mut side_a: Vec<String> = Vec::new();
    let mut side_b: Vec<String> = Vec::new();
    let actual = tester.reconcile(&expected_list, &mut side_a, &mut side_b);
    assert_eq!(actual.len(), 1);
    assert_eq!(actual[0].is_expected, Some(true));
    assert_eq!(
        actual[0].provider,
        Some(Provider { bicep: false, terraform: false })
    );
}

#[test]
fn test_set_deployment_parameters() {
    let mut tester = OutputTester::new();
    let config = ApplicationConfig {
        log_level: Some("info".to_string()),
        infra_parameters: vec![
            InfraParameters {
                bicep_name: Some("location".to_string()),
                terraform_name: Some("location".to_string()),
                value: "eastus".to_string(),
            },
            InfraParameters {
                bicep_name: Some("environmentName".to_string()),
                terraform_name: None,
                value: "dev".to_string(),
            },
            InfraParameters {
                bicep_name: Some("appName".to_string()),
                terraform_name: Some("app_name".to_string()),
                value: "store".to_string(),
            },
            InfraParameters {
                bicep_name: None,
                terraform_name: None,
                value: "unused".to_string(),
            },
        ],
        terraform_path: Some("../aks-store-demo/infra/terraform".to_string()),
        bicep_path: Some("../aks-store-demo/infra/bicep".to_string()),
        expected_results: Vec::new(),
    };
    tester.set_application_config(config);
    tester.set_deployment_parameters();
    assert_eq!(tester.location, "eastus");
    assert_eq!(tester.bicep_deployment_parameters.len(), 3);
    assert_eq!(tester.terraform_deployment_parameters.len(), 2);
    assert_eq!(tester.bicep_deployment_parameters[0], "location=eastus");
    assert_eq!(tester.terraform_deployment_parameters[1], "app_name=store");
}

#[test]
fn test_parse_account_info_not_logged_in() {
    let stdout = "ERROR: Please run 'az login' to setup account.";
    assert_eq!(parse_account_info(stdout).unwrap_err(), AzCliError::NotLoggedIn);
}

#[test]
fn test_parse_account_info_reads_account_fields() {
    let stdout = r#"{"id":"13ae0661","name":"My Subscription","tenantId":"72f988bf"}"#;
    let account = parse_account_info(stdout).unwrap();
    assert_eq!(account.subscription_name.as_deref(), Some("My Subscription"));
    assert_eq!(account.subscription_id.as_deref(), Some("13ae0661"));
    assert_eq!(account.tenant_id.as_deref(), Some("72f988bf"));
}

#[test]
fn test_trim_quotes_and_subscription_match() {
    assert_eq!(trim_quotes("\"My Subscription\""), "My Subscription");
    assert_eq!(trim_quotes("plain"), "plain");
    assert_eq!(trim_quotes("\"\""), "");
    assert!(subscription_matches("\"My Subscription\"", "My Subscription"));
    assert!(!subscription_matches("\"Other\"", "My Subscription"));
}
