//! Record types for the two tools' plan outputs.
//!
//! The terraform-side types mirror the records of the line-delimited JSON
//! plan stream; the azure-side types mirror the what-if change document.
//! Each executable type has a ghost view over `Seq<char>` fields, which the
//! contracts of the parsers and of the reconciliation engine speak of.

use vstd::prelude::*;

verus! {

broadcast use vstd::string::group_string_axioms;

/// Ghost view of an optional owned string.
pub open spec fn view_opt_string(o: Option<String>) -> Option<Seq<char>> {
    match o {
        Some(s) => Some(s@),
        None => None,
    }
}

/// One entry of an `outputs` record: a named output's metadata.
#[derive(Debug, Clone, PartialEq, Eq)]
pub struct TerraformOutput {
    pub sensitive: bool,
    pub action: String,
}

#[verifier::ext_equal]
pub struct TerraformOutputView {
    pub sensitive: bool,
    pub action: Seq<char>,
}

impl View for TerraformOutput {
    type V = TerraformOutputView;

    open spec fn view(&self) -> TerraformOutputView {
        TerraformOutputView { sensitive: self.sensitive, action: self.action@ }
    }
}

/// The change counts carried by a `change_summary` record.
#[derive(Debug, Clone, PartialEq, Eq)]
pub struct TerraformChanges {
    pub add: u32,
    pub change: u32,
    pub import: u32,
    pub remove: u32,
    pub operation: String,
}

#[verifier::ext_equal]
pub struct TerraformChangesView {
    pub add: u32,
    pub change: u32,
    pub import: u32,
    pub remove: u32,
    pub operation: Seq<char>,
}

impl View for TerraformChanges {
    type V = TerraformChangesView;

    open spec fn view(&self) -> TerraformChangesView {
        TerraformChangesView {
            add: self.add,
            change: self.change,
            import: self.import,
            remove: self.remove,
            operation: self.operation@,
        }
    }
}

/// The resource identity carried inside a hook or planned change.
#[derive(Debug, Clone, PartialEq, Eq)]
pub struct TerraformResource {
    pub addr: String,
    pub module: String,
    pub resource: String,
    pub implied_provider: String,
    pub resource_type: String,
    pub resource_name: String,
    pub resource_key: Option<String>,
}

#[verifier::ext_equal]
pub struct TerraformResourceView {
    pub addr: Seq<char>,
    pub module: Seq<char>,
    pub resource: Seq<char>,
    pub implied_provider: Seq<char>,
    pub resource_type: Seq<char>,
    pub resource_name: Seq<char>,
    pub resource_key: Option<Seq<char>>,
}

impl View for TerraformResource {
    type V = TerraformResourceView;

    open spec fn view(&self) -> TerraformResourceView {
        TerraformResourceView {
            addr: self.addr@,
            module: self.module@,
            resource: self.resource@,
            implied_provider: self.implied_provider@,
            resource_type: self.resource_type@,
            resource_name: self.resource_name@,
            resource_key: view_opt_string(self.resource_key),
        }
    }
}

/// A hook payload: a resource plus the action applied to it.
#[derive(Debug, Clone, PartialEq, Eq)]
pub struct TerraformHook {
    pub resource: TerraformResource,
    pub action: String,
    pub id_key: Option<String>,
    pub id_value: Option<String>,
    pub elapsed_seconds: Option<u32>,
}

#[verifier::ext_equal]
pub struct TerraformHookView {
    pub resource: TerraformResourceView,
    pub action: Seq<char>,
    pub id_key: Option<Seq<char>>,
    pub id_value: Option<Seq<char>>,
    pub elapsed_seconds: Option<u32>,
}

impl View for TerraformHook {
    type V = TerraformHookView;

    open spec fn view(&self) -> TerraformHookView {
        TerraformHookView {
            resource: self.resource@,
            action: self.action@,
            id_key: view_opt_string(self.id_key),
            id_value: view_opt_string(self.id_value),
            elapsed_seconds: self.elapsed_seconds,
        }
    }
}

/// One parsed line of the plan stream, tagged by `record_type`.
#[derive(Debug, Clone, PartialEq, Eq)]
pub struct TerraformPlanStep {
    pub record_type: String,
    pub level: String,
    pub message: String,
    pub module: String,
    pub timestamp: String,
    pub terraform: Option<String>,
    pub ui: Option<String>,
    pub hook: Option<TerraformHook>,
    pub id_key: Option<String>,
    pub id_value: Option<String>,
    pub elapsed_seconds: Option<u32>,
    pub change: Option<TerraformHook>,
    pub changes: Option<TerraformChanges>,
    pub outputs: Option<Vec<(String, TerraformOutput)>>,
}

#[verifier::ext_equal]
pub struct TerraformPlanStepView {
    pub record_type: Seq<char>,
    pub level: Seq<char>,
    pub message: Seq<char>,
    pub module: Seq<char>,
    pub timestamp: Seq<char>,
    pub terraform: Option<Seq<char>>,
    pub ui: Option<Seq<char>>,
    pub hook: Option<TerraformHookView>,
    pub id_key: Option<Seq<char>>,
    pub id_value: Option<Seq<char>>,
    pub elapsed_seconds: Option<u32>,
    pub change: Option<TerraformHookView>,
    pub changes: Option<TerraformChangesView>,
    pub outputs: Option<Seq<(Seq<char>, TerraformOutputView)>>,
}

pub open spec fn view_opt_hook(o: Option<TerraformHook>) -> Option<TerraformHookView> {
    match o {
        Some(h) => Some(h@),
        None => None,
    }
}

pub open spec fn view_outputs(
    o: Option<Vec<(String, TerraformOutput)>>,
) -> Option<Seq<(Seq<char>, TerraformOutputView)>> {
    match o {
        Some(v) => Some(v@.map_values(|e: (String, TerraformOutput)| (e.0@, e.1@))),
        None => None,
    }
}

impl View for TerraformPlanStep {
    type V = TerraformPlanStepView;

    open spec fn view(&self) -> TerraformPlanStepView {
        TerraformPlanStepView {
            record_type: self.record_type@,
            level: self.level@,
            message: self.message@,
            module: self.module@,
            timestamp: self.timestamp@,
            terraform: view_opt_string(self.terraform),
            ui: view_opt_string(self.ui),
            hook: view_opt_hook(self.hook),
            id_key: view_opt_string(self.id_key),
            id_value: view_opt_string(self.id_value),
            elapsed_seconds: self.elapsed_seconds,
            change: view_opt_hook(self.change),
            changes: match self.changes {
                Some(c) => Some(c@),
                None => None,
            },
            outputs: view_outputs(self.outputs),
        }
    }
}

/// The aggregate of all records from one plan stream: singleton slots for
/// `version`, `change_summary` and `outputs`; ordered sequences for
/// `apply_start`, `apply_complete` and `planned_change`.
#[derive(Debug, Clone, PartialEq, Eq)]
pub struct TerraformResourceChange {
    pub version: Option<TerraformPlanStep>,
    pub apply_start: Vec<TerraformPlanStep>,
    pub apply_complete: Vec<TerraformPlanStep>,
    pub planned_change: Vec<TerraformPlanStep>,
    pub change_summary: Option<TerraformPlanStep>,
    pub outputs: Option<TerraformPlanStep>,
}

#[verifier::ext_equal]
pub struct TerraformResourceChangeView {
    pub version: Option<TerraformPlanStepView>,
    pub apply_start: Seq<TerraformPlanStepView>,
    pub apply_complete: Seq<TerraformPlanStepView>,
    pub planned_change: Seq<TerraformPlanStepView>,
    pub change_summary: Option<TerraformPlanStepView>,
    pub outputs: Option<TerraformPlanStepView>,
}

pub open spec fn view_opt_step(o: Option<TerraformPlanStep>) -> Option<TerraformPlanStepView> {
    match o {
        Some(s) => Some(s@),
        None => None,
    }
}

pub open spec fn view_steps(v: Vec<TerraformPlanStep>) -> Seq<TerraformPlanStepView> {
    v@.map_values(|s: TerraformPlanStep| s@)
}

impl View for TerraformResourceChange {
    type V = TerraformResourceChangeView;

    open spec fn view(&self) -> TerraformResourceChangeView {
        TerraformResourceChangeView {
            version: view_opt_step(self.version),
            apply_start: view_steps(self.apply_start),
            apply_complete: view_steps(self.apply_complete),
            planned_change: view_steps(self.planned_change),
            change_summary: view_opt_step(self.change_summary),
            outputs: view_opt_step(self.outputs),
        }
    }
}

impl TerraformResourceChange {
    /// The empty document, before any record has been classified into it.
    pub fn new() -> (r: TerraformResourceChange)
        ensures
            r@.version is None,
            r@.apply_start == Seq::<TerraformPlanStepView>::empty(),
            r@.apply_complete == Seq::<TerraformPlanStepView>::empty(),
            r@.planned_change == Seq::<TerraformPlanStepView>::empty(),
            r@.change_summary is None,
            r@.outputs is None,
    {
        let r = TerraformResourceChange {
            version: None,
            apply_start: Vec::new(),
            apply_complete: Vec::new(),
            planned_change: Vec::new(),
            change_summary: None,
            outputs: None,
        };
        assert(view_steps(r.apply_start) =~= Seq::<TerraformPlanStepView>::empty());
        assert(view_steps(r.apply_complete) =~= Seq::<TerraformPlanStepView>::empty());
        assert(view_steps(r.planned_change) =~= Seq::<TerraformPlanStepView>::empty());
        r
    }
}

/// The fixed translation table from ARM resource-type names to the common
/// comparison vocabulary: a type in the table maps to its canonical value,
/// every other type passes through unchanged.
pub open spec fn normalize_arm_type(t: Seq<char>) -> Seq<char> {
    if t == "Microsoft.Resources/resourceGroups"@ {
        "resource_group"@
    } else if t == "Microsoft.ContainerService/managedClusters"@ {
        "kubernetes_cluster"@
    } else if t == "Microsoft.Network/virtualNetworks"@ {
        "virtual_network"@
    } else if t == "Microsoft.Network/publicIPAddresses"@ {
        "public_ip"@
    } else if t == "Microsoft.Network/networkInterfaces"@ {
        "network_interface"@
    } else if t == "Microsoft.Network/networkSecurityGroups"@ {
        "network_security_group"@
    } else if t == "Microsoft.KeyVault/vaults"@ {
        "key_vault"@
    } else if t == "Microsoft.Authorization/roleAssignments"@ {
        "role_assignment"@
    } else {
        t
    }
}

/// The kind of change the what-if engine reports for one resource.
#[derive(Debug, Clone, PartialEq, Eq, Structural)]
pub enum AzureResourceChangeType {
    Create,
    Delete,
    Update,
    Unsupported,
}

/// One resource from the what-if output, as observed after the change.
#[derive(Debug, Clone, PartialEq, Eq)]
pub struct AzureResource {
    pub api_version: String,
    pub id: String,
    pub location: Option<String>,
    pub name: String,
    pub tags: Option<Vec<(String, String)>>,
    pub resource_type: String,
}

#[verifier::ext_equal]
pub struct AzureResourceView {
    pub api_version: Seq<char>,
    pub id: Seq<char>,
    pub location: Option<Seq<char>>,
    pub name: Seq<char>,
    pub tags: Option<Seq<(Seq<char>, Seq<char>)>>,
    pub resource_type: Seq<char>,
}

pub open spec fn view_tags(
    o: Option<Vec<(String, String)>>,
) -> Option<Seq<(Seq<char>, Seq<char>)>> {
    match o {
        Some(v) => Some(v@.map_values(|e: (String, String)| (e.0@, e.1@))),
        None => None,
    }
}

impl View for AzureResource {
    type V = AzureResourceView;

    open spec fn view(&self) -> AzureResourceView {
        AzureResourceView {
            api_version: self.api_version@,
            id: self.id@,
            location: view_opt_string(self.location),
            name: self.name@,
            tags: view_tags(self.tags),
            resource_type: self.resource_type@,
        }
    }
}

impl AzureResource {
    /// The comparison identity of this resource: its type translated through
    /// the fixed table, with its name carried alongside. Coverage fields are
    /// left for the engine to populate.
    pub fn get_comparison_resource(&self) -> (r: crate::output_tester::ExpectedResults)
        ensures
            r@.resource_type == normalize_arm_type(self.resource_type@),
            r@.resource_name == Some(self.name@),
            r@.provider is None,
            r@.is_expected is None,
    {
        let resource_type: String = if self.resource_type
            == String::from_str("Microsoft.Resources/resourceGroups") {
            String::from_str("resource_group")
        } else if self.resource_type == String::from_str(
            "Microsoft.ContainerService/managedClusters",
        ) {
            String::from_str("kubernetes_cluster")
        } else if self.resource_type == String::from_str("Microsoft.Network/virtualNetworks") {
            String::from_str("virtual_network")
        } else if self.resource_type == String::from_str("Microsoft.Network/publicIPAddresses") {
            String::from_str("public_ip")
        } else if self.resource_type == String::from_str("Microsoft.Network/networkInterfaces") {
            String::from_str("network_interface")
        } else if self.resource_type == String::from_str(
            "Microsoft.Network/networkSecurityGroups",
        ) {
            String::from_str("network_security_group")
        } else if self.resource_type == String::from_str("Microsoft.KeyVault/vaults") {
            String::from_str("key_vault")
        } else if self.resource_type == String::from_str("Microsoft.Authorization/roleAssignments")
         {
            String::from_str("role_assignment")
        } else {
            self.resource_type.clone()
        };
        crate::output_tester::ExpectedResults {
            resource_type,
            resource_name: Some(self.name.clone()),
            provider: None,
            is_expected: None,
        }
    }
}

/// Every type string in the fixed table maps to its designated canonical
/// value, and every string outside the table maps to itself, verbatim.
pub proof fn lemma_normalizer_table(t: Seq<char>)
    ensures
        normalize_arm_type("Microsoft.Resources/resourceGroups"@) == "resource_group"@,
        normalize_arm_type("Microsoft.ContainerService/managedClusters"@)
            == "kubernetes_cluster"@,
        normalize_arm_type("Microsoft.Network/virtualNetworks"@) == "virtual_network"@,
        normalize_arm_type("Microsoft.Network/publicIPAddresses"@) == "public_ip"@,
        normalize_arm_type("Microsoft.Network/networkInterfaces"@) == "network_interface"@,
        normalize_arm_type("Microsoft.Network/networkSecurityGroups"@)
            == "network_security_group"@,
        normalize_arm_type("Microsoft.KeyVault/vaults"@) == "key_vault"@,
        normalize_arm_type("Microsoft.Authorization/roleAssignments"@) == "role_assignment"@,
        t != "Microsoft.Resources/resourceGroups"@ && t
            != "Microsoft.ContainerService/managedClusters"@ && t
            != "Microsoft.Network/virtualNetworks"@ && t
            != "Microsoft.Network/publicIPAddresses"@ && t
            != "Microsoft.Network/networkInterfaces"@ && t
            != "Microsoft.Network/networkSecurityGroups"@ && t != "Microsoft.KeyVault/vaults"@
            && t != "Microsoft.Authorization/roleAssignments"@ ==> normalize_arm_type(t) == t,
{
    reveal_strlit("Microsoft.Resources/resourceGroups");
    reveal_strlit("Microsoft.ContainerService/managedClusters");
    reveal_strlit("Microsoft.Network/virtualNetworks");
    reveal_strlit("Microsoft.Network/publicIPAddresses");
    reveal_strlit("Microsoft.Network/networkInterfaces");
    reveal_strlit("Microsoft.Network/networkSecurityGroups");
    reveal_strlit("Microsoft.KeyVault/vaults");
    reveal_strlit("Microsoft.Authorization/roleAssignments");
    assert("Microsoft.Resources/resourceGroups"@.len() == 34);
    assert("Microsoft.ContainerService/managedClusters"@.len() == 42);
    assert("Microsoft.Network/virtualNetworks"@.len() == 33);
    assert("Microsoft.Network/publicIPAddresses"@.len() == 35);
    assert("Microsoft.Network/networkInterfaces"@.len() == 35);
    assert("Microsoft.Network/networkSecurityGroups"@.len() == 39);
    assert("Microsoft.KeyVault/vaults"@.len() == 25);
    assert("Microsoft.Authorization/roleAssignments"@.len() == 39);
    assert("Microsoft.Network/publicIPAddresses"@[18] == 'p');
    assert("Microsoft.Network/networkInterfaces"@[18] == 'n');
    assert("Microsoft.Network/networkSecurityGroups"@[10] == 'N');
    assert("Microsoft.Authorization/roleAssignments"@[10] == 'A');
}

/// One entry of the what-if change list.
#[derive(Debug, Clone, PartialEq, Eq)]
pub struct AzureResourceChangeDetail {
    pub after: Option<AzureResource>,
    pub before: Option<AzureResource>,
    pub change_type: AzureResourceChangeType,
    pub delta: Option<String>,
    pub resource_id: String,
    pub unsupported_reason: Option<String>,
}

#[verifier::ext_equal]
pub struct AzureResourceChangeDetailView {
    pub after: Option<AzureResourceView>,
    pub before: Option<AzureResourceView>,
    pub change_type: AzureResourceChangeType,
    pub delta: Option<Seq<char>>,
    pub resource_id: Seq<char>,
    pub unsupported_reason: Option<Seq<char>>,
}

pub open spec fn view_opt_resource(o: Option<AzureResource>) -> Option<AzureResourceView> {
    match o {
        Some(r) => Some(r@),
        None => None,
    }
}

impl View for AzureResourceChangeDetail {
    type V = AzureResourceChangeDetailView;

    open spec fn view(&self) -> AzureResourceChangeDetailView {
        AzureResourceChangeDetailView {
            after: view_opt_resource(self.after),
            before: view_opt_resource(self.before),
            change_type: self.change_type,
            delta: view_opt_string(self.delta),
            resource_id: self.resource_id@,
            unsupported_reason: view_opt_string(self.unsupported_reason),
        }
    }
}

/// The whole what-if change document.
#[derive(Debug, Clone, PartialEq, Eq)]
pub struct AzureResourceChange {
    pub changes: Vec<AzureResourceChangeDetail>,
}

#[verifier::ext_equal]
pub struct AzureResourceChangeView {
    pub changes: Seq<AzureResourceChangeDetailView>,
}

impl View for AzureResourceChange {
    type V = AzureResourceChangeView;

    open spec fn view(&self) -> AzureResourceChangeView {
        AzureResourceChangeView {
            changes: self.changes@.map_values(|d: AzureResourceChangeDetail| d@),
        }
    }
}

} // verus!
