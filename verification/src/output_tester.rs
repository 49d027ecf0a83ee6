//! Configuration and report types, and the reconciliation driver.

use vstd::prelude::*;
use crate::reconcile::{
    key_views, spec_expected_record, spec_pass1, spec_pass2, spec_pass3, spec_reconcile,
    spec_remove_key, spec_unexpected_record, view_expected_seq,
};
use crate::resource::{
    normalize_arm_type, AzureResourceChange, AzureResourceChangeDetailView,
    AzureResourceChangeView, TerraformPlanStepView, TerraformResourceChange,
    TerraformResourceChangeView,
};
use crate::strutil::push_char;

verus! {

broadcast use vstd::string::group_string_axioms;

/// Which of the two tools' observed outputs contained a matching resource
/// identity.
#[derive(Debug, Clone, Copy, PartialEq, Eq, Structural)]
pub struct Provider {
    pub bicep: bool,
    pub terraform: bool,
}

impl Provider {
    /// A coverage record with neither side matched yet.
    pub fn new() -> (r: Provider)
        ensures
            r == (Provider { bicep: false, terraform: false }),
    {
        Provider { bicep: false, terraform: false }
    }

    /// The same record with the bicep side marked as matched.
    pub fn set_bicep(self) -> (r: Provider)
        ensures
            r == (Provider { bicep: true, terraform: self.terraform }),
    {
        Provider { bicep: true, ..self }
    }

    /// The same record with the terraform side marked as matched.
    pub fn set_terraform(self) -> (r: Provider)
        ensures
            r == (Provider { bicep: self.bicep, terraform: true }),
    {
        Provider { terraform: true, ..self }
    }
}

/// One expected resource on input; one coverage record on output. Only
/// `resource_type` and `resource_name` are read by the engine; `provider` and
/// `is_expected` are populated by it.
#[derive(Debug, Clone, PartialEq, Eq)]
pub struct ExpectedResults {
    pub resource_type: String,
    pub resource_name: Option<String>,
    pub provider: Option<Provider>,
    pub is_expected: Option<bool>,
}

#[verifier::ext_equal]
pub struct ExpectedResultsView {
    pub resource_type: Seq<char>,
    pub resource_name: Option<Seq<char>>,
    pub provider: Option<Provider>,
    pub is_expected: Option<bool>,
}

impl View for ExpectedResults {
    type V = ExpectedResultsView;

    open spec fn view(&self) -> ExpectedResultsView {
        ExpectedResultsView {
            resource_type: self.resource_type@,
            resource_name: crate::resource::view_opt_string(self.resource_name),
            provider: self.provider,
            is_expected: self.is_expected,
        }
    }
}

/// One deployment parameter of the configuration, optionally named for each
/// tool.
#[derive(Debug, Clone, PartialEq, Eq)]
pub struct InfraParameters {
    pub bicep_name: Option<String>,
    pub terraform_name: Option<String>,
    pub value: String,
}

#[verifier::ext_equal]
pub struct InfraParametersView {
    pub bicep_name: Option<Seq<char>>,
    pub terraform_name: Option<Seq<char>>,
    pub value: Seq<char>,
}

impl View for InfraParameters {
    type V = InfraParametersView;

    open spec fn view(&self) -> InfraParametersView {
        InfraParametersView {
            bicep_name: crate::resource::view_opt_string(self.bicep_name),
            terraform_name: crate::resource::view_opt_string(self.terraform_name),
            value: self.value@,
        }
    }
}

/// The caller-supplied configuration: deployment parameters, the two tools'
/// working directories, and the expected resource list.
#[derive(Debug, Clone, PartialEq, Eq)]
pub struct ApplicationConfig {
    pub log_level: Option<String>,
    pub infra_parameters: Vec<InfraParameters>,
    pub terraform_path: Option<String>,
    pub bicep_path: Option<String>,
    pub expected_results: Vec<ExpectedResults>,
}

impl Default for ApplicationConfig {
    fn default() -> (r: ApplicationConfig)
        ensures
            r.log_level matches Some(l) && l@ == "info"@,
            r.infra_parameters@ == Seq::<InfraParameters>::empty(),
            r.terraform_path matches Some(t) && t@ == "./infra/terraform"@,
            r.bicep_path matches Some(b) && b@ == "./infra/bicep"@,
            r.expected_results@ == Seq::<ExpectedResults>::empty(),
    {
        ApplicationConfig {
            log_level: Some(String::from_str("info")),
            infra_parameters: Vec::new(),
            terraform_path: Some(String::from_str("./infra/terraform")),
            bicep_path: Some(String::from_str("./infra/bicep")),
            expected_results: Vec::new(),
        }
    }
}

/// The coverage report: the expected list as given, and one record per
/// matched or observed resource.
#[derive(Debug, Clone, PartialEq, Eq)]
pub struct ActualResults {
    pub expected_results: Vec<ExpectedResults>,
    pub actual_results: Vec<ExpectedResults>,
}

impl Default for ActualResults {
    /// The empty report.
    fn default() -> (r: ActualResults)
        ensures
            r.expected_results@ == Seq::<ExpectedResults>::empty(),
            r.actual_results@ == Seq::<ExpectedResults>::empty(),
    {
        ActualResults { expected_results: Vec::new(), actual_results: Vec::new() }
    }
}

fn clone_opt_string(o: &Option<String>) -> (r: Option<String>)
    ensures
        r == *o,
{
    match o {
        Some(s) => Some(s.clone()),
        None => None,
    }
}

/// A field-for-field copy of one result record.
pub fn clone_expected(e: &ExpectedResults) -> (r: ExpectedResults)
    ensures
        r == *e,
{
    ExpectedResults {
        resource_type: e.resource_type.clone(),
        resource_name: clone_opt_string(&e.resource_name),
        provider: e.provider,
        is_expected: e.is_expected,
    }
}

/// A field-for-field copy of an expected-resource list.
pub fn clone_expected_vec(v: &Vec<ExpectedResults>) -> (r: Vec<ExpectedResults>)
    ensures
        r@ == v@,
{
    let mut r: Vec<ExpectedResults> = Vec::new();
    let mut i: usize = 0;
    while i < v.len()
        invariant
            i <= v.len(),
            r@ =~= v@.take(i as int),
        decreases v.len() - i,
    {
        r.push(clone_expected(&v[i]));
        proof {
            assert(v@.take(i + 1) =~= v@.take(i as int).push(v@[i as int]));
        }
        i = i + 1;
    }
    proof {
        assert(v@.take(v@.len() as int) =~= v@);
    }
    r
}

/// The index of the first key in `v` equal to `key`, if any.
fn find_key(v: &Vec<String>, key: &str) -> (r: Option<usize>)
    ensures
        (match r {
            Some(j) => key_views(v@).index_of_first(key@) == Some(j as int),
            None => key_views(v@).index_of_first(key@) is None && !key_views(v@).contains(key@),
        }),
{
    let ghost ks = key_views(v@);
    proof {
        ks.index_of_first_ensures(key@);
    }
    let target = String::from_str(key);
    let mut j: usize = 0;
    while j < v.len()
        invariant
            j <= v.len(),
            ks == key_views(v@),
            target@ == key@,
            forall|jj: int| 0 <= jj < j ==> ks[jj] != key@,
            ks.index_of_first(key@) matches Some(i) ==> i >= 0,
            ks.index_of_first(key@) matches Some(i) ==> ks[i] == key@,
            ks.index_of_first(key@) is None ==> !ks.contains(key@),
            ks.contains(key@) ==> ks.index_of_first(key@) is Some,
            ks.index_of_first(key@) matches Some(i) ==> forall|jj: int|
                0 <= jj < i ==> ks[jj] != key@,
        decreases v.len() - j,
    {
        if v[j] == target {
            proof {
                assert(ks[j as int] == key@);
                assert(ks.contains(key@));
                let i = ks.index_of_first(key@)->0;
                if i < j as int {
                    assert(ks[i] == key@);
                    assert(false);
                }
                if i > j as int {
                    assert(ks[j as int] != key@);
                    assert(false);
                }
            }
            return Some(j);
        }
        j = j + 1;
    }
    proof {
        if ks.contains(key@) {
            let w = choose|w: int| 0 <= w < ks.len() && ks[w] == key@;
            assert(ks[w] != key@);
            assert(false);
        }
        ks.index_of_first_ensures(key@);
        if ks.index_of_first(key@) is Some {
            let i = ks.index_of_first(key@)->0;
            assert(ks.contains(key@));
        }
    }
    None
}

/// The reconciliation is refused before it starts when no authenticated
/// session is present.
#[derive(Debug, Clone, Copy, PartialEq, Eq, Structural)]
pub enum CompareError {
    NotAuthenticated,
}

/// The comparison keys of the what-if side: each change's `after` resource,
/// translated through the fixed table, in document order. Changes without an
/// `after` resource contribute no key.
pub open spec fn has_after() -> spec_fn(AzureResourceChangeDetailView) -> bool {
    |d: AzureResourceChangeDetailView| d.after is Some
}

pub open spec fn after_key() -> spec_fn(AzureResourceChangeDetailView) -> Seq<char> {
    |d: AzureResourceChangeDetailView| normalize_arm_type(d.after->0.resource_type)
}

pub open spec fn spec_side_a_keys(c: AzureResourceChangeView) -> Seq<Seq<char>> {
    c.changes.filter(has_after()).map_values(after_key())
}

/// The comparison keys of the plan side: each planned change's raw
/// `resource_type`, in stream order. Records without a change hook
/// contribute no key.
pub open spec fn has_change() -> spec_fn(TerraformPlanStepView) -> bool {
    |s: TerraformPlanStepView| s.change is Some
}

pub open spec fn change_key() -> spec_fn(TerraformPlanStepView) -> Seq<char> {
    |s: TerraformPlanStepView| s.change->0.resource.resource_type
}

pub open spec fn spec_side_b_keys(doc: TerraformResourceChangeView) -> Seq<Seq<char>> {
    doc.planned_change.filter(has_change()).map_values(change_key())
}

/// The bicep-side deployment parameters of a configuration: one
/// `name=value` string per entry that names a bicep parameter, in order.
pub open spec fn spec_bicep_params(entries: Seq<InfraParametersView>) -> Seq<Seq<char>>
    decreases entries.len(),
{
    if entries.len() == 0 {
        Seq::empty()
    } else {
        let rest = spec_bicep_params(entries.skip(1));
        match entries[0].bicep_name {
            Some(n) => seq![n + "="@ + entries[0].value] + rest,
            None => rest,
        }
    }
}

/// The terraform-side deployment parameters, likewise.
pub open spec fn spec_terraform_params(entries: Seq<InfraParametersView>) -> Seq<Seq<char>>
    decreases entries.len(),
{
    if entries.len() == 0 {
        Seq::empty()
    } else {
        let rest = spec_terraform_params(entries.skip(1));
        match entries[0].terraform_name {
            Some(n) => seq![n + "="@ + entries[0].value] + rest,
            None => rest,
        }
    }
}

/// The deployment location after the parameters are read: the value of the
/// last entry whose bicep name is `location`, or the starting location.
pub open spec fn spec_location(entries: Seq<InfraParametersView>, loc: Seq<char>) -> Seq<char>
    decreases entries.len(),
{
    if entries.len() == 0 {
        loc
    } else {
        spec_location(
            entries.skip(1),
            if entries[0].bicep_name == Some("location"@) {
                entries[0].value
            } else {
                loc
            },
        )
    }
}

pub open spec fn view_params(v: Vec<InfraParameters>) -> Seq<InfraParametersView> {
    v@.map_values(|p: InfraParameters| p@)
}

/// One comparison run: the configuration, the session and parameter state,
/// and the two tools' captured outputs.
#[derive(Debug, Clone, PartialEq, Eq)]
pub struct OutputTester {
    pub config: ApplicationConfig,
    pub azure_cli_authenticated: bool,
    pub location: String,
    pub bicep_deployment_parameters: Vec<String>,
    pub terraform_deployment_parameters: Vec<String>,
    pub bicep_whatif_output: Option<AzureResourceChange>,
    pub terraform_plan_output: Option<TerraformResourceChange>,
}

impl OutputTester {
    /// A fresh run: default configuration, no session, location `eastus`,
    /// no parameters, no outputs.
    pub fn new() -> (r: OutputTester)
        ensures
            r.config.log_level matches Some(l) && l@ == "info"@,
            r.config.infra_parameters@ == Seq::<InfraParameters>::empty(),
            r.config.terraform_path matches Some(t) && t@ == "./infra/terraform"@,
            r.config.bicep_path matches Some(b) && b@ == "./infra/bicep"@,
            r.config.expected_results@ == Seq::<ExpectedResults>::empty(),
            !r.azure_cli_authenticated,
            r.location@ == "eastus"@,
            r.bicep_deployment_parameters@ == Seq::<String>::empty(),
            r.terraform_deployment_parameters@ == Seq::<String>::empty(),
            r.bicep_whatif_output is None,
            r.terraform_plan_output is None,
    {
        OutputTester {
            config: Default::default(),
            azure_cli_authenticated: false,
            location: String::from_str("eastus"),
            bicep_deployment_parameters: Vec::new(),
            terraform_deployment_parameters: Vec::new(),
            bicep_whatif_output: None,
            terraform_plan_output: None,
        }
    }

    /// Installs the caller's configuration; everything else is kept.
    pub fn set_application_config(&mut self, config: ApplicationConfig)
        ensures
            final(self).config == config,
            final(self).azure_cli_authenticated == old(self).azure_cli_authenticated,
            final(self).location == old(self).location,
            final(self).bicep_deployment_parameters == old(self).bicep_deployment_parameters,
            final(self).terraform_deployment_parameters == old(
                self,
            ).terraform_deployment_parameters,
            final(self).bicep_whatif_output == old(self).bicep_whatif_output,
            final(self).terraform_plan_output == old(self).terraform_plan_output,
    {
        self.config = config;
    }

    /// Records the outcome of the session check the caller ran: a successful
    /// check authenticates the run, a failed one leaves it as it was.
    pub fn authenticate_azure_cli(&mut self, succeeded: bool)
        ensures
            final(self).azure_cli_authenticated == (old(self).azure_cli_authenticated
                || succeeded),
            final(self).config == old(self).config,
            final(self).location == old(self).location,
            final(self).bicep_deployment_parameters == old(self).bicep_deployment_parameters,
            final(self).terraform_deployment_parameters == old(
                self,
            ).terraform_deployment_parameters,
            final(self).bicep_whatif_output == old(self).bicep_whatif_output,
            final(self).terraform_plan_output == old(self).terraform_plan_output,
    {
        if succeeded {
            self.azure_cli_authenticated = true;
        }
    }

    /// Stores the parsed what-if output; everything else is kept.
    pub fn set_bicep_whatif_output(&mut self, output: AzureResourceChange)
        ensures
            final(self).bicep_whatif_output == Some(output),
            final(self).config == old(self).config,
            final(self).azure_cli_authenticated == old(self).azure_cli_authenticated,
            final(self).location == old(self).location,
            final(self).bicep_deployment_parameters == old(self).bicep_deployment_parameters,
            final(self).terraform_deployment_parameters == old(
                self,
            ).terraform_deployment_parameters,
            final(self).terraform_plan_output == old(self).terraform_plan_output,
    {
        self.bicep_whatif_output = Some(output);
    }

    /// Stores the classified plan document; everything else is kept.
    pub fn set_terraform_plan_output(&mut self, output: TerraformResourceChange)
        ensures
            final(self).terraform_plan_output == Some(output),
            final(self).config == old(self).config,
            final(self).azure_cli_authenticated == old(self).azure_cli_authenticated,
            final(self).location == old(self).location,
            final(self).bicep_deployment_parameters == old(self).bicep_deployment_parameters,
            final(self).terraform_deployment_parameters == old(
                self,
            ).terraform_deployment_parameters,
            final(self).bicep_whatif_output == old(self).bicep_whatif_output,
    {
        self.terraform_plan_output = Some(output);
    }

    /// Reads the configured deployment parameters: appends one `name=value`
    /// argument per named parameter to each tool's list, and takes the value
    /// of a bicep `location` parameter as the deployment location.
    pub fn set_deployment_parameters(&mut self)
        ensures
            key_views(final(self).bicep_deployment_parameters@) == key_views(
                old(self).bicep_deployment_parameters@,
            ) + spec_bicep_params(view_params(old(self).config.infra_parameters)),
            key_views(final(self).terraform_deployment_parameters@) == key_views(
                old(self).terraform_deployment_parameters@,
            ) + spec_terraform_params(view_params(old(self).config.infra_parameters)),
            final(self).location@ == spec_location(
                view_params(old(self).config.infra_parameters),
                old(self).location@,
            ),
            final(self).config == old(self).config,
            final(self).azure_cli_authenticated == old(self).azure_cli_authenticated,
            final(self).bicep_whatif_output == old(self).bicep_whatif_output,
            final(self).terraform_plan_output == old(self).terraform_plan_output,
    {
        let ghost entries = view_params(self.config.infra_parameters);
        let ghost bicep0 = key_views(self.bicep_deployment_parameters@);
        let ghost terraform0 = key_views(self.terraform_deployment_parameters@);
        let ghost loc0 = self.location@;
        let mut i: usize = 0;
        proof {
            assert(entries.skip(0) =~= entries);
            assert(bicep0 + Seq::<Seq<char>>::empty() =~= bicep0);
        }
        while i < self.config.infra_parameters.len()
            invariant
                i <= self.config.infra_parameters.len(),
                entries == view_params(self.config.infra_parameters),
                self.config == old(self).config,
                self.azure_cli_authenticated == old(self).azure_cli_authenticated,
                self.bicep_whatif_output == old(self).bicep_whatif_output,
                self.terraform_plan_output == old(self).terraform_plan_output,
                bicep0 + spec_bicep_params(entries) == key_views(
                    self.bicep_deployment_parameters@,
                ) + spec_bicep_params(entries.skip(i as int)),
                terraform0 + spec_terraform_params(entries) == key_views(
                    self.terraform_deployment_parameters@,
                ) + spec_terraform_params(entries.skip(i as int)),
                spec_location(entries, loc0) == spec_location(
                    entries.skip(i as int),
                    self.location@,
                ),
                bicep0 == key_views(old(self).bicep_deployment_parameters@),
                terraform0 == key_views(old(self).terraform_deployment_parameters@),
                loc0 == old(self).location@,
            decreases self.config.infra_parameters.len() - i,
        {
            proof {
                let rest = entries.skip(i as int);
                assert(rest[0] == entries[i as int]);
                assert(rest.skip(1) =~= entries.skip(i as int + 1));
            }
            let entry = clone_infra_parameter(&self.config.infra_parameters[i]);
            if let Some(bicep_name) = &entry.bicep_name {
                if *bicep_name == String::from_str("location") {
                    self.location = entry.value.clone();
                }
                let mut arg = bicep_name.clone();
                push_char(&mut arg, '=');
                arg.append(entry.value.as_str());
                proof {
                    reveal_strlit("=");
                    assert(arg@ == bicep_name@ + "="@ + entry.value@);
                }
                let ghost prev = key_views(self.bicep_deployment_parameters@);
                self.bicep_deployment_parameters.push(arg);
                proof {
                    assert(key_views(self.bicep_deployment_parameters@) =~= prev.push(
                        entries[i as int].bicep_name->0 + "="@ + entries[i as int].value,
                    ));
                    assert(prev + (seq![
                        entries[i as int].bicep_name->0 + "="@ + entries[i as int].value,
                    ] + spec_bicep_params(entries.skip(i as int + 1))) =~= prev.push(
                        entries[i as int].bicep_name->0 + "="@ + entries[i as int].value,
                    ) + spec_bicep_params(entries.skip(i as int + 1)));
                }
            }
            if let Some(terraform_name) = &entry.terraform_name {
                let mut arg = terraform_name.clone();
                push_char(&mut arg, '=');
                arg.append(entry.value.as_str());
                proof {
                    reveal_strlit("=");
                    assert(arg@ == terraform_name@ + "="@ + entry.value@);
                }
                let ghost prev = key_views(self.terraform_deployment_parameters@);
                self.terraform_deployment_parameters.push(arg);
                proof {
                    assert(key_views(self.terraform_deployment_parameters@) =~= prev.push(
                        entries[i as int].terraform_name->0 + "="@ + entries[i as int].value,
                    ));
                    assert(prev + (seq![
                        entries[i as int].terraform_name->0 + "="@ + entries[i as int].value,
                    ] + spec_terraform_params(entries.skip(i as int + 1))) =~= prev.push(
                        entries[i as int].terraform_name->0 + "="@ + entries[i as int].value,
                    ) + spec_terraform_params(entries.skip(i as int + 1)));
                }
            }
            i = i + 1;
        }
        proof {
            assert(entries.skip(entries.len() as int) =~= Seq::<InfraParametersView>::empty());
            assert(key_views(self.bicep_deployment_parameters@) + Seq::<Seq<char>>::empty()
                =~= key_views(self.bicep_deployment_parameters@));
            assert(key_views(self.terraform_deployment_parameters@) + Seq::<Seq<char>>::empty()
                =~= key_views(self.terraform_deployment_parameters@));
        }
    }
}

/// A field-for-field copy of one configuration parameter entry.
fn clone_infra_parameter(p: &InfraParameters) -> (r: InfraParameters)
    ensures
        r == *p,
{
    InfraParameters {
        bicep_name: clone_opt_string(&p.bicep_name),
        terraform_name: clone_opt_string(&p.terraform_name),
        value: p.value.clone(),
    }
}

impl OutputTester {
    /// The what-if side's comparison keys, drawn from the stored output.
    pub fn get_bicep_resources_for_comparison(&self) -> (r: Vec<String>)
        requires
            self.bicep_whatif_output is Some,
        ensures
            key_views(r@) == spec_side_a_keys((self.bicep_whatif_output->0)@),
    {
        let output = match &self.bicep_whatif_output {
            Some(o) => o,
            None => {
                unreached()
            },
        };
        let ghost changes = output@.changes;
        let mut r: Vec<String> = Vec::new();
        let mut i: usize = 0;
        proof {
            reveal(Seq::<AzureResourceChangeDetailView>::filter);
            assert(changes.take(0) =~= Seq::<AzureResourceChangeDetailView>::empty());
            assert(key_views(r@) =~= changes.take(0).filter(has_after()).map_values(after_key()));
        }
        while i < output.changes.len()
            invariant
                i <= output.changes.len(),
                changes == output@.changes,
                output == self.bicep_whatif_output->0,
                self.bicep_whatif_output is Some,
                key_views(r@) == changes.take(i as int).filter(has_after()).map_values(after_key()),
            decreases output.changes.len() - i,
        {
            proof {
                reveal(Seq::<AzureResourceChangeDetailView>::filter);
                assert(changes.take(i + 1).drop_last() =~= changes.take(i as int));
                assert(changes.take(i + 1).last() == changes[i as int]);
            }
            let detail = &output.changes[i];
            assert(detail@ == changes[i as int]);
            if let Some(after) = &detail.after {
                let identity = after.get_comparison_resource();
                let ghost prev = key_views(r@);
                proof {
                    assert(changes[i as int].after == Some(after@));
                    assert(has_after()(changes[i as int]));
                    assert(identity@.resource_type == after_key()(changes[i as int]));
                }
                r.push(identity.resource_type);
                proof {
                    reveal(Seq::<AzureResourceChangeDetailView>::filter);
                    assert(key_views(r@) =~= prev.push(after_key()(changes[i as int])));
                    assert(changes.take(i + 1).filter(has_after()) == changes.take(i as int).filter(
                        has_after(),
                    ).push(changes[i as int]));
                    assert(changes.take(i + 1).filter(has_after()).map_values(after_key())
                        =~= changes.take(i as int).filter(has_after()).map_values(
                        after_key(),
                    ).push(after_key()(changes[i as int])));
                }
            } else {
                proof {
                    reveal(Seq::<AzureResourceChangeDetailView>::filter);
                    assert(changes[i as int].after is None);
                    assert(!has_after()(changes[i as int]));
                    assert(changes.take(i + 1).filter(has_after()) == changes.take(i as int).filter(
                        has_after(),
                    ));
                }
            }
            i = i + 1;
        }
        proof {
            assert(changes.take(changes.len() as int) =~= changes);
        }
        r
    }

    /// The plan side's comparison keys, drawn from the stored document.
    pub fn get_terraform_resources_for_comparison(&self) -> (r: Vec<String>)
        requires
            self.terraform_plan_output is Some,
        ensures
            key_views(r@) == spec_side_b_keys((self.terraform_plan_output->0)@),
    {
        let output = match &self.terraform_plan_output {
            Some(o) => o,
            None => {
                unreached()
            },
        };
        let ghost planned = output@.planned_change;
        let mut r: Vec<String> = Vec::new();
        let mut i: usize = 0;
        proof {
            reveal(Seq::<TerraformPlanStepView>::filter);
            assert(planned.take(0) =~= Seq::<TerraformPlanStepView>::empty());
            assert(key_views(r@) =~= planned.take(0).filter(has_change()).map_values(change_key()));
        }
        while i < output.planned_change.len()
            invariant
                i <= output.planned_change.len(),
                planned == output@.planned_change,
                output == self.terraform_plan_output->0,
                self.terraform_plan_output is Some,
                key_views(r@) == planned.take(i as int).filter(has_change()).map_values(change_key()),
            decreases output.planned_change.len() - i,
        {
            proof {
                reveal(Seq::<TerraformPlanStepView>::filter);
                assert(planned.take(i + 1).drop_last() =~= planned.take(i as int));
                assert(planned.take(i + 1).last() == planned[i as int]);
            }
            let step = &output.planned_change[i];
            assert(step@ == planned[i as int]);
            if let Some(change) = &step.change {
                let ghost prev = key_views(r@);
                proof {
                    assert(planned[i as int].change == Some(change@));
                    assert(has_change()(planned[i as int]));
                    assert(change.resource.resource_type@ == change_key()(planned[i as int]));
                }
                r.push(change.resource.resource_type.clone());
                proof {
                    reveal(Seq::<TerraformPlanStepView>::filter);
                    assert(key_views(r@) =~= prev.push(change_key()(planned[i as int])));
                    assert(planned.take(i + 1).filter(has_change()) == planned.take(i as int).filter(
                        has_change(),
                    ).push(planned[i as int]));
                    assert(planned.take(i + 1).filter(has_change()).map_values(change_key())
                        =~= planned.take(i as int).filter(has_change()).map_values(
                        change_key(),
                    ).push(change_key()(planned[i as int])));
                }
            } else {
                proof {
                    reveal(Seq::<TerraformPlanStepView>::filter);
                    assert(planned[i as int].change is None);
                    assert(!has_change()(planned[i as int]));
                    assert(planned.take(i + 1).filter(has_change()) == planned.take(i as int).filter(
                        has_change(),
                    ));
                }
            }
            i = i + 1;
        }
        proof {
            assert(planned.take(planned.len() as int) =~= planned);
        }
        r
    }

    /// Removes the first entry equal to `resource` from the sequence, if one
    /// is there; an absent key leaves the sequence untouched.
    pub fn remove_matched_resource(&self, resource: &str, vec: &mut Vec<String>)
        ensures
            key_views(final(vec)@) == spec_remove_key(key_views(old(vec)@), resource@),
    {
        proof {
            key_views(vec@).index_of_first_ensures(resource@);
        }
        match find_key(vec, resource) {
            Some(j) => {
                let ghost prev = key_views(vec@);
                let ghost jj = prev.index_of_first(resource@)->0;
                vec.remove(j);
                proof {
                    assert(key_views(vec@) =~= prev.remove(jj));
                }
            },
            None => {},
        }
    }

    /// One record of the expected pass: both sides are tested independently
    /// for the expected key, each side found sets its coverage bit and loses
    /// one first-matching entry, and `is_expected` is set unconditionally.
    pub fn process_expected_results(
        &self,
        expected: &ExpectedResults,
        azure_resources: &mut Vec<String>,
        terraform_resources: &mut Vec<String>,
    ) -> (r: ExpectedResults)
        ensures
            r@ == spec_expected_record(
                expected@,
                key_views(old(azure_resources)@).contains(expected@.resource_type),
                key_views(old(terraform_resources)@).contains(expected@.resource_type),
            ),
            key_views(final(azure_resources)@) == spec_remove_key(
                key_views(old(azure_resources)@),
                expected@.resource_type,
            ),
            key_views(final(terraform_resources)@) == spec_remove_key(
                key_views(old(terraform_resources)@),
                expected@.resource_type,
            ),
    {
        let mut actual_result = clone_expected(expected);
        actual_result.is_expected = Some(true);
        let mut provider = Provider::new();
        proof {
            key_views(azure_resources@).index_of_first_ensures(expected.resource_type@);
            key_views(terraform_resources@).index_of_first_ensures(expected.resource_type@);
        }
        if find_key(azure_resources, expected.resource_type.as_str()).is_some() {
            provider = provider.set_bicep();
            self.remove_matched_resource(expected.resource_type.as_str(), azure_resources);
        }
        if find_key(terraform_resources, expected.resource_type.as_str()).is_some() {
            provider = provider.set_terraform();
            self.remove_matched_resource(expected.resource_type.as_str(), terraform_resources);
        }
        actual_result.provider = Some(provider);
        actual_result
    }

    /// One record of the sideB-leftover pass: the leftover key is reported
    /// as observed-but-unexpected with the terraform bit set; where the
    /// already-mutated sideA still holds the key, the bicep bit is set too
    /// and the match leaves sideA.
    pub fn process_unexpected_terraform_results(
        &self,
        azure_resources: &mut Vec<String>,
        x: &String,
    ) -> (r: ExpectedResults)
        ensures
            r@ == spec_unexpected_record(
                x@,
                key_views(old(azure_resources)@).contains(x@),
                true,
            ),
            key_views(final(azure_resources)@) == spec_remove_key(
                key_views(old(azure_resources)@),
                x@,
            ),
    {
        let mut unexpected_provider = Provider::new().set_terraform();
        proof {
            key_views(azure_resources@).index_of_first_ensures(x@);
        }
        if find_key(azure_resources, x.as_str()).is_some() {
            unexpected_provider = unexpected_provider.set_bicep();
            self.remove_matched_resource(x.as_str(), azure_resources);
        }
        ExpectedResults {
            resource_type: x.clone(),
            resource_name: None,
            provider: Some(unexpected_provider),
            is_expected: Some(false),
        }
    }

    /// One record of the sideA-leftover pass, symmetrically: the bicep bit
    /// is always set, and a match found in what remains of sideB sets the
    /// terraform bit and leaves sideB.
    pub fn process_unexpected_bicep_results(
        &self,
        terraform_resources: &mut Vec<String>,
        x: &String,
    ) -> (r: ExpectedResults)
        ensures
            r@ == spec_unexpected_record(
                x@,
                true,
                key_views(old(terraform_resources)@).contains(x@),
            ),
            key_views(final(terraform_resources)@) == spec_remove_key(
                key_views(old(terraform_resources)@),
                x@,
            ),
    {
        let mut unexpected_provider = Provider::new().set_bicep();
        proof {
            key_views(terraform_resources@).index_of_first_ensures(x@);
        }
        if find_key(terraform_resources, x.as_str()).is_some() {
            unexpected_provider = unexpected_provider.set_terraform();
            self.remove_matched_resource(x.as_str(), terraform_resources);
        }
        ExpectedResults {
            resource_type: x.clone(),
            resource_name: None,
            provider: Some(unexpected_provider),
            is_expected: Some(false),
        }
    }

    /// The three-pass matching between the expected list and the two
    /// observed key sequences. Consumes both sequences; the record order is
    /// expected pass, then sideB leftovers, then sideA leftovers.
    pub fn reconcile(
        &self,
        expected: &Vec<ExpectedResults>,
        azure_resources: &mut Vec<String>,
        terraform_resources: &mut Vec<String>,
    ) -> (r: Vec<ExpectedResults>)
        ensures
            view_expected_seq(r@) == spec_reconcile(
                view_expected_seq(expected@),
                key_views(old(azure_resources)@),
                key_views(old(terraform_resources)@),
            ),
            final(azure_resources)@.len() == 0,
            final(terraform_resources)@.len() == 0,
    {
        let ghost es = view_expected_seq(expected@);
        let ghost a0 = key_views(azure_resources@);
        let ghost b0 = key_views(terraform_resources@);
        let ghost p1 = spec_pass1(es, a0, b0);
        let mut actual: Vec<ExpectedResults> = Vec::new();
        let mut i: usize = 0;
        proof {
            assert(es.skip(0) =~= es);
            assert(view_expected_seq(actual@) =~= Seq::<ExpectedResultsView>::empty());
        }
        while i < expected.len()
            invariant
                i <= expected.len(),
                es == view_expected_seq(expected@),
                p1 == spec_pass1(es, a0, b0),
                p1.0 == view_expected_seq(actual@) + spec_pass1(
                    es.skip(i as int),
                    key_views(azure_resources@),
                    key_views(terraform_resources@),
                ).0,
                p1.1 == spec_pass1(
                    es.skip(i as int),
                    key_views(azure_resources@),
                    key_views(terraform_resources@),
                ).1,
                p1.2 == spec_pass1(
                    es.skip(i as int),
                    key_views(azure_resources@),
                    key_views(terraform_resources@),
                ).2,
            decreases expected.len() - i,
        {
            proof {
                let rest = es.skip(i as int);
                assert(rest[0] == es[i as int]);
                assert(rest.skip(1) =~= es.skip(i as int + 1));
            }
            let ghost prev = view_expected_seq(actual@);
            let rec = self.process_expected_results(
                &expected[i],
                azure_resources,
                terraform_resources,
            );
            let ghost rv = rec@;
            actual.push(rec);
            proof {
                assert(view_expected_seq(actual@) =~= prev.push(rv));
                assert(prev + (seq![rv] + spec_pass1(
                    es.skip(i as int + 1),
                    key_views(azure_resources@),
                    key_views(terraform_resources@),
                ).0) =~= prev.push(rv) + spec_pass1(
                    es.skip(i as int + 1),
                    key_views(azure_resources@),
                    key_views(terraform_resources@),
                ).0);
            }
            i = i + 1;
        }
        proof {
            assert(es.skip(expected.len() as int) =~= Seq::<ExpectedResultsView>::empty());
        }
        let ghost p2 = spec_pass2(p1.2, p1.1);
        while terraform_resources.len() > 0
            invariant
                p1 == spec_pass1(es, a0, b0),
                p2 == spec_pass2(p1.2, p1.1),
                p1.0 + p2.0 == view_expected_seq(actual@) + spec_pass2(
                    key_views(terraform_resources@),
                    key_views(azure_resources@),
                ).0,
                p2.1 == spec_pass2(
                    key_views(terraform_resources@),
                    key_views(azure_resources@),
                ).1,
            decreases terraform_resources.len(),
        {
            let ghost bcur = key_views(terraform_resources@);
            let ghost acur = key_views(azure_resources@);
            let x = terraform_resources.remove(0);
            proof {
                assert(key_views(terraform_resources@) =~= bcur.skip(1));
                assert(x@ == bcur[0]);
            }
            let ghost prev = view_expected_seq(actual@);
            let rec = self.process_unexpected_terraform_results(azure_resources, &x);
            let ghost rv = rec@;
            actual.push(rec);
            proof {
                assert(view_expected_seq(actual@) =~= prev.push(rv));
                assert(prev + (seq![rv] + spec_pass2(
                    key_views(terraform_resources@),
                    key_views(azure_resources@),
                ).0) =~= prev.push(rv) + spec_pass2(
                    key_views(terraform_resources@),
                    key_views(azure_resources@),
                ).0);
            }
        }
        proof {
            assert(key_views(terraform_resources@).len() == 0);
        }
        let ghost p3 = spec_pass3(p2.1, Seq::empty());
        proof {
            assert(key_views(terraform_resources@) =~= Seq::<Seq<char>>::empty());
        }
        while azure_resources.len() > 0
            invariant
                p1 == spec_pass1(es, a0, b0),
                p2 == spec_pass2(p1.2, p1.1),
                p3 == spec_pass3(p2.1, Seq::empty()),
                (p1.0 + p2.0) + p3.0 == view_expected_seq(actual@) + spec_pass3(
                    key_views(azure_resources@),
                    key_views(terraform_resources@),
                ).0,
                terraform_resources@.len() == 0,
            decreases azure_resources.len(),
        {
            let ghost acur = key_views(azure_resources@);
            let ghost bcur = key_views(terraform_resources@);
            let x = azure_resources.remove(0);
            proof {
                assert(key_views(azure_resources@) =~= acur.skip(1));
                assert(x@ == acur[0]);
                assert(bcur.len() == 0);
                bcur.index_of_first_ensures(x@);
            }
            let ghost prev = view_expected_seq(actual@);
            let rec = self.process_unexpected_bicep_results(terraform_resources, &x);
            let ghost rv = rec@;
            actual.push(rec);
            proof {
                assert(key_views(terraform_resources@) == bcur);
                assert(key_views(terraform_resources@).len() == terraform_resources@.len());
                assert(terraform_resources@.len() == 0);
                assert(view_expected_seq(actual@) =~= prev.push(rv));
                assert(prev + (seq![rv] + spec_pass3(
                    key_views(azure_resources@),
                    key_views(terraform_resources@),
                ).0) =~= prev.push(rv) + spec_pass3(
                    key_views(azure_resources@),
                    key_views(terraform_resources@),
                ).0);
            }
        }
        proof {
            assert(view_expected_seq(actual@) + Seq::<ExpectedResultsView>::empty()
                =~= view_expected_seq(actual@));
        }
        actual
    }

    /// The comparison run: refused without an authenticated session; an
    /// empty expectation list is a soft-skip yielding an empty report; else
    /// the three-pass matching over the two tools' observed keys.
    pub fn compare_bicep_whatif_and_terraform_plan(&self) -> (r: Result<
        ActualResults,
        CompareError,
    >)
        requires
            self.azure_cli_authenticated && self.config.expected_results@.len() > 0 ==> (
            self.bicep_whatif_output is Some && self.terraform_plan_output is Some),
        ensures
            r is Err <==> !self.azure_cli_authenticated,
            r matches Err(e) ==> e == CompareError::NotAuthenticated,
            self.azure_cli_authenticated && self.config.expected_results@.len() == 0 ==> (
            r matches Ok(res) && res.expected_results@.len() == 0 && res.actual_results@.len()
                == 0),
            self.azure_cli_authenticated && self.config.expected_results@.len() > 0 ==> (
            r matches Ok(res) && res.expected_results@ == self.config.expected_results@
                && view_expected_seq(res.actual_results@) == spec_reconcile(
                view_expected_seq(self.config.expected_results@),
                spec_side_a_keys((self.bicep_whatif_output->0)@),
                spec_side_b_keys((self.terraform_plan_output->0)@),
            )),
    {
        if !self.azure_cli_authenticated {
            return Err(CompareError::NotAuthenticated);
        }
        if self.config.expected_results.len() == 0 {
            return Ok(Default::default());
        }
        let mut azure_resources = self.get_bicep_resources_for_comparison();
        let mut terraform_resources = self.get_terraform_resources_for_comparison();
        let actual_results = self.reconcile(
            &self.config.expected_results,
            &mut azure_resources,
            &mut terraform_resources,
        );
        let expected_results = clone_expected_vec(&self.config.expected_results);
        Ok(ActualResults { expected_results, actual_results })
    }
}

} // verus!
