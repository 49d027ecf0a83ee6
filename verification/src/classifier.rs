//! The stream classifier: parses one tool's line-delimited JSON plan stream
//! into a tagged-record document.
//!
//! Each non-blank line is an independent JSON object carrying a `type`
//! discriminator. A malformed line fails the whole run; unrecognized kinds
//! are discarded.

use vstd::prelude::*;
use crate::json::{
    get_array_len_at, get_bool_at, get_keys_at, get_string_at, get_u32_at, has_value_at,
    json_array_len_at, json_bool_at, json_keys_at, json_string_at, json_u32_at, json_value_at,
};
use crate::resource::{
    view_opt_hook, view_opt_step, view_steps, AzureResource, AzureResourceChange,
    AzureResourceChangeDetail, AzureResourceChangeDetailView, AzureResourceChangeType,
    AzureResourceChangeView, AzureResourceView, TerraformChanges, TerraformChangesView,
    TerraformHook, TerraformHookView, TerraformOutput, TerraformOutputView, TerraformPlanStep,
    TerraformPlanStepView, TerraformResource, TerraformResourceChange,
    TerraformResourceChangeView, TerraformResourceView,
};
use crate::strutil::{
    escape_token, format_usize, lemma_first_newline, lemma_first_newline_at, spec_decimal,
    spec_escape_token, spec_split_lines, split_lines,
};

verus! {

broadcast use vstd::string::group_string_axioms;

/// Two pointer parts joined into one.
fn join_ptr(prefix: &str, suffix: &str) -> (r: String)
    ensures
        r@ == prefix@ + suffix@,
{
    let mut s = String::from_str(prefix);
    s.append(suffix);
    s
}

/// The hook payload found under the pointer `p` of the record `l`, if it is
/// well formed: a resource identity and an action, with optional id and
/// timing fields.
pub open spec fn spec_parse_hook(l: Seq<char>, p: Seq<char>) -> Option<TerraformHookView> {
    let addr = json_string_at(l, p + "/resource/addr"@);
    let module = json_string_at(l, p + "/resource/module"@);
    let resource = json_string_at(l, p + "/resource/resource"@);
    let implied_provider = json_string_at(l, p + "/resource/implied_provider"@);
    let resource_type = json_string_at(l, p + "/resource/resource_type"@);
    let resource_name = json_string_at(l, p + "/resource/resource_name"@);
    let action = json_string_at(l, p + "/action"@);
    if addr is Some && module is Some && resource is Some && implied_provider is Some
        && resource_type is Some && resource_name is Some && action is Some {
        Some(
            TerraformHookView {
                resource: TerraformResourceView {
                    addr: addr->0,
                    module: module->0,
                    resource: resource->0,
                    implied_provider: implied_provider->0,
                    resource_type: resource_type->0,
                    resource_name: resource_name->0,
                    resource_key: json_string_at(l, p + "/resource/resource_key"@),
                },
                action: action->0,
                id_key: json_string_at(l, p + "/id_key"@),
                id_value: json_string_at(l, p + "/id_value"@),
                elapsed_seconds: json_u32_at(l, p + "/elapsed_seconds"@),
            },
        )
    } else {
        None
    }
}

fn parse_hook(line: &str, prefix: &str) -> (r: Option<TerraformHook>)
    ensures
        view_opt_hook(r) == spec_parse_hook(line@, prefix@),
{
    let addr = get_string_at(line, join_ptr(prefix, "/resource/addr").as_str());
    let module = get_string_at(line, join_ptr(prefix, "/resource/module").as_str());
    let resource = get_string_at(line, join_ptr(prefix, "/resource/resource").as_str());
    let implied_provider = get_string_at(
        line,
        join_ptr(prefix, "/resource/implied_provider").as_str(),
    );
    let resource_type = get_string_at(line, join_ptr(prefix, "/resource/resource_type").as_str());
    let resource_name = get_string_at(line, join_ptr(prefix, "/resource/resource_name").as_str());
    let action = get_string_at(line, join_ptr(prefix, "/action").as_str());
    match (addr, module, resource, implied_provider, resource_type, resource_name, action) {
        (
            Some(addr),
            Some(module),
            Some(resource),
            Some(implied_provider),
            Some(resource_type),
            Some(resource_name),
            Some(action),
        ) => {
            let resource_key = get_string_at(
                line,
                join_ptr(prefix, "/resource/resource_key").as_str(),
            );
            let id_key = get_string_at(line, join_ptr(prefix, "/id_key").as_str());
            let id_value = get_string_at(line, join_ptr(prefix, "/id_value").as_str());
            let elapsed_seconds = get_u32_at(line, join_ptr(prefix, "/elapsed_seconds").as_str());
            Some(
                TerraformHook {
                    resource: TerraformResource {
                        addr,
                        module,
                        resource,
                        implied_provider,
                        resource_type,
                        resource_name,
                        resource_key,
                    },
                    action,
                    id_key,
                    id_value,
                    elapsed_seconds,
                },
            )
        },
        _ => None,
    }
}

/// The change counts found under `/changes` of the record `l`, if they are
/// well formed.
pub open spec fn spec_parse_changes(l: Seq<char>) -> Option<TerraformChangesView> {
    let add = json_u32_at(l, "/changes/add"@);
    let change = json_u32_at(l, "/changes/change"@);
    let import = json_u32_at(l, "/changes/import"@);
    let remove = json_u32_at(l, "/changes/remove"@);
    let operation = json_string_at(l, "/changes/operation"@);
    if add is Some && change is Some && import is Some && remove is Some && operation is Some {
        Some(
            TerraformChangesView {
                add: add->0,
                change: change->0,
                import: import->0,
                remove: remove->0,
                operation: operation->0,
            },
        )
    } else {
        None
    }
}

fn parse_changes(line: &str) -> (r: Option<TerraformChanges>)
    ensures
        (match r {
            Some(c) => Some(c@),
            None => None,
        }) == spec_parse_changes(line@),
{
    let add = get_u32_at(line, "/changes/add");
    let change = get_u32_at(line, "/changes/change");
    let import = get_u32_at(line, "/changes/import");
    let remove = get_u32_at(line, "/changes/remove");
    let operation = get_string_at(line, "/changes/operation");
    match (add, change, import, remove, operation) {
        (Some(add), Some(change), Some(import), Some(remove), Some(operation)) => Some(
            TerraformChanges { add, change, import, remove, operation },
        ),
        _ => None,
    }
}

/// The named output found under the key `k` of the `outputs` object of the
/// record `l`, if it is well formed.
pub open spec fn spec_output_entry(l: Seq<char>, k: Seq<char>) -> Option<
    (Seq<char>, TerraformOutputView),
> {
    let sensitive = json_bool_at(l, "/outputs/"@ + spec_escape_token(k) + "/sensitive"@);
    let action = json_string_at(l, "/outputs/"@ + spec_escape_token(k) + "/action"@);
    if sensitive is Some && action is Some {
        Some((k, TerraformOutputView { sensitive: sensitive->0, action: action->0 }))
    } else {
        None
    }
}

fn parse_output_entry(line: &str, key: &String) -> (r: Option<TerraformOutput>)
    ensures
        (match r {
            Some(o) => Some((key@, o@)),
            None => None,
        }) == spec_output_entry(line@, key@),
{
    let escaped = escape_token(key.as_str());
    let mut base = String::from_str("/outputs/");
    base.append(escaped.as_str());
    let mut sensitive_ptr = base.clone();
    sensitive_ptr.append("/sensitive");
    let mut action_ptr = base.clone();
    action_ptr.append("/action");
    let sensitive = get_bool_at(line, sensitive_ptr.as_str());
    let action = get_string_at(line, action_ptr.as_str());
    match (sensitive, action) {
        (Some(sensitive), Some(action)) => Some(TerraformOutput { sensitive, action }),
        _ => None,
    }
}

/// The output entries for the key list `ks`, in order, or nothing if any
/// entry is malformed.
pub open spec fn spec_parse_outputs(l: Seq<char>, ks: Seq<Seq<char>>) -> Option<
    Seq<(Seq<char>, TerraformOutputView)>,
>
    decreases ks.len(),
{
    if ks.len() == 0 {
        Some(Seq::empty())
    } else {
        match spec_output_entry(l, ks[0]) {
            None => None,
            Some(e) => match spec_parse_outputs(l, ks.skip(1)) {
                None => None,
                Some(rest) => Some(seq![e] + rest),
            },
        }
    }
}

pub open spec fn view_output_entries(v: Vec<(String, TerraformOutput)>) -> Seq<
    (Seq<char>, TerraformOutputView),
> {
    v@.map_values(|e: (String, TerraformOutput)| (e.0@, e.1@))
}

fn parse_outputs(line: &str, keys: &Vec<String>) -> (r: Option<Vec<(String, TerraformOutput)>>)
    ensures
        (match r {
            Some(v) => Some(view_output_entries(v)),
            None => None,
        }) == spec_parse_outputs(line@, keys@.map_values(|s: String| s@)),
{
    let ghost ks = keys@.map_values(|s: String| s@);
    let mut entries: Vec<(String, TerraformOutput)> = Vec::new();
    let mut i: usize = 0;
    proof {
        assert(ks.skip(0) =~= ks);
        assert(view_output_entries(entries) =~= Seq::<(Seq<char>, TerraformOutputView)>::empty());
    }
    while i < keys.len()
        invariant
            i <= keys.len(),
            ks == keys@.map_values(|s: String| s@),
            spec_parse_outputs(line@, ks) == (match spec_parse_outputs(line@, ks.skip(i as int)) {
                None => None::<Seq<(Seq<char>, TerraformOutputView)>>,
                Some(rest) => Some(view_output_entries(entries) + rest),
            }),
        decreases keys.len() - i,
    {
        let key = &keys[i];
        let ghost prev = view_output_entries(entries);
        match parse_output_entry(line, key) {
            Some(o) => {
                proof {
                    let rest = ks.skip(i as int);
                    assert(rest[0] == ks[i as int]);
                    assert(rest.skip(1) =~= ks.skip(i as int + 1));
                }
                let pair = (key.clone(), o);
                entries.push(pair);
                proof {
                    assert(view_output_entries(entries) =~= prev.push((key@, o@)));
                    assert forall|rest2: Seq<(Seq<char>, TerraformOutputView)>|
                        true implies prev + (seq![(key@, o@)] + rest2) =~= (prev.push(
                        (key@, o@),
                    )) + rest2 by {}
                }
            },
            None => {
                proof {
                    let rest = ks.skip(i as int);
                    assert(rest[0] == ks[i as int]);
                }
                return None;
            },
        }
        i = i + 1;
    }
    proof {
        assert(ks.skip(keys.len() as int) =~= Seq::<Seq<char>>::empty());
        assert(view_output_entries(entries) + Seq::<(Seq<char>, TerraformOutputView)>::empty()
            =~= view_output_entries(entries));
    }
    Some(entries)
}

/// One parsed line of the stream: the required tag and message fields, the
/// optional kind-specific payloads, or nothing if the line is malformed.
pub open spec fn spec_parse_step(l: Seq<char>) -> Option<TerraformPlanStepView> {
    let record_type = json_string_at(l, "/type"@);
    let level = json_string_at(l, "/@level"@);
    let message = json_string_at(l, "/@message"@);
    let module = json_string_at(l, "/@module"@);
    let timestamp = json_string_at(l, "/@timestamp"@);
    if record_type is Some && level is Some && message is Some && module is Some && timestamp
        is Some && (json_value_at(l, "/hook"@) ==> spec_parse_hook(l, "/hook"@) is Some) && (
    json_value_at(l, "/change"@) ==> spec_parse_hook(l, "/change"@) is Some) && (json_value_at(
        l,
        "/changes"@,
    ) ==> spec_parse_changes(l) is Some) && (json_value_at(l, "/outputs"@) ==> (json_keys_at(
        l,
        "/outputs"@,
    ) is Some && spec_parse_outputs(l, json_keys_at(l, "/outputs"@)->0) is Some)) {
        Some(
            TerraformPlanStepView {
                record_type: record_type->0,
                level: level->0,
                message: message->0,
                module: module->0,
                timestamp: timestamp->0,
                terraform: json_string_at(l, "/terraform"@),
                ui: json_string_at(l, "/ui"@),
                hook: if json_value_at(l, "/hook"@) {
                    spec_parse_hook(l, "/hook"@)
                } else {
                    None
                },
                id_key: json_string_at(l, "/id_key"@),
                id_value: json_string_at(l, "/id_value"@),
                elapsed_seconds: json_u32_at(l, "/elapsed_seconds"@),
                change: if json_value_at(l, "/change"@) {
                    spec_parse_hook(l, "/change"@)
                } else {
                    None
                },
                changes: if json_value_at(l, "/changes"@) {
                    spec_parse_changes(l)
                } else {
                    None
                },
                outputs: if json_value_at(l, "/outputs"@) {
                    spec_parse_outputs(l, json_keys_at(l, "/outputs"@)->0)
                } else {
                    None
                },
            },
        )
    } else {
        None
    }
}

/// Parses one non-blank line of the stream.
pub fn parse_plan_step(line: &str) -> (r: Option<TerraformPlanStep>)
    ensures
        view_opt_step(r) == spec_parse_step(line@),
{
    let record_type = match get_string_at(line, "/type") {
        Some(s) => s,
        None => {
            return None;
        },
    };
    let level = match get_string_at(line, "/@level") {
        Some(s) => s,
        None => {
            return None;
        },
    };
    let message = match get_string_at(line, "/@message") {
        Some(s) => s,
        None => {
            return None;
        },
    };
    let module = match get_string_at(line, "/@module") {
        Some(s) => s,
        None => {
            return None;
        },
    };
    let timestamp = match get_string_at(line, "/@timestamp") {
        Some(s) => s,
        None => {
            return None;
        },
    };
    let hook = if has_value_at(line, "/hook") {
        match parse_hook(line, "/hook") {
            Some(h) => Some(h),
            None => {
                return None;
            },
        }
    } else {
        None
    };
    let change = if has_value_at(line, "/change") {
        match parse_hook(line, "/change") {
            Some(h) => Some(h),
            None => {
                return None;
            },
        }
    } else {
        None
    };
    let changes = if has_value_at(line, "/changes") {
        match parse_changes(line) {
            Some(c) => Some(c),
            None => {
                return None;
            },
        }
    } else {
        None
    };
    let outputs = if has_value_at(line, "/outputs") {
        let keys = match get_keys_at(line, "/outputs") {
            Some(ks) => ks,
            None => {
                return None;
            },
        };
        match parse_outputs(line, &keys) {
            Some(v) => Some(v),
            None => {
                return None;
            },
        }
    } else {
        None
    };
    Some(
        TerraformPlanStep {
            record_type,
            level,
            message,
            module,
            timestamp,
            terraform: get_string_at(line, "/terraform"),
            ui: get_string_at(line, "/ui"),
            hook,
            id_key: get_string_at(line, "/id_key"),
            id_value: get_string_at(line, "/id_value"),
            elapsed_seconds: get_u32_at(line, "/elapsed_seconds"),
            change,
            changes,
            outputs,
        },
    )
}

/// The record kinds are pairwise distinct strings.
pub proof fn lemma_kind_literals()
    ensures
        "version"@ != "apply_start"@,
        "version"@ != "apply_complete"@,
        "version"@ != "planned_change"@,
        "version"@ != "change_summary"@,
        "version"@ != "outputs"@,
        "apply_start"@ != "apply_complete"@,
        "apply_start"@ != "planned_change"@,
        "apply_start"@ != "change_summary"@,
        "apply_start"@ != "outputs"@,
        "apply_complete"@ != "planned_change"@,
        "apply_complete"@ != "change_summary"@,
        "apply_complete"@ != "outputs"@,
        "planned_change"@ != "change_summary"@,
        "planned_change"@ != "outputs"@,
        "change_summary"@ != "outputs"@,
{
    reveal_strlit("version");
    reveal_strlit("apply_start");
    reveal_strlit("apply_complete");
    reveal_strlit("planned_change");
    reveal_strlit("change_summary");
    reveal_strlit("outputs");
    assert("version"@.len() == 7);
    assert("apply_start"@.len() == 11);
    assert("apply_complete"@.len() == 14);
    assert("planned_change"@.len() == 14);
    assert("change_summary"@.len() == 14);
    assert("outputs"@.len() == 7);
    assert("version"@[0] == 'v');
    assert("outputs"@[0] == 'o');
    assert("apply_complete"@[0] == 'a');
    assert("planned_change"@[0] == 'p');
    assert("change_summary"@[0] == 'c');
}

/// The document with nothing classified into it yet.
pub open spec fn spec_empty_doc() -> TerraformResourceChangeView {
    TerraformResourceChangeView {
        version: None,
        apply_start: Seq::empty(),
        apply_complete: Seq::empty(),
        planned_change: Seq::empty(),
        change_summary: None,
        outputs: None,
    }
}

/// One record dispatched into the document by its kind: singleton slots are
/// overwritten, sequence slots are appended to, unknown kinds are discarded.
pub open spec fn spec_add_record(
    doc: TerraformResourceChangeView,
    s: TerraformPlanStepView,
) -> TerraformResourceChangeView {
    if s.record_type == "version"@ {
        TerraformResourceChangeView { version: Some(s), ..doc }
    } else if s.record_type == "apply_start"@ {
        TerraformResourceChangeView { apply_start: doc.apply_start.push(s), ..doc }
    } else if s.record_type == "apply_complete"@ {
        TerraformResourceChangeView { apply_complete: doc.apply_complete.push(s), ..doc }
    } else if s.record_type == "planned_change"@ {
        TerraformResourceChangeView { planned_change: doc.planned_change.push(s), ..doc }
    } else if s.record_type == "change_summary"@ {
        TerraformResourceChangeView { change_summary: Some(s), ..doc }
    } else if s.record_type == "outputs"@ {
        TerraformResourceChangeView { outputs: Some(s), ..doc }
    } else {
        doc
    }
}

/// The document built from a record sequence, dispatching in order.
pub open spec fn spec_build_document(
    steps: Seq<TerraformPlanStepView>,
) -> TerraformResourceChangeView
    decreases steps.len(),
{
    if steps.len() == 0 {
        spec_empty_doc()
    } else {
        spec_add_record(spec_build_document(steps.drop_last()), steps.last())
    }
}

/// Builds the plan document from the parsed records of one stream.
pub fn build_plan_document(steps: Vec<TerraformPlanStep>) -> (doc: TerraformResourceChange)
    ensures
        doc@ == spec_build_document(view_steps(steps)),
{
    let ghost all = view_steps(steps);
    let mut rest = steps;
    let mut doc = TerraformResourceChange::new();
    let ghost i: int = 0;
    proof {
        lemma_kind_literals();
        assert(all.take(0) =~= Seq::<TerraformPlanStepView>::empty());
        assert(doc@ =~= spec_build_document(all.take(0)));
    }
    while rest.len() > 0
        invariant
            0 <= i <= all.len(),
            view_steps(rest) =~= all.skip(i),
            doc@ == spec_build_document(all.take(i)),
            "version"@ != "apply_start"@,
            "version"@ != "apply_complete"@,
            "version"@ != "planned_change"@,
            "version"@ != "change_summary"@,
            "version"@ != "outputs"@,
            "apply_start"@ != "apply_complete"@,
            "apply_start"@ != "planned_change"@,
            "apply_start"@ != "change_summary"@,
            "apply_start"@ != "outputs"@,
            "apply_complete"@ != "planned_change"@,
            "apply_complete"@ != "change_summary"@,
            "apply_complete"@ != "outputs"@,
            "planned_change"@ != "change_summary"@,
            "planned_change"@ != "outputs"@,
            "change_summary"@ != "outputs"@,
        decreases rest.len(),
    {
        let ghost before = view_steps(rest);
        proof {
            assert(before.len() == rest@.len());
            assert(before.len() > 0);
            assert(all.skip(i).len() == all.len() - i);
            assert(i < all.len());
        }
        let step = rest.remove(0);
        proof {
            assert(before[0] == step@);
            assert(step@ == all.skip(i)[0]);
            assert(all.skip(i)[0] == all[i + 0]);
            assert(step@ == all[i]);
            assert(view_steps(rest) =~= before.skip(1));
            assert(all.take(i + 1).drop_last() =~= all.take(i));
            assert(all.take(i + 1).last() == all[i]);
        }
        let ghost prev = doc@;
        if step.record_type == String::from_str("version") {
            doc.version = Some(step);
            proof {
                assert(doc@ =~= (TerraformResourceChangeView { version: Some(all[i]), ..prev }));
            }
        } else if step.record_type == String::from_str("apply_start") {
            doc.apply_start.push(step);
            proof {
                assert(view_steps(doc.apply_start) =~= prev.apply_start.push(all[i]));
                assert(doc@ =~= (TerraformResourceChangeView {
                    apply_start: prev.apply_start.push(all[i]),
                    ..prev
                }));
            }
        } else if step.record_type == String::from_str("apply_complete") {
            doc.apply_complete.push(step);
            proof {
                assert(view_steps(doc.apply_complete) =~= prev.apply_complete.push(all[i]));
                assert(doc@ =~= (TerraformResourceChangeView {
                    apply_complete: prev.apply_complete.push(all[i]),
                    ..prev
                }));
            }
        } else if step.record_type == String::from_str("planned_change") {
            doc.planned_change.push(step);
            proof {
                assert(view_steps(doc.planned_change) =~= prev.planned_change.push(all[i]));
                assert(doc@ =~= (TerraformResourceChangeView {
                    planned_change: prev.planned_change.push(all[i]),
                    ..prev
                }));
            }
        } else if step.record_type == String::from_str("change_summary") {
            doc.change_summary = Some(step);
            proof {
                assert(doc@ =~= (TerraformResourceChangeView {
                    change_summary: Some(all[i]),
                    ..prev
                }));
            }
        } else if step.record_type == String::from_str("outputs") {
            doc.outputs = Some(step);
            proof {
                assert(doc@ =~= (TerraformResourceChangeView { outputs: Some(all[i]), ..prev }));
            }
        }
        proof {
            assert(doc@ == spec_add_record(prev, all[i]));
            assert(view_steps(rest) =~= all.skip(i + 1));
            i = i + 1;
        }
    }
    proof {
        assert(all.skip(i).len() == 0);
        assert(i == all.len());
        assert(all.take(i) =~= all);
    }
    doc
}

/// Holds of a record exactly when it carries the kind tag `k`.
pub open spec fn is_kind(k: Seq<char>) -> spec_fn(TerraformPlanStepView) -> bool {
    |s: TerraformPlanStepView| s.record_type == k
}

/// The last record of kind `k` in the stream, if any.
pub open spec fn last_record(steps: Seq<TerraformPlanStepView>, k: Seq<char>) -> Option<
    TerraformPlanStepView,
> {
    if steps.filter(is_kind(k)).len() == 0 {
        None
    } else {
        Some(steps.filter(is_kind(k)).last())
    }
}

/// Each sequence slot of the built document holds exactly the records of its
/// kind, in input order — so its length equals the stream's record-kind
/// histogram at that kind — and each singleton slot holds the last record of
/// its kind.
pub proof fn lemma_document_slots(steps: Seq<TerraformPlanStepView>)
    ensures
        spec_build_document(steps).apply_start == steps.filter(is_kind("apply_start"@)),
        spec_build_document(steps).apply_complete == steps.filter(is_kind("apply_complete"@)),
        spec_build_document(steps).planned_change == steps.filter(is_kind("planned_change"@)),
        spec_build_document(steps).version == last_record(steps, "version"@),
        spec_build_document(steps).change_summary == last_record(steps, "change_summary"@),
        spec_build_document(steps).outputs == last_record(steps, "outputs"@),
    decreases steps.len(),
{
    reveal(Seq::<TerraformPlanStepView>::filter);
    lemma_kind_literals();
    if steps.len() == 0 {
        assert(steps.filter(is_kind("apply_start"@)) =~= Seq::<TerraformPlanStepView>::empty());
        assert(steps.filter(is_kind("apply_complete"@)) =~= Seq::<TerraformPlanStepView>::empty());
        assert(steps.filter(is_kind("planned_change"@)) =~= Seq::<TerraformPlanStepView>::empty());
        assert(steps.filter(is_kind("version"@)) =~= Seq::<TerraformPlanStepView>::empty());
        assert(steps.filter(is_kind("change_summary"@)) =~= Seq::<TerraformPlanStepView>::empty());
        assert(steps.filter(is_kind("outputs"@)) =~= Seq::<TerraformPlanStepView>::empty());
    } else {
        lemma_document_slots(steps.drop_last());
    }
}

/// The records parsed from a line sequence, or the index of the first
/// malformed line.
pub open spec fn spec_parse_lines(ls: Seq<Seq<char>>) -> Result<Seq<TerraformPlanStepView>, int>
    decreases ls.len(),
{
    if ls.len() == 0 {
        Ok(Seq::empty())
    } else {
        match spec_parse_step(ls[0]) {
            None => Err(0),
            Some(s) => match spec_parse_lines(ls.skip(1)) {
                Err(j) => Err(j + 1),
                Ok(ss) => Ok(seq![s] + ss),
            },
        }
    }
}

/// Parsing a concatenation parses each part; an error in the second part is
/// offset by the length of the first.
pub proof fn lemma_parse_lines_concat(a: Seq<Seq<char>>, b: Seq<Seq<char>>)
    ensures
        spec_parse_lines(a + b) == (match spec_parse_lines(a) {
            Err(i) => Err::<Seq<TerraformPlanStepView>, int>(i),
            Ok(sa) => match spec_parse_lines(b) {
                Err(j) => Err(sa.len() + j),
                Ok(sb) => Ok(sa + sb),
            },
        }),
    decreases a.len(),
{
    if a.len() == 0 {
        assert(a + b =~= b);
        if let Ok(sb) = spec_parse_lines(b) {
            assert(Seq::<TerraformPlanStepView>::empty() + sb =~= sb);
        }
    } else {
        assert((a + b).len() > 0);
        assert((a + b)[0] == a[0]);
        assert((a + b).skip(1) =~= a.skip(1) + b);
        lemma_parse_lines_concat(a.skip(1), b);
        if let Some(s) = spec_parse_step(a[0]) {
            if let Ok(sa1) = spec_parse_lines(a.skip(1)) {
                if let Ok(sb) = spec_parse_lines(b) {
                    assert(seq![s] + (sa1 + sb) =~= (seq![s] + sa1) + sb);
                }
                if let Err(j) = spec_parse_lines(b) {
                    assert((seq![s] + sa1).len() == 1 + sa1.len());
                }
            }
        }
    }
}

/// Holds of a line exactly when it is not blank.
pub open spec fn nonblank_pred() -> spec_fn(Seq<char>) -> bool {
    |l: Seq<char>| l.len() > 0
}

/// The non-blank lines of a split stream, in order.
pub open spec fn nonblank_lines(ls: Seq<Seq<char>>) -> Seq<Seq<char>> {
    ls.filter(nonblank_pred())
}

/// The document built from a stream text, or the index of the first
/// malformed non-blank line.
pub open spec fn spec_convert(text: Seq<char>) -> Result<TerraformResourceChangeView, int> {
    match spec_parse_lines(nonblank_lines(spec_split_lines(text))) {
        Err(i) => Err(i),
        Ok(ss) => Ok(spec_build_document(ss)),
    }
}

/// Streams whose non-blank lines agree yield the same result: blank lines,
/// wherever they stand, never alter the document.
pub proof fn lemma_blank_lines_ignored(t1: Seq<char>, t2: Seq<char>)
    requires
        nonblank_lines(spec_split_lines(t1)) == nonblank_lines(spec_split_lines(t2)),
    ensures
        spec_convert(t1) == spec_convert(t2),
{
}

/// Appending a line break to a stream splits it into the same lines plus one
/// final blank line.
pub proof fn lemma_split_append_newline(t: Seq<char>)
    ensures
        spec_split_lines(t.push('\n')) == spec_split_lines(t).push(Seq::<char>::empty()),
    decreases t.len(),
{
    let s = t.push('\n');
    let k = crate::strutil::first_newline(t);
    lemma_first_newline(t);
    if k < t.len() {
        lemma_first_newline_at(s, k);
        assert(s.take(k) =~= t.take(k));
        assert(s.skip(k + 1) =~= t.skip(k + 1).push('\n'));
        lemma_split_append_newline(t.skip(k + 1));
        assert(seq![t.take(k)] + (spec_split_lines(t.skip(k + 1)).push(Seq::<char>::empty()))
            =~= (seq![t.take(k)] + spec_split_lines(t.skip(k + 1))).push(Seq::<char>::empty()));
    } else {
        assert(forall|j: int| 0 <= j < t.len() ==> s[j] == t[j]);
        assert(s[t.len() as int] == '\n');
        lemma_first_newline_at(s, t.len() as int);
        assert(crate::strutil::first_newline(s) == t.len());
        assert(s.take(t.len() as int) =~= t);
        assert(s.skip(t.len() as int + 1) =~= Seq::<char>::empty());
        assert(spec_split_lines(Seq::<char>::empty()) == seq![Seq::<char>::empty()]);
        assert(spec_split_lines(s) == seq![t] + seq![Seq::<char>::empty()]);
        assert(seq![t] + seq![Seq::<char>::empty()] =~= seq![t].push(Seq::<char>::empty()));
    }
}

/// A trailing line break never alters the resulting document.
pub proof fn lemma_trailing_newline(t: Seq<char>)
    ensures
        spec_convert(t.push('\n')) == spec_convert(t),
{
    lemma_split_append_newline(t);
    reveal(Seq::<Seq<char>>::filter);
    let ls = spec_split_lines(t);
    assert(ls.push(Seq::<char>::empty()).drop_last() =~= ls);
    assert(ls.push(Seq::<char>::empty()).last() == Seq::<char>::empty());
    assert(nonblank_lines(ls.push(Seq::<char>::empty())) == nonblank_lines(ls));
}

/// A malformed line of the plan stream: its index among the non-blank lines
/// and its text.
#[derive(Debug, Clone, PartialEq, Eq)]
pub struct PlanParseError {
    pub line_index: usize,
    pub line: String,
}

/// Parses a whole plan stream into its document: splits on line boundaries,
/// skips blank lines, parses each remaining line as one JSON record, and
/// dispatches the records by kind. The first malformed line fails the whole
/// run.
pub fn convert_to_terraform_plan(output: &str) -> (r: Result<
    TerraformResourceChange,
    PlanParseError,
>)
    ensures
        (match r {
            Ok(doc) => spec_convert(output@) == Ok::<TerraformResourceChangeView, int>(doc@),
            Err(e) => spec_convert(output@) matches Err(i) && e.line_index as int == i && 0 <= i
                < nonblank_lines(spec_split_lines(output@)).len() && e.line@ == nonblank_lines(
                spec_split_lines(output@),
            )[i],
        }),
{
    let lines = split_lines(output);
    let ghost lv = lines@.map_values(|l: String| l@);
    let mut steps: Vec<TerraformPlanStep> = Vec::new();
    let mut i: usize = 0;
    proof {
        reveal(Seq::<Seq<char>>::filter);
        assert(lv.take(0) =~= Seq::<Seq<char>>::empty());
        assert(nonblank_lines(lv.take(0)) =~= Seq::<Seq<char>>::empty());
        assert(view_steps(steps) =~= Seq::<TerraformPlanStepView>::empty());
        assert(spec_parse_lines(nonblank_lines(lv.take(0))) == Ok::<
            Seq<TerraformPlanStepView>,
            int,
        >(view_steps(steps)));
    }
    while i < lines.len()
        invariant
            i <= lines.len(),
            lv == lines@.map_values(|l: String| l@),
            lv == spec_split_lines(output@),
            spec_parse_lines(nonblank_lines(lv.take(i as int))) == Ok::<
                Seq<TerraformPlanStepView>,
                int,
            >(view_steps(steps)),
            view_steps(steps).len() == nonblank_lines(lv.take(i as int)).len(),
        decreases lines.len() - i,
    {
        proof {
            reveal(Seq::<Seq<char>>::filter);
            assert(lv.take(i + 1).drop_last() =~= lv.take(i as int));
            assert(lv.take(i + 1).last() == lv[i as int]);
        }
        let line = &lines[i];
        assert(line@ == lv[i as int]);
        if !line.as_str().is_empty() {
            proof {
                assert(nonblank_lines(lv.take(i + 1)) == nonblank_lines(lv.take(i as int)).push(
                    lv[i as int],
                ));
                assert(nonblank_lines(lv.take(i as int)).push(lv[i as int]) =~= nonblank_lines(
                    lv.take(i as int),
                ) + seq![lv[i as int]]);
            }
            match parse_plan_step(line.as_str()) {
                Some(s) => {
                    let ghost prev = view_steps(steps);
                    steps.push(s);
                    proof {
                        assert(view_steps(steps) =~= prev.push(s@));
                        let single = seq![lv[i as int]];
                        lemma_parse_lines_concat(nonblank_lines(lv.take(i as int)), single);
                        assert(single.skip(1) =~= Seq::<Seq<char>>::empty());
                        assert(single[0] == lv[i as int]);
                        assert(spec_parse_lines(Seq::<Seq<char>>::empty()) == Ok::<
                            Seq<TerraformPlanStepView>,
                            int,
                        >(Seq::empty()));
                        assert(spec_parse_lines(single) == Ok::<Seq<TerraformPlanStepView>, int>(
                            seq![s@] + Seq::<TerraformPlanStepView>::empty(),
                        ));
                        assert(seq![s@] + Seq::<TerraformPlanStepView>::empty() =~= seq![s@]);
                        assert(prev + seq![s@] =~= prev.push(s@));
                    }
                },
                None => {
                    let err = PlanParseError { line_index: steps.len(), line: line.clone() };
                    proof {
                        let nb = nonblank_lines(lv.take(i as int));
                        let rest_lines = lv.skip(i as int);
                        assert(lv =~= lv.take(i as int) + rest_lines);
                        Seq::filter_distributes_over_add(
                            lv.take(i as int),
                            rest_lines,
                            nonblank_pred(),
                        );
                        assert(rest_lines =~= seq![lv[i as int]] + lv.skip(i + 1));
                        Seq::filter_distributes_over_add(
                            seq![lv[i as int]],
                            lv.skip(i + 1),
                            nonblank_pred(),
                        );
                        assert(seq![lv[i as int]].drop_last() =~= Seq::<Seq<char>>::empty());
                        assert(seq![lv[i as int]].filter(nonblank_pred()) == seq![lv[i as int]]);
                        let tail = seq![lv[i as int]] + nonblank_lines(lv.skip(i + 1));
                        assert(nonblank_lines(lv) == nb + tail);
                        lemma_parse_lines_concat(nb, tail);
                        assert(tail[0] == lv[i as int]);
                        assert(spec_parse_lines(tail) == Err::<Seq<TerraformPlanStepView>, int>(0));
                        assert(spec_parse_lines(nonblank_lines(lv)) == Err::<
                            Seq<TerraformPlanStepView>,
                            int,
                        >(view_steps(steps).len() as int));
                        assert(view_steps(steps).len() == steps@.len());
                        assert((nb + tail)[nb.len() as int] == tail[0]);
                    }
                    return Err(err);
                },
            }
        } else {
            proof {
                assert(nonblank_lines(lv.take(i + 1)) == nonblank_lines(lv.take(i as int)));
            }
        }
        i = i + 1;
    }
    proof {
        assert(lv.take(i as int) =~= lv);
    }
    let doc = build_plan_document(steps);
    Ok(doc)
}

/// The change kind named by `s`, if it is one of the four known names.
pub open spec fn spec_change_type(s: Seq<char>) -> Option<AzureResourceChangeType> {
    if s == "Create"@ {
        Some(AzureResourceChangeType::Create)
    } else if s == "Delete"@ {
        Some(AzureResourceChangeType::Delete)
    } else if s == "Update"@ {
        Some(AzureResourceChangeType::Update)
    } else if s == "Unsupported"@ {
        Some(AzureResourceChangeType::Unsupported)
    } else {
        None
    }
}

fn parse_change_type(s: &String) -> (r: Option<AzureResourceChangeType>)
    ensures
        r == spec_change_type(s@),
{
    if *s == String::from_str("Create") {
        Some(AzureResourceChangeType::Create)
    } else if *s == String::from_str("Delete") {
        Some(AzureResourceChangeType::Delete)
    } else if *s == String::from_str("Update") {
        Some(AzureResourceChangeType::Update)
    } else if *s == String::from_str("Unsupported") {
        Some(AzureResourceChangeType::Unsupported)
    } else {
        None
    }
}

/// The tag entries of the object at `p + "/tags"` for the key list `ks`, or
/// nothing if any tag value is not a string.
pub open spec fn spec_parse_tags(t: Seq<char>, p: Seq<char>, ks: Seq<Seq<char>>) -> Option<
    Seq<(Seq<char>, Seq<char>)>,
>
    decreases ks.len(),
{
    if ks.len() == 0 {
        Some(Seq::empty())
    } else {
        match json_string_at(t, p + "/tags/"@ + spec_escape_token(ks[0])) {
            None => None,
            Some(v) => match spec_parse_tags(t, p, ks.skip(1)) {
                None => None,
                Some(rest) => Some(seq![(ks[0], v)] + rest),
            },
        }
    }
}

pub open spec fn view_tag_entries(v: Vec<(String, String)>) -> Seq<(Seq<char>, Seq<char>)> {
    v@.map_values(|e: (String, String)| (e.0@, e.1@))
}

fn parse_tags(text: &str, prefix: &str, keys: &Vec<String>) -> (r: Option<Vec<(String, String)>>)
    ensures
        (match r {
            Some(v) => Some(view_tag_entries(v)),
            None => None,
        }) == spec_parse_tags(text@, prefix@, keys@.map_values(|s: String| s@)),
{
    let ghost ks = keys@.map_values(|s: String| s@);
    let mut entries: Vec<(String, String)> = Vec::new();
    let mut i: usize = 0;
    proof {
        assert(ks.skip(0) =~= ks);
        assert(view_tag_entries(entries) =~= Seq::<(Seq<char>, Seq<char>)>::empty());
    }
    while i < keys.len()
        invariant
            i <= keys.len(),
            ks == keys@.map_values(|s: String| s@),
            spec_parse_tags(text@, prefix@, ks) == (match spec_parse_tags(
                text@,
                prefix@,
                ks.skip(i as int),
            ) {
                None => None::<Seq<(Seq<char>, Seq<char>)>>,
                Some(rest) => Some(view_tag_entries(entries) + rest),
            }),
        decreases keys.len() - i,
    {
        let key = &keys[i];
        let ghost prev = view_tag_entries(entries);
        proof {
            let rest = ks.skip(i as int);
            assert(rest[0] == ks[i as int]);
            assert(rest.skip(1) =~= ks.skip(i as int + 1));
        }
        let mut ptr = String::from_str(prefix);
        ptr.append("/tags/");
        ptr.append(escape_token(key.as_str()).as_str());
        assert(ptr@ == prefix@ + "/tags/"@ + spec_escape_token(key@));
        match get_string_at(text, ptr.as_str()) {
            Some(v) => {
                let ghost vv = v@;
                let pair = (key.clone(), v);
                entries.push(pair);
                proof {
                    assert(view_tag_entries(entries) =~= prev.push((key@, vv)));
                    assert(prev + (seq![(key@, vv)] + spec_parse_tags(
                        text@,
                        prefix@,
                        ks.skip(i as int + 1),
                    ).unwrap_or(Seq::empty())) =~= prev.push((key@, vv)) + spec_parse_tags(
                        text@,
                        prefix@,
                        ks.skip(i as int + 1),
                    ).unwrap_or(Seq::empty()));
                }
            },
            None => {
                return None;
            },
        }
        i = i + 1;
    }
    proof {
        assert(ks.skip(keys.len() as int) =~= Seq::<Seq<char>>::empty());
        assert(view_tag_entries(entries) + Seq::<(Seq<char>, Seq<char>)>::empty()
            =~= view_tag_entries(entries));
    }
    Some(entries)
}

/// The resource under the pointer `p` of the what-if document `t`, if it is
/// well formed: its api version, id, name and type, with optional location
/// and tags.
pub open spec fn spec_parse_azure_resource(t: Seq<char>, p: Seq<char>) -> Option<
    AzureResourceView,
> {
    let api_version = json_string_at(t, p + "/apiVersion"@);
    let id = json_string_at(t, p + "/id"@);
    let name = json_string_at(t, p + "/name"@);
    let resource_type = json_string_at(t, p + "/type"@);
    let tags = if json_value_at(t, p + "/tags"@) {
        match json_keys_at(t, p + "/tags"@) {
            None => None,
            Some(ks) => spec_parse_tags(t, p, ks),
        }
    } else {
        Some(Seq::empty())
    };
    if api_version is Some && id is Some && name is Some && resource_type is Some && tags
        is Some {
        Some(
            AzureResourceView {
                api_version: api_version->0,
                id: id->0,
                location: json_string_at(t, p + "/location"@),
                name: name->0,
                tags: if json_value_at(t, p + "/tags"@) {
                    tags
                } else {
                    None
                },
                resource_type: resource_type->0,
            },
        )
    } else {
        None
    }
}

fn parse_azure_resource(text: &str, prefix: &str) -> (r: Option<AzureResource>)
    ensures
        (match r {
            Some(a) => Some(a@),
            None => None,
        }) == spec_parse_azure_resource(text@, prefix@),
{
    let api_version = get_string_at(text, join_ptr(prefix, "/apiVersion").as_str());
    let id = get_string_at(text, join_ptr(prefix, "/id").as_str());
    let name = get_string_at(text, join_ptr(prefix, "/name").as_str());
    let resource_type = get_string_at(text, join_ptr(prefix, "/type").as_str());
    let tags: Option<Vec<(String, String)>> = if has_value_at(
        text,
        join_ptr(prefix, "/tags").as_str(),
    ) {
        let keys = match get_keys_at(text, join_ptr(prefix, "/tags").as_str()) {
            Some(ks) => ks,
            None => {
                return None;
            },
        };
        match parse_tags(text, prefix, &keys) {
            Some(v) => Some(v),
            None => {
                return None;
            },
        }
    } else {
        None
    };
    match (api_version, id, name, resource_type) {
        (Some(api_version), Some(id), Some(name), Some(resource_type)) => Some(
            AzureResource {
                api_version,
                id,
                location: get_string_at(text, join_ptr(prefix, "/location").as_str()),
                name,
                tags,
                resource_type,
            },
        ),
        _ => None,
    }
}

/// The change entries of the what-if document from index `i` on, or nothing
/// if any entry is malformed.
pub open spec fn spec_parse_details(t: Seq<char>, i: nat, n: nat) -> Option<
    Seq<AzureResourceChangeDetailView>,
>
    decreases n - i,
{
    if i >= n {
        Some(Seq::empty())
    } else {
        match spec_parse_detail(t, i) {
            None => None,
            Some(d) => match spec_parse_details(t, i + 1, n) {
                None => None,
                Some(rest) => Some(seq![d] + rest),
            },
        }
    }
}

/// The change entry at index `i` of the what-if document, if well formed.
pub open spec fn spec_parse_detail(t: Seq<char>, i: nat) -> Option<
    AzureResourceChangeDetailView,
> {
    let base = "/changes/"@ + spec_decimal(i);
    let resource_id = json_string_at(t, base + "/resourceId"@);
    let change_type_str = json_string_at(t, base + "/changeType"@);
    if resource_id is Some && change_type_str is Some && spec_change_type(change_type_str->0)
        is Some && (json_value_at(t, base + "/after"@) ==> spec_parse_azure_resource(
        t,
        base + "/after"@,
    ) is Some) && (json_value_at(t, base + "/before"@) ==> spec_parse_azure_resource(
        t,
        base + "/before"@,
    ) is Some) {
        Some(
            AzureResourceChangeDetailView {
                after: if json_value_at(t, base + "/after"@) {
                    spec_parse_azure_resource(t, base + "/after"@)
                } else {
                    None
                },
                before: if json_value_at(t, base + "/before"@) {
                    spec_parse_azure_resource(t, base + "/before"@)
                } else {
                    None
                },
                change_type: spec_change_type(change_type_str->0)->0,
                delta: json_string_at(t, base + "/delta"@),
                resource_id: resource_id->0,
                unsupported_reason: json_string_at(t, base + "/unsupportedReason"@),
            },
        )
    } else {
        None
    }
}

fn parse_detail(text: &str, i: usize) -> (r: Option<AzureResourceChangeDetail>)
    ensures
        (match r {
            Some(d) => Some(d@),
            None => None,
        }) == spec_parse_detail(text@, i as nat),
{
    let mut base = String::from_str("/changes/");
    base.append(format_usize(i).as_str());
    assert(base@ == "/changes/"@ + spec_decimal(i as nat));
    let resource_id = get_string_at(text, join_ptr(base.as_str(), "/resourceId").as_str());
    let change_type_str = get_string_at(text, join_ptr(base.as_str(), "/changeType").as_str());
    let after = if has_value_at(text, join_ptr(base.as_str(), "/after").as_str()) {
        match parse_azure_resource(text, join_ptr(base.as_str(), "/after").as_str()) {
            Some(a) => Some(a),
            None => {
                return None;
            },
        }
    } else {
        None
    };
    let before = if has_value_at(text, join_ptr(base.as_str(), "/before").as_str()) {
        match parse_azure_resource(text, join_ptr(base.as_str(), "/before").as_str()) {
            Some(a) => Some(a),
            None => {
                return None;
            },
        }
    } else {
        None
    };
    match (resource_id, change_type_str) {
        (Some(resource_id), Some(change_type_str)) => {
            let change_type = match parse_change_type(&change_type_str) {
                Some(c) => c,
                None => {
                    return None;
                },
            };
            Some(
                AzureResourceChangeDetail {
                    after,
                    before,
                    change_type,
                    delta: get_string_at(text, join_ptr(base.as_str(), "/delta").as_str()),
                    resource_id,
                    unsupported_reason: get_string_at(
                        text,
                        join_ptr(base.as_str(), "/unsupportedReason").as_str(),
                    ),
                },
            )
        },
        _ => None,
    }
}

/// The whole what-if change document, or nothing if it is malformed.
pub open spec fn spec_parse_whatif(t: Seq<char>) -> Option<AzureResourceChangeView> {
    match json_array_len_at(t, "/changes"@) {
        None => None,
        Some(n) => match spec_parse_details(t, 0, n as nat) {
            None => None,
            Some(ds) => Some(AzureResourceChangeView { changes: ds }),
        },
    }
}

/// Parses the what-if change document handed back by the deployment tool.
/// `None` exactly when the document is malformed.
pub fn parse_azure_resource_change(text: &str) -> (r: Option<AzureResourceChange>)
    ensures
        (match r {
            Some(c) => Some(c@),
            None => None,
        }) == spec_parse_whatif(text@),
{
    let n = match get_array_len_at(text, "/changes") {
        Some(n) => n,
        None => {
            return None;
        },
    };
    let mut details: Vec<AzureResourceChangeDetail> = Vec::new();
    let mut i: usize = 0;
    proof {
        assert(details@.map_values(|d: AzureResourceChangeDetail| d@)
            =~= Seq::<AzureResourceChangeDetailView>::empty());
    }
    while i < n
        invariant
            i <= n,
            json_array_len_at(text@, "/changes"@) == Some(n),
            spec_parse_details(text@, 0, n as nat) == (match spec_parse_details(
                text@,
                i as nat,
                n as nat,
            ) {
                None => None::<Seq<AzureResourceChangeDetailView>>,
                Some(rest) => Some(
                    details@.map_values(|d: AzureResourceChangeDetail| d@) + rest,
                ),
            }),
        decreases n - i,
    {
        let ghost prev = details@.map_values(|d: AzureResourceChangeDetail| d@);
        match parse_detail(text, i) {
            Some(d) => {
                let ghost dv = d@;
                details.push(d);
                proof {
                    assert(details@.map_values(|d: AzureResourceChangeDetail| d@) =~= prev.push(
                        dv,
                    ));
                    assert forall|rest2: Seq<AzureResourceChangeDetailView>|
                        true implies prev + (seq![dv] + rest2) =~= prev.push(dv) + rest2 by {}
                }
            },
            None => {
                return None;
            },
        }
        i = i + 1;
    }
    proof {
        assert(spec_parse_details(text@, n as nat, n as nat) == Some(
            Seq::<AzureResourceChangeDetailView>::empty(),
        ));
        assert(details@.map_values(|d: AzureResourceChangeDetail| d@)
            + Seq::<AzureResourceChangeDetailView>::empty() =~= details@.map_values(
            |d: AzureResourceChangeDetail| d@,
        ));
    }
    Some(AzureResourceChange { changes: details })
}

} // verus!
