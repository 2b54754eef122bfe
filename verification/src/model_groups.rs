//! Routing of `modelGroups/*` RPC methods and the checks on their payloads.

use vstd::prelude::*;

use crate::text::text_equals;

verus! {

/// The model-group operations the RPC layer serves.
#[derive(Debug, Clone, Copy, PartialEq, Eq)]
pub enum ModelGroupsMethod {
    List,
    Save,
    Delete,
    SetModels,
    SetUsers,
}

/// The operation an RPC method name selects, if it is a model-group method.
pub open spec fn model_groups_method_of(method: Seq<char>) -> Option<ModelGroupsMethod> {
    if method == "modelGroups/list"@ {
        Some(ModelGroupsMethod::List)
    } else if method == "modelGroups/save"@ {
        Some(ModelGroupsMethod::Save)
    } else if method == "modelGroups/delete"@ {
        Some(ModelGroupsMethod::Delete)
    } else if method == "modelGroups/setModels"@ {
        Some(ModelGroupsMethod::SetModels)
    } else if method == "modelGroups/setUsers"@ {
        Some(ModelGroupsMethod::SetUsers)
    } else {
        None
    }
}

/// Selects the model-group operation for `method`; `None` leaves the request
/// to other handlers.
pub fn route_model_groups_method(method: &str) -> (r: Option<ModelGroupsMethod>)
    ensures
        r == model_groups_method_of(method@),
{
    if text_equals(method, "modelGroups/list") {
        Some(ModelGroupsMethod::List)
    } else if text_equals(method, "modelGroups/save") {
        Some(ModelGroupsMethod::Save)
    } else if text_equals(method, "modelGroups/delete") {
        Some(ModelGroupsMethod::Delete)
    } else if text_equals(method, "modelGroups/setModels") {
        Some(ModelGroupsMethod::SetModels)
    } else if text_equals(method, "modelGroups/setUsers") {
        Some(ModelGroupsMethod::SetUsers)
    } else {
        None
    }
}

/// The payload a model-group operation carries.
#[derive(Debug, Clone, Copy, PartialEq, Eq)]
pub enum ModelGroupPayload {
    Group,
    GroupModels,
    GroupUsers,
}

/// The payload an operation carries: none for listing and deleting.
pub open spec fn payload_of_method(method: ModelGroupsMethod) -> Option<ModelGroupPayload> {
    match method {
        ModelGroupsMethod::List => None,
        ModelGroupsMethod::Save => Some(ModelGroupPayload::Group),
        ModelGroupsMethod::Delete => None,
        ModelGroupsMethod::SetModels => Some(ModelGroupPayload::GroupModels),
        ModelGroupsMethod::SetUsers => Some(ModelGroupPayload::GroupUsers),
    }
}

/// The payload `method` carries, if any.
pub fn model_groups_payload_kind(method: ModelGroupsMethod) -> (r: Option<ModelGroupPayload>)
    ensures
        r == payload_of_method(method),
{
    match method {
        ModelGroupsMethod::List => None,
        ModelGroupsMethod::Save => Some(ModelGroupPayload::Group),
        ModelGroupsMethod::Delete => None,
        ModelGroupsMethod::SetModels => Some(ModelGroupPayload::GroupModels),
        ModelGroupsMethod::SetUsers => Some(ModelGroupPayload::GroupUsers),
    }
}

/// How the payload is named in error messages.
pub open spec fn payload_name(kind: ModelGroupPayload) -> Seq<char> {
    match kind {
        ModelGroupPayload::Group => "model group payload"@,
        ModelGroupPayload::GroupModels => "model group models payload"@,
        ModelGroupPayload::GroupUsers => "model group users payload"@,
    }
}

fn payload_name_text(kind: ModelGroupPayload) -> (r: &'static str)
    ensures
        r@ == payload_name(kind),
{
    match kind {
        ModelGroupPayload::Group => "model group payload",
        ModelGroupPayload::GroupModels => "model group models payload",
        ModelGroupPayload::GroupUsers => "model group users payload",
    }
}

/// The outcome for a payload: absent params are refused as missing, params
/// that did not parse are refused as invalid with the parser's message
/// appended, parsed params are used.
pub open spec fn payload_outcome<T>(kind: ModelGroupPayload, parsed: Option<Result<T, Seq<char>>>) -> Result<T, Seq<char>> {
    match parsed {
        None => Err("missing "@ + payload_name(kind)),
        Some(Err(e)) => Err("invalid "@ + payload_name(kind) + ": "@ + e),
        Some(Ok(p)) => Ok(p),
    }
}

pub open spec fn parsed_view<T>(parsed: Option<Result<T, String>>) -> Option<Result<T, Seq<char>>> {
    match parsed {
        None => None,
        Some(Err(e)) => Some(Err(e@)),
        Some(Ok(p)) => Some(Ok(p)),
    }
}

pub open spec fn outcome_view<T>(r: Result<T, String>) -> Result<T, Seq<char>> {
    match r {
        Ok(p) => Ok(p),
        Err(e) => Err(e@),
    }
}

/// Checks a model-group payload. `parsed` is `None` when the request had no
/// params, and otherwise what parsing them gave, a parse error as its text.
pub fn model_group_payload<T>(kind: ModelGroupPayload, parsed: Option<Result<T, String>>) -> (r: Result<T, String>)
    ensures
        outcome_view(r) == payload_outcome(kind, parsed_view(parsed)),
{
    match parsed {
        None => {
            let msg: String = String::from_str("missing ").concat(payload_name_text(kind));
            Err(msg)
        },
        Some(Err(e)) => {
            let msg: String = String::from_str("invalid ").concat(payload_name_text(kind)).concat(
                ": ",
            ).concat(e.as_str());
            Err(msg)
        },
        Some(Ok(p)) => Ok(p),
    }
}

/// The id a delete request names: its `id` param, or the empty id when the
/// param is missing.
pub fn model_group_delete_id(id_param: Option<&str>) -> (r: &str)
    ensures
        r@ == match id_param {
            Some(id) => id@,
            None => ""@,
        },
{
    match id_param {
        Some(id) => id,
        None => "",
    }
}

} // verus!
