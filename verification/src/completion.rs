//! Argument completion: what a `completion/complete` request refers to, and
//! the kind of handler that answers it.
use vstd::prelude::*;
use vstd::string::StringExecFns;
use crate::error::McpError;
use crate::json::{JsonValue, json_get, json_get_str, get_str};
use crate::text::text_eq;

verus! {

/// What is being completed: an argument of a prompt, of a resource
/// template, or of a tool.
pub enum CompletionReference {
    Prompt { name: String },
    Resource { uri: String },
    Tool { name: String },
}

/// The argument being completed and what has been typed so far.
pub struct CompletionArgument {
    pub name: String,
    pub value: String,
}

/// A `completion/complete` request.
pub struct CompleteRequest {
    pub reference: CompletionReference,
    pub argument: CompletionArgument,
}

/// The kind of handler a reference goes to.
pub open spec fn spec_ref_type(r: CompletionReference) -> Seq<char> {
    match r {
        CompletionReference::Prompt { .. } => "ref/prompt"@,
        CompletionReference::Resource { .. } => "ref/resource"@,
        CompletionReference::Tool { .. } => "ref/tool"@,
    }
}

/// The kind of handler a reference goes to.
pub fn ref_type(r: &CompletionReference) -> (t: &'static str)
    ensures
        t@ == spec_ref_type(*r),
{
    match r {
        CompletionReference::Prompt { .. } => "ref/prompt",
        CompletionReference::Resource { .. } => "ref/resource",
        CompletionReference::Tool { .. } => "ref/tool",
    }
}

/// How a reference reads: `type` names the kind, and a prompt or tool
/// carries its `name`, a resource its `uri`.
pub open spec fn reference_of(v: JsonValue, r: CompletionReference) -> bool {
    match json_get_str(v, "type"@) {
        Some(t) => if t == "ref/prompt"@ {
            r matches CompletionReference::Prompt { name } && json_get_str(v, "name"@) == Some(name@)
        } else if t == "ref/resource"@ {
            r matches CompletionReference::Resource { uri } && json_get_str(v, "uri"@) == Some(uri@)
        } else if t == "ref/tool"@ {
            r matches CompletionReference::Tool { name } && json_get_str(v, "name"@) == Some(name@)
        } else {
            false
        },
        None => false,
    }
}

/// A reference value that reads.
pub open spec fn reference_readable(v: JsonValue) -> bool {
    match json_get_str(v, "type"@) {
        Some(t) => ((t == "ref/prompt"@ || t == "ref/tool"@) && json_get_str(v, "name"@) is Some)
            || (t == "ref/resource"@ && json_get_str(v, "uri"@) is Some),
        None => false,
    }
}

fn read_reference(v: &JsonValue) -> (r: Option<CompletionReference>)
    ensures
        r is Some <==> reference_readable(*v),
        r matches Some(x) ==> reference_of(*v, x),
{
    proof {
        reveal_strlit("ref/prompt");
        reveal_strlit("ref/resource");
        reveal_strlit("ref/tool");
        assert("ref/prompt"@.len() != "ref/resource"@.len());
        assert("ref/prompt"@.len() != "ref/tool"@.len());
        assert("ref/resource"@.len() != "ref/tool"@.len());
    }
    let t = match get_str(v, "type") {
        Some(t) => t,
        None => return None,
    };
    if text_eq(t.as_str(), "ref/prompt") {
        match get_str(v, "name") {
            Some(n) => Some(CompletionReference::Prompt { name: n.clone() }),
            None => None,
        }
    } else if text_eq(t.as_str(), "ref/resource") {
        match get_str(v, "uri") {
            Some(u) => Some(CompletionReference::Resource { uri: u.clone() }),
            None => None,
        }
    } else if text_eq(t.as_str(), "ref/tool") {
        match get_str(v, "name") {
            Some(n) => Some(CompletionReference::Tool { name: n.clone() }),
            None => None,
        }
    } else {
        None
    }
}

/// The params of `completion/complete` read as a request: `ref` and an
/// `argument` with `name` and `value` texts. Missing params and params
/// that do not read are refused.
pub open spec fn complete_request_of(params: Option<JsonValue>, r: Result<CompleteRequest, McpError>) -> bool {
    match params {
        None => r matches Err(McpError::Validation(m)) && m@ == "Missing completion parameters"@,
        Some(p) => match (json_get(p, "ref"@), json_get(p, "argument"@)) {
            (Some(rf), Some(a)) => if reference_readable(rf) && json_get_str(a, "name"@) is Some
                && json_get_str(a, "value"@) is Some {
                r matches Ok(q) && reference_of(rf, q.reference)
                    && json_get_str(a, "name"@) == Some(q.argument.name@)
                    && json_get_str(a, "value"@) == Some(q.argument.value@)
            } else {
                r matches Err(McpError::Validation(m)) && m@ == "Invalid completion parameters"@
            },
            _ => r matches Err(McpError::Validation(m)) && m@ == "Invalid completion parameters"@,
        },
    }
}

/// Reads the params of `completion/complete`.
pub fn read_complete_request(params: &Option<JsonValue>) -> (r: Result<CompleteRequest, McpError>)
    ensures
        complete_request_of(*params, r),
{
    let p = match params {
        Some(p) => p,
        None => return Err(McpError::Validation(String::from_str("Missing completion parameters"))),
    };
    let invalid = McpError::Validation(String::from_str("Invalid completion parameters"));
    let (rf, a) = match (p.get("ref"), p.get("argument")) {
        (Some(rf), Some(a)) => (rf, a),
        _ => return Err(invalid),
    };
    let reference = match read_reference(rf) {
        Some(x) => x,
        None => return Err(invalid),
    };
    match (get_str(a, "name"), get_str(a, "value")) {
        (Some(n), Some(v)) => Ok(CompleteRequest {
            reference,
            argument: CompletionArgument { name: n.clone(), value: v.clone() },
        }),
        _ => Err(invalid),
    }
}

} // verus!
