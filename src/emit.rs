use vstd::prelude::*;
use vstd::string::*;
use crate::descriptor::{DescriptorModel, MethodDescriptor};
use crate::naming::{arg_name, export_name, param_name, push_decimal, wire_name};
use crate::transform::{push_signature, signature_text, transform, transformed, Target};

verus! {

/// The views of a sequence of descriptors.
pub open spec fn models(ds: Seq<MethodDescriptor>) -> Seq<DescriptorModel> {
    ds.map_values(|d: MethodDescriptor| d@)
}

/// The argument list `arg0, arg1, ...` of `n` positional parameters.
pub open spec fn arg_list(n: nat) -> Seq<char>
    decreases n,
{
    if n == 0 {
        Seq::empty()
    } else {
        arg_list((n - 1) as nat) + (if n > 1 {
            ", "@
        } else {
            Seq::empty()
        }) + arg_name((n - 1) as nat)
    }
}

/// The guest export of one method, bound to the implementation in `module`.
/// The implementation's outcome, with its error rendered to text, goes
/// through `guest_outcome`, and the resulting failure becomes the runtime's
/// error-with-status-code.
pub open spec fn guest_export_text(d: DescriptorModel, module: Seq<char>) -> Seq<char> {
    "#[plugin_fn]\npub "@ + signature_text(transformed(d, Target::GuestExport))
        + " {\n    ::plugin_bridge::boundary::guest_outcome("@ + module + "::"@ + d.name + "("@
        + arg_list(d.param_types.len()) + ").map_err(|e| e.to_string()))\n"@
        + "        .map_err(|f| WithReturnCode(Error::msg(f.message), f.code))\n}\n"@
}

/// The guest exports of all methods, in order.
pub open spec fn guest_exports_text(ds: Seq<DescriptorModel>, module: Seq<char>) -> Seq<char>
    decreases ds.len(),
{
    if ds.len() == 0 {
        Seq::empty()
    } else {
        guest_exports_text(ds.drop_last(), module) + "\n"@ + guest_export_text(ds.last(), module)
    }
}

/// The single value handed to the runtime call: the binding of the sole
/// parameter when there is exactly one, the unit value (`None`) otherwise.
pub open spec fn payload_of(d: DescriptorModel) -> Option<Seq<char>> {
    if d.param_types.len() == 1 {
        Some(arg_name(0))
    } else {
        None
    }
}

/// The text of a payload.
pub open spec fn payload_text(p: Option<Seq<char>>) -> Seq<char> {
    match p {
        Some(name) => name,
        None => "()"@,
    }
}

/// The runtime call by name, made while holding the boundary handle's lock.
pub open spec fn call_text(wire: Seq<char>, payload: Seq<char>) -> Seq<char> {
    "__plugin__.blocking_lock().call(\""@ + wire + "\", "@ + payload + ")"@
}

/// The host wrapper of one method: it clones the handle, makes the call on a
/// blocking worker, and flattens the outcome through `flatten`.
pub open spec fn host_wrapper_text(d: DescriptorModel) -> Seq<char> {
    "pub async "@ + signature_text(transformed(d, Target::HostCall))
        + " {\n    let __plugin__ = __plugin__.clone();\n"@
        + "    let joined = tokio::task::spawn_blocking(move || "@ + call_text(
        wire_name(d.name),
        payload_text(payload_of(d)),
    ) + ").await;\n"@
        + "    ::plugin_bridge::boundary::flatten(joined.map_err(|e| e.to_string()).map(|r| r.map_err(|e| e.to_string())))\n"@
        + "        .map_err(|e| anyhow::Error::msg(e.message))\n}\n"@
}

/// The host wrappers of all methods, in order.
pub open spec fn host_wrappers_text(ds: Seq<DescriptorModel>) -> Seq<char>
    decreases ds.len(),
{
    if ds.len() == 0 {
        Seq::empty()
    } else {
        host_wrappers_text(ds.drop_last()) + "\n"@ + host_wrapper_text(ds.last())
    }
}

/// The opening of the host-call module, with the imports its wrappers use.
pub open spec fn host_module_head() -> Seq<char> {
    "mod calls {\n    use extism::{*, convert::*};\n    use anyhow::Result;\n    use std::sync::Arc;\n    use tokio::sync::Mutex;\n    use super::*;\n"@
}

/// The host-call module: one asynchronous wrapper per method.
pub open spec fn host_module_text(ds: Seq<DescriptorModel>) -> Seq<char> {
    host_module_head() + host_wrappers_text(ds) + "}\n"@
}

/// Whether `part` occurs in `s` as a contiguous run.
pub open spec fn occurs_in(part: Seq<char>, s: Seq<char>) -> bool {
    exists|i: int| 0 <= i && i + part.len() <= s.len() && #[trigger] s.subrange(i, i + part.len()) == part
}

proof fn lemma_call_occurs(d: DescriptorModel)
    ensures
        occurs_in(call_text(wire_name(d.name), payload_text(payload_of(d))), host_wrapper_text(d)),
{
    let call = call_text(wire_name(d.name), payload_text(payload_of(d)));
    let before = "pub async "@ + signature_text(transformed(d, Target::HostCall))
        + " {\n    let __plugin__ = __plugin__.clone();\n"@
        + "    let joined = tokio::task::spawn_blocking(move || "@;
    let t = host_wrapper_text(d);
    assert(t.subrange(before.len() as int, before.len() + call.len() as int) =~= call);
}

/// A host wrapper calls the guest export under the name the guest exports it
/// by, and for a method without parameters hands over the unit value.
pub proof fn lemma_nullary_host_call(d: DescriptorModel)
    requires
        d.param_types.len() == 0,
    ensures
        payload_of(d) is None,
        wire_name(d.name) == transformed(d, Target::GuestExport).name,
        occurs_in(call_text(wire_name(d.name), "()"@), host_wrapper_text(d)),
{
    lemma_call_occurs(d);
}

/// For a method with exactly one parameter, the host wrapper hands over the
/// value of that parameter as it was passed: the payload is the binding that
/// the wrapper's signature gives to the declared parameter, with its type.
pub proof fn lemma_unary_host_call(d: DescriptorModel)
    requires
        d.param_types.len() == 1,
    ensures
        transformed(d, Target::HostCall).params[1] == (arg_name(0), d.param_types[0]),
        payload_of(d) == Some(transformed(d, Target::HostCall).params[1].0),
        wire_name(d.name) == transformed(d, Target::GuestExport).name,
        occurs_in(call_text(wire_name(d.name), arg_name(0)), host_wrapper_text(d)),
{
    lemma_call_occurs(d);
}

/// A guest export calls the method of the same name in the implementation
/// module with all its parameters in order, and hands the outcome to
/// `guest_outcome`, which fixes what crosses the boundary.
pub proof fn lemma_guest_export_forwards(d: DescriptorModel, module: Seq<char>)
    ensures
        occurs_in(
            "::plugin_bridge::boundary::guest_outcome("@ + module + "::"@ + d.name + "("@ + arg_list(
                d.param_types.len(),
            ) + ")"@,
            guest_export_text(d, module),
        ),
{
    let part = "::plugin_bridge::boundary::guest_outcome("@ + module + "::"@ + d.name + "("@
        + arg_list(d.param_types.len()) + ")"@;
    let before = "#[plugin_fn]\npub "@ + signature_text(transformed(d, Target::GuestExport))
        + " {\n    "@;
    let t = guest_export_text(d, module);
    reveal_strlit(" {\n    ::plugin_bridge::boundary::guest_outcome(");
    reveal_strlit(" {\n    ");
    reveal_strlit("::plugin_bridge::boundary::guest_outcome(");
    reveal_strlit(").map_err(|e| e.to_string()))\n");
    reveal_strlit(")");
    assert(t.subrange(before.len() as int, before.len() + part.len() as int) =~= part);
}

/// What a host wrapper hands to the runtime: the wire name and the payload.
pub enum Payload {
    /// The unit value.
    Unit,
    /// The value of the parameter bound to `name`.
    Param { name: String },
}

/// The runtime call a host wrapper makes.
pub struct HostCall {
    pub wire_name: String,
    pub payload: Payload,
}

impl View for Payload {
    type V = Option<Seq<char>>;

    open spec fn view(&self) -> Option<Seq<char>> {
        match self {
            Payload::Unit => None,
            Payload::Param { name } => Some(name@),
        }
    }
}

/// Decides the runtime call of a method's host wrapper.
pub fn host_call(d: &MethodDescriptor) -> (r: HostCall)
    ensures
        r.wire_name@ == wire_name(d@.name),
        r.payload@ == payload_of(d@),
{
    let payload = if d.param_types.len() == 1 {
        Payload::Param { name: param_name(0) }
    } else {
        Payload::Unit
    };
    HostCall { wire_name: export_name(d.name.as_str()), payload }
}

/// Appends `arg0, arg1, ...` for `n` parameters.
fn push_arg_list(out: &mut String, n: usize)
    ensures
        final(out)@ == old(out)@ + arg_list(n as nat),
{
    let ghost start = out@;
    let mut i: usize = 0;
    while i < n
        invariant
            0 <= i <= n,
            out@ == start + arg_list(i as nat),
        decreases n - i,
    {
        if i > 0 {
            out.append(", ");
        }
        out.append("arg");
        push_decimal(out, i);
        i = i + 1;
        assert(out@ =~= start + arg_list(i as nat));
    }
}

/// Appends the guest export of one method, bound to `module`.
pub fn push_guest_export(out: &mut String, d: &MethodDescriptor, module: &str)
    ensures
        final(out)@ == old(out)@ + guest_export_text(d@, module@),
{
    let ghost start = out@;
    let sig = transform(d, Target::GuestExport);
    out.append("#[plugin_fn]\npub ");
    push_signature(out, &sig);
    out.append(" {\n    ::plugin_bridge::boundary::guest_outcome(");
    out.append(module);
    out.append("::");
    out.append(d.name.as_str());
    out.append("(");
    push_arg_list(out, d.param_types.len());
    out.append(").map_err(|e| e.to_string()))\n");
    out.append("        .map_err(|f| WithReturnCode(Error::msg(f.message), f.code))\n}\n");
    assert(out@ =~= start + guest_export_text(d@, module@));
}

/// Appends the host wrapper of one method.
pub fn push_host_wrapper(out: &mut String, d: &MethodDescriptor)
    ensures
        final(out)@ == old(out)@ + host_wrapper_text(d@),
{
    let ghost start = out@;
    let sig = transform(d, Target::HostCall);
    let call = host_call(d);
    out.append("pub async ");
    push_signature(out, &sig);
    out.append(" {\n    let __plugin__ = __plugin__.clone();\n");
    out.append("    let joined = tokio::task::spawn_blocking(move || ");
    out.append("__plugin__.blocking_lock().call(\"");
    out.append(call.wire_name.as_str());
    out.append("\", ");
    match &call.payload {
        Payload::Unit => out.append("()"),
        Payload::Param { name } => out.append(name.as_str()),
    }
    out.append(")");
    out.append(").await;\n");
    out.append(
        "    ::plugin_bridge::boundary::flatten(joined.map_err(|e| e.to_string()).map(|r| r.map_err(|e| e.to_string())))\n",
    );
    out.append("        .map_err(|e| anyhow::Error::msg(e.message))\n}\n");
    assert(out@ =~= start + host_wrapper_text(d@));
}

} // verus!
