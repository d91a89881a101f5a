use vstd::prelude::*;
use vstd::string::*;
use crate::descriptor::{DescriptorModel, MethodDescriptor};
use crate::naming::{arg_name, export_name, handle_param_name, param_name, wire_name};

verus! {

/// The calling shape a signature is rewritten for.
#[derive(Clone, Copy, PartialEq, Eq, Structural)]
pub enum Target {
    /// An entry point exported by the guest to the plugin runtime.
    GuestExport,
    /// An asynchronous wrapper that the host calls.
    HostCall,
}

/// A parameter of a rewritten signature.
pub struct Binding {
    pub name: String,
    pub ty: String,
}

/// A method signature rewritten for one target.
pub struct TransformedSignature {
    pub name: String,
    pub params: Vec<Binding>,
    pub result: String,
}

/// Mathematical view of a rewritten signature: each parameter is a pair of
/// binding name and type text.
pub struct SignatureModel {
    pub name: Seq<char>,
    pub params: Seq<(Seq<char>, Seq<char>)>,
    pub result: Seq<char>,
}

impl View for Binding {
    type V = (Seq<char>, Seq<char>);

    open spec fn view(&self) -> (Seq<char>, Seq<char>) {
        (self.name@, self.ty@)
    }
}

impl View for TransformedSignature {
    type V = SignatureModel;

    open spec fn view(&self) -> SignatureModel {
        SignatureModel {
            name: self.name@,
            params: self.params@.map_values(|b: Binding| b@),
            result: self.result@,
        }
    }
}

/// The type of the boundary handle that every host wrapper takes first.
pub open spec fn handle_type() -> Seq<char> {
    "&std::sync::Arc<tokio::sync::Mutex<extism::Plugin>>"@
}

/// The method name under a target's naming policy.
pub open spec fn target_name(t: Target, name: Seq<char>) -> Seq<char> {
    match t {
        Target::GuestExport => wire_name(name),
        Target::HostCall => name,
    }
}

/// The result wrapper that a target expects.
pub open spec fn target_wrapper(t: Target) -> Seq<char> {
    match t {
        Target::GuestExport => "FnResult"@,
        Target::HostCall => "Result"@,
    }
}

/// The declared parameter types bound to names synthesised from positions.
pub open spec fn positional(tys: Seq<Seq<char>>) -> Seq<(Seq<char>, Seq<char>)> {
    Seq::new(tys.len(), |i: int| (arg_name(i as nat), tys[i]))
}

/// The rewritten signature of a descriptor for a target: renamed, with
/// positional parameter names, the outer result wrapper substituted, and for
/// the host the boundary handle as leading parameter.
pub open spec fn transformed(d: DescriptorModel, t: Target) -> SignatureModel {
    SignatureModel {
        name: target_name(t, d.name),
        params: match t {
            Target::GuestExport => positional(d.param_types),
            Target::HostCall => seq![(handle_param_name(), handle_type())] + positional(
                d.param_types,
            ),
        },
        result: target_wrapper(t) + d.args,
    }
}

/// Within a rewritten signature no two parameters share a binding name.
pub proof fn lemma_binding_names_distinct(d: DescriptorModel, t: Target, i: int, j: int)
    requires
        0 <= i < transformed(d, t).params.len(),
        0 <= j < transformed(d, t).params.len(),
        i != j,
    ensures
        transformed(d, t).params[i].0 != transformed(d, t).params[j].0,
{
    let ps = transformed(d, t).params;
    match t {
        Target::GuestExport => {
            if ps[i].0 == ps[j].0 {
                crate::naming::lemma_arg_name_injective(i as nat, j as nat);
            }
        },
        Target::HostCall => {
            if i == 0 {
                crate::naming::lemma_arg_name_not_handle((j - 1) as nat);
            } else if j == 0 {
                crate::naming::lemma_arg_name_not_handle((i - 1) as nat);
            } else if ps[i].0 == ps[j].0 {
                crate::naming::lemma_arg_name_injective((i - 1) as nat, (j - 1) as nat);
            }
        },
    }
}

/// The rewriting leaves the payload part of the result type unchanged: only
/// the outer wrapper differs between the two targets.
pub proof fn lemma_payload_preserved(d: DescriptorModel, t: Target)
    ensures
        transformed(d, t).result == target_wrapper(t) + d.args,
        transformed(d, t).result.subrange(
            target_wrapper(t).len() as int,
            transformed(d, t).result.len() as int,
        ) == d.args,
{
    assert(transformed(d, t).result.subrange(
        target_wrapper(t).len() as int,
        transformed(d, t).result.len() as int,
    ) =~= d.args);
}

/// Rewrites a descriptor's signature for a target. Never fails.
pub fn transform(d: &MethodDescriptor, t: Target) -> (r: TransformedSignature)
    ensures
        r@ == transformed(d@, t),
{
    let name = match t {
        Target::GuestExport => export_name(d.name.as_str()),
        Target::HostCall => d.name.clone(),
    };
    let mut result = match t {
        Target::GuestExport => String::from_str("FnResult"),
        Target::HostCall => String::from_str("Result"),
    };
    result.append(d.result.args.as_str());
    let mut params: Vec<Binding> = Vec::new();
    let offset: usize = match t {
        Target::GuestExport => 0,
        Target::HostCall => 1,
    };
    if offset == 1 {
        params.push(
            Binding {
                name: String::from_str("__plugin__"),
                ty: String::from_str("&std::sync::Arc<tokio::sync::Mutex<extism::Plugin>>"),
            },
        );
    }
    let ghost expected = transformed(d@, t).params;
    let n = d.param_types.len();
    let mut i: usize = 0;
    while i < n
        invariant
            n == d.param_types@.len(),
            0 <= i <= n,
            expected == transformed(d@, t).params,
            expected.len() == n + offset,
            offset == (if t == Target::GuestExport { 0usize } else { 1usize }),
            params@.len() == i + offset,
            forall|j: int| 0 <= j < i + offset ==> (#[trigger] params@[j])@ == expected[j],
        decreases n - i,
    {
        let b = Binding { name: param_name(i), ty: d.param_types[i].clone() };
        params.push(b);
        i = i + 1;
    }
    let r = TransformedSignature { name, params, result };
    assert(r@.params =~= expected);
    r
}

/// The text of a parameter list: `name: type` items separated by `, `.
pub open spec fn bindings_text(ps: Seq<(Seq<char>, Seq<char>)>) -> Seq<char>
    decreases ps.len(),
{
    if ps.len() == 0 {
        Seq::empty()
    } else {
        bindings_text(ps.drop_last()) + (if ps.len() > 1 {
            ", "@
        } else {
            Seq::empty()
        }) + ps.last().0 + ": "@ + ps.last().1
    }
}

/// The text of a signature: `fn name(params) -> result`.
pub open spec fn signature_text(s: SignatureModel) -> Seq<char> {
    "fn "@ + s.name + "("@ + bindings_text(s.params) + ") -> "@ + s.result
}

/// Appends the text of a signature to `out`.
pub fn push_signature(out: &mut String, s: &TransformedSignature)
    ensures
        final(out)@ == old(out)@ + signature_text(s@),
{
    let ghost start = out@;
    out.append("fn ");
    out.append(s.name.as_str());
    out.append("(");
    let ghost before = out@;
    let n = s.params.len();
    let mut i: usize = 0;
    while i < n
        invariant
            n == s.params@.len(),
            0 <= i <= n,
            out@ == before + bindings_text(s@.params.subrange(0, i as int)),
        decreases n - i,
    {
        if i > 0 {
            out.append(", ");
        }
        out.append(s.params[i].name.as_str());
        out.append(": ");
        out.append(s.params[i].ty.as_str());
        proof {
            let p = s@.params.subrange(0, i + 1);
            assert(p.drop_last() =~= s@.params.subrange(0, i as int));
        }
        i = i + 1;
    }
    assert(s@.params.subrange(0, n as int) =~= s@.params);
    out.append(") -> ");
    out.append(s.result.as_str());
    assert(out@ =~= start + signature_text(s@));
}

} // verus!
