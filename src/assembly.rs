use vstd::prelude::*;
use vstd::string::*;
use crate::descriptor::{
    all_extractable, extract_interface, extracted, DeclaredMethod, DefinitionError,
    DefinitionErrorModel, DescriptorModel, MethodDescriptor,
};
use crate::emit::{
    guest_exports_text, host_module_text, host_wrappers_text, models, push_guest_export,
    push_host_wrapper,
};

verus! {

/// The descriptors of an interface whose declarations all extract.
pub open spec fn extracted_all(ms: Seq<DeclaredMethod>) -> Seq<DescriptorModel> {
    Seq::new(ms.len(), |i: int| extracted(ms[i])->Ok_0)
}

/// The guest exports of an interface, not yet bound to an implementation:
/// the second stage that a caller instantiates with the name of the module
/// holding the implementation.
pub struct GuestTemplate {
    pub exports: Vec<MethodDescriptor>,
}

impl GuestTemplate {
    /// Binds the exports to the implementation in `module`.
    pub fn instantiate(&self, module: &str) -> (r: String)
        ensures
            r@ == guest_exports_text(models(self.exports@), module@),
    {
        let mut out = String::new();
        let n = self.exports.len();
        let mut i: usize = 0;
        while i < n
            invariant
                n == self.exports@.len(),
                0 <= i <= n,
                out@ == guest_exports_text(models(self.exports@).subrange(0, i as int), module@),
            decreases n - i,
        {
            out.append("\n");
            push_guest_export(&mut out, &self.exports[i], module);
            proof {
                let p = models(self.exports@).subrange(0, i + 1);
                assert(p.drop_last() =~= models(self.exports@).subrange(0, i as int));
            }
            i = i + 1;
        }
        assert(models(self.exports@).subrange(0, n as int) =~= models(self.exports@));
        out
    }
}

/// Renders the host-call module for a sequence of descriptors.
pub fn host_module(ds: &Vec<MethodDescriptor>) -> (r: String)
    ensures
        r@ == host_module_text(models(ds@)),
{
    let mut out = String::from_str(
        "mod calls {\n    use extism::{*, convert::*};\n    use anyhow::Result;\n    use std::sync::Arc;\n    use tokio::sync::Mutex;\n    use super::*;\n",
    );
    let ghost head = out@;
    let n = ds.len();
    let mut i: usize = 0;
    while i < n
        invariant
            n == ds@.len(),
            0 <= i <= n,
            out@ == head + host_wrappers_text(models(ds@).subrange(0, i as int)),
        decreases n - i,
    {
        out.append("\n");
        push_host_wrapper(&mut out, &ds[i]);
        proof {
            let p = models(ds@).subrange(0, i + 1);
            assert(p.drop_last() =~= models(ds@).subrange(0, i as int));
        }
        i = i + 1;
    }
    assert(models(ds@).subrange(0, n as int) =~= models(ds@));
    out.append("}\n");
    out
}

/// Everything generated from one interface definition.
pub struct Artifact {
    /// The interface definition, unchanged.
    pub interface: String,
    /// The guest exports, to be bound to an implementation module.
    pub guest: GuestTemplate,
    /// The host-call module.
    pub host: String,
}

/// Generates the artifact of an interface: `interface` is the definition's
/// text and `methods` its method declarations in order. Fails with the error
/// of the first declaration that cannot be exported.
pub fn plugin(interface: &str, methods: &Vec<DeclaredMethod>) -> (r: Result<Artifact, DefinitionError>)
    ensures
        r is Ok <==> all_extractable(methods@),
        match r {
            Ok(a) => a.interface@ == interface@ && models(a.guest.exports@) == extracted_all(
                methods@,
            ) && a.host@ == host_module_text(extracted_all(methods@)),
            Err(e) => exists|k: int|
                0 <= k < methods@.len() && extracted(methods@[k]) == Err::<
                    DescriptorModel,
                    DefinitionErrorModel,
                >(e@) && forall|i: int| 0 <= i < k ==> (#[trigger] extracted(methods@[i])) is Ok,
        },
{
    let ds = match extract_interface(methods) {
        Ok(ds) => ds,
        Err(e) => {
            return Err(e);
        },
    };
    assert(models(ds@) =~= extracted_all(methods@)) by {
        assert forall|i: int| 0 <= i < ds@.len() implies models(ds@)[i] == extracted_all(methods@)[i] by {
            assert(extracted(methods@[i]) == Ok::<DescriptorModel, DefinitionErrorModel>(ds@[i]@));
        }
    }
    let host = host_module(&ds);
    Ok(Artifact { interface: String::from_str(interface), guest: GuestTemplate { exports: ds }, host })
}

} // verus!
