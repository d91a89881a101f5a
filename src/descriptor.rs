use vstd::prelude::*;
use vstd::string::*;

verus! {

/// One parameter of a method as declared in the interface definition.
pub enum DeclaredParam {
    /// A `self` receiver, which cannot cross a stateless call boundary.
    Receiver,
    /// An ordinary parameter of the given type (its binding name is not kept).
    Typed { ty: String },
}

/// The result type of a method as declared in the interface definition.
pub enum DeclaredResult {
    /// No result type was written.
    Absent,
    /// A path type, given by its segments in order (`a::b::W<T>` has three).
    Path { segments: Vec<PathSegment> },
    /// Any other type (a tuple, a reference, ...).
    Other,
}

/// One segment of a path type: its identifier and the text of its generic
/// arguments (`<T, E>`), empty where it has none.
pub struct PathSegment {
    pub ident: String,
    pub args: String,
}

/// A method declaration as read from the interface definition.
pub struct DeclaredMethod {
    pub name: String,
    pub params: Vec<DeclaredParam>,
    pub result: DeclaredResult,
}

/// A result type of the shape `W<...>`: the outer wrapper `W`, which the
/// boundaries substitute, and its generic argument list, which they keep.
pub struct ResultType {
    pub wrapper: String,
    pub args: String,
}

/// A validated method: its name, the types of its parameters in order, and
/// its result type.
pub struct MethodDescriptor {
    pub name: String,
    pub param_types: Vec<String>,
    pub result: ResultType,
}

/// Mathematical view of a method descriptor.
pub struct DescriptorModel {
    pub name: Seq<char>,
    pub param_types: Seq<Seq<char>>,
    pub wrapper: Seq<char>,
    pub args: Seq<char>,
}

impl View for MethodDescriptor {
    type V = DescriptorModel;

    open spec fn view(&self) -> DescriptorModel {
        DescriptorModel {
            name: self.name@,
            param_types: self.param_types@.map_values(|t: String| t@),
            wrapper: self.result.wrapper@,
            args: self.result.args@,
        }
    }
}

/// Why a method declaration cannot be exported.
#[derive(Clone, Copy, PartialEq, Eq, Structural)]
pub enum DefinitionErrorKind {
    /// A parameter is a `self` receiver.
    ReceiverParameter,
    /// The method declares no result type.
    MissingResult,
    /// The result type is not a generic wrapper such as `PluginResult<T>`.
    UnsupportedResult,
}

/// A definition error, naming the offending method.
pub struct DefinitionError {
    pub method: String,
    pub kind: DefinitionErrorKind,
}

/// Mathematical view of a definition error.
pub struct DefinitionErrorModel {
    pub method: Seq<char>,
    pub kind: DefinitionErrorKind,
}

impl View for DefinitionError {
    type V = DefinitionErrorModel;

    open spec fn view(&self) -> DefinitionErrorModel {
        DefinitionErrorModel { method: self.method@, kind: self.kind }
    }
}

/// Whether some parameter is a `self` receiver.
pub open spec fn has_receiver(params: Seq<DeclaredParam>) -> bool {
    exists|i: int| 0 <= i < params.len() && (#[trigger] params[i]) is Receiver
}

/// The declared type texts of the parameters, in order.
pub open spec fn declared_types(params: Seq<DeclaredParam>) -> Seq<Seq<char>> {
    params.map_values(
        |p: DeclaredParam|
            match p {
                DeclaredParam::Typed { ty } => ty@,
                DeclaredParam::Receiver => Seq::empty(),
            },
    )
}

/// Whether a text is a generic argument list: it opens with `<`.
pub open spec fn is_generic_args(s: Seq<char>) -> bool {
    s.len() > 0 && s[0] == '<'
}

/// Whether a path type is a generic result wrapper: its last segment, the
/// outer wrapper, carries generic arguments.
pub open spec fn is_result_wrapper(segments: Seq<PathSegment>) -> bool {
    segments.len() > 0 && is_generic_args(segments.last().args@)
}

/// What extraction makes of one declaration. The result type is checked
/// before the parameters, so a method with both faults reports its result.
/// The wrapper of a path type is its last segment, and only its generic
/// arguments are kept: `crate::PluginResult<T>` has wrapper `PluginResult`
/// and arguments `<T>`.
pub open spec fn extracted(m: DeclaredMethod) -> Result<DescriptorModel, DefinitionErrorModel> {
    match m.result {
        DeclaredResult::Absent => Err(
            DefinitionErrorModel { method: m.name@, kind: DefinitionErrorKind::MissingResult },
        ),
        DeclaredResult::Other => Err(
            DefinitionErrorModel { method: m.name@, kind: DefinitionErrorKind::UnsupportedResult },
        ),
        DeclaredResult::Path { segments } => if !is_result_wrapper(segments@) {
            Err(DefinitionErrorModel { method: m.name@, kind: DefinitionErrorKind::UnsupportedResult })
        } else if has_receiver(m.params@) {
            Err(DefinitionErrorModel { method: m.name@, kind: DefinitionErrorKind::ReceiverParameter })
        } else {
            Ok(
                DescriptorModel {
                    name: m.name@,
                    param_types: declared_types(m.params@),
                    wrapper: segments@.last().ident@,
                    args: segments@.last().args@,
                },
            )
        },
    }
}

/// Every extracted descriptor has a generic result: the rewritten result
/// types on both sides keep an argument list after their wrapper.
pub proof fn lemma_extracted_result_is_generic(m: DeclaredMethod)
    requires
        extracted(m) is Ok,
    ensures
        is_generic_args(extracted(m)->Ok_0.args),
{
}

/// The text of a definition error, naming the method.
pub open spec fn definition_error_text(e: DefinitionErrorModel) -> Seq<char> {
    "method `"@ + e.method + match e.kind {
        DefinitionErrorKind::ReceiverParameter => "`: no self types in argument"@,
        DefinitionErrorKind::MissingResult => "`: expected return type"@,
        DefinitionErrorKind::UnsupportedResult => "`: expected PluginResult type"@,
    }
}

impl DefinitionError {
    /// A message that names the offending method and the fault.
    pub fn message(&self) -> (r: String)
        ensures
            r@ == definition_error_text(self@),
    {
        let mut r = String::from_str("method `");
        r.append(self.method.as_str());
        match self.kind {
            DefinitionErrorKind::ReceiverParameter => r.append("`: no self types in argument"),
            DefinitionErrorKind::MissingResult => r.append("`: expected return type"),
            DefinitionErrorKind::UnsupportedResult => r.append("`: expected PluginResult type"),
        }
        r
    }
}

fn definition_error(name: &String, kind: DefinitionErrorKind) -> (e: DefinitionError)
    ensures
        e@ == (DefinitionErrorModel { method: name@, kind }),
{
    DefinitionError { method: name.clone(), kind }
}

/// Validates one method declaration and turns it into a descriptor.
pub fn extract_method(m: &DeclaredMethod) -> (r: Result<MethodDescriptor, DefinitionError>)
    ensures
        match r {
            Ok(d) => extracted(*m) == Ok::<DescriptorModel, DefinitionErrorModel>(d@),
            Err(e) => extracted(*m) == Err::<DescriptorModel, DefinitionErrorModel>(e@),
        },
{
    let segments = match &m.result {
        DeclaredResult::Absent => {
            return Err(definition_error(&m.name, DefinitionErrorKind::MissingResult));
        },
        DeclaredResult::Other => {
            return Err(definition_error(&m.name, DefinitionErrorKind::UnsupportedResult));
        },
        DeclaredResult::Path { segments } => segments,
    };
    let ns = segments.len();
    if ns == 0 {
        return Err(definition_error(&m.name, DefinitionErrorKind::UnsupportedResult));
    }
    let last = &segments[ns - 1];
    let generic = last.args.as_str().unicode_len() > 0 && last.args.as_str().get_char(0) == '<';
    if !generic {
        return Err(definition_error(&m.name, DefinitionErrorKind::UnsupportedResult));
    }
    let mut types: Vec<String> = Vec::new();
    let n = m.params.len();
    let mut i: usize = 0;
    while i < n
        invariant
            n == m.params@.len(),
            m.result == (DeclaredResult::Path { segments: *segments }),
            is_result_wrapper(segments@),
            *last == segments@.last(),
            0 <= i <= n,
            types@.len() == i,
            forall|j: int| 0 <= j < i ==> !(#[trigger] m.params@[j] is Receiver),
            forall|j: int| 0 <= j < i ==> #[trigger] types@[j]@ == declared_types(m.params@)[j],
        decreases n - i,
    {
        match &m.params[i] {
            DeclaredParam::Receiver => {
                assert(m.params@[i as int] is Receiver);
                assert(has_receiver(m.params@));
                return Err(definition_error(&m.name, DefinitionErrorKind::ReceiverParameter));
            },
            DeclaredParam::Typed { ty } => {
                types.push(ty.clone());
            },
        }
        i = i + 1;
    }
    let d = MethodDescriptor {
        name: m.name.clone(),
        param_types: types,
        result: ResultType { wrapper: last.ident.clone(), args: last.args.clone() },
    };
    assert(d@.param_types =~= declared_types(m.params@));
    Ok(d)
}

/// Whether every declaration of the sequence can be extracted.
pub open spec fn all_extractable(ms: Seq<DeclaredMethod>) -> bool {
    forall|i: int| 0 <= i < ms.len() ==> (#[trigger] extracted(ms[i])) is Ok
}

/// Validates an interface, in declaration order. On success the descriptors
/// stand in the order of the declarations; otherwise the error is the one of
/// the first declaration that cannot be extracted.
pub fn extract_interface(methods: &Vec<DeclaredMethod>) -> (r: Result<
    Vec<MethodDescriptor>,
    DefinitionError,
>)
    ensures
        r is Ok <==> all_extractable(methods@),
        match r {
            Ok(ds) => ds@.len() == methods@.len() && forall|i: int|
                0 <= i < ds@.len() ==> extracted(methods@[i]) == Ok::<
                    DescriptorModel,
                    DefinitionErrorModel,
                >(#[trigger] ds@[i]@),
            Err(e) => exists|k: int|
                0 <= k < methods@.len() && extracted(methods@[k]) == Err::<
                    DescriptorModel,
                    DefinitionErrorModel,
                >(e@) && forall|i: int| 0 <= i < k ==> (#[trigger] extracted(methods@[i])) is Ok,
        },
{
    let mut ds: Vec<MethodDescriptor> = Vec::new();
    let n = methods.len();
    let mut i: usize = 0;
    while i < n
        invariant
            n == methods@.len(),
            0 <= i <= n,
            ds@.len() == i,
            forall|j: int|
                0 <= j < i ==> extracted(methods@[j]) == Ok::<DescriptorModel, DefinitionErrorModel>(
                    #[trigger] ds@[j]@,
                ),
        decreases n - i,
    {
        match extract_method(&methods[i]) {
            Ok(d) => ds.push(d),
            Err(e) => {
                assert forall|j: int| 0 <= j < i implies (#[trigger] extracted(methods@[j])) is Ok by {
                    assert(extracted(methods@[j]) == Ok::<DescriptorModel, DefinitionErrorModel>(ds@[j]@));
                }
                return Err(e);
            },
        }
        i = i + 1;
    }
    assert forall|j: int| 0 <= j < methods@.len() implies (#[trigger] extracted(methods@[j])) is Ok by {
        assert(extracted(methods@[j]) == Ok::<DescriptorModel, DefinitionErrorModel>(ds@[j]@));
    }
    Ok(ds)
}

} // verus!
