//! The shape of an agent module: what it imports and what it exports.

use vstd::prelude::*;
use vstd::string::*;

use crate::abi::HOST_MODULE;
use crate::text::{contains_text, debug_text, quoted, same, texts};

verus! {

/// `wasmtime::Module`.
#[verifier::external_type_specification]
#[verifier::external_body]
pub struct ExModule(wasmtime::Module);

/// What a compiled module imports: for each import the module and the name, in
/// order.
pub uninterp spec fn module_imports(module: wasmtime::Module) -> Seq<(Seq<char>, Seq<char>)>;

/// The names that a compiled module exports.
pub uninterp spec fn module_exports(module: wasmtime::Module) -> Set<Seq<char>>;

/// What a WebAssembly binary imports and what it exports.
pub uninterp spec fn wasm_shape(wasm: Seq<u8>) -> (Seq<(Seq<char>, Seq<char>)>, Set<Seq<char>>);

/// `wasmtime::Engine`.
#[verifier::external_type_specification]
#[verifier::external_body]
pub struct ExEngine(wasmtime::Engine);

/// `Module::new`: compiles a WebAssembly binary. The imports and the exports of
/// the module are those of the binary. Nothing is said of which binaries
/// compile: that depends on the engine and the machine too.
#[verifier::external_body]
fn compile(engine: &wasmtime::Engine, wasm: &[u8]) -> (module: Result<
    wasmtime::Module,
    String,
>)
    ensures
        module is Ok ==> (module_imports(module->Ok_0), module_exports(module->Ok_0)) == wasm_shape(
            wasm@,
        ),
{
    wasmtime::Module::new(engine, wasm).map_err(|error| format!("{error:#}"))
}

/// Whether compiling a WebAssembly binary on this engine can come to this.
pub closed spec fn compiles_to(
    engine: &wasmtime::Engine,
    wasm: &[u8],
    compiled: Result<wasmtime::Module, String>,
) -> bool {
    call_ensures(compile, (engine, wasm), compiled)
}

/// `compile`, and that what it returns is what compiling came to.
pub(crate) fn compiled(engine: &wasmtime::Engine, wasm: &[u8]) -> (module: Result<
    wasmtime::Module,
    String,
>)
    ensures
        compiles_to(engine, wasm, module),
        module is Ok ==> (module_imports(module->Ok_0), module_exports(module->Ok_0)) == wasm_shape(
            wasm@,
        ),
{
    compile(engine, wasm)
}

/// `Module::imports`: the module and the name of each import.
#[verifier::external_body]
fn imports_of(module: &wasmtime::Module) -> (imports: Vec<(String, String)>)
    ensures
        import_views(imports@) == module_imports(*module),
{
    module.imports().map(|import| (import.module().to_string(), import.name().to_string())).collect()
}

/// `Module::get_export`: whether there is an export of this name.
#[verifier::external_body]
fn exports(module: &wasmtime::Module, name: &str) -> (found: bool)
    ensures
        found == module_exports(*module).contains(name@),
{
    module.get_export(name).is_some()
}

/// The module and the name of each import.
pub open spec fn import_views(imports: Seq<(String, String)>) -> Seq<(Seq<char>, Seq<char>)> {
    imports.map_values(|import: (String, String)| (import.0@, import.1@))
}

/// What the host provides.
pub open spec fn provided(import: (Seq<char>, Seq<char>)) -> bool {
    import.0 == HOST_MODULE@ && (import.1 == "log"@ || import.1 == "call"@ || import.1
        == "response_read"@)
}

/// What the host needs.
pub open spec fn required_exports() -> Seq<Seq<char>> {
    seq!["memory"@, "tds_abi_version"@, "tds_alloc"@, "tds_dealloc"@, "tds_run"@]
}

/// Why a module is refused.
#[derive(Debug)]
pub enum ShapeError {
    /// It imports this module's item of this name, which the host does not provide.
    ForeignImport(String, String),
    /// It lacks the export of this name.
    MissingExport(String),
}

/// The contents of a [`ShapeError`].
pub enum ShapeErrorView {
    ForeignImport(Seq<char>, Seq<char>),
    MissingExport(Seq<char>),
}

impl View for ShapeError {
    type V = ShapeErrorView;

    open spec fn view(&self) -> ShapeErrorView {
        match self {
            ShapeError::ForeignImport(module, name) => ShapeErrorView::ForeignImport(
                module@,
                name@,
            ),
            ShapeError::MissingExport(name) => ShapeErrorView::MissingExport(name@),
        }
    }
}

impl ShapeErrorView {
    /// The error in words.
    pub open spec fn message(self) -> Seq<char> {
        match self {
            ShapeErrorView::ForeignImport(module, name) => "agent module imports "@ + module
                + "::"@ + name + ", which this host does not provide; the agent may only import "@
                + HOST_MODULE@ + "::{log, call, response_read}"@,
            ShapeErrorView::MissingExport(name) => "agent module does not export "@ + debug_text(
                name,
            ),
        }
    }
}

impl ShapeError {
    /// The error in words.
    pub fn message(&self) -> (text: String)
        ensures
            text@ == self@.message(),
    {
        match self {
            ShapeError::ForeignImport(module, name) => {
                let mut text = "agent module imports ".to_string();
                text.append(module.as_str());
                text.append("::");
                text.append(name.as_str());
                text.append(", which this host does not provide; the agent may only import ");
                text.append(HOST_MODULE);
                text.append("::{log, call, response_read}");
                text
            },
            ShapeError::MissingExport(name) => {
                let mut text = "agent module does not export ".to_string();
                text.append(quoted(name.as_str()).as_str());
                text
            },
        }
    }
}

/// The first import that the host does not provide.
pub open spec fn first_foreign(imports: Seq<(Seq<char>, Seq<char>)>) -> Option<
    (Seq<char>, Seq<char>),
>
    decreases imports.len(),
{
    if imports.len() == 0 {
        None
    } else if !provided(imports[0]) {
        Some(imports[0])
    } else {
        first_foreign(imports.drop_first())
    }
}

/// The first of `names` that is not exported.
pub open spec fn first_missing(names: Seq<Seq<char>>, exported: Set<Seq<char>>) -> Option<Seq<char>>
    decreases names.len(),
{
    if names.len() == 0 {
        None
    } else if !exported.contains(names[0]) {
        Some(names[0])
    } else {
        first_missing(names.drop_first(), exported)
    }
}

/// Why a module with these imports and exports is refused. Imports are looked at
/// first.
pub open spec fn shape_fault(
    imports: Seq<(Seq<char>, Seq<char>)>,
    exported: Set<Seq<char>>,
) -> Option<ShapeErrorView> {
    match first_foreign(imports) {
        Some(import) => Some(ShapeErrorView::ForeignImport(import.0, import.1)),
        None => match first_missing(required_exports(), exported) {
            Some(name) => Some(ShapeErrorView::MissingExport(name)),
            None => None,
        },
    }
}

/// Whether a module imports nothing but what the host provides and exports all
/// that the host needs.
pub open spec fn well_shaped(
    imports: Seq<(Seq<char>, Seq<char>)>,
    exported: Set<Seq<char>>,
) -> bool {
    &&& forall|i: int| 0 <= i < imports.len() ==> provided(#[trigger] imports[i])
    &&& forall|i: int|
        0 <= i < required_exports().len() ==> exported.contains(#[trigger] required_exports()[i])
}

/// There is a first foreign import exactly where some import is foreign.
proof fn lemma_first_foreign(imports: Seq<(Seq<char>, Seq<char>)>, k: int)
    requires
        0 <= k <= imports.len(),
        forall|i: int| 0 <= i < k ==> provided(#[trigger] imports[i]),
    ensures
        k < imports.len() && !provided(imports[k]) ==> first_foreign(imports) == Some(imports[k]),
        k == imports.len() ==> first_foreign(imports) is None,
    decreases k,
{
    if k > 0 {
        let rest = imports.drop_first();
        assert(provided(imports[0]));
        assert forall|i: int| 0 <= i < k - 1 implies provided(#[trigger] rest[i]) by {
            assert(rest[i] == imports[i + 1]);
        }
        lemma_first_foreign(rest, k - 1);
    }
}

/// There is a first missing name exactly where some name is missing.
proof fn lemma_first_missing(names: Seq<Seq<char>>, exported: Set<Seq<char>>, k: int)
    requires
        0 <= k <= names.len(),
        forall|i: int| 0 <= i < k ==> exported.contains(#[trigger] names[i]),
    ensures
        k < names.len() && !exported.contains(names[k]) ==> first_missing(names, exported) == Some(
            names[k],
        ),
        k == names.len() ==> first_missing(names, exported) is None,
    decreases k,
{
    if k > 0 {
        let rest = names.drop_first();
        assert(exported.contains(names[0]));
        assert forall|i: int| 0 <= i < k - 1 implies exported.contains(#[trigger] rest[i]) by {
            assert(rest[i] == names[i + 1]);
        }
        lemma_first_missing(rest, exported, k - 1);
    }
}

/// The exports that the host needs.
pub const REQUIRED_EXPORTS: [&'static str; 5] = [
    "memory",
    "tds_abi_version",
    "tds_alloc",
    "tds_dealloc",
    "tds_run",
];

/// Reject a module that imports anything beyond the host ABI or lacks part of
/// it, given its imports and its exports.
pub fn check_shape(imports: &Vec<(String, String)>, exported: &Vec<String>) -> (verdict: Result<
    (),
    ShapeError,
>)
    ensures
        verdict is Ok <==> well_shaped(import_views(imports@), texts(exported@).to_set()),
        match verdict {
            Ok(_) => shape_fault(import_views(imports@), texts(exported@).to_set()) is None,
            Err(error) => shape_fault(import_views(imports@), texts(exported@).to_set()) == Some(
                error@,
            ),
        },
{
    let ghost shown = import_views(imports@);
    let ghost names = texts(exported@).to_set();
    let mut i: usize = 0;
    while i < imports.len()
        invariant
            i <= imports.len(),
            shown == import_views(imports@),
            forall|k: int| 0 <= k < i ==> provided(#[trigger] shown[k]),
        decreases imports.len() - i,
    {
        let module = imports[i].0.as_str();
        let name = imports[i].1.as_str();
        if !same(module, HOST_MODULE) || !(same(name, "log") || same(name, "call") || same(
            name,
            "response_read",
        )) {
            proof {
                lemma_first_foreign(shown, i as int);
                assert(!provided(shown[i as int]));
            }
            return Err(ShapeError::ForeignImport(imports[i].0.clone(), imports[i].1.clone()));
        }
        i = i + 1;
    }
    proof {
        lemma_first_foreign(shown, shown.len() as int);
    }
    let mut j: usize = 0;
    while j < 5
        invariant
            j <= 5,
            names == texts(exported@).to_set(),
            shown == import_views(imports@),
            first_foreign(shown) is None,
            forall|k: int| 0 <= k < shown.len() ==> provided(#[trigger] shown[k]),
            forall|k: int| 0 <= k < j ==> names.contains(#[trigger] required_exports()[k]),
        decreases 5 - j,
    {
        let required = REQUIRED_EXPORTS[j];
        proof {
            assert(required@ == required_exports()[j as int]);
            assert(names.contains(required@) == texts(exported@).contains(required@));
        }
        if !contains_text(exported, required) {
            proof {
                lemma_first_missing(required_exports(), names, j as int);
            }
            return Err(ShapeError::MissingExport(required.to_string()));
        }
        j = j + 1;
    }
    proof {
        lemma_first_missing(required_exports(), names, 5);
    }
    Ok(())
}

/// Only the exports that the host needs matter.
proof fn lemma_same_fault(
    imports: Seq<(Seq<char>, Seq<char>)>,
    one: Set<Seq<char>>,
    other: Set<Seq<char>>,
)
    requires
        forall|i: int|
            0 <= i < required_exports().len() ==> one.contains(#[trigger] required_exports()[i])
                == other.contains(required_exports()[i]),
    ensures
        shape_fault(imports, one) == shape_fault(imports, other),
        well_shaped(imports, one) == well_shaped(imports, other),
{
    lemma_same_missing(required_exports(), one, other);
}

proof fn lemma_same_missing(names: Seq<Seq<char>>, one: Set<Seq<char>>, other: Set<Seq<char>>)
    requires
        forall|i: int|
            0 <= i < names.len() ==> one.contains(#[trigger] names[i]) == other.contains(names[i]),
    ensures
        first_missing(names, one) == first_missing(names, other),
    decreases names.len(),
{
    if names.len() > 0 {
        let rest = names.drop_first();
        assert(one.contains(names[0]) == other.contains(names[0]));
        assert forall|i: int| 0 <= i < rest.len() implies one.contains(#[trigger] rest[i])
            == other.contains(rest[i]) by {
            assert(rest[i] == names[i + 1]);
        }
        lemma_same_missing(rest, one, other);
    }
}

/// Reject a module that imports anything beyond the host ABI. This is the check
/// that makes "no ambient authority" a property of the runtime rather than a
/// promise about how the guest was compiled: a module built against some other
/// host is refused here instead of at first use.
pub fn verify_module_shape(module: &wasmtime::Module) -> (verdict: Result<(), ShapeError>)
    ensures
        verdict is Ok <==> well_shaped(module_imports(*module), module_exports(*module)),
        match verdict {
            Ok(_) => shape_fault(module_imports(*module), module_exports(*module)) is None,
            Err(error) => shape_fault(module_imports(*module), module_exports(*module)) == Some(
                error@,
            ),
        },
{
    let imports = imports_of(module);
    let mut found: Vec<String> = Vec::new();
    let mut j: usize = 0;
    proof {
        assert(texts(found@) =~= Seq::empty());
    }
    while j < 5
        invariant
            j <= 5,
            forall|k: int|
                0 <= k < j && module_exports(*module).contains(#[trigger] required_exports()[k])
                    ==> texts(found@).contains(required_exports()[k]),
            forall|k: int|
                0 <= k < found@.len() ==> module_exports(*module).contains(
                    #[trigger] texts(found@)[k],
                ),
        decreases 5 - j,
    {
        let required = REQUIRED_EXPORTS[j];
        proof {
            assert(required@ == required_exports()[j as int]);
        }
        if exports(module, required) {
            let ghost before = texts(found@);
            found.push(required.to_string());
            proof {
                let after = texts(found@);
                assert(after =~= before.push(required@));
                assert(after[before.len() as int] == required@);
                assert forall|k: int|
                    0 <= k < j + 1 && module_exports(*module).contains(
                        #[trigger] required_exports()[k],
                    ) implies after.contains(required_exports()[k]) by {
                    if k < j {
                        let i = choose|i: int|
                            0 <= i < before.len() && before[i] == required_exports()[k];
                        assert(after[i] == required_exports()[k]);
                    }
                }
            }
        }
        j = j + 1;
    }
    proof {
        let names = texts(found@).to_set();
        assert forall|i: int| 0 <= i < required_exports().len() implies names.contains(
            #[trigger] required_exports()[i],
        ) == module_exports(*module).contains(required_exports()[i]) by {
            if names.contains(required_exports()[i]) {
                let k = choose|k: int|
                    0 <= k < texts(found@).len() && texts(found@)[k] == required_exports()[i];
                assert(module_exports(*module).contains(texts(found@)[k]));
            }
        }
        lemma_same_fault(module_imports(*module), names, module_exports(*module));
    }
    check_shape(&imports, &found)
}

/// A module that passes has no ambient authority: each of its imports is one of
/// the three functions of the host.
pub proof fn law_accepted_modules_import_only_the_host(
    imports: Seq<(Seq<char>, Seq<char>)>,
    exported: Set<Seq<char>>,
    import: (Seq<char>, Seq<char>),
)
    requires
        shape_fault(imports, exported) is None,
        imports.contains(import),
    ensures
        import.0 == HOST_MODULE@,
        import.1 == "log"@ || import.1 == "call"@ || import.1 == "response_read"@,
{
    let i = choose|i: int| 0 <= i < imports.len() && imports[i] == import;
    lemma_no_foreign(imports, i);
}

proof fn lemma_no_foreign(imports: Seq<(Seq<char>, Seq<char>)>, i: int)
    requires
        0 <= i < imports.len(),
        first_foreign(imports) is None,
    ensures
        provided(imports[i]),
    decreases imports.len(),
{
    if i > 0 {
        lemma_no_foreign(imports.drop_first(), i - 1);
    }
}

} // verus!
