use vstd::prelude::*;
use vstd::std_specs::cmp::PartialEqSpec;

use crate::msg::{ExpansionTask, ListMacrosTask, ProcMacroKind, Request};
use crate::tt::Subtree;

verus! {

/// One macro of a library, invokable through a supervised worker. Adapters are
/// cheap to clone and hold no resources of their own.
#[derive(Clone, Debug)]
pub struct ProcMacroProcessExpander {
    /// The identity of the supervisor that serves this adapter's requests.
    pub process: u64,
    pub dylib_path: String,
    pub name: String,
}

impl PartialEq for ProcMacroProcessExpander {
    fn eq(&self, other: &Self) -> (r: bool) {
        self.name == other.name && self.dylib_path == other.dylib_path && self.process
            == other.process
    }
}

impl vstd::std_specs::cmp::PartialEqSpecImpl for ProcMacroProcessExpander {
    open spec fn obeys_eq_spec() -> bool {
        true
    }

    open spec fn eq_spec(&self, other: &Self) -> bool {
        self.name@ == other.name@ && self.dylib_path@ == other.dylib_path@ && self.process
            == other.process
    }
}

impl Eq for ProcMacroProcessExpander {

}

impl ProcMacroProcessExpander {
    /// The adapter for macro `name` of the library at `dylib_path`, served by
    /// supervisor `process`.
    pub fn new(process: u64, dylib_path: &str, name: &str) -> (r: Self)
        ensures
            r.process == process,
            r.dylib_path@ == dylib_path@,
            r.name@ == name@,
    {
        ProcMacroProcessExpander {
            process,
            dylib_path: dylib_path.to_owned(),
            name: name.to_owned(),
        }
    }

    /// The request that runs this adapter's macro on `subtree`.
    pub fn expansion_request(&self, subtree: Subtree) -> (r: Request)
        ensures
            is_custom_derive_request(r, self.dylib_path@, subtree, self.name@),
    {
        custom_derive_request(self.dylib_path.as_str(), subtree, self.name.as_str())
    }
}

/// `r` asks to run macro `name` of library `lib` on `subtree`, with no
/// attributes.
pub open spec fn is_custom_derive_request(
    r: Request,
    lib: Seq<char>,
    subtree: Subtree,
    name: Seq<char>,
) -> bool {
    match r {
        Request::ExpansionMacro(t) => t.macro_body == subtree && t.macro_name@ == name
            && t.attributes is None && t.lib@ == lib,
        _ => false,
    }
}

/// The request that runs derive macro `derive_name` of the library at
/// `dylib_path` on `subtree`.
pub fn custom_derive_request(dylib_path: &str, subtree: Subtree, derive_name: &str) -> (r: Request)
    ensures
        is_custom_derive_request(r, dylib_path@, subtree, derive_name@),
{
    Request::ExpansionMacro(
        ExpansionTask {
            macro_body: subtree,
            macro_name: derive_name.to_owned(),
            attributes: None,
            lib: dylib_path.to_owned(),
        },
    )
}

/// The request that lists the macros of the library at `dylib_path`.
pub fn list_macros_request(dylib_path: &str) -> (r: Request)
    ensures
        r is ListMacro && r->ListMacro_0.lib@ == dylib_path@,
{
    Request::ListMacro(ListMacrosTask { lib: dylib_path.to_owned() })
}

/// The names, in order, of the listed macros that can be invoked: the custom
/// derives.
pub open spec fn derive_names(macros: Seq<(String, ProcMacroKind)>) -> Seq<Seq<char>>
    decreases macros.len(),
{
    if macros.len() == 0 {
        Seq::empty()
    } else {
        let before = derive_names(macros.drop_last());
        let (name, kind) = macros.last();
        if kind == ProcMacroKind::CustomDerive {
            before.push(name@)
        } else {
            before
        }
    }
}

/// `r` holds one adapter for each name of `names`, in order, all served by
/// supervisor `process` for the library at `dylib_path`.
pub open spec fn adapters_for(
    r: Seq<ProcMacroProcessExpander>,
    process: u64,
    dylib_path: Seq<char>,
    names: Seq<Seq<char>>,
) -> bool {
    &&& r.len() == names.len()
    &&& forall|i: int|
        0 <= i < r.len() ==> (#[trigger] r[i]).process == process && r[i].dylib_path@ == dylib_path
            && r[i].name@ == names[i]
}

/// The adapters registered for the macros a library lists: one for each custom
/// derive, in the order listed; macros of other kinds are left out.
pub fn derive_expanders(
    process: u64,
    dylib_path: &str,
    macros: &Vec<(String, ProcMacroKind)>,
) -> (r: Vec<ProcMacroProcessExpander>)
    ensures
        adapters_for(r@, process, dylib_path@, derive_names(macros@)),
{
    let mut r: Vec<ProcMacroProcessExpander> = Vec::new();
    let n = macros.len();
    let mut i: usize = 0;
    while i < n
        invariant
            n == macros@.len(),
            i <= n,
            adapters_for(r@, process, dylib_path@, derive_names(macros@.take(i as int))),
        decreases n - i,
    {
        let (name, kind) = &macros[i];
        let ghost next = macros@.take(i as int + 1);
        assert(next.drop_last() =~= macros@.take(i as int));
        assert(next.last() == macros@[i as int]);
        let ghost before = derive_names(macros@.take(i as int));
        match kind {
            ProcMacroKind::CustomDerive => {
                assert(derive_names(next) == before.push(name@));
                r.push(ProcMacroProcessExpander::new(process, dylib_path, name.as_str()));
            },
            _ => {
                assert(derive_names(next) == before);
            },
        }
        i = i + 1;
    }
    assert(macros@.take(n as int) =~= macros@);
    r
}

/// Two adapters are equal exactly when they name the same macro of the same
/// library served by the same supervisor; changing any one of the three makes
/// them unequal.
pub proof fn lemma_adapter_equality(a: ProcMacroProcessExpander, b: ProcMacroProcessExpander)
    ensures
        a.eq_spec(&b) <==> (a.name@ == b.name@ && a.dylib_path@ == b.dylib_path@ && a.process
            == b.process),
{
}

} // verus!
