//! The module assembler: one generator invocation over a list of
//! declarations. The method-presence index is fully built from every
//! implementation block first; only then is any declaration processed, so a
//! later `new` or accessor method suppresses an earlier struct's generated
//! constructor or accessor. The registration table keeps declaration
//! encounter order and does not deduplicate exported names.

use vstd::prelude::*;

use crate::decl::{
    decl_wf, Declaration, DeclarationModel, ImplDecl, MethodDeclModel, MethodIndex,
    MethodKeyModel, declaration_models, index_contains,
};
use crate::names::join2;
use crate::process::{
    process_function, process_impl, process_struct, registration_models, spec_impl_items,
    spec_process_function, spec_process_struct, wrapper_models, Registration, RegistrationModel,
    Wrapper, WrapperModel,
};

verus! {

/// The prefix applied to every generated name: empty stays empty, anything
/// else gets a separating underscore.
pub open spec fn spec_prefix_underscore(prefix: Option<Seq<char>>) -> Seq<char> {
    match prefix {
        None => Seq::empty(),
        Some(p) => if p.len() == 0 {
            p
        } else {
            p + "_"@
        },
    }
}

/// The index entries one implementation block contributes: one per method,
/// whatever its visibility, in declaration order.
pub open spec fn spec_index_of_methods(
    sname: Seq<char>,
    methods: Seq<MethodDeclModel>,
) -> Seq<MethodKeyModel>
    decreases methods.len(),
{
    if methods.len() == 0 {
        Seq::empty()
    } else {
        seq![MethodKeyModel { struct_name: sname, method: methods[0].name }]
            + spec_index_of_methods(sname, methods.drop_first())
    }
}

/// The method-presence index of a declaration list: every implementation
/// block's (struct, method) pairs, in order.
pub open spec fn spec_build_index(items: Seq<DeclarationModel>) -> Seq<MethodKeyModel>
    decreases items.len(),
{
    if items.len() == 0 {
        Seq::empty()
    } else {
        let head = match items[0] {
            DeclarationModel::ImplItem(i) => spec_index_of_methods(i.struct_name, i.methods),
            _ => Seq::empty(),
        };
        head + spec_build_index(items.drop_first())
    }
}

/// The wrappers and registrations of a declaration list, in encounter
/// order, against a fixed method-presence index.
pub open spec fn spec_process_items(
    items: Seq<DeclarationModel>,
    prefix: Seq<char>,
    idx: Seq<MethodKeyModel>,
) -> (Seq<WrapperModel>, Seq<RegistrationModel>)
    decreases items.len(),
{
    if items.len() == 0 {
        (Seq::empty(), Seq::empty())
    } else {
        let head: (Seq<WrapperModel>, Seq<RegistrationModel>) = match items[0] {
            DeclarationModel::StructItem(s) => spec_process_struct(
                s,
                prefix,
                index_contains(idx, s.name, "new"@),
                idx,
            ),
            DeclarationModel::ImplItem(i) => spec_impl_items(i.struct_name, i.methods, prefix),
            DeclarationModel::FnItem(f) => (
                seq![spec_process_function(f, prefix).0],
                seq![spec_process_function(f, prefix).1],
            ),
            DeclarationModel::Other => (Seq::empty(), Seq::empty()),
        };
        let rest = spec_process_items(items.drop_first(), prefix, idx);
        (head.0 + rest.0, head.1 + rest.1)
    }
}

/// The whole output of one generator invocation.
pub open spec fn spec_ring_extension(
    prefix: Option<Seq<char>>,
    items: Seq<DeclarationModel>,
) -> (Seq<WrapperModel>, Seq<RegistrationModel>) {
    spec_process_items(items, spec_prefix_underscore(prefix), spec_build_index(items))
}

/// Everything one generator invocation emits: the wrappers and the
/// registration table the runtime's loader consumes.
#[derive(Debug, Clone, PartialEq, Eq)]
pub struct GeneratedModule {
    pub wrappers: Vec<Wrapper>,
    pub registrations: Vec<Registration>,
}

/// Records every method of one implementation block in the index.
fn index_impl_methods(index: &mut MethodIndex, i: &ImplDecl)
    ensures
        final(index)@ == old(index)@ + spec_index_of_methods(i@.struct_name, i@.methods),
{
    let ghost base = index@;
    let n = i.methods.len();
    proof {
        assert(i@.methods.subrange(0, n as int) =~= i@.methods);
    }
    let mut k: usize = 0;
    while k < n
        invariant
            0 <= k <= n,
            n == i@.methods.len(),
            i@ == i.view(),
            base + spec_index_of_methods(i@.struct_name, i@.methods) =~= index@
                + spec_index_of_methods(i@.struct_name, i@.methods.subrange(k as int, n as int)),
        decreases n - k,
    {
        let ghost msuffix = i@.methods.subrange(k as int, n as int);
        proof {
            assert(msuffix[0] == i@.methods[k as int]);
            assert(msuffix.drop_first() =~= i@.methods.subrange(k + 1, n as int));
        }
        let m = &i.methods[k];
        proof {
            assert(m@ == i@.methods[k as int]);
        }
        index.insert(i.struct_name.as_str(), m.name.as_str());
        k = k + 1;
    }
    proof {
        assert(spec_index_of_methods(
            i@.struct_name,
            i@.methods.subrange(n as int, n as int),
        ) =~= Seq::<MethodKeyModel>::empty());
        assert(index@ + Seq::<MethodKeyModel>::empty() =~= index@);
        assert(base + spec_index_of_methods(i@.struct_name, i@.methods) =~= index@);
    }
}

/// Builds the method-presence index of a declaration list, before any
/// declaration is processed.
pub fn build_method_index(items: &Vec<Declaration>) -> (r: MethodIndex)
    ensures
        r@ == spec_build_index(declaration_models(items@)),
{
    let ghost models = declaration_models(items@);
    let mut index = MethodIndex::new();
    let n = items.len();
    proof {
        assert(models.subrange(0, n as int) =~= models);
        assert(index@ + spec_build_index(models) =~= spec_build_index(models));
    }
    let mut k: usize = 0;
    while k < n
        invariant
            0 <= k <= n,
            n == items@.len(),
            models == declaration_models(items@),
            index@ + spec_build_index(models.subrange(k as int, n as int)) =~= spec_build_index(
                models,
            ),
        decreases n - k,
    {
        let ghost isuffix = models.subrange(k as int, n as int);
        proof {
            assert(isuffix[0] == models[k as int]);
            assert(isuffix.drop_first() =~= models.subrange(k + 1, n as int));
            assert(items@[k as int]@ == models[k as int]);
        }
        match &items[k] {
            Declaration::ImplItem(i) => {
                index_impl_methods(&mut index, i);
            },
            _ => {},
        }
        k = k + 1;
    }
    proof {
        assert(spec_build_index(models.subrange(n as int, n as int))
            =~= Seq::<MethodKeyModel>::empty());
        assert(index@ + Seq::<MethodKeyModel>::empty() =~= index@);
    }
    index
}

/// Runs the generator over a list of declarations: collects every method
/// signature first, then emits one wrapper and one registration entry per
/// exposed operation, in declaration encounter order.
pub fn ring_extension(prefix: Option<&str>, items: &Vec<Declaration>) -> (r: GeneratedModule)
    requires
        forall|j: int| 0 <= j < items@.len() ==> decl_wf(#[trigger] items@[j]@),
    ensures
        wrapper_models(r.wrappers@) == spec_ring_extension(
            match prefix {
                Some(p) => Some(p@),
                None => None,
            },
            declaration_models(items@),
        ).0,
        registration_models(r.registrations@) == spec_ring_extension(
            match prefix {
                Some(p) => Some(p@),
                None => None,
            },
            declaration_models(items@),
        ).1,
{
    let ghost models = declaration_models(items@);
    let ghost pmodel = match prefix {
        Some(p) => Some(p@),
        None => None,
    };
    let prefix_underscore: String = match prefix {
        Some(p) => if p.is_empty() {
            String::new()
        } else {
            join2(p, "_")
        },
        None => String::new(),
    };
    proof {
        assert(prefix_underscore@ =~= spec_prefix_underscore(pmodel));
    }
    let index = build_method_index(items);
    let ghost idx = index@;
    let ghost total = spec_process_items(models, prefix_underscore@, idx);
    let mut out_w: Vec<Wrapper> = Vec::new();
    let mut out_r: Vec<Registration> = Vec::new();
    let n = items.len();
    proof {
        assert(models.subrange(0, n as int) =~= models);
        assert(wrapper_models(out_w@) =~= Seq::<WrapperModel>::empty());
        assert(registration_models(out_r@) =~= Seq::<RegistrationModel>::empty());
    }
    let mut k: usize = 0;
    while k < n
        invariant
            0 <= k <= n,
            n == items@.len(),
            models == declaration_models(items@),
            idx == index@,
            index@ == spec_build_index(models),
            prefix_underscore@ == spec_prefix_underscore(pmodel),
            total == spec_process_items(models, prefix_underscore@, idx),
            forall|j: int| 0 <= j < items@.len() ==> decl_wf(#[trigger] items@[j]@),
            wrapper_models(out_w@) + spec_process_items(
                models.subrange(k as int, n as int),
                prefix_underscore@,
                idx,
            ).0 =~= total.0,
            registration_models(out_r@) + spec_process_items(
                models.subrange(k as int, n as int),
                prefix_underscore@,
                idx,
            ).1 =~= total.1,
        decreases n - k,
    {
        let ghost isuffix = models.subrange(k as int, n as int);
        proof {
            assert(isuffix[0] == models[k as int]);
            assert(isuffix.drop_first() =~= models.subrange(k + 1, n as int));
            assert(items@[k as int]@ == models[k as int]);
            assert(decl_wf(items@[k as int]@));
        }
        let ghost prev_w = wrapper_models(out_w@);
        let ghost prev_r = registration_models(out_r@);
        match &items[k] {
            Declaration::StructItem(s) => {
                let has_custom_new = index.contains_method(s.name.as_str(), "new");
                let (mut ws, mut rs) = process_struct(
                    s,
                    prefix_underscore.as_str(),
                    has_custom_new,
                    &index,
                );
                let ghost wsm = wrapper_models(ws@);
                let ghost rsm = registration_models(rs@);
                out_w.append(&mut ws);
                out_r.append(&mut rs);
                proof {
                    assert(wrapper_models(out_w@) =~= prev_w + wsm);
                    assert(registration_models(out_r@) =~= prev_r + rsm);
                }
            },
            Declaration::ImplItem(i) => {
                let (mut ws, mut rs) = process_impl(i, prefix_underscore.as_str());
                let ghost wsm = wrapper_models(ws@);
                let ghost rsm = registration_models(rs@);
                out_w.append(&mut ws);
                out_r.append(&mut rs);
                proof {
                    assert(wrapper_models(out_w@) =~= prev_w + wsm);
                    assert(registration_models(out_r@) =~= prev_r + rsm);
                }
            },
            Declaration::FnItem(f) => {
                let (w, reg) = process_function(f, prefix_underscore.as_str());
                out_w.push(w);
                out_r.push(reg);
                proof {
                    assert(wrapper_models(out_w@) =~= prev_w.push(out_w@.last()@));
                    assert(registration_models(out_r@) =~= prev_r.push(out_r@.last()@));
                }
            },
            Declaration::Other => {},
        }
        k = k + 1;
    }
    proof {
        assert(spec_process_items(models.subrange(n as int, n as int), prefix_underscore@, idx).0
            =~= Seq::<WrapperModel>::empty());
        assert(spec_process_items(models.subrange(n as int, n as int), prefix_underscore@, idx).1
            =~= Seq::<RegistrationModel>::empty());
        assert(wrapper_models(out_w@) =~= total.0);
        assert(registration_models(out_r@) =~= total.1);
    }
    GeneratedModule { wrappers: out_w, registrations: out_r }
}

} // verus!
