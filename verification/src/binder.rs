//! The parameter binder: for one formal parameter and its 1-based argument
//! position, the check, extraction and argument fragments its shape calls
//! for. A failed check aborts the wrapper before any extraction runs.

use vstd::prelude::*;

use crate::classify::{
    is_mut_struct_ref, is_number_type, is_option_type, is_slice_type, is_string_type,
    is_struct_ref, is_struct_type, is_vec_type, get_number_cast, spec_get_number_cast,
    spec_is_mut_struct_ref, spec_is_number_type, spec_is_option_type, spec_is_slice_type,
    spec_is_string_type, spec_is_struct_ref, spec_is_struct_type, spec_is_vec_type,
};
use crate::extract::{
    extract_option_inner, extract_slice_inner, extract_struct_name, extract_vec_inner,
    spec_extract_option_inner, spec_extract_slice_inner, spec_extract_struct_name,
    spec_extract_vec_inner,
};
use crate::fragments::{ArgKind, CheckKind, GetKind, GetKindModel, ParamBinding,
    ParamBindingModel};
use crate::strutil::str_eq;

verus! {

/// The extracted inner spelling of a container, or the empty spelling where
/// there is none.
pub open spec fn inner_or_empty(inner: Option<Seq<char>>) -> Seq<char> {
    match inner {
        Some(s) => s,
        None => Seq::empty(),
    }
}

/// The extraction fragment for a vector-typed parameter: number and string
/// elements convert, struct elements are duplicated from their pointers,
/// and anything else falls back to numbers.
pub open spec fn spec_vec_get(ty: Seq<char>) -> GetKindModel {
    let inner = inner_or_empty(spec_extract_vec_inner(ty));
    if spec_is_number_type(inner) {
        GetKindModel::VecNumberGet { cast: spec_get_number_cast(inner) }
    } else if spec_is_string_type(inner) {
        GetKindModel::VecTextGet
    } else if spec_is_struct_type(inner) {
        GetKindModel::VecStructGet { target: spec_extract_struct_name(inner) }
    } else {
        GetKindModel::VecNumberGet { cast: spec_get_number_cast(inner) }
    }
}

/// The extraction fragment for an optional parameter.
pub open spec fn spec_option_get(ty: Seq<char>) -> GetKindModel {
    let inner = inner_or_empty(spec_extract_option_inner(ty));
    if spec_is_number_type(inner) {
        GetKindModel::OptNumberGet { cast: spec_get_number_cast(inner) }
    } else if spec_is_string_type(inner) {
        GetKindModel::OptTextGet
    } else if spec_is_struct_type(inner) {
        GetKindModel::OptStructGet { target: spec_extract_struct_name(inner) }
    } else {
        GetKindModel::OptNumberGet { cast: spec_get_number_cast(inner) }
    }
}

/// The extraction fragment for a slice parameter.
pub open spec fn spec_slice_get(ty: Seq<char>) -> GetKindModel {
    let inner = inner_or_empty(spec_extract_slice_inner(ty));
    if spec_is_number_type(inner) {
        GetKindModel::SliceNumberGet { cast: spec_get_number_cast(inner) }
    } else if spec_is_string_type(inner) {
        GetKindModel::SliceTextGet
    } else if spec_is_struct_type(inner) {
        GetKindModel::SliceStructGet { target: spec_extract_struct_name(inner) }
    } else {
        GetKindModel::SliceDoubleGet
    }
}

/// The three fragments for one formal parameter, by its type's spelling.
/// Numbers and booleans are checked as numbers; text as strings; struct
/// values and references as tagged pointers; vectors and slices as lists;
/// optional parameters have no mandatory check; anything unrecognized is
/// read as a number.
pub open spec fn spec_param_binding(name: Seq<char>, ty: Seq<char>, pos: int) -> ParamBindingModel {
    if spec_is_number_type(ty) {
        ParamBindingModel {
            name,
            pos,
            check: CheckKind::NumberCheck,
            get: GetKindModel::NumberGet { cast: spec_get_number_cast(ty) },
            arg: ArgKind::ByName,
        }
    } else if spec_is_string_type(ty) {
        ParamBindingModel {
            name,
            pos,
            check: CheckKind::StringCheck,
            get: GetKindModel::TextGet,
            arg: ArgKind::ByName,
        }
    } else if ty == "bool"@ {
        ParamBindingModel {
            name,
            pos,
            check: CheckKind::NumberCheck,
            get: GetKindModel::BoolGet,
            arg: ArgKind::ByName,
        }
    } else if spec_is_mut_struct_ref(ty) {
        ParamBindingModel {
            name,
            pos,
            check: CheckKind::CPointerCheck,
            get: GetKindModel::PtrGet { target: spec_extract_struct_name(ty) },
            arg: ArgKind::DerefMut,
        }
    } else if spec_is_struct_ref(ty) {
        ParamBindingModel {
            name,
            pos,
            check: CheckKind::CPointerCheck,
            get: GetKindModel::PtrGet { target: spec_extract_struct_name(ty) },
            arg: ArgKind::DerefConst,
        }
    } else if spec_is_vec_type(ty) {
        ParamBindingModel {
            name,
            pos,
            check: CheckKind::ListCheck,
            get: spec_vec_get(ty),
            arg: ArgKind::ByName,
        }
    } else if spec_is_option_type(ty) {
        ParamBindingModel {
            name,
            pos,
            check: CheckKind::NoCheck,
            get: spec_option_get(ty),
            arg: ArgKind::ByName,
        }
    } else if spec_is_slice_type(ty) {
        ParamBindingModel {
            name,
            pos,
            check: CheckKind::ListCheck,
            get: spec_slice_get(ty),
            arg: ArgKind::BorrowSlice,
        }
    } else if spec_is_struct_type(ty) {
        ParamBindingModel {
            name,
            pos,
            check: CheckKind::CPointerCheck,
            get: GetKindModel::CloneGet { target: spec_extract_struct_name(ty) },
            arg: ArgKind::ByName,
        }
    } else {
        ParamBindingModel {
            name,
            pos,
            check: CheckKind::NumberCheck,
            get: GetKindModel::InferredNumberGet,
            arg: ArgKind::ByName,
        }
    }
}

/// Binds a vector-typed parameter.
pub fn generate_vec_param_binding(name: &str, ty: &str, pos: usize) -> (r: ParamBinding)
    ensures
        r@ == (ParamBindingModel {
            name: name@,
            pos: pos as int,
            check: CheckKind::ListCheck,
            get: spec_vec_get(ty@),
            arg: ArgKind::ByName,
        }),
{
    let inner = match extract_vec_inner(ty) {
        Some(i) => i,
        None => String::new(),
    };
    let get = if is_number_type(inner.as_str()) {
        GetKind::VecNumberGet { cast: get_number_cast(inner.as_str()) }
    } else if is_string_type(inner.as_str()) {
        GetKind::VecTextGet
    } else if is_struct_type(inner.as_str()) {
        GetKind::VecStructGet { target: extract_struct_name(inner.as_str()) }
    } else {
        GetKind::VecNumberGet { cast: get_number_cast(inner.as_str()) }
    };
    ParamBinding {
        name: name.to_owned(),
        pos,
        check: CheckKind::ListCheck,
        get,
        arg: ArgKind::ByName,
    }
}

/// Binds an optional parameter. Absence is legal, so no check is emitted;
/// the extraction inspects the argument's actual kind.
pub fn generate_option_param_binding(name: &str, ty: &str, pos: usize) -> (r: ParamBinding)
    ensures
        r@ == (ParamBindingModel {
            name: name@,
            pos: pos as int,
            check: CheckKind::NoCheck,
            get: spec_option_get(ty@),
            arg: ArgKind::ByName,
        }),
{
    let inner = match extract_option_inner(ty) {
        Some(i) => i,
        None => String::new(),
    };
    let get = if is_number_type(inner.as_str()) {
        GetKind::OptNumberGet { cast: get_number_cast(inner.as_str()) }
    } else if is_string_type(inner.as_str()) {
        GetKind::OptTextGet
    } else if is_struct_type(inner.as_str()) {
        GetKind::OptStructGet { target: extract_struct_name(inner.as_str()) }
    } else {
        GetKind::OptNumberGet { cast: get_number_cast(inner.as_str()) }
    };
    ParamBinding {
        name: name.to_owned(),
        pos,
        check: CheckKind::NoCheck,
        get,
        arg: ArgKind::ByName,
    }
}

/// Binds a slice parameter: extracted like a vector, but the argument
/// expression borrows the materialized sequence.
pub fn generate_slice_param_binding(name: &str, ty: &str, pos: usize) -> (r: ParamBinding)
    ensures
        r@ == (ParamBindingModel {
            name: name@,
            pos: pos as int,
            check: CheckKind::ListCheck,
            get: spec_slice_get(ty@),
            arg: ArgKind::BorrowSlice,
        }),
{
    let inner = match extract_slice_inner(ty) {
        Some(i) => i,
        None => String::new(),
    };
    let get = if is_number_type(inner.as_str()) {
        GetKind::SliceNumberGet { cast: get_number_cast(inner.as_str()) }
    } else if is_string_type(inner.as_str()) {
        GetKind::SliceTextGet
    } else if is_struct_type(inner.as_str()) {
        GetKind::SliceStructGet { target: extract_struct_name(inner.as_str()) }
    } else {
        GetKind::SliceDoubleGet
    };
    ParamBinding {
        name: name.to_owned(),
        pos,
        check: CheckKind::ListCheck,
        get,
        arg: ArgKind::BorrowSlice,
    }
}

/// The bindings of a parameter list, positions starting at `offset`.
pub open spec fn spec_bind_params(
    params: Seq<crate::decl::ParamDeclModel>,
    offset: int,
) -> Seq<ParamBindingModel> {
    Seq::new(params.len(), |i: int| spec_param_binding(params[i].name, params[i].ty, offset + i))
}

/// Binds every parameter of a list, the first at argument position
/// `offset`.
pub fn bind_params(params: &Vec<crate::decl::ParamDecl>, offset: usize) -> (r: Vec<ParamBinding>)
    requires
        offset + params@.len() <= crate::decl::max_params(),
    ensures
        crate::fragments::param_models(r@) == spec_bind_params(
            crate::decl::param_decl_models(params@),
            offset as int,
        ),
{
    let n = params.len();
    let mut out: Vec<ParamBinding> = Vec::new();
    let mut i: usize = 0;
    while i < n
        invariant
            0 <= i <= n,
            n == params@.len(),
            offset + n <= crate::decl::max_params(),
            out@.len() == i,
            forall|j: int|
                0 <= j < i ==> out@[j]@ == spec_param_binding(
                    params@[j]@.name,
                    params@[j]@.ty,
                    offset + j,
                ),
        decreases n - i,
    {
        let p = &params[i];
        let b = generate_param_binding(p.name.as_str(), p.ty.as_str(), offset + i);
        out.push(b);
        i = i + 1;
    }
    proof {
        assert(crate::fragments::param_models(out@) =~= spec_bind_params(
            crate::decl::param_decl_models(params@),
            offset as int,
        ));
    }
    out
}

/// Binds one formal parameter at its argument position.
pub fn generate_param_binding(name: &str, ty: &str, pos: usize) -> (r: ParamBinding)
    ensures
        r@ == spec_param_binding(name@, ty@, pos as int),
{
    if is_number_type(ty) {
        ParamBinding {
            name: name.to_owned(),
            pos,
            check: CheckKind::NumberCheck,
            get: GetKind::NumberGet { cast: get_number_cast(ty) },
            arg: ArgKind::ByName,
        }
    } else if is_string_type(ty) {
        ParamBinding {
            name: name.to_owned(),
            pos,
            check: CheckKind::StringCheck,
            get: GetKind::TextGet,
            arg: ArgKind::ByName,
        }
    } else if str_eq(ty, "bool") {
        ParamBinding {
            name: name.to_owned(),
            pos,
            check: CheckKind::NumberCheck,
            get: GetKind::BoolGet,
            arg: ArgKind::ByName,
        }
    } else if is_mut_struct_ref(ty) {
        ParamBinding {
            name: name.to_owned(),
            pos,
            check: CheckKind::CPointerCheck,
            get: GetKind::PtrGet { target: extract_struct_name(ty) },
            arg: ArgKind::DerefMut,
        }
    } else if is_struct_ref(ty) {
        ParamBinding {
            name: name.to_owned(),
            pos,
            check: CheckKind::CPointerCheck,
            get: GetKind::PtrGet { target: extract_struct_name(ty) },
            arg: ArgKind::DerefConst,
        }
    } else if is_vec_type(ty) {
        generate_vec_param_binding(name, ty, pos)
    } else if is_option_type(ty) {
        generate_option_param_binding(name, ty, pos)
    } else if is_slice_type(ty) {
        generate_slice_param_binding(name, ty, pos)
    } else if is_struct_type(ty) {
        ParamBinding {
            name: name.to_owned(),
            pos,
            check: CheckKind::CPointerCheck,
            get: GetKind::CloneGet { target: extract_struct_name(ty) },
            arg: ArgKind::ByName,
        }
    } else {
        ParamBinding {
            name: name.to_owned(),
            pos,
            check: CheckKind::NumberCheck,
            get: GetKind::InferredNumberGet,
            arg: ArgKind::ByName,
        }
    }
}

} // verus!
