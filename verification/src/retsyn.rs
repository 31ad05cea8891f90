//! The return synthesizer: for a declared return type's spelling, the
//! conversion that turns the wrapped call's result into the runtime's
//! value-return protocol, including the none and error branches of optional
//! and result shapes.

use vstd::prelude::*;

use crate::classify::{
    is_number_type, is_option_type, is_result_type, is_string_type, is_struct_type, is_vec_type,
    is_tuple_type, is_box_type, is_hashmap_type, spec_is_box_type, spec_is_hashmap_type,
    spec_is_number_type, spec_is_option_type, spec_is_result_type, spec_is_string_type,
    spec_is_struct_type, spec_is_tuple_type, spec_is_vec_type,
};
use crate::extract::{
    extract_box_inner, extract_hashmap_kv, extract_option_inner, extract_result_ok,
    extract_struct_name, extract_tuple_elements, extract_vec_inner, spec_extract_box_inner,
    spec_extract_hashmap_kv, spec_extract_option_inner, spec_extract_result_ok,
    spec_extract_struct_name, spec_extract_tuple_elements, spec_extract_vec_inner,
};
use crate::binder::inner_or_empty;
use crate::fragments::{
    BoxRet, BoxRetModel, KeyRet, ListElemRet, ListElemRetModel, OptRet, OptRetModel, ResRet,
    ResRetModel, RetFrag, RetFragModel, TupleElemRet, TupleElemRetModel, ValRet, ValRetModel,
    tuple_elem_models,
};
use crate::strutil::{str_eq, trim, trim_spec};

verus! {

/// The conversion for one element of a returned vector.
pub open spec fn spec_vec_return(ty: Seq<char>) -> ListElemRetModel {
    let inner = inner_or_empty(spec_extract_vec_inner(ty));
    if spec_is_number_type(inner) {
        ListElemRetModel::NumElem
    } else if spec_is_string_type(inner) {
        ListElemRetModel::TextElem
    } else if spec_is_option_type(inner) {
        let opt_inner = inner_or_empty(spec_extract_option_inner(inner));
        if spec_is_number_type(opt_inner) {
            ListElemRetModel::OptNumElem
        } else if spec_is_string_type(opt_inner) {
            ListElemRetModel::OptTextElem
        } else if spec_is_struct_type(opt_inner) {
            ListElemRetModel::OptStructElem { target: spec_extract_struct_name(opt_inner) }
        } else {
            ListElemRetModel::OptNumElem
        }
    } else if spec_is_vec_type(inner) {
        let inner_inner = inner_or_empty(spec_extract_vec_inner(inner));
        if spec_is_number_type(inner_inner) {
            ListElemRetModel::NestedNumElem
        } else if spec_is_string_type(inner_inner) {
            ListElemRetModel::NestedTextElem
        } else if spec_is_struct_type(inner_inner) {
            ListElemRetModel::NestedStructElem { target: spec_extract_struct_name(inner_inner) }
        } else {
            ListElemRetModel::NestedNumElem
        }
    } else if spec_is_struct_type(inner) {
        ListElemRetModel::StructElem { target: spec_extract_struct_name(inner) }
    } else {
        ListElemRetModel::NumElem
    }
}

/// Synthesizes the element conversion of a vector return.
pub fn generate_vec_return(ty: &str) -> (r: ListElemRet)
    ensures
        r@ == spec_vec_return(ty@),
{
    let inner = match extract_vec_inner(ty) {
        Some(i) => i,
        None => String::new(),
    };
    if is_number_type(inner.as_str()) {
        ListElemRet::NumElem
    } else if is_string_type(inner.as_str()) {
        ListElemRet::TextElem
    } else if is_option_type(inner.as_str()) {
        let opt_inner = match extract_option_inner(inner.as_str()) {
            Some(i) => i,
            None => String::new(),
        };
        if is_number_type(opt_inner.as_str()) {
            ListElemRet::OptNumElem
        } else if is_string_type(opt_inner.as_str()) {
            ListElemRet::OptTextElem
        } else if is_struct_type(opt_inner.as_str()) {
            ListElemRet::OptStructElem { target: extract_struct_name(opt_inner.as_str()) }
        } else {
            ListElemRet::OptNumElem
        }
    } else if is_vec_type(inner.as_str()) {
        let inner_inner = match extract_vec_inner(inner.as_str()) {
            Some(i) => i,
            None => String::new(),
        };
        if is_number_type(inner_inner.as_str()) {
            ListElemRet::NestedNumElem
        } else if is_string_type(inner_inner.as_str()) {
            ListElemRet::NestedTextElem
        } else if is_struct_type(inner_inner.as_str()) {
            ListElemRet::NestedStructElem { target: extract_struct_name(inner_inner.as_str()) }
        } else {
            ListElemRet::NestedNumElem
        }
    } else if is_struct_type(inner.as_str()) {
        ListElemRet::StructElem { target: extract_struct_name(inner.as_str()) }
    } else {
        ListElemRet::NumElem
    }
}

/// The conversion of a present optional result.
pub open spec fn spec_option_return(ty: Seq<char>) -> OptRetModel {
    let inner = inner_or_empty(spec_extract_option_inner(ty));
    if spec_is_number_type(inner) {
        OptRetModel::OptNum
    } else if spec_is_string_type(inner) {
        OptRetModel::OptText
    } else if spec_is_vec_type(inner) {
        let vec_inner = inner_or_empty(spec_extract_vec_inner(inner));
        if spec_is_number_type(vec_inner) {
            OptRetModel::OptListNum
        } else if spec_is_string_type(vec_inner) {
            OptRetModel::OptListText
        } else if spec_is_struct_type(vec_inner) {
            OptRetModel::OptListStruct { target: spec_extract_struct_name(vec_inner) }
        } else {
            OptRetModel::OptListNum
        }
    } else if spec_is_struct_type(inner) {
        OptRetModel::OptStruct { target: spec_extract_struct_name(inner) }
    } else {
        OptRetModel::OptNum
    }
}

/// Synthesizes the conversion of an optional return.
pub fn generate_option_return(ty: &str) -> (r: OptRet)
    ensures
        r@ == spec_option_return(ty@),
{
    let inner = match extract_option_inner(ty) {
        Some(i) => i,
        None => String::new(),
    };
    if is_number_type(inner.as_str()) {
        OptRet::OptNum
    } else if is_string_type(inner.as_str()) {
        OptRet::OptText
    } else if is_vec_type(inner.as_str()) {
        let vec_inner = match extract_vec_inner(inner.as_str()) {
            Some(i) => i,
            None => String::new(),
        };
        if is_number_type(vec_inner.as_str()) {
            OptRet::OptListNum
        } else if is_string_type(vec_inner.as_str()) {
            OptRet::OptListText
        } else if is_struct_type(vec_inner.as_str()) {
            OptRet::OptListStruct { target: extract_struct_name(vec_inner.as_str()) }
        } else {
            OptRet::OptListNum
        }
    } else if is_struct_type(inner.as_str()) {
        OptRet::OptStruct { target: extract_struct_name(inner.as_str()) }
    } else {
        OptRet::OptNum
    }
}

/// The conversion of a successful result value.
pub open spec fn spec_result_return(ty: Seq<char>) -> ResRetModel {
    let ok = inner_or_empty(spec_extract_result_ok(ty));
    if ok == "()"@ || ok.len() == 0 {
        ResRetModel::ResUnit
    } else if spec_is_number_type(ok) {
        ResRetModel::ResNum
    } else if spec_is_string_type(ok) {
        ResRetModel::ResText
    } else if spec_is_vec_type(ok) {
        let vec_inner = inner_or_empty(spec_extract_vec_inner(ok));
        if spec_is_number_type(vec_inner) {
            ResRetModel::ResListNum
        } else if spec_is_string_type(vec_inner) {
            ResRetModel::ResListText
        } else if spec_is_struct_type(vec_inner) {
            ResRetModel::ResListStruct { target: spec_extract_struct_name(vec_inner) }
        } else {
            ResRetModel::ResListNum
        }
    } else if spec_is_struct_type(ok) {
        ResRetModel::ResStruct { target: spec_extract_struct_name(ok) }
    } else {
        ResRetModel::ResNum
    }
}

/// Synthesizes the conversion of a result return. The failure branch always
/// formats the error as text and raises it as the runtime's error signal.
pub fn generate_result_return(ty: &str) -> (r: ResRet)
    ensures
        r@ == spec_result_return(ty@),
{
    let ok = match extract_result_ok(ty) {
        Some(i) => i,
        None => String::new(),
    };
    if str_eq(ok.as_str(), "()") || ok.as_str().is_empty() {
        ResRet::ResUnit
    } else if is_number_type(ok.as_str()) {
        ResRet::ResNum
    } else if is_string_type(ok.as_str()) {
        ResRet::ResText
    } else if is_vec_type(ok.as_str()) {
        let vec_inner = match extract_vec_inner(ok.as_str()) {
            Some(i) => i,
            None => String::new(),
        };
        if is_number_type(vec_inner.as_str()) {
            ResRet::ResListNum
        } else if is_string_type(vec_inner.as_str()) {
            ResRet::ResListText
        } else if is_struct_type(vec_inner.as_str()) {
            ResRet::ResListStruct { target: extract_struct_name(vec_inner.as_str()) }
        } else {
            ResRet::ResListNum
        }
    } else if is_struct_type(ok.as_str()) {
        ResRet::ResStruct { target: extract_struct_name(ok.as_str()) }
    } else {
        ResRet::ResNum
    }
}

/// The conversion of one positional tuple element.
pub open spec fn spec_tuple_elem_ret(e: Seq<char>) -> TupleElemRetModel {
    if spec_is_number_type(e) {
        TupleElemRetModel::TupleNum
    } else if spec_is_string_type(e) {
        TupleElemRetModel::TupleText
    } else if e == "bool"@ {
        TupleElemRetModel::TupleBool
    } else if spec_is_struct_type(e) {
        TupleElemRetModel::TupleStruct { target: spec_extract_struct_name(e) }
    } else {
        TupleElemRetModel::TupleNum
    }
}

/// The conversions of a returned tuple's elements, in positional order.
pub open spec fn spec_tuple_return(ty: Seq<char>) -> Seq<TupleElemRetModel> {
    let elems = spec_extract_tuple_elements(ty);
    Seq::new(elems.len(), |i: int| spec_tuple_elem_ret(elems[i]))
}

/// Synthesizes the elementwise conversions of a tuple return.
pub fn generate_tuple_return(ty: &str) -> (r: Vec<TupleElemRet>)
    ensures
        tuple_elem_models(r@) == spec_tuple_return(ty@),
{
    let elems = extract_tuple_elements(ty);
    let ghost espec = spec_extract_tuple_elements(ty@);
    let mut out: Vec<TupleElemRet> = Vec::new();
    let n = elems.len();
    let mut k: usize = 0;
    while k < n
        invariant
            0 <= k <= n,
            n == elems.len(),
            elems.deep_view() == espec,
            out@.len() == k,
            forall|j: int| 0 <= j < k ==> out@[j]@ == spec_tuple_elem_ret(espec[j]),
        decreases n - k,
    {
        proof {
            assert(elems[k as int]@ == espec[k as int]);
        }
        let e = &elems[k];
        let ret = if is_number_type(e.as_str()) {
            TupleElemRet::TupleNum
        } else if is_string_type(e.as_str()) {
            TupleElemRet::TupleText
        } else if str_eq(e.as_str(), "bool") {
            TupleElemRet::TupleBool
        } else if is_struct_type(e.as_str()) {
            TupleElemRet::TupleStruct { target: extract_struct_name(e.as_str()) }
        } else {
            TupleElemRet::TupleNum
        };
        out.push(ret);
        k = k + 1;
    }
    proof {
        assert(tuple_elem_models(out@) =~= spec_tuple_return(ty@));
    }
    out
}

/// The conversion of an unwrapped indirection result.
pub open spec fn spec_box_return(ty: Seq<char>) -> BoxRetModel {
    let inner = inner_or_empty(spec_extract_box_inner(ty));
    if spec_is_number_type(inner) {
        BoxRetModel::BoxNum
    } else if spec_is_string_type(inner) {
        BoxRetModel::BoxText
    } else if inner == "bool"@ {
        BoxRetModel::BoxBool
    } else if spec_is_struct_type(inner) {
        BoxRetModel::BoxStruct { target: spec_extract_struct_name(inner) }
    } else {
        BoxRetModel::BoxNum
    }
}

/// Synthesizes the conversion of an indirection return.
pub fn generate_box_return(ty: &str) -> (r: BoxRet)
    ensures
        r@ == spec_box_return(ty@),
{
    let inner = match extract_box_inner(ty) {
        Some(i) => i,
        None => String::new(),
    };
    if is_number_type(inner.as_str()) {
        BoxRet::BoxNum
    } else if is_string_type(inner.as_str()) {
        BoxRet::BoxText
    } else if str_eq(inner.as_str(), "bool") {
        BoxRet::BoxBool
    } else if is_struct_type(inner.as_str()) {
        BoxRet::BoxStruct { target: extract_struct_name(inner.as_str()) }
    } else {
        BoxRet::BoxNum
    }
}

/// The key and value conversions of a mapping return.
pub open spec fn spec_hashmap_return(ty: Seq<char>) -> (KeyRet, ValRetModel) {
    let kv = match spec_extract_hashmap_kv(ty) {
        Some(kv) => kv,
        None => (Seq::empty(), Seq::empty()),
    };
    let key = if spec_is_number_type(kv.0) {
        KeyRet::KeyNum
    } else if spec_is_string_type(kv.0) {
        KeyRet::KeyText
    } else {
        KeyRet::KeyDebugText
    };
    let value = if spec_is_number_type(kv.1) {
        ValRetModel::ValNum
    } else if spec_is_string_type(kv.1) {
        ValRetModel::ValText
    } else if kv.1 == "bool"@ {
        ValRetModel::ValBool
    } else if spec_is_struct_type(kv.1) {
        ValRetModel::ValStruct { target: spec_extract_struct_name(kv.1) }
    } else {
        ValRetModel::ValNum
    };
    (key, value)
}

/// Synthesizes the per-entry conversions of a mapping return: each entry
/// becomes a two-element sub-list holding the converted key then value.
pub fn generate_hashmap_return(ty: &str) -> (r: (KeyRet, ValRet))
    ensures
        r.0 == spec_hashmap_return(ty@).0,
        r.1@ == spec_hashmap_return(ty@).1,
{
    let (k, v) = match extract_hashmap_kv(ty) {
        Some(kv) => kv,
        None => (String::new(), String::new()),
    };
    let key = if is_number_type(k.as_str()) {
        KeyRet::KeyNum
    } else if is_string_type(k.as_str()) {
        KeyRet::KeyText
    } else {
        KeyRet::KeyDebugText
    };
    let value = if is_number_type(v.as_str()) {
        ValRet::ValNum
    } else if is_string_type(v.as_str()) {
        ValRet::ValText
    } else if str_eq(v.as_str(), "bool") {
        ValRet::ValBool
    } else if is_struct_type(v.as_str()) {
        ValRet::ValStruct { target: extract_struct_name(v.as_str()) }
    } else {
        ValRet::ValNum
    };
    (key, value)
}

/// The return conversion for a declared return type, with the owning struct
/// supplied where a bare `Self` may appear.
pub open spec fn spec_return_for_type(ty: Seq<char>, self_struct: Option<Seq<char>>) -> RetFragModel {
    let t = trim_spec(ty);
    if spec_is_number_type(t) {
        RetFragModel::RetNumber
    } else if spec_is_string_type(t) {
        RetFragModel::RetString
    } else if t == "bool"@ {
        RetFragModel::RetBool
    } else if spec_is_vec_type(t) {
        RetFragModel::RetList(spec_vec_return(t))
    } else if spec_is_option_type(t) {
        RetFragModel::RetOption(spec_option_return(t))
    } else if spec_is_result_type(t) {
        RetFragModel::RetResult(spec_result_return(t))
    } else if spec_is_tuple_type(t) {
        if spec_extract_tuple_elements(t).len() == 0 {
            RetFragModel::Discard
        } else {
            RetFragModel::RetTuple(spec_tuple_return(t))
        }
    } else if spec_is_box_type(t) {
        RetFragModel::RetBox(spec_box_return(t))
    } else if spec_is_hashmap_type(t) {
        RetFragModel::RetMapping(spec_hashmap_return(t).0, spec_hashmap_return(t).1)
    } else if t == "Self"@ {
        match self_struct {
            Some(s) => RetFragModel::RetCPointer { target: s },
            None => RetFragModel::RetNumber,
        }
    } else if spec_is_struct_type(t) {
        RetFragModel::RetCPointer { target: spec_extract_struct_name(t) }
    } else {
        RetFragModel::RetNumber
    }
}

/// Synthesizes the return conversion for a declared return type.
pub fn generate_return_for_type(ty: &str, self_struct: Option<&str>) -> (r: RetFrag)
    ensures
        r@ == spec_return_for_type(
            ty@,
            match self_struct {
                Some(s) => Some(s@),
                None => None,
            },
        ),
{
    let t = trim(ty);
    if is_number_type(t) {
        RetFrag::RetNumber
    } else if is_string_type(t) {
        RetFrag::RetString
    } else if str_eq(t, "bool") {
        RetFrag::RetBool
    } else if is_vec_type(t) {
        RetFrag::RetList(generate_vec_return(t))
    } else if is_option_type(t) {
        RetFrag::RetOption(generate_option_return(t))
    } else if is_result_type(t) {
        RetFrag::RetResult(generate_result_return(t))
    } else if is_tuple_type(t) {
        let elems = generate_tuple_return(t);
        if elems.len() == 0 {
            proof {
                assert(tuple_elem_models(elems@).len() == 0);
            }
            RetFrag::Discard
        } else {
            proof {
                assert(tuple_elem_models(elems@).len() > 0);
            }
            RetFrag::RetTuple(elems)
        }
    } else if is_box_type(t) {
        RetFrag::RetBox(generate_box_return(t))
    } else if is_hashmap_type(t) {
        let (k, v) = generate_hashmap_return(t);
        RetFrag::RetMapping(k, v)
    } else if str_eq(t, "Self") {
        match self_struct {
            Some(s) => RetFrag::RetCPointer { target: s.to_owned() },
            None => RetFrag::RetNumber,
        }
    } else if is_struct_type(t) {
        RetFrag::RetCPointer { target: extract_struct_name(t) }
    } else {
        RetFrag::RetNumber
    }
}

/// The return conversion for a declaration's output: no declared type means
/// the call is evaluated and its value discarded.
pub open spec fn spec_return_code(
    output: Option<Seq<char>>,
    self_struct: Option<Seq<char>>,
) -> RetFragModel {
    match output {
        None => RetFragModel::Discard,
        Some(ty) => spec_return_for_type(ty, self_struct),
    }
}

/// Synthesizes the return conversion of a declaration without an owning
/// struct in scope.
pub fn generate_return_code(output: Option<&str>) -> (r: RetFrag)
    ensures
        r@ == spec_return_code(
            match output {
                Some(ty) => Some(ty@),
                None => None,
            },
            None,
        ),
{
    generate_return_code_with_context(output, None)
}

/// Synthesizes the return conversion of a declaration, with the owning
/// struct supplied where a bare `Self` may appear.
pub fn generate_return_code_with_context(output: Option<&str>, self_struct: Option<&str>) -> (r:
    RetFrag)
    ensures
        r@ == spec_return_code(
            match output {
                Some(ty) => Some(ty@),
                None => None,
            },
            match self_struct {
                Some(s) => Some(s@),
                None => None,
            },
        ),
{
    match output {
        None => RetFrag::Discard,
        Some(ty) => generate_return_for_type(ty, self_struct),
    }
}

} // verus!
