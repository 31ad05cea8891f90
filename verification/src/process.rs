//! The declaration processor: one generated wrapper per exposed operation,
//! plus a registration entry mapping the exported name to the wrapper.
//!
//! A struct gets one delete wrapper always, one default-constructor wrapper
//! unless a user-written `new` exists, and accessor wrappers for every
//! public field not shadowed by a user method. An implementation block's
//! public methods become method wrappers, its `new` the struct's
//! constructor. A free function becomes a single wrapper.

use vstd::prelude::*;

use crate::binder::{bind_params, spec_bind_params};
use crate::classify::{
    get_number_cast, is_number_type, is_option_type, is_string_type, is_struct_type, is_vec_type,
    spec_get_number_cast, spec_is_number_type, spec_is_option_type, spec_is_string_type,
    spec_is_struct_type, spec_is_vec_type,
};
use crate::decl::{
    index_contains, max_params, FieldDeclModel, FnDecl, ImplDecl, MethodDecl, MethodDeclModel,
    MethodIndex, MethodKeyModel, StructDecl,
};
use crate::extract::{
    extract_option_inner, extract_struct_name, extract_vec_inner, spec_extract_option_inner,
    spec_extract_struct_name, spec_extract_vec_inner,
};
use crate::binder::inner_or_empty;
use crate::fragments::{param_models, ParamBinding, ParamBindingModel, RetFrag, RetFragModel};
use crate::names::{ascii_lower, join2, join3, join4, join5, lower_chars};
use crate::retsyn::{generate_return_code_with_context, spec_return_code};
use crate::strutil::str_eq;

verus! {

/// How a generated getter returns the field's value.
#[derive(Debug, Clone, PartialEq, Eq)]
pub enum GetterRet {
    /// As a number.
    GetNum,
    /// As a string.
    GetText,
    /// As a number after a boolean test.
    GetBool,
    /// As a list of numbers.
    GetVecNum,
    /// As a list of strings.
    GetVecText,
    /// As a list of tagged pointers to fresh heap copies.
    GetVecStruct { target: String },
    /// A present number returns as a number; an absent one returns nothing.
    GetOptNum,
    /// A present string returns as a string; an absent one returns nothing.
    GetOptText,
    /// A present struct returns as a tagged pointer; an absent one nothing.
    GetOptStruct { target: String },
    /// As a tagged pointer to a fresh heap copy of the field.
    GetStructPtr { target: String },
}

/// The mathematical form of a getter conversion.
pub enum GetterRetModel {
    GetNum,
    GetText,
    GetBool,
    GetVecNum,
    GetVecText,
    GetVecStruct { target: Seq<char> },
    GetOptNum,
    GetOptText,
    GetOptStruct { target: Seq<char> },
    GetStructPtr { target: Seq<char> },
}

impl View for GetterRet {
    type V = GetterRetModel;

    open spec fn view(&self) -> GetterRetModel {
        match self {
            GetterRet::GetNum => GetterRetModel::GetNum,
            GetterRet::GetText => GetterRetModel::GetText,
            GetterRet::GetBool => GetterRetModel::GetBool,
            GetterRet::GetVecNum => GetterRetModel::GetVecNum,
            GetterRet::GetVecText => GetterRetModel::GetVecText,
            GetterRet::GetVecStruct { target } => GetterRetModel::GetVecStruct {
                target: target@,
            },
            GetterRet::GetOptNum => GetterRetModel::GetOptNum,
            GetterRet::GetOptText => GetterRetModel::GetOptText,
            GetterRet::GetOptStruct { target } => GetterRetModel::GetOptStruct {
                target: target@,
            },
            GetterRet::GetStructPtr { target } => GetterRetModel::GetStructPtr {
                target: target@,
            },
        }
    }
}

/// How a generated setter converts its argument into the field's value.
#[derive(Debug, Clone, PartialEq, Eq)]
pub enum SetterFrag {
    /// A number, cast to the named numeric type.
    SetNum { cast: String },
    /// A string, copied to owned text.
    SetText,
    /// A number, tested against zero.
    SetBool,
    /// A list whose number elements are kept, cast to the named type.
    SetVecNum { cast: String },
    /// A list whose string elements are kept.
    SetVecText,
    /// A list of tagged pointers, each pointee duplicated.
    SetVecStruct { target: String },
    /// A number sets the field; an empty string — the universal absent
    /// encoding — or any other kind clears it, never an error.
    SetOptNum { cast: String },
    /// An empty string clears the field; any other string sets it; any
    /// other kind clears it, never an error.
    SetOptText,
    /// A tagged pointer's pointee is duplicated into the field; a null
    /// pointer, an empty string or any other kind clears it, never an
    /// error.
    SetOptStruct { target: String },
    /// A tagged pointer whose pointee is duplicated into the field.
    SetStruct { target: String },
    /// A number with the cast left to the call site.
    SetNumInferred,
}

/// The mathematical form of a setter conversion.
pub enum SetterFragModel {
    SetNum { cast: Seq<char> },
    SetText,
    SetBool,
    SetVecNum { cast: Seq<char> },
    SetVecText,
    SetVecStruct { target: Seq<char> },
    SetOptNum { cast: Seq<char> },
    SetOptText,
    SetOptStruct { target: Seq<char> },
    SetStruct { target: Seq<char> },
    SetNumInferred,
}

impl View for SetterFrag {
    type V = SetterFragModel;

    open spec fn view(&self) -> SetterFragModel {
        match self {
            SetterFrag::SetNum { cast } => SetterFragModel::SetNum { cast: cast@ },
            SetterFrag::SetText => SetterFragModel::SetText,
            SetterFrag::SetBool => SetterFragModel::SetBool,
            SetterFrag::SetVecNum { cast } => SetterFragModel::SetVecNum { cast: cast@ },
            SetterFrag::SetVecText => SetterFragModel::SetVecText,
            SetterFrag::SetVecStruct { target } => SetterFragModel::SetVecStruct {
                target: target@,
            },
            SetterFrag::SetOptNum { cast } => SetterFragModel::SetOptNum { cast: cast@ },
            SetterFrag::SetOptText => SetterFragModel::SetOptText,
            SetterFrag::SetOptStruct { target } => SetterFragModel::SetOptStruct {
                target: target@,
            },
            SetterFrag::SetStruct { target } => SetterFragModel::SetStruct { target: target@ },
            SetterFrag::SetNumInferred => SetterFragModel::SetNumInferred,
        }
    }
}

/// The getter conversion a field type calls for.
pub open spec fn spec_field_getter(ty: Seq<char>) -> GetterRetModel {
    if spec_is_number_type(ty) {
        GetterRetModel::GetNum
    } else if spec_is_string_type(ty) {
        GetterRetModel::GetText
    } else if ty == "bool"@ {
        GetterRetModel::GetBool
    } else if spec_is_vec_type(ty) {
        let inner = inner_or_empty(spec_extract_vec_inner(ty));
        if spec_is_number_type(inner) {
            GetterRetModel::GetVecNum
        } else if spec_is_string_type(inner) {
            GetterRetModel::GetVecText
        } else if spec_is_struct_type(inner) {
            GetterRetModel::GetVecStruct { target: spec_extract_struct_name(inner) }
        } else {
            GetterRetModel::GetVecNum
        }
    } else if spec_is_option_type(ty) {
        let inner = inner_or_empty(spec_extract_option_inner(ty));
        if spec_is_number_type(inner) {
            GetterRetModel::GetOptNum
        } else if spec_is_string_type(inner) {
            GetterRetModel::GetOptText
        } else if spec_is_struct_type(inner) {
            GetterRetModel::GetOptStruct { target: spec_extract_struct_name(inner) }
        } else {
            GetterRetModel::GetOptNum
        }
    } else if spec_is_struct_type(ty) {
        GetterRetModel::GetStructPtr { target: spec_extract_struct_name(ty) }
    } else {
        GetterRetModel::GetNum
    }
}

/// Synthesizes the getter conversion for a field's type.
pub fn generate_field_getter(ty: &str) -> (r: GetterRet)
    ensures
        r@ == spec_field_getter(ty@),
{
    if is_number_type(ty) {
        GetterRet::GetNum
    } else if is_string_type(ty) {
        GetterRet::GetText
    } else if str_eq(ty, "bool") {
        GetterRet::GetBool
    } else if is_vec_type(ty) {
        let inner = match extract_vec_inner(ty) {
            Some(i) => i,
            None => String::new(),
        };
        if is_number_type(inner.as_str()) {
            GetterRet::GetVecNum
        } else if is_string_type(inner.as_str()) {
            GetterRet::GetVecText
        } else if is_struct_type(inner.as_str()) {
            GetterRet::GetVecStruct { target: extract_struct_name(inner.as_str()) }
        } else {
            GetterRet::GetVecNum
        }
    } else if is_option_type(ty) {
        let inner = match extract_option_inner(ty) {
            Some(i) => i,
            None => String::new(),
        };
        if is_number_type(inner.as_str()) {
            GetterRet::GetOptNum
        } else if is_string_type(inner.as_str()) {
            GetterRet::GetOptText
        } else if is_struct_type(inner.as_str()) {
            GetterRet::GetOptStruct { target: extract_struct_name(inner.as_str()) }
        } else {
            GetterRet::GetOptNum
        }
    } else if is_struct_type(ty) {
        GetterRet::GetStructPtr { target: extract_struct_name(ty) }
    } else {
        GetterRet::GetNum
    }
}

/// The setter conversion a field type calls for.
pub open spec fn spec_field_setter(ty: Seq<char>) -> SetterFragModel {
    if spec_is_number_type(ty) {
        SetterFragModel::SetNum { cast: spec_get_number_cast(ty) }
    } else if spec_is_string_type(ty) {
        SetterFragModel::SetText
    } else if ty == "bool"@ {
        SetterFragModel::SetBool
    } else if spec_is_vec_type(ty) {
        let inner = inner_or_empty(spec_extract_vec_inner(ty));
        if spec_is_number_type(inner) {
            SetterFragModel::SetVecNum { cast: spec_get_number_cast(inner) }
        } else if spec_is_string_type(inner) {
            SetterFragModel::SetVecText
        } else if spec_is_struct_type(inner) {
            SetterFragModel::SetVecStruct { target: spec_extract_struct_name(inner) }
        } else {
            SetterFragModel::SetVecNum { cast: spec_get_number_cast(inner) }
        }
    } else if spec_is_option_type(ty) {
        let inner = inner_or_empty(spec_extract_option_inner(ty));
        if spec_is_number_type(inner) {
            SetterFragModel::SetOptNum { cast: spec_get_number_cast(inner) }
        } else if spec_is_string_type(inner) {
            SetterFragModel::SetOptText
        } else if spec_is_struct_type(inner) {
            SetterFragModel::SetOptStruct { target: spec_extract_struct_name(inner) }
        } else {
            SetterFragModel::SetOptNum { cast: spec_get_number_cast(inner) }
        }
    } else if spec_is_struct_type(ty) {
        SetterFragModel::SetStruct { target: spec_extract_struct_name(ty) }
    } else {
        SetterFragModel::SetNumInferred
    }
}

/// Synthesizes the setter conversion for a field's type.
pub fn generate_field_setter(ty: &str) -> (r: SetterFrag)
    ensures
        r@ == spec_field_setter(ty@),
{
    if is_number_type(ty) {
        SetterFrag::SetNum { cast: get_number_cast(ty) }
    } else if is_string_type(ty) {
        SetterFrag::SetText
    } else if str_eq(ty, "bool") {
        SetterFrag::SetBool
    } else if is_vec_type(ty) {
        let inner = match extract_vec_inner(ty) {
            Some(i) => i,
            None => String::new(),
        };
        if is_number_type(inner.as_str()) {
            SetterFrag::SetVecNum { cast: get_number_cast(inner.as_str()) }
        } else if is_string_type(inner.as_str()) {
            SetterFrag::SetVecText
        } else if is_struct_type(inner.as_str()) {
            SetterFrag::SetVecStruct { target: extract_struct_name(inner.as_str()) }
        } else {
            SetterFrag::SetVecNum { cast: get_number_cast(inner.as_str()) }
        }
    } else if is_option_type(ty) {
        let inner = match extract_option_inner(ty) {
            Some(i) => i,
            None => String::new(),
        };
        if is_number_type(inner.as_str()) {
            SetterFrag::SetOptNum { cast: get_number_cast(inner.as_str()) }
        } else if is_string_type(inner.as_str()) {
            SetterFrag::SetOptText
        } else if is_struct_type(inner.as_str()) {
            SetterFrag::SetOptStruct { target: extract_struct_name(inner.as_str()) }
        } else {
            SetterFrag::SetOptNum { cast: get_number_cast(inner.as_str()) }
        }
    } else if is_struct_type(ty) {
        SetterFrag::SetStruct { target: extract_struct_name(ty) }
    } else {
        SetterFrag::SetNumInferred
    }
}

/// One registration entry: the exported name and the wrapper it names.
#[derive(Debug, Clone, PartialEq, Eq)]
pub struct Registration {
    pub exported: String,
    pub wrapper: String,
}

/// The mathematical form of a registration entry.
pub struct RegistrationModel {
    pub exported: Seq<char>,
    pub wrapper: Seq<char>,
}

impl View for Registration {
    type V = RegistrationModel;

    open spec fn view(&self) -> RegistrationModel {
        RegistrationModel { exported: self.exported@, wrapper: self.wrapper@ }
    }
}

/// The models of a registration table, in order.
pub open spec fn registration_models(regs: Seq<Registration>) -> Seq<RegistrationModel> {
    Seq::new(regs.len(), |i: int| regs[i]@)
}

/// What one generated wrapper does.
#[derive(Debug, Clone, PartialEq, Eq)]
pub enum WrapperBody {
    /// Build the struct's default value on the heap and return its tagged
    /// address; takes no arguments.
    DefaultNew { struct_name: String },
    /// Reclaim the heap allocation behind a tagged pointer; a null pointer
    /// is silently ignored.
    DeleteWrapper { struct_name: String },
    /// Read a field of the pointed-to struct.
    GetterWrapper { struct_name: String, field: String, get: GetterRet },
    /// Write a field of the pointed-to struct.
    SetterWrapper { struct_name: String, field: String, set: SetterFrag },
    /// Call the user's constructor and return the tagged address of a fresh
    /// heap allocation holding the result.
    CustomNew { struct_name: String, params: Vec<ParamBinding> },
    /// Call a method on the pointed-to struct; the implicit receiver is the
    /// first argument, the bound parameters follow.
    MethodWrapper { struct_name: String, method: String, params: Vec<ParamBinding>, ret: RetFrag },
    /// Call an associated function of the struct.
    StaticMethodWrapper {
        struct_name: String,
        method: String,
        params: Vec<ParamBinding>,
        ret: RetFrag,
    },
    /// Call a free function.
    FreeFnWrapper { func: String, params: Vec<ParamBinding>, ret: RetFrag },
}

/// The mathematical form of a wrapper body.
pub enum WrapperBodyModel {
    DefaultNew { struct_name: Seq<char> },
    DeleteWrapper { struct_name: Seq<char> },
    GetterWrapper { struct_name: Seq<char>, field: Seq<char>, get: GetterRetModel },
    SetterWrapper { struct_name: Seq<char>, field: Seq<char>, set: SetterFragModel },
    CustomNew { struct_name: Seq<char>, params: Seq<ParamBindingModel> },
    MethodWrapper {
        struct_name: Seq<char>,
        method: Seq<char>,
        params: Seq<ParamBindingModel>,
        ret: RetFragModel,
    },
    StaticMethodWrapper {
        struct_name: Seq<char>,
        method: Seq<char>,
        params: Seq<ParamBindingModel>,
        ret: RetFragModel,
    },
    FreeFnWrapper { func: Seq<char>, params: Seq<ParamBindingModel>, ret: RetFragModel },
}

impl View for WrapperBody {
    type V = WrapperBodyModel;

    open spec fn view(&self) -> WrapperBodyModel {
        match self {
            WrapperBody::DefaultNew { struct_name } => WrapperBodyModel::DefaultNew {
                struct_name: struct_name@,
            },
            WrapperBody::DeleteWrapper { struct_name } => WrapperBodyModel::DeleteWrapper {
                struct_name: struct_name@,
            },
            WrapperBody::GetterWrapper { struct_name, field, get } =>
                WrapperBodyModel::GetterWrapper {
                struct_name: struct_name@,
                field: field@,
                get: get@,
            },
            WrapperBody::SetterWrapper { struct_name, field, set } =>
                WrapperBodyModel::SetterWrapper {
                struct_name: struct_name@,
                field: field@,
                set: set@,
            },
            WrapperBody::CustomNew { struct_name, params } => WrapperBodyModel::CustomNew {
                struct_name: struct_name@,
                params: param_models(params@),
            },
            WrapperBody::MethodWrapper { struct_name, method, params, ret } =>
                WrapperBodyModel::MethodWrapper {
                struct_name: struct_name@,
                method: method@,
                params: param_models(params@),
                ret: ret@,
            },
            WrapperBody::StaticMethodWrapper { struct_name, method, params, ret } =>
                WrapperBodyModel::StaticMethodWrapper {
                struct_name: struct_name@,
                method: method@,
                params: param_models(params@),
                ret: ret@,
            },
            WrapperBody::FreeFnWrapper { func, params, ret } => WrapperBodyModel::FreeFnWrapper {
                func: func@,
                params: param_models(params@),
                ret: ret@,
            },
        }
    }
}

/// One generated wrapper: its function name and what it does.
#[derive(Debug, Clone, PartialEq, Eq)]
pub struct Wrapper {
    pub name: String,
    pub body: WrapperBody,
}

/// The mathematical form of a wrapper.
pub struct WrapperModel {
    pub name: Seq<char>,
    pub body: WrapperBodyModel,
}

impl View for Wrapper {
    type V = WrapperModel;

    open spec fn view(&self) -> WrapperModel {
        WrapperModel { name: self.name@, body: self.body@ }
    }
}

/// The models of a wrapper list, in order.
pub open spec fn wrapper_models(ws: Seq<Wrapper>) -> Seq<WrapperModel> {
    Seq::new(ws.len(), |i: int| ws[i]@)
}

/// The wrapper and registration of a user-written constructor: parameters
/// bound from position one, the result moved to the heap and returned under
/// the struct's tag.
pub open spec fn spec_custom_new(
    sname: Seq<char>,
    m: MethodDeclModel,
    prefix: Seq<char>,
) -> (WrapperModel, RegistrationModel) {
    let lower = lower_chars(sname);
    let name = "ring_"@ + prefix + lower + "_new"@;
    (
        WrapperModel {
            name: name,
            body: WrapperBodyModel::CustomNew {
                struct_name: sname,
                params: spec_bind_params(m.params, 1),
            },
        },
        RegistrationModel { exported: prefix + lower + "_new"@, wrapper: name },
    )
}

/// Generates the constructor wrapper for a user-written `new` method.
pub fn generate_custom_new(struct_name: &str, method: &MethodDecl, prefix: &str) -> (r: (
    Wrapper,
    Registration,
))
    requires
        method@.params.len() + 1 <= max_params(),
    ensures
        r.0@ == spec_custom_new(struct_name@, method@, prefix@).0,
        r.1@ == spec_custom_new(struct_name@, method@, prefix@).1,
{
    let lower = ascii_lower(struct_name);
    let name = join4("ring_", prefix, lower.as_str(), "_new");
    let exported = join3(prefix, lower.as_str(), "_new");
    let params = bind_params(&method.params, 1);
    (
        Wrapper {
            name: name.clone(),
            body: WrapperBody::CustomNew { struct_name: struct_name.to_owned(), params },
        },
        Registration { exported, wrapper: name },
    )
}

/// The wrapper and registration of a receiver-taking method: the implicit
/// receiver is argument one, the declared parameters follow from position
/// two, and a bare `Self` return uses the owning struct's tag.
pub open spec fn spec_method(
    sname: Seq<char>,
    m: MethodDeclModel,
    prefix: Seq<char>,
) -> (WrapperModel, RegistrationModel) {
    let lower = lower_chars(sname);
    let name = "ring_"@ + prefix + lower + "_"@ + m.name;
    (
        WrapperModel {
            name: name,
            body: WrapperBodyModel::MethodWrapper {
                struct_name: sname,
                method: m.name,
                params: spec_bind_params(m.params, 2),
                ret: spec_return_code(m.output, Some(sname)),
            },
        },
        RegistrationModel { exported: prefix + lower + "_"@ + m.name, wrapper: name },
    )
}

/// Generates the wrapper for a method that takes a receiver.
pub fn generate_method(struct_name: &str, method: &MethodDecl, prefix: &str) -> (r: (
    Wrapper,
    Registration,
))
    requires
        method@.params.len() + 2 <= max_params(),
    ensures
        r.0@ == spec_method(struct_name@, method@, prefix@).0,
        r.1@ == spec_method(struct_name@, method@, prefix@).1,
{
    let lower = ascii_lower(struct_name);
    let name = join5("ring_", prefix, lower.as_str(), "_", method.name.as_str());
    let exported = join4(prefix, lower.as_str(), "_", method.name.as_str());
    let params = bind_params(&method.params, 2);
    let ret = generate_return_code_with_context(
        match method.output {
            Some(ref ty) => Some(ty.as_str()),
            None => None,
        },
        Some(struct_name),
    );
    (
        Wrapper {
            name: name.clone(),
            body: WrapperBody::MethodWrapper {
                struct_name: struct_name.to_owned(),
                method: method.name.clone(),
                params,
                ret,
            },
        },
        Registration { exported, wrapper: name },
    )
}

/// The wrapper and registration of an associated function without a
/// receiver: parameters bound from position one.
pub open spec fn spec_static_method(
    sname: Seq<char>,
    m: MethodDeclModel,
    prefix: Seq<char>,
) -> (WrapperModel, RegistrationModel) {
    let lower = lower_chars(sname);
    let name = "ring_"@ + prefix + lower + "_"@ + m.name;
    (
        WrapperModel {
            name: name,
            body: WrapperBodyModel::StaticMethodWrapper {
                struct_name: sname,
                method: m.name,
                params: spec_bind_params(m.params, 1),
                ret: spec_return_code(m.output, Some(sname)),
            },
        },
        RegistrationModel { exported: prefix + lower + "_"@ + m.name, wrapper: name },
    )
}

/// Generates the wrapper for a method without a receiver.
pub fn generate_static_method(struct_name: &str, method: &MethodDecl, prefix: &str) -> (r: (
    Wrapper,
    Registration,
))
    requires
        method@.params.len() + 1 <= max_params(),
    ensures
        r.0@ == spec_static_method(struct_name@, method@, prefix@).0,
        r.1@ == spec_static_method(struct_name@, method@, prefix@).1,
{
    let lower = ascii_lower(struct_name);
    let name = join5("ring_", prefix, lower.as_str(), "_", method.name.as_str());
    let exported = join4(prefix, lower.as_str(), "_", method.name.as_str());
    let params = bind_params(&method.params, 1);
    let ret = generate_return_code_with_context(
        match method.output {
            Some(ref ty) => Some(ty.as_str()),
            None => None,
        },
        Some(struct_name),
    );
    (
        Wrapper {
            name: name.clone(),
            body: WrapperBody::StaticMethodWrapper {
                struct_name: struct_name.to_owned(),
                method: method.name.clone(),
                params,
                ret,
            },
        },
        Registration { exported, wrapper: name },
    )
}

/// The wrapper and registration of a free function: parameters bound from
/// position one, the return synthesized without an owning struct.
pub open spec fn spec_process_function(
    f: crate::decl::FnDeclModel,
    prefix: Seq<char>,
) -> (WrapperModel, RegistrationModel) {
    let name = "ring_"@ + prefix + f.name;
    (
        WrapperModel {
            name: name,
            body: WrapperBodyModel::FreeFnWrapper {
                func: f.name,
                params: spec_bind_params(f.params, 1),
                ret: spec_return_code(f.output, None),
            },
        },
        RegistrationModel { exported: prefix + f.name, wrapper: name },
    )
}

/// Generates the wrapper for a free function declaration.
pub fn process_function(f: &FnDecl, prefix: &str) -> (r: (Wrapper, Registration))
    requires
        f@.params.len() + 1 <= max_params(),
    ensures
        r.0@ == spec_process_function(f@, prefix@).0,
        r.1@ == spec_process_function(f@, prefix@).1,
{
    let name = join3("ring_", prefix, f.name.as_str());
    let exported = join2(prefix, f.name.as_str());
    let params = bind_params(&f.params, 1);
    let ret = generate_return_code_with_context(
        match f.output {
            Some(ref ty) => Some(ty.as_str()),
            None => None,
        },
        None,
    );
    (
        Wrapper {
            name: name.clone(),
            body: WrapperBody::FreeFnWrapper { func: f.name.clone(), params, ret },
        },
        Registration { exported, wrapper: name },
    )
}

/// The accessor wrappers and registrations one field contributes: nothing
/// for a private field; a getter unless a user method shadows it by the
/// field's own name or by its `get_` name; a setter unless one shadows its
/// `set_` name.
pub open spec fn spec_field_accessors(
    sname: Seq<char>,
    prefix: Seq<char>,
    f: FieldDeclModel,
    idx: Seq<MethodKeyModel>,
) -> (Seq<WrapperModel>, Seq<RegistrationModel>) {
    if !f.public {
        (Seq::empty(), Seq::empty())
    } else {
        let lower = lower_chars(sname);
        let getter_emitted = !index_contains(idx, sname, "get_"@ + f.name) && !index_contains(
            idx,
            sname,
            f.name,
        );
        let setter_emitted = !index_contains(idx, sname, "set_"@ + f.name);
        let gname = "ring_"@ + prefix + lower + "_get_"@ + f.name;
        let gw = WrapperModel {
            name: gname,
            body: WrapperBodyModel::GetterWrapper {
                struct_name: sname,
                field: f.name,
                get: spec_field_getter(f.ty),
            },
        };
        let gr = RegistrationModel { exported: prefix + lower + "_get_"@ + f.name, wrapper: gname };
        let s_name = "ring_"@ + prefix + lower + "_set_"@ + f.name;
        let sw = WrapperModel {
            name: s_name,
            body: WrapperBodyModel::SetterWrapper {
                struct_name: sname,
                field: f.name,
                set: spec_field_setter(f.ty),
            },
        };
        let sr = RegistrationModel {
            exported: prefix + lower + "_set_"@ + f.name,
            wrapper: s_name,
        };
        let g: (Seq<WrapperModel>, Seq<RegistrationModel>) = if getter_emitted {
            (seq![gw], seq![gr])
        } else {
            (Seq::empty(), Seq::empty())
        };
        let st: (Seq<WrapperModel>, Seq<RegistrationModel>) = if setter_emitted {
            (seq![sw], seq![sr])
        } else {
            (Seq::empty(), Seq::empty())
        };
        (g.0 + st.0, g.1 + st.1)
    }
}

/// The accessor wrappers and registrations of a field list, in field order.
pub open spec fn spec_struct_accessors(
    sname: Seq<char>,
    prefix: Seq<char>,
    fields: Seq<FieldDeclModel>,
    idx: Seq<MethodKeyModel>,
) -> (Seq<WrapperModel>, Seq<RegistrationModel>)
    decreases fields.len(),
{
    if fields.len() == 0 {
        (Seq::empty(), Seq::empty())
    } else {
        let head = spec_field_accessors(sname, prefix, fields[0], idx);
        let rest = spec_struct_accessors(sname, prefix, fields.drop_first(), idx);
        (head.0 + rest.0, head.1 + rest.1)
    }
}

/// The wrappers and registrations of a struct declaration: its delete
/// wrapper first, a default-constructor wrapper unless a user-written `new`
/// exists, then the accessors of its public fields in order.
pub open spec fn spec_process_struct(
    s: crate::decl::StructDeclModel,
    prefix: Seq<char>,
    has_custom_new: bool,
    idx: Seq<MethodKeyModel>,
) -> (Seq<WrapperModel>, Seq<RegistrationModel>) {
    let lower = lower_chars(s.name);
    let dname = "ring_"@ + prefix + lower + "_delete"@;
    let dw = WrapperModel { name: dname, body: WrapperBodyModel::DeleteWrapper {
        struct_name: s.name,
    } };
    let dr = RegistrationModel { exported: prefix + lower + "_delete"@, wrapper: dname };
    let nname = "ring_"@ + prefix + lower + "_new"@;
    let nw = WrapperModel { name: nname, body: WrapperBodyModel::DefaultNew {
        struct_name: s.name,
    } };
    let nr = RegistrationModel { exported: prefix + lower + "_new"@, wrapper: nname };
    let acc = spec_struct_accessors(s.name, prefix, s.fields, idx);
    if has_custom_new {
        (seq![dw] + acc.0, seq![dr] + acc.1)
    } else {
        (seq![dw, nw] + acc.0, seq![dr, nr] + acc.1)
    }
}

/// Processes a struct declaration into its wrappers and registrations,
/// consulting the method-presence index for suppression.
pub fn process_struct(s: &StructDecl, prefix: &str, has_custom_new: bool, index: &MethodIndex) -> (r:
    (Vec<Wrapper>, Vec<Registration>))
    ensures
        wrapper_models(r.0@) == spec_process_struct(s@, prefix@, has_custom_new, index@).0,
        registration_models(r.1@) == spec_process_struct(s@, prefix@, has_custom_new, index@).1,
{
    let ghost total = spec_process_struct(s@, prefix@, has_custom_new, index@);
    let lower = ascii_lower(s.name.as_str());
    let mut out_w: Vec<Wrapper> = Vec::new();
    let mut out_r: Vec<Registration> = Vec::new();

    let dname = join4("ring_", prefix, lower.as_str(), "_delete");
    out_w.push(
        Wrapper { name: dname.clone(), body: WrapperBody::DeleteWrapper {
            struct_name: s.name.clone(),
        } },
    );
    out_r.push(
        Registration { exported: join3(prefix, lower.as_str(), "_delete"), wrapper: dname },
    );
    if !has_custom_new {
        let nname = join4("ring_", prefix, lower.as_str(), "_new");
        out_w.push(
            Wrapper { name: nname.clone(), body: WrapperBody::DefaultNew {
                struct_name: s.name.clone(),
            } },
        );
        out_r.push(
            Registration { exported: join3(prefix, lower.as_str(), "_new"), wrapper: nname },
        );
    }
    let n = s.fields.len();
    proof {
        let ghost acc = spec_struct_accessors(s@.name, prefix@, s@.fields, index@);
        assert(s@.fields.subrange(0, n as int) =~= s@.fields);
        assert(wrapper_models(out_w@) + acc.0 =~= total.0);
        assert(registration_models(out_r@) + acc.1 =~= total.1);
    }
    let mut i: usize = 0;
    while i < n
        invariant
            0 <= i <= n,
            n == s@.fields.len(),
            s@ == s.view(),
            lower@ == lower_chars(s@.name),
            total == spec_process_struct(s@, prefix@, has_custom_new, index@),
            wrapper_models(out_w@) + spec_struct_accessors(
                s@.name,
                prefix@,
                s@.fields.subrange(i as int, n as int),
                index@,
            ).0 =~= total.0,
            registration_models(out_r@) + spec_struct_accessors(
                s@.name,
                prefix@,
                s@.fields.subrange(i as int, n as int),
                index@,
            ).1 =~= total.1,
        decreases n - i,
    {
        let ghost fsuffix = s@.fields.subrange(i as int, n as int);
        proof {
            assert(fsuffix[0] == s@.fields[i as int]);
            assert(fsuffix.drop_first() =~= s@.fields.subrange(i + 1, n as int));
            assert(spec_struct_accessors(s@.name, prefix@, fsuffix, index@)
                == (spec_field_accessors(sname_of(s@), prefix@, fsuffix[0], index@).0
                    + spec_struct_accessors(s@.name, prefix@, fsuffix.drop_first(), index@).0,
                spec_field_accessors(sname_of(s@), prefix@, fsuffix[0], index@).1
                    + spec_struct_accessors(s@.name, prefix@, fsuffix.drop_first(), index@).1));
        }
        let f = &s.fields[i];
        proof {
            assert(f@ == s@.fields[i as int]);
        }
        if f.public {
            let getter_method = join2("get_", f.name.as_str());
            let setter_method = join2("set_", f.name.as_str());
            if !index.contains_method(s.name.as_str(), getter_method.as_str())
                && !index.contains_method(s.name.as_str(), f.name.as_str()) {
                let gname = join5("ring_", prefix, lower.as_str(), "_get_", f.name.as_str());
                let get = generate_field_getter(f.ty.as_str());
                let ghost prev_w = wrapper_models(out_w@);
                let ghost prev_r = registration_models(out_r@);
                out_w.push(
                    Wrapper {
                        name: gname.clone(),
                        body: WrapperBody::GetterWrapper {
                            struct_name: s.name.clone(),
                            field: f.name.clone(),
                            get,
                        },
                    },
                );
                out_r.push(
                    Registration {
                        exported: join4(prefix, lower.as_str(), "_get_", f.name.as_str()),
                        wrapper: gname,
                    },
                );
                proof {
                    assert(wrapper_models(out_w@) =~= prev_w.push(out_w@.last()@));
                    assert(registration_models(out_r@) =~= prev_r.push(out_r@.last()@));
                }
            }
            if !index.contains_method(s.name.as_str(), setter_method.as_str()) {
                let sname = join5("ring_", prefix, lower.as_str(), "_set_", f.name.as_str());
                let set = generate_field_setter(f.ty.as_str());
                let ghost prev_w = wrapper_models(out_w@);
                let ghost prev_r = registration_models(out_r@);
                out_w.push(
                    Wrapper {
                        name: sname.clone(),
                        body: WrapperBody::SetterWrapper {
                            struct_name: s.name.clone(),
                            field: f.name.clone(),
                            set,
                        },
                    },
                );
                out_r.push(
                    Registration {
                        exported: join4(prefix, lower.as_str(), "_set_", f.name.as_str()),
                        wrapper: sname,
                    },
                );
                proof {
                    assert(wrapper_models(out_w@) =~= prev_w.push(out_w@.last()@));
                    assert(registration_models(out_r@) =~= prev_r.push(out_r@.last()@));
                }
            }
        }
        i = i + 1;
    }
    proof {
        assert(spec_struct_accessors(
            s@.name,
            prefix@,
            s@.fields.subrange(n as int, n as int),
            index@,
        ).0 =~= Seq::<WrapperModel>::empty());
        assert(spec_struct_accessors(
            s@.name,
            prefix@,
            s@.fields.subrange(n as int, n as int),
            index@,
        ).1 =~= Seq::<RegistrationModel>::empty());
        assert(wrapper_models(out_w@) =~= total.0);
        assert(registration_models(out_r@) =~= total.1);
    }
    (out_w, out_r)
}

/// The struct name of a struct declaration model.
pub open spec fn sname_of(s: crate::decl::StructDeclModel) -> Seq<char> {
    s.name
}

/// Whether a wrapper is the generated getter of the named struct's field.
pub open spec fn is_getter_for(w: WrapperModel, sname: Seq<char>, fname: Seq<char>) -> bool {
    match w.body {
        WrapperBodyModel::GetterWrapper { struct_name, field, get: _ } => struct_name == sname
            && field == fname,
        _ => false,
    }
}

proof fn lemma_accessors_suppress_getter(
    sname: Seq<char>,
    prefix: Seq<char>,
    fields: Seq<FieldDeclModel>,
    idx: Seq<MethodKeyModel>,
    fname: Seq<char>,
)
    requires
        index_contains(idx, sname, "get_"@ + fname) || index_contains(idx, sname, fname),
    ensures
        forall|j: int|
            0 <= j < spec_struct_accessors(sname, prefix, fields, idx).0.len()
                ==> !is_getter_for(
                #[trigger] spec_struct_accessors(sname, prefix, fields, idx).0[j],
                sname,
                fname,
            ),
    decreases fields.len(),
{
    if fields.len() > 0 {
        lemma_accessors_suppress_getter(sname, prefix, fields.drop_first(), idx, fname);
        let head = spec_field_accessors(sname, prefix, fields[0], idx).0;
        let rest = spec_struct_accessors(sname, prefix, fields.drop_first(), idx).0;
        let out = spec_struct_accessors(sname, prefix, fields, idx).0;
        assert(out == head + rest);
        assert forall|j: int| 0 <= j < head.len() implies !is_getter_for(
            head[j],
            sname,
            fname,
        ) by {
            let f = fields[0];
            if f.public {
                if f.name == fname {
                    // the suppression condition is the field's name alone, so
                    // this field's getter is suppressed too
                    assert(!(!index_contains(idx, sname, "get_"@ + f.name) && !index_contains(
                        idx,
                        sname,
                        f.name,
                    )));
                } else {
                    // a getter of another field names that field
                }
            }
        }
        assert forall|j: int| 0 <= j < out.len() implies !is_getter_for(
            out[j],
            sname,
            fname,
        ) by {
            if j < head.len() {
                assert(out[j] == head[j]);
            } else {
                assert(out[j] == rest[j - head.len()]);
            }
        }
    }
}

/// Method suppression: a user-written method bearing a public field's own
/// name or its `get_` name suppresses the field's generated getter — no
/// getter wrapper for that field appears in the struct's output, so its
/// name is never registered.
pub proof fn lemma_method_suppression(
    s: crate::decl::StructDeclModel,
    prefix: Seq<char>,
    has_custom_new: bool,
    idx: Seq<MethodKeyModel>,
    fname: Seq<char>,
)
    requires
        index_contains(idx, s.name, "get_"@ + fname) || index_contains(idx, s.name, fname),
    ensures
        forall|j: int|
            0 <= j < spec_process_struct(s, prefix, has_custom_new, idx).0.len()
                ==> !is_getter_for(
                #[trigger] spec_process_struct(s, prefix, has_custom_new, idx).0[j],
                s.name,
                fname,
            ),
{
    lemma_accessors_suppress_getter(s.name, prefix, s.fields, idx, fname);
    let out = spec_process_struct(s, prefix, has_custom_new, idx).0;
    let acc = spec_struct_accessors(s.name, prefix, s.fields, idx).0;
    assert forall|j: int| 0 <= j < out.len() implies !is_getter_for(out[j], s.name, fname) by {
        if has_custom_new {
            if j >= 1 {
                assert(out[j] == acc[j - 1]);
            }
        } else {
            if j >= 2 {
                assert(out[j] == acc[j - 2]);
            }
        }
    }
}

/// The wrappers and registrations an implementation block's methods
/// contribute, in declaration order: nothing for a private method, a
/// constructor wrapper for `new`, a method wrapper for a receiver-taking
/// method, and a static wrapper otherwise.
pub open spec fn spec_impl_items(
    sname: Seq<char>,
    methods: Seq<MethodDeclModel>,
    prefix: Seq<char>,
) -> (Seq<WrapperModel>, Seq<RegistrationModel>)
    decreases methods.len(),
{
    if methods.len() == 0 {
        (Seq::empty(), Seq::empty())
    } else {
        let m = methods[0];
        let head: (Seq<WrapperModel>, Seq<RegistrationModel>) = if !m.public {
            (Seq::empty(), Seq::empty())
        } else if m.name == "new"@ {
            (seq![spec_custom_new(sname, m, prefix).0], seq![spec_custom_new(sname, m, prefix).1])
        } else if m.has_receiver {
            (seq![spec_method(sname, m, prefix).0], seq![spec_method(sname, m, prefix).1])
        } else {
            (
                seq![spec_static_method(sname, m, prefix).0],
                seq![spec_static_method(sname, m, prefix).1],
            )
        };
        let rest = spec_impl_items(sname, methods.drop_first(), prefix);
        (head.0 + rest.0, head.1 + rest.1)
    }
}

/// Processes an implementation block into its wrappers and registrations.
pub fn process_impl(i: &ImplDecl, prefix: &str) -> (r: (Vec<Wrapper>, Vec<Registration>))
    requires
        forall|k: int|
            0 <= k < i@.methods.len() ==> #[trigger] i@.methods[k].params.len() + 2 <= max_params(),
    ensures
        wrapper_models(r.0@) == spec_impl_items(i@.struct_name, i@.methods, prefix@).0,
        registration_models(r.1@) == spec_impl_items(i@.struct_name, i@.methods, prefix@).1,
{
    let ghost total = spec_impl_items(i@.struct_name, i@.methods, prefix@);
    let mut out_w: Vec<Wrapper> = Vec::new();
    let mut out_r: Vec<Registration> = Vec::new();
    proof {
        assert(i@.methods.subrange(0, i@.methods.len() as int) =~= i@.methods);
        assert(wrapper_models(out_w@) =~= Seq::<WrapperModel>::empty());
        assert(registration_models(out_r@) =~= Seq::<RegistrationModel>::empty());
    }
    let n = i.methods.len();
    let mut k: usize = 0;
    while k < n
        invariant
            0 <= k <= n,
            n == i@.methods.len(),
            i@ == i.view(),
            forall|j: int|
                0 <= j < i@.methods.len() ==> #[trigger] i@.methods[j].params.len() + 2
                    <= max_params(),
            total == spec_impl_items(i@.struct_name, i@.methods, prefix@),
            wrapper_models(out_w@) + spec_impl_items(
                i@.struct_name,
                i@.methods.subrange(k as int, n as int),
                prefix@,
            ).0 =~= total.0,
            registration_models(out_r@) + spec_impl_items(
                i@.struct_name,
                i@.methods.subrange(k as int, n as int),
                prefix@,
            ).1 =~= total.1,
        decreases n - k,
    {
        let ghost msuffix = i@.methods.subrange(k as int, n as int);
        proof {
            assert(msuffix[0] == i@.methods[k as int]);
            assert(msuffix.drop_first() =~= i@.methods.subrange(k + 1, n as int));
        }
        let m = &i.methods[k];
        proof {
            assert(m@ == i@.methods[k as int]);
        }
        if m.public {
            let (w, reg) = if str_eq(m.name.as_str(), "new") {
                generate_custom_new(i.struct_name.as_str(), m, prefix)
            } else if m.has_receiver {
                generate_method(i.struct_name.as_str(), m, prefix)
            } else {
                generate_static_method(i.struct_name.as_str(), m, prefix)
            };
            let ghost prev_w = wrapper_models(out_w@);
            let ghost prev_r = registration_models(out_r@);
            out_w.push(w);
            out_r.push(reg);
            proof {
                assert(wrapper_models(out_w@) =~= prev_w.push(out_w@.last()@));
                assert(registration_models(out_r@) =~= prev_r.push(out_r@.last()@));
            }
        }
        k = k + 1;
    }
    proof {
        assert(spec_impl_items(
            i@.struct_name,
            i@.methods.subrange(n as int, n as int),
            prefix@,
        ).0 =~= Seq::<WrapperModel>::empty());
        assert(spec_impl_items(
            i@.struct_name,
            i@.methods.subrange(n as int, n as int),
            prefix@,
        ).1 =~= Seq::<RegistrationModel>::empty());
        assert(wrapper_models(out_w@) =~= total.0);
        assert(registration_models(out_r@) =~= total.1);
    }
    (out_w, out_r)
}

} // verus!
