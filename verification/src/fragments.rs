//! The structured code fragments a wrapper is assembled from.
//!
//! A generated wrapper is described by data, not by raw text: which runtime
//! kind is checked for each argument position, how the argument is extracted
//! and converted, how it is passed to the wrapped call, and how the call's
//! result is converted into the runtime's value-return protocol. A renderer
//! outside the library turns these descriptions into source text.

use vstd::prelude::*;

verus! {

/// The runtime-kind check emitted for one argument position, before any
/// extraction runs.
#[derive(Debug, Clone, Copy, PartialEq, Eq)]
pub enum CheckKind {
    /// No mandatory check: absence or a mismatched kind is legal.
    NoCheck,
    /// The argument must be a number.
    NumberCheck,
    /// The argument must be a string.
    StringCheck,
    /// The argument must be a tagged opaque pointer.
    CPointerCheck,
    /// The argument must be a list.
    ListCheck,
}

/// How the extracted value is handed to the wrapped call.
#[derive(Debug, Clone, Copy, PartialEq, Eq)]
pub enum ArgKind {
    /// The bound name itself.
    ByName,
    /// The extracted address, reinterpreted as a mutable borrow.
    DerefMut,
    /// The extracted address, reinterpreted as a shared borrow.
    DerefConst,
    /// A borrow of the materialized sequence.
    BorrowSlice,
}

/// The extraction statement for one argument position.
#[derive(Debug, Clone, PartialEq, Eq)]
pub enum GetKind {
    /// Read a number and cast it to the named numeric type.
    NumberGet { cast: String },
    /// Borrow the argument as a string view.
    TextGet,
    /// Read a number and test it against zero.
    BoolGet,
    /// Read a tagged pointer to the named struct, leaving it an address.
    PtrGet { target: String },
    /// Read a tagged pointer to the named struct and duplicate the pointee.
    CloneGet { target: String },
    /// Read a list, keeping the number elements, cast to the named type.
    VecNumberGet { cast: String },
    /// Read a list, keeping the string elements.
    VecTextGet,
    /// Read a list, keeping pointers to the named struct, duplicating each.
    VecStructGet { target: String },
    /// Optional number: a number means present; an empty string or any
    /// other kind means absent.
    OptNumberGet { cast: String },
    /// Optional text: an empty string or any non-string kind means absent.
    OptTextGet,
    /// Optional struct pointer: an empty string, a null address or any
    /// other kind means absent.
    OptStructGet { target: String },
    /// Slice of numbers: as a list of numbers, materialized then borrowed.
    SliceNumberGet { cast: String },
    /// Slice of text: as a list of strings, materialized then borrowed.
    SliceTextGet,
    /// Slice of structs: as a list of tagged pointers, each duplicated.
    SliceStructGet { target: String },
    /// Slice fallback: the elements are read as plain numbers.
    SliceDoubleGet,
    /// Fallback: read a number and let the call site infer the cast.
    InferredNumberGet,
}

/// The mathematical form of an extraction statement.
pub enum GetKindModel {
    NumberGet { cast: Seq<char> },
    TextGet,
    BoolGet,
    PtrGet { target: Seq<char> },
    CloneGet { target: Seq<char> },
    VecNumberGet { cast: Seq<char> },
    VecTextGet,
    VecStructGet { target: Seq<char> },
    OptNumberGet { cast: Seq<char> },
    OptTextGet,
    OptStructGet { target: Seq<char> },
    SliceNumberGet { cast: Seq<char> },
    SliceTextGet,
    SliceStructGet { target: Seq<char> },
    SliceDoubleGet,
    InferredNumberGet,
}

impl View for GetKind {
    type V = GetKindModel;

    open spec fn view(&self) -> GetKindModel {
        match self {
            GetKind::NumberGet { cast } => GetKindModel::NumberGet { cast: cast@ },
            GetKind::TextGet => GetKindModel::TextGet,
            GetKind::BoolGet => GetKindModel::BoolGet,
            GetKind::PtrGet { target } => GetKindModel::PtrGet { target: target@ },
            GetKind::CloneGet { target } => GetKindModel::CloneGet { target: target@ },
            GetKind::VecNumberGet { cast } => GetKindModel::VecNumberGet { cast: cast@ },
            GetKind::VecTextGet => GetKindModel::VecTextGet,
            GetKind::VecStructGet { target } => GetKindModel::VecStructGet { target: target@ },
            GetKind::OptNumberGet { cast } => GetKindModel::OptNumberGet { cast: cast@ },
            GetKind::OptTextGet => GetKindModel::OptTextGet,
            GetKind::OptStructGet { target } => GetKindModel::OptStructGet { target: target@ },
            GetKind::SliceNumberGet { cast } => GetKindModel::SliceNumberGet { cast: cast@ },
            GetKind::SliceTextGet => GetKindModel::SliceTextGet,
            GetKind::SliceStructGet { target } => GetKindModel::SliceStructGet {
                target: target@,
            },
            GetKind::SliceDoubleGet => GetKindModel::SliceDoubleGet,
            GetKind::InferredNumberGet => GetKindModel::InferredNumberGet,
        }
    }
}

/// The three fragments bound for one formal parameter: its check, its
/// extraction, and its argument expression.
#[derive(Debug, Clone, PartialEq, Eq)]
pub struct ParamBinding {
    /// The formal parameter's name.
    pub name: String,
    /// The 1-based argument position the fragments read.
    pub pos: usize,
    /// The kind check run before extraction.
    pub check: CheckKind,
    /// The extraction statement.
    pub get: GetKind,
    /// The argument expression.
    pub arg: ArgKind,
}

/// The mathematical form of a parameter binding.
pub struct ParamBindingModel {
    pub name: Seq<char>,
    pub pos: int,
    pub check: CheckKind,
    pub get: GetKindModel,
    pub arg: ArgKind,
}

impl View for ParamBinding {
    type V = ParamBindingModel;

    open spec fn view(&self) -> ParamBindingModel {
        ParamBindingModel {
            name: self.name@,
            pos: self.pos as int,
            check: self.check,
            get: self.get@,
            arg: self.arg,
        }
    }
}

/// The models of a list of parameter bindings, in order.
pub open spec fn param_models(params: Seq<ParamBinding>) -> Seq<ParamBindingModel> {
    Seq::new(params.len(), |i: int| params[i]@)
}

/// How one element of a returned list is appended.
#[derive(Debug, Clone, PartialEq, Eq)]
pub enum ListElemRet {
    /// Appended as a number.
    NumElem,
    /// Appended as a string.
    TextElem,
    /// An optional number: present values as numbers, absent ones as holes.
    OptNumElem,
    /// An optional string: present values as strings, absent ones as holes.
    OptTextElem,
    /// An optional struct: present values as tagged pointers, absent as holes.
    OptStructElem { target: String },
    /// A nested list of numbers.
    NestedNumElem,
    /// A nested list of strings.
    NestedTextElem,
    /// A nested list of tagged pointers.
    NestedStructElem { target: String },
    /// A tagged pointer to a fresh heap copy.
    StructElem { target: String },
}

/// The mathematical form of a list element conversion.
pub enum ListElemRetModel {
    NumElem,
    TextElem,
    OptNumElem,
    OptTextElem,
    OptStructElem { target: Seq<char> },
    NestedNumElem,
    NestedTextElem,
    NestedStructElem { target: Seq<char> },
    StructElem { target: Seq<char> },
}

impl View for ListElemRet {
    type V = ListElemRetModel;

    open spec fn view(&self) -> ListElemRetModel {
        match self {
            ListElemRet::NumElem => ListElemRetModel::NumElem,
            ListElemRet::TextElem => ListElemRetModel::TextElem,
            ListElemRet::OptNumElem => ListElemRetModel::OptNumElem,
            ListElemRet::OptTextElem => ListElemRetModel::OptTextElem,
            ListElemRet::OptStructElem { target } => ListElemRetModel::OptStructElem {
                target: target@,
            },
            ListElemRet::NestedNumElem => ListElemRetModel::NestedNumElem,
            ListElemRet::NestedTextElem => ListElemRetModel::NestedTextElem,
            ListElemRet::NestedStructElem { target } => ListElemRetModel::NestedStructElem {
                target: target@,
            },
            ListElemRet::StructElem { target } => ListElemRetModel::StructElem {
                target: target@,
            },
        }
    }
}

/// How a present optional result is returned.
#[derive(Debug, Clone, PartialEq, Eq)]
pub enum OptRet {
    /// As a number.
    OptNum,
    /// As a string.
    OptText,
    /// As a list of numbers.
    OptListNum,
    /// As a list of strings.
    OptListText,
    /// As a list of tagged pointers.
    OptListStruct { target: String },
    /// As a tagged pointer to a fresh heap copy.
    OptStruct { target: String },
}

/// The mathematical form of an optional return conversion.
pub enum OptRetModel {
    OptNum,
    OptText,
    OptListNum,
    OptListText,
    OptListStruct { target: Seq<char> },
    OptStruct { target: Seq<char> },
}

impl View for OptRet {
    type V = OptRetModel;

    open spec fn view(&self) -> OptRetModel {
        match self {
            OptRet::OptNum => OptRetModel::OptNum,
            OptRet::OptText => OptRetModel::OptText,
            OptRet::OptListNum => OptRetModel::OptListNum,
            OptRet::OptListText => OptRetModel::OptListText,
            OptRet::OptListStruct { target } => OptRetModel::OptListStruct { target: target@ },
            OptRet::OptStruct { target } => OptRetModel::OptStruct { target: target@ },
        }
    }
}

/// How a successful result value is returned; the failure branch always
/// formats the error as text and raises the runtime's error signal.
#[derive(Debug, Clone, PartialEq, Eq)]
pub enum ResRet {
    /// A unit success returns nothing.
    ResUnit,
    /// As a number.
    ResNum,
    /// As a string.
    ResText,
    /// As a list of numbers.
    ResListNum,
    /// As a list of strings.
    ResListText,
    /// As a list of tagged pointers.
    ResListStruct { target: String },
    /// As a tagged pointer to a fresh heap copy.
    ResStruct { target: String },
}

/// The mathematical form of a result return conversion.
pub enum ResRetModel {
    ResUnit,
    ResNum,
    ResText,
    ResListNum,
    ResListText,
    ResListStruct { target: Seq<char> },
    ResStruct { target: Seq<char> },
}

impl View for ResRet {
    type V = ResRetModel;

    open spec fn view(&self) -> ResRetModel {
        match self {
            ResRet::ResUnit => ResRetModel::ResUnit,
            ResRet::ResNum => ResRetModel::ResNum,
            ResRet::ResText => ResRetModel::ResText,
            ResRet::ResListNum => ResRetModel::ResListNum,
            ResRet::ResListText => ResRetModel::ResListText,
            ResRet::ResListStruct { target } => ResRetModel::ResListStruct { target: target@ },
            ResRet::ResStruct { target } => ResRetModel::ResStruct { target: target@ },
        }
    }
}

/// How one positional element of a returned tuple is appended.
#[derive(Debug, Clone, PartialEq, Eq)]
pub enum TupleElemRet {
    /// Appended as a number.
    TupleNum,
    /// Appended as a string.
    TupleText,
    /// Appended as a number after a boolean test.
    TupleBool,
    /// Appended as a tagged pointer to a fresh heap copy.
    TupleStruct { target: String },
}

/// The mathematical form of a tuple element conversion.
pub enum TupleElemRetModel {
    TupleNum,
    TupleText,
    TupleBool,
    TupleStruct { target: Seq<char> },
}

impl View for TupleElemRet {
    type V = TupleElemRetModel;

    open spec fn view(&self) -> TupleElemRetModel {
        match self {
            TupleElemRet::TupleNum => TupleElemRetModel::TupleNum,
            TupleElemRet::TupleText => TupleElemRetModel::TupleText,
            TupleElemRet::TupleBool => TupleElemRetModel::TupleBool,
            TupleElemRet::TupleStruct { target } => TupleElemRetModel::TupleStruct {
                target: target@,
            },
        }
    }
}

/// The models of a list of tuple element conversions, in order.
pub open spec fn tuple_elem_models(elems: Seq<TupleElemRet>) -> Seq<TupleElemRetModel> {
    Seq::new(elems.len(), |i: int| elems[i]@)
}

/// How an unwrapped indirection result is returned.
#[derive(Debug, Clone, PartialEq, Eq)]
pub enum BoxRet {
    /// As a number.
    BoxNum,
    /// As a string.
    BoxText,
    /// As a number after a boolean test.
    BoxBool,
    /// The owned allocation itself becomes the tagged pointer.
    BoxStruct { target: String },
}

/// The mathematical form of an indirection return conversion.
pub enum BoxRetModel {
    BoxNum,
    BoxText,
    BoxBool,
    BoxStruct { target: Seq<char> },
}

impl View for BoxRet {
    type V = BoxRetModel;

    open spec fn view(&self) -> BoxRetModel {
        match self {
            BoxRet::BoxNum => BoxRetModel::BoxNum,
            BoxRet::BoxText => BoxRetModel::BoxText,
            BoxRet::BoxBool => BoxRetModel::BoxBool,
            BoxRet::BoxStruct { target } => BoxRetModel::BoxStruct { target: target@ },
        }
    }
}

/// How a mapping entry's key is appended to its two-element sub-list.
#[derive(Debug, Clone, Copy, PartialEq, Eq)]
pub enum KeyRet {
    /// As a number.
    KeyNum,
    /// As a string.
    KeyText,
    /// As the key's debug text.
    KeyDebugText,
}

/// How a mapping entry's value is appended to its two-element sub-list.
#[derive(Debug, Clone, PartialEq, Eq)]
pub enum ValRet {
    /// As a number.
    ValNum,
    /// As a string.
    ValText,
    /// As a number after a boolean test.
    ValBool,
    /// As a tagged pointer to a fresh heap copy.
    ValStruct { target: String },
}

/// The mathematical form of a mapping value conversion.
pub enum ValRetModel {
    ValNum,
    ValText,
    ValBool,
    ValStruct { target: Seq<char> },
}

impl View for ValRet {
    type V = ValRetModel;

    open spec fn view(&self) -> ValRetModel {
        match self {
            ValRet::ValNum => ValRetModel::ValNum,
            ValRet::ValText => ValRetModel::ValText,
            ValRet::ValBool => ValRetModel::ValBool,
            ValRet::ValStruct { target } => ValRetModel::ValStruct { target: target@ },
        }
    }
}

/// How a wrapper converts the wrapped call's result into the runtime's
/// value-return protocol.
#[derive(Debug, Clone, PartialEq, Eq)]
pub enum RetFrag {
    /// Evaluate the call and discard its value.
    Discard,
    /// Return the result as a number.
    RetNumber,
    /// Return the result as a string.
    RetString,
    /// Return the result as a number after a boolean test.
    RetBool,
    /// Build a list and append each element per its conversion.
    RetList(ListElemRet),
    /// A present value returns per its conversion; an absent one returns
    /// nothing at all.
    RetOption(OptRet),
    /// A success returns per its conversion; a failure raises an error.
    RetResult(ResRet),
    /// Build a list and append each positional element per its conversion.
    RetTuple(Vec<TupleElemRet>),
    /// Unwrap one indirection level and return per its conversion.
    RetBox(BoxRet),
    /// Build a list of two-element sub-lists, one per mapping entry.
    RetMapping(KeyRet, ValRet),
    /// Move the result to the heap and return its address under the
    /// target's tag.
    RetCPointer { target: String },
}

/// The mathematical form of a return conversion.
pub enum RetFragModel {
    Discard,
    RetNumber,
    RetString,
    RetBool,
    RetList(ListElemRetModel),
    RetOption(OptRetModel),
    RetResult(ResRetModel),
    RetTuple(Seq<TupleElemRetModel>),
    RetBox(BoxRetModel),
    RetMapping(KeyRet, ValRetModel),
    RetCPointer { target: Seq<char> },
}

impl View for RetFrag {
    type V = RetFragModel;

    open spec fn view(&self) -> RetFragModel {
        match self {
            RetFrag::Discard => RetFragModel::Discard,
            RetFrag::RetNumber => RetFragModel::RetNumber,
            RetFrag::RetString => RetFragModel::RetString,
            RetFrag::RetBool => RetFragModel::RetBool,
            RetFrag::RetList(e) => RetFragModel::RetList(e@),
            RetFrag::RetOption(o) => RetFragModel::RetOption(o@),
            RetFrag::RetResult(r) => RetFragModel::RetResult(r@),
            RetFrag::RetTuple(elems) => RetFragModel::RetTuple(tuple_elem_models(elems@)),
            RetFrag::RetBox(b) => RetFragModel::RetBox(b@),
            RetFrag::RetMapping(k, v) => RetFragModel::RetMapping(*k, v@),
            RetFrag::RetCPointer { target } => RetFragModel::RetCPointer { target: target@ },
        }
    }
}

} // verus!
