//! The declaration model the generator consumes: functions, structs with
//! named fields, and method-bearing implementation blocks, all as plain
//! names and type spellings; and the method-presence index built from the
//! implementation blocks before any code is emitted.

use vstd::prelude::*;

use crate::strutil::str_eq;

verus! {

/// The largest argument position the runtime's 32-bit positions admit, and
/// so the largest parameter count a declaration may carry.
pub open spec fn max_params() -> int {
    0x7FFF_FFF0
}

/// One formal parameter: its name and its type's spelling.
#[derive(Debug, Clone, PartialEq, Eq)]
pub struct ParamDecl {
    pub name: String,
    pub ty: String,
}

/// The mathematical form of a formal parameter.
pub struct ParamDeclModel {
    pub name: Seq<char>,
    pub ty: Seq<char>,
}

impl View for ParamDecl {
    type V = ParamDeclModel;

    open spec fn view(&self) -> ParamDeclModel {
        ParamDeclModel { name: self.name@, ty: self.ty@ }
    }
}

/// The models of a parameter list, in order.
pub open spec fn param_decl_models(params: Seq<ParamDecl>) -> Seq<ParamDeclModel> {
    Seq::new(params.len(), |i: int| params[i]@)
}

/// A free function declaration.
#[derive(Debug, Clone, PartialEq, Eq)]
pub struct FnDecl {
    pub name: String,
    pub params: Vec<ParamDecl>,
    /// The declared return type's spelling, or nothing.
    pub output: Option<String>,
}

/// The mathematical form of a function declaration.
pub struct FnDeclModel {
    pub name: Seq<char>,
    pub params: Seq<ParamDeclModel>,
    pub output: Option<Seq<char>>,
}

impl View for FnDecl {
    type V = FnDeclModel;

    open spec fn view(&self) -> FnDeclModel {
        FnDeclModel {
            name: self.name@,
            params: param_decl_models(self.params@),
            output: match self.output {
                Some(ref ty) => Some(ty@),
                None => None,
            },
        }
    }
}

/// One struct field: its name, its type's spelling, and its visibility.
#[derive(Debug, Clone, PartialEq, Eq)]
pub struct FieldDecl {
    pub name: String,
    pub ty: String,
    pub public: bool,
}

/// The mathematical form of a field declaration.
pub struct FieldDeclModel {
    pub name: Seq<char>,
    pub ty: Seq<char>,
    pub public: bool,
}

impl View for FieldDecl {
    type V = FieldDeclModel;

    open spec fn view(&self) -> FieldDeclModel {
        FieldDeclModel { name: self.name@, ty: self.ty@, public: self.public }
    }
}

/// The models of a field list, in order.
pub open spec fn field_decl_models(fields: Seq<FieldDecl>) -> Seq<FieldDeclModel> {
    Seq::new(fields.len(), |i: int| fields[i]@)
}

/// A struct declaration with named fields.
#[derive(Debug, Clone, PartialEq, Eq)]
pub struct StructDecl {
    pub name: String,
    pub fields: Vec<FieldDecl>,
}

/// The mathematical form of a struct declaration.
pub struct StructDeclModel {
    pub name: Seq<char>,
    pub fields: Seq<FieldDeclModel>,
}

impl View for StructDecl {
    type V = StructDeclModel;

    open spec fn view(&self) -> StructDeclModel {
        StructDeclModel { name: self.name@, fields: field_decl_models(self.fields@) }
    }
}

/// One method of an implementation block.
#[derive(Debug, Clone, PartialEq, Eq)]
pub struct MethodDecl {
    pub name: String,
    pub params: Vec<ParamDecl>,
    pub output: Option<String>,
    /// Whether the method takes a receiver.
    pub has_receiver: bool,
    pub public: bool,
}

/// The mathematical form of a method declaration.
pub struct MethodDeclModel {
    pub name: Seq<char>,
    pub params: Seq<ParamDeclModel>,
    pub output: Option<Seq<char>>,
    pub has_receiver: bool,
    pub public: bool,
}

impl View for MethodDecl {
    type V = MethodDeclModel;

    open spec fn view(&self) -> MethodDeclModel {
        MethodDeclModel {
            name: self.name@,
            params: param_decl_models(self.params@),
            output: match self.output {
                Some(ref ty) => Some(ty@),
                None => None,
            },
            has_receiver: self.has_receiver,
            public: self.public,
        }
    }
}

/// The models of a method list, in order.
pub open spec fn method_decl_models(methods: Seq<MethodDecl>) -> Seq<MethodDeclModel> {
    Seq::new(methods.len(), |i: int| methods[i]@)
}

/// An implementation block: the owning struct's name and its methods.
#[derive(Debug, Clone, PartialEq, Eq)]
pub struct ImplDecl {
    pub struct_name: String,
    pub methods: Vec<MethodDecl>,
}

/// The mathematical form of an implementation block.
pub struct ImplDeclModel {
    pub struct_name: Seq<char>,
    pub methods: Seq<MethodDeclModel>,
}

impl View for ImplDecl {
    type V = ImplDeclModel;

    open spec fn view(&self) -> ImplDeclModel {
        ImplDeclModel {
            struct_name: self.struct_name@,
            methods: method_decl_models(self.methods@),
        }
    }
}

/// One declaration handed to the generator. Anything that is not a struct,
/// an implementation block or a free function passes through untouched.
#[derive(Debug, Clone, PartialEq, Eq)]
pub enum Declaration {
    StructItem(StructDecl),
    ImplItem(ImplDecl),
    FnItem(FnDecl),
    Other,
}

/// The mathematical form of a declaration.
pub enum DeclarationModel {
    StructItem(StructDeclModel),
    ImplItem(ImplDeclModel),
    FnItem(FnDeclModel),
    Other,
}

impl View for Declaration {
    type V = DeclarationModel;

    open spec fn view(&self) -> DeclarationModel {
        match self {
            Declaration::StructItem(s) => DeclarationModel::StructItem(s@),
            Declaration::ImplItem(i) => DeclarationModel::ImplItem(i@),
            Declaration::FnItem(f) => DeclarationModel::FnItem(f@),
            Declaration::Other => DeclarationModel::Other,
        }
    }
}

/// The models of a declaration list, in order.
pub open spec fn declaration_models(items: Seq<Declaration>) -> Seq<DeclarationModel> {
    Seq::new(items.len(), |i: int| items[i]@)
}

/// Whether a declaration's parameter counts leave room for the implicit
/// receiver position within the runtime's positions.
pub open spec fn decl_wf(d: DeclarationModel) -> bool {
    match d {
        DeclarationModel::StructItem(_) => true,
        DeclarationModel::ImplItem(i) => forall|k: int|
            0 <= k < i.methods.len() ==> #[trigger] i.methods[k].params.len() + 2 <= max_params(),
        DeclarationModel::FnItem(f) => f.params.len() + 1 <= max_params(),
        DeclarationModel::Other => true,
    }
}

/// One entry of the method-presence index: an owning struct's name and one
/// of its methods' names.
#[derive(Debug, Clone, PartialEq, Eq)]
pub struct MethodKey {
    pub struct_name: String,
    pub method: String,
}

/// The mathematical form of an index entry.
pub struct MethodKeyModel {
    pub struct_name: Seq<char>,
    pub method: Seq<char>,
}

impl View for MethodKey {
    type V = MethodKeyModel;

    open spec fn view(&self) -> MethodKeyModel {
        MethodKeyModel { struct_name: self.struct_name@, method: self.method@ }
    }
}

/// Whether the index holds the given struct and method pair.
pub open spec fn index_contains(idx: Seq<MethodKeyModel>, s: Seq<char>, m: Seq<char>) -> bool {
    exists|i: int| 0 <= i < idx.len() && idx[i].struct_name == s && idx[i].method == m
}

/// The method-presence index: every (struct, method) pair of every
/// implementation block, collected before any struct is processed. It
/// decides which constructors and accessors are suppressed.
#[derive(Debug, Clone, PartialEq, Eq)]
pub struct MethodIndex {
    pub entries: Vec<MethodKey>,
}

impl View for MethodIndex {
    type V = Seq<MethodKeyModel>;

    open spec fn view(&self) -> Seq<MethodKeyModel> {
        Seq::new(self.entries@.len(), |i: int| self.entries@[i]@)
    }
}

impl MethodIndex {
    /// An empty index.
    pub fn new() -> (r: MethodIndex)
        ensures
            r@ == Seq::<MethodKeyModel>::empty(),
    {
        let r = MethodIndex { entries: Vec::new() };
        proof {
            assert(r@ =~= Seq::<MethodKeyModel>::empty());
        }
        r
    }

    /// Records one struct and method pair.
    pub fn insert(&mut self, struct_name: &str, method: &str)
        ensures
            final(self)@ == old(self)@ + seq![
                MethodKeyModel { struct_name: struct_name@, method: method@ },
            ],
    {
        let ghost prev = self@;
        self.entries.push(
            MethodKey { struct_name: struct_name.to_owned(), method: method.to_owned() },
        );
        proof {
            assert(self@ =~= prev + seq![
                MethodKeyModel { struct_name: struct_name@, method: method@ },
            ]);
        }
    }

    /// Whether the index holds the given struct and method pair.
    pub fn contains_method(&self, struct_name: &str, method: &str) -> (r: bool)
        ensures
            r == index_contains(self@, struct_name@, method@),
    {
        let n = self.entries.len();
        let mut i: usize = 0;
        while i < n
            invariant
                0 <= i <= n,
                n == self.entries@.len(),
                forall|j: int|
                    0 <= j < i ==> !(self@[j].struct_name == struct_name@ && self@[j].method
                        == method@),
            decreases n - i,
        {
            let e = &self.entries[i];
            if str_eq(e.struct_name.as_str(), struct_name) && str_eq(e.method.as_str(), method) {
                proof {
                    assert(self@[i as int].struct_name == struct_name@ && self@[i as int].method
                        == method@);
                }
                return true;
            }
            i = i + 1;
        }
        false
    }
}

} // verus!
