//! The type classifier: predicates and extractors over a type's textual
//! spelling, and the `Shape` descriptor they compute.
//!
//! A spelling is matched against a whitespace-normalized prefix/suffix form:
//! container prefixes first (vector, optional, result, tuple, indirection,
//! mapping), then literal numeric, text and boolean spellings; a remaining
//! spelling that begins with an uppercase letter names a generated struct.

use vstd::prelude::*;

use crate::extract::{
    extract_hashmap_kv, extract_option_inner, extract_result_ok, extract_struct_name,
    extract_tuple_elements, extract_vec_inner, lemma_elem_le_sum, lemma_find_char_in_range,
    lemma_find_sub_in_range, lemma_first_top_comma_in_range, lemma_rfind_char_in_range,
    lemma_split_sum, lemma_sum_lens_nonneg, spec_extract_box_inner, spec_extract_hashmap_kv,
    spec_extract_option_inner, spec_extract_result_ok, spec_extract_struct_name,
    spec_extract_tuple_elements, spec_extract_vec_inner, sum_lens, extract_box_inner,
};
use crate::strutil::{
    char_at, char_len, contains_spec, contains_sub, ends_with, ends_with_spec, lemma_trim_len,
    starts_with, starts_with_spec, str_eq, substr, trim, trim_spec,
};

verus! {

/// Whether the trimmed spelling is one of the known numeric types.
pub open spec fn spec_is_number_type(s: Seq<char>) -> bool {
    let t = trim_spec(s);
    ||| t == "i8"@
    ||| t == "i16"@
    ||| t == "i32"@
    ||| t == "i64"@
    ||| t == "i128"@
    ||| t == "isize"@
    ||| t == "u8"@
    ||| t == "u16"@
    ||| t == "u32"@
    ||| t == "u64"@
    ||| t == "u128"@
    ||| t == "usize"@
    ||| t == "f32"@
    ||| t == "f64"@
}

/// Whether the spelling names a numeric type.
pub fn is_number_type(ty: &str) -> (r: bool)
    ensures
        r == spec_is_number_type(ty@),
{
    let t = trim(ty);
    str_eq(t, "i8") || str_eq(t, "i16") || str_eq(t, "i32") || str_eq(t, "i64") || str_eq(
        t,
        "i128",
    ) || str_eq(t, "isize") || str_eq(t, "u8") || str_eq(t, "u16") || str_eq(t, "u32") || str_eq(
        t,
        "u64",
    ) || str_eq(t, "u128") || str_eq(t, "usize") || str_eq(t, "f32") || str_eq(t, "f64")
}

/// Whether the trimmed spelling is a text type: the owned string type, a
/// borrowed string slice, or any spelling containing the slice's name.
pub open spec fn spec_is_string_type(s: Seq<char>) -> bool {
    let t = trim_spec(s);
    t == "String"@ || t == "& str"@ || contains_spec(t, "str"@)
}

/// Whether the spelling names a text type.
pub fn is_string_type(ty: &str) -> (r: bool)
    ensures
        r == spec_is_string_type(ty@),
{
    let t = trim(ty);
    str_eq(t, "String") || str_eq(t, "& str") || contains_sub(t, "str")
}

/// The cast spelling used when a runtime number is narrowed to the declared
/// numeric type; unknown spellings fall back to the widest kind.
pub open spec fn spec_get_number_cast(s: Seq<char>) -> Seq<char> {
    let t = trim_spec(s);
    if t == "i8"@ {
        "i8"@
    } else if t == "i16"@ {
        "i16"@
    } else if t == "i32"@ {
        "i32"@
    } else if t == "i64"@ {
        "i64"@
    } else if t == "i128"@ {
        "i128"@
    } else if t == "isize"@ {
        "isize"@
    } else if t == "u8"@ {
        "u8"@
    } else if t == "u16"@ {
        "u16"@
    } else if t == "u32"@ {
        "u32"@
    } else if t == "u64"@ {
        "u64"@
    } else if t == "u128"@ {
        "u128"@
    } else if t == "usize"@ {
        "usize"@
    } else if t == "f32"@ {
        "f32"@
    } else {
        "f64"@
    }
}

/// The cast spelling for a numeric parameter or field.
pub fn get_number_cast(ty: &str) -> (r: String)
    ensures
        r@ == spec_get_number_cast(ty@),
{
    let t = trim(ty);
    if str_eq(t, "i8") {
        "i8".to_owned()
    } else if str_eq(t, "i16") {
        "i16".to_owned()
    } else if str_eq(t, "i32") {
        "i32".to_owned()
    } else if str_eq(t, "i64") {
        "i64".to_owned()
    } else if str_eq(t, "i128") {
        "i128".to_owned()
    } else if str_eq(t, "isize") {
        "isize".to_owned()
    } else if str_eq(t, "u8") {
        "u8".to_owned()
    } else if str_eq(t, "u16") {
        "u16".to_owned()
    } else if str_eq(t, "u32") {
        "u32".to_owned()
    } else if str_eq(t, "u64") {
        "u64".to_owned()
    } else if str_eq(t, "u128") {
        "u128".to_owned()
    } else if str_eq(t, "usize") {
        "usize".to_owned()
    } else if str_eq(t, "f32") {
        "f32".to_owned()
    } else {
        "f64".to_owned()
    }
}

/// Whether the trimmed spelling is a vector type.
pub open spec fn spec_is_vec_type(s: Seq<char>) -> bool {
    let t = trim_spec(s);
    starts_with_spec(t, "Vec <"@) || starts_with_spec(t, "Vec<"@)
}

/// Whether the spelling names a vector type.
pub fn is_vec_type(ty: &str) -> (r: bool)
    ensures
        r == spec_is_vec_type(ty@),
{
    let t = trim(ty);
    starts_with(t, "Vec <") || starts_with(t, "Vec<")
}

/// Whether the trimmed spelling is an optional type.
pub open spec fn spec_is_option_type(s: Seq<char>) -> bool {
    let t = trim_spec(s);
    starts_with_spec(t, "Option <"@) || starts_with_spec(t, "Option<"@)
}

/// Whether the spelling names an optional type.
pub fn is_option_type(ty: &str) -> (r: bool)
    ensures
        r == spec_is_option_type(ty@),
{
    let t = trim(ty);
    starts_with(t, "Option <") || starts_with(t, "Option<")
}

/// Whether the trimmed spelling is a result type.
pub open spec fn spec_is_result_type(s: Seq<char>) -> bool {
    let t = trim_spec(s);
    starts_with_spec(t, "Result <"@) || starts_with_spec(t, "Result<"@)
}

/// Whether the spelling names a result type.
pub fn is_result_type(ty: &str) -> (r: bool)
    ensures
        r == spec_is_result_type(ty@),
{
    let t = trim(ty);
    starts_with(t, "Result <") || starts_with(t, "Result<")
}

/// Whether the trimmed spelling is a tuple type: parenthesized with at least
/// one separator.
pub open spec fn spec_is_tuple_type(s: Seq<char>) -> bool {
    let t = trim_spec(s);
    starts_with_spec(t, "("@) && ends_with_spec(t, ")"@) && contains_spec(t, ","@)
}

/// Whether the spelling names a tuple type.
pub fn is_tuple_type(ty: &str) -> (r: bool)
    ensures
        r == spec_is_tuple_type(ty@),
{
    let t = trim(ty);
    starts_with(t, "(") && ends_with(t, ")") && contains_sub(t, ",")
}

/// Whether the trimmed spelling is an owning-indirection type.
pub open spec fn spec_is_box_type(s: Seq<char>) -> bool {
    let t = trim_spec(s);
    starts_with_spec(t, "Box <"@) || starts_with_spec(t, "Box<"@)
}

/// Whether the spelling names an owning-indirection type.
pub fn is_box_type(ty: &str) -> (r: bool)
    ensures
        r == spec_is_box_type(ty@),
{
    let t = trim(ty);
    starts_with(t, "Box <") || starts_with(t, "Box<")
}

/// Whether the trimmed spelling is a key-value mapping type, in plain or
/// path-qualified form.
pub open spec fn spec_is_hashmap_type(s: Seq<char>) -> bool {
    let t = trim_spec(s);
    ||| starts_with_spec(t, "HashMap <"@)
    ||| starts_with_spec(t, "HashMap<"@)
    ||| starts_with_spec(t, "std :: collections :: HashMap"@)
    ||| contains_spec(t, "HashMap <"@)
    ||| contains_spec(t, "HashMap<"@)
}

/// Whether the spelling names a key-value mapping type.
pub fn is_hashmap_type(ty: &str) -> (r: bool)
    ensures
        r == spec_is_hashmap_type(ty@),
{
    let t = trim(ty);
    starts_with(t, "HashMap <") || starts_with(t, "HashMap<") || starts_with(
        t,
        "std :: collections :: HashMap",
    ) || contains_sub(t, "HashMap <") || contains_sub(t, "HashMap<")
}

/// Whether the trimmed spelling is a borrowed slice type.
pub open spec fn spec_is_slice_type(s: Seq<char>) -> bool {
    let t = trim_spec(s);
    starts_with_spec(t, "& ["@) || starts_with_spec(t, "&["@)
}

/// Whether the spelling names a borrowed slice type.
pub fn is_slice_type(ty: &str) -> (r: bool)
    ensures
        r == spec_is_slice_type(ty@),
{
    let t = trim(ty);
    starts_with(t, "& [") || starts_with(t, "&[")
}

/// The sequence without its leading ampersands.
pub open spec fn strip_amp_spec(s: Seq<char>) -> Seq<char>
    decreases s.len(),
{
    if s.len() > 0 && s[0] == '&' {
        strip_amp_spec(s.drop_first())
    } else {
        s
    }
}

/// The sequence without its leading `mut ` markers.
pub open spec fn strip_mut_spec(s: Seq<char>) -> Seq<char>
    decreases s.len(),
{
    if s.len() >= 4 && s[0] == 'm' && s[1] == 'u' && s[2] == 't' && s[3] == ' ' {
        strip_mut_spec(s.subrange(4, s.len() as int))
    } else {
        s
    }
}

/// The slice without its leading ampersands.
pub(crate) fn strip_amp(s: &str) -> (r: &str)
    ensures
        r@ == strip_amp_spec(s@),
{
    let n = char_len(s);
    let mut i: usize = 0;
    proof {
        assert(s@.subrange(0, n as int) =~= s@);
    }
    while i < n && char_at(s, i) == '&'
        invariant
            0 <= i <= n,
            n == s@.len(),
            forall|j: int| 0 <= j < i ==> s@[j] == '&',
            strip_amp_spec(s@) == strip_amp_spec(s@.subrange(i as int, n as int)),
        decreases n - i,
    {
        proof {
            let t = s@.subrange(i as int, n as int);
            assert(t.drop_first() =~= s@.subrange(i + 1, n as int));
        }
        i = i + 1;
    }
    proof {
        let t = s@.subrange(i as int, n as int);
        if i < n {
            assert(t[0] != '&');
        }
        assert(strip_amp_spec(t) == t);
    }
    substr(s, i, n)
}

/// The slice without its leading `mut ` markers.
pub(crate) fn strip_mut(s: &str) -> (r: &str)
    ensures
        r@ == strip_mut_spec(s@),
{
    let n = char_len(s);
    let mut i: usize = 0;
    proof {
        assert(s@.subrange(0, n as int) =~= s@);
    }
    while n - i >= 4 && char_at(s, i) == 'm' && char_at(s, i + 1) == 'u' && char_at(s, i + 2)
        == 't' && char_at(s, i + 3) == ' '
        invariant
            0 <= i <= n,
            n == s@.len(),
            strip_mut_spec(s@) == strip_mut_spec(s@.subrange(i as int, n as int)),
        decreases n - i,
    {
        proof {
            let t = s@.subrange(i as int, n as int);
            assert(t.subrange(4, t.len() as int) =~= s@.subrange(i + 4, n as int));
        }
        i = i + 4;
    }
    proof {
        let t = s@.subrange(i as int, n as int);
        assert(strip_mut_spec(t) == t);
    }
    substr(s, i, n)
}

/// The base spelling a struct check uses: trimmed, with leading ampersands
/// and `mut ` markers removed.
pub open spec fn spec_struct_base(s: Seq<char>) -> Seq<char> {
    trim_spec(strip_mut_spec(strip_amp_spec(trim_spec(s))))
}

/// Whether `c` is an ASCII uppercase letter.
pub open spec fn is_upper_char(c: char) -> bool {
    65 <= c as u32 <= 90
}

/// Whether the trimmed, reference-stripped spelling names a generated struct:
/// not a container, not a primitive, and beginning with an uppercase letter.
pub open spec fn spec_is_struct_type(s: Seq<char>) -> bool {
    let w = spec_struct_base(s);
    &&& !spec_is_vec_type(w)
    &&& !spec_is_option_type(w)
    &&& !spec_is_result_type(w)
    &&& !spec_is_tuple_type(w)
    &&& !spec_is_box_type(w)
    &&& !spec_is_hashmap_type(w)
    &&& !spec_is_number_type(w)
    &&& !spec_is_string_type(w)
    &&& w != "bool"@
    &&& w != "()"@
    &&& w.len() > 0
    &&& is_upper_char(w[0])
}

/// Whether the spelling names a generated struct.
pub fn is_struct_type(ty: &str) -> (r: bool)
    ensures
        r == spec_is_struct_type(ty@),
{
    let t = trim(ty);
    let u = strip_amp(t);
    let v = strip_mut(u);
    let w = trim(v);
    if is_vec_type(w) || is_option_type(w) || is_result_type(w) || is_tuple_type(w) || is_box_type(
        w,
    ) || is_hashmap_type(w) {
        return false;
    }
    if is_number_type(w) || is_string_type(w) || str_eq(w, "bool") || str_eq(w, "()") {
        return false;
    }
    let n = char_len(w);
    if n == 0 {
        return false;
    }
    let c = char_at(w, 0);
    let u32c = c as u32;
    65 <= u32c && u32c <= 90
}

/// Whether the trimmed spelling is a borrowed reference to a struct.
pub open spec fn spec_is_struct_ref(s: Seq<char>) -> bool {
    let t = trim_spec(s);
    t.len() > 0 && t[0] == '&' && spec_is_struct_type(t)
}

/// Whether the spelling is a borrowed reference to a generated struct.
pub fn is_struct_ref(ty: &str) -> (r: bool)
    ensures
        r == spec_is_struct_ref(ty@),
{
    let t = trim(ty);
    if char_len(t) == 0 || char_at(t, 0) != '&' {
        return false;
    }
    is_struct_type(t)
}

/// Whether the trimmed spelling is a mutable reference to a struct.
pub open spec fn spec_is_mut_struct_ref(s: Seq<char>) -> bool {
    let t = trim_spec(s);
    starts_with_spec(t, "& mut "@) && spec_is_struct_type(t.subrange(6, t.len() as int))
}

/// Whether the spelling is a mutable reference to a generated struct.
pub fn is_mut_struct_ref(ty: &str) -> (r: bool)
    ensures
        r == spec_is_mut_struct_ref(ty@),
{
    let t = trim(ty);
    if !starts_with(t, "& mut ") {
        return false;
    }
    proof {
        reveal_strlit("& mut ");
    }
    let rest = substr(t, 6, char_len(t));
    is_struct_type(rest)
}

/// The width of a numeric spelling.
#[derive(Debug, Clone, Copy, PartialEq, Eq)]
pub enum NumWidth {
    I8,
    I16,
    I32,
    I64,
    I128,
    ISize,
    U8,
    U16,
    U32,
    U64,
    U128,
    USize,
    F32,
    F64,
}

/// The structural category of a declared type, recursively for nested type
/// arguments.
#[derive(Debug, PartialEq, Eq)]
pub enum Shape {
    Number(NumWidth),
    Text,
    Boolean,
    Vector(Box<Shape>),
    Optional(Box<Shape>),
    ResultOf(Box<Shape>),
    Tuple(Vec<Shape>),
    Indirection(Box<Shape>),
    Mapping(Box<Shape>, Box<Shape>),
    Reference { target: String, mutable: bool },
    Opaque(String),
    Unknown,
}

/// The mathematical form of a shape, with text as character sequences.
pub enum ShapeModel {
    Number(NumWidth),
    Text,
    Boolean,
    Vector(Box<ShapeModel>),
    Optional(Box<ShapeModel>),
    ResultOf(Box<ShapeModel>),
    Tuple(Seq<ShapeModel>),
    Indirection(Box<ShapeModel>),
    Mapping(Box<ShapeModel>, Box<ShapeModel>),
    Reference { target: Seq<char>, mutable: bool },
    Opaque(Seq<char>),
    Unknown,
}

/// The models of a list of shapes, in order.
pub open spec fn shape_models(elems: Seq<Shape>) -> Seq<ShapeModel>
    decreases elems,
{
    if elems.len() == 0 {
        Seq::empty()
    } else {
        seq![elems[0]@] + shape_models(elems.drop_first())
    }
}

/// The models of a list of shapes, elementwise.
pub proof fn lemma_shape_models_index(elems: Seq<Shape>)
    ensures
        shape_models(elems).len() == elems.len(),
        forall|k: int| 0 <= k < elems.len() ==> shape_models(elems)[k] == elems[k]@,
    decreases elems.len(),
{
    if elems.len() > 0 {
        lemma_shape_models_index(elems.drop_first());
        assert(shape_models(elems) == seq![elems[0]@] + shape_models(elems.drop_first()));
        assert forall|k: int| 0 <= k < elems.len() implies shape_models(elems)[k] == elems[k]@ by {
            if k > 0 {
                assert(shape_models(elems)[k] == shape_models(elems.drop_first())[k - 1]);
                assert(elems.drop_first()[k - 1] == elems[k]);
            }
        }
    }
}

impl View for Shape {
    type V = ShapeModel;

    open spec fn view(&self) -> ShapeModel
        decreases self,
    {
        match self {
            Shape::Number(w) => ShapeModel::Number(*w),
            Shape::Text => ShapeModel::Text,
            Shape::Boolean => ShapeModel::Boolean,
            Shape::Vector(inner) => ShapeModel::Vector(Box::new((**inner)@)),
            Shape::Optional(inner) => ShapeModel::Optional(Box::new((**inner)@)),
            Shape::ResultOf(inner) => ShapeModel::ResultOf(Box::new((**inner)@)),
            Shape::Tuple(elems) => ShapeModel::Tuple(shape_models(elems@)),
            Shape::Indirection(inner) => ShapeModel::Indirection(Box::new((**inner)@)),
            Shape::Mapping(k, v) => ShapeModel::Mapping(Box::new((**k)@), Box::new((**v)@)),
            Shape::Reference { target, mutable } => ShapeModel::Reference {
                target: target@,
                mutable: *mutable,
            },
            Shape::Opaque(name) => ShapeModel::Opaque(name@),
            Shape::Unknown => ShapeModel::Unknown,
        }
    }
}

/// The numeric width of a trimmed numeric spelling; unknown spellings get
/// the widest kind.
pub open spec fn spec_num_width_of(t: Seq<char>) -> NumWidth {
    if t == "i8"@ {
        NumWidth::I8
    } else if t == "i16"@ {
        NumWidth::I16
    } else if t == "i32"@ {
        NumWidth::I32
    } else if t == "i64"@ {
        NumWidth::I64
    } else if t == "i128"@ {
        NumWidth::I128
    } else if t == "isize"@ {
        NumWidth::ISize
    } else if t == "u8"@ {
        NumWidth::U8
    } else if t == "u16"@ {
        NumWidth::U16
    } else if t == "u32"@ {
        NumWidth::U32
    } else if t == "u64"@ {
        NumWidth::U64
    } else if t == "u128"@ {
        NumWidth::U128
    } else if t == "usize"@ {
        NumWidth::USize
    } else if t == "f32"@ {
        NumWidth::F32
    } else {
        NumWidth::F64
    }
}

/// The numeric width of a trimmed numeric spelling.
fn num_width(t: &str) -> (w: NumWidth)
    ensures
        w == spec_num_width_of(t@),
{
    if str_eq(t, "i8") {
        NumWidth::I8
    } else if str_eq(t, "i16") {
        NumWidth::I16
    } else if str_eq(t, "i32") {
        NumWidth::I32
    } else if str_eq(t, "i64") {
        NumWidth::I64
    } else if str_eq(t, "i128") {
        NumWidth::I128
    } else if str_eq(t, "isize") {
        NumWidth::ISize
    } else if str_eq(t, "u8") {
        NumWidth::U8
    } else if str_eq(t, "u16") {
        NumWidth::U16
    } else if str_eq(t, "u32") {
        NumWidth::U32
    } else if str_eq(t, "u64") {
        NumWidth::U64
    } else if str_eq(t, "u128") {
        NumWidth::U128
    } else if str_eq(t, "usize") {
        NumWidth::USize
    } else if str_eq(t, "f32") {
        NumWidth::F32
    } else {
        NumWidth::F64
    }
}

/// The shape of a spelling. Matching order: vector, optional, result, tuple,
/// indirection, mapping, then numeric, text and boolean literals, then
/// references, then opaque struct names; everything else is unknown.
pub open spec fn spec_classify(s: Seq<char>) -> ShapeModel
    decreases s.len(), 0int, 0int,
    via spec_classify_dec
{
    if spec_is_vec_type(s) {
        match spec_extract_vec_inner(s) {
            Some(inner) => ShapeModel::Vector(Box::new(spec_classify(inner))),
            None => ShapeModel::Unknown,
        }
    } else if spec_is_option_type(s) {
        match spec_extract_option_inner(s) {
            Some(inner) => ShapeModel::Optional(Box::new(spec_classify(inner))),
            None => ShapeModel::Unknown,
        }
    } else if spec_is_result_type(s) {
        match spec_extract_result_ok(s) {
            Some(ok) => ShapeModel::ResultOf(Box::new(spec_classify(ok))),
            None => ShapeModel::Unknown,
        }
    } else if spec_is_tuple_type(s) {
        ShapeModel::Tuple(spec_classify_list(spec_extract_tuple_elements(s)))
    } else if spec_is_box_type(s) {
        match spec_extract_box_inner(s) {
            Some(inner) => ShapeModel::Indirection(Box::new(spec_classify(inner))),
            None => ShapeModel::Unknown,
        }
    } else if spec_is_hashmap_type(s) {
        match spec_extract_hashmap_kv(s) {
            Some(kv) => ShapeModel::Mapping(
                Box::new(spec_classify(kv.0)),
                Box::new(spec_classify(kv.1)),
            ),
            None => ShapeModel::Unknown,
        }
    } else if spec_is_number_type(s) {
        ShapeModel::Number(spec_num_width_of(trim_spec(s)))
    } else if spec_is_string_type(s) {
        ShapeModel::Text
    } else if trim_spec(s) == "bool"@ {
        ShapeModel::Boolean
    } else if spec_is_mut_struct_ref(s) {
        ShapeModel::Reference { target: spec_extract_struct_name(s), mutable: true }
    } else if spec_is_struct_ref(s) {
        ShapeModel::Reference { target: spec_extract_struct_name(s), mutable: false }
    } else if spec_is_struct_type(s) {
        ShapeModel::Opaque(spec_extract_struct_name(s))
    } else {
        ShapeModel::Unknown
    }
}

/// The shapes of a list of spellings.
pub open spec fn spec_classify_list(elems: Seq<Seq<char>>) -> Seq<ShapeModel>
    decreases sum_lens(elems), 1int, elems.len(),
    via spec_classify_list_dec
{
    if elems.len() == 0 {
        Seq::empty()
    } else {
        seq![spec_classify(elems[0])] + spec_classify_list(elems.drop_first())
    }
}

/// Every extracted inner spelling is shorter than what it came from.
proof fn lemma_extract_shorter(s: Seq<char>)
    ensures
        spec_extract_vec_inner(s) matches Some(inner) ==> inner.len() < s.len(),
        spec_extract_option_inner(s) matches Some(inner) ==> inner.len() < s.len(),
        spec_extract_box_inner(s) matches Some(inner) ==> inner.len() < s.len(),
        spec_extract_result_ok(s) matches Some(ok) ==> ok.len() < s.len(),
        spec_extract_hashmap_kv(s) matches Some(kv) ==> kv.0.len() < s.len() && kv.1.len()
            < s.len(),
        spec_is_tuple_type(s) ==> sum_lens(spec_extract_tuple_elements(s)) < s.len(),
{
    let t = trim_spec(s);
    lemma_trim_len(s);
    if spec_extract_vec_inner(s) is Some {
        if starts_with_spec(t, "Vec <"@) {
            lemma_trim_len(t.subrange(5, t.len() - 1));
        } else {
            lemma_trim_len(t.subrange(4, t.len() - 1));
        }
    }
    if spec_extract_option_inner(s) is Some {
        if starts_with_spec(t, "Option <"@) {
            lemma_trim_len(t.subrange(8, t.len() - 1));
        } else {
            lemma_trim_len(t.subrange(7, t.len() - 1));
        }
    }
    if spec_extract_box_inner(s) is Some {
        if starts_with_spec(t, "Box <"@) {
            lemma_trim_len(t.subrange(5, t.len() - 1));
        } else {
            lemma_trim_len(t.subrange(4, t.len() - 1));
        }
    }
    if spec_extract_result_ok(s) is Some {
        if starts_with_spec(t, "Result <"@) && t.len() >= 9 {
            let inner = t.subrange(8, t.len() - 1);
            lemma_first_top_comma_in_range(inner, 0);
            let i = crate::extract::first_top_comma_from(inner, 0)->Some_0;
            lemma_trim_len(inner.subrange(0, i));
        } else if starts_with_spec(t, "Result<"@) && t.len() >= 8 {
            let inner = t.subrange(7, t.len() - 1);
            lemma_first_top_comma_in_range(inner, 0);
            let i = crate::extract::first_top_comma_from(inner, 0)->Some_0;
            lemma_trim_len(inner.subrange(0, i));
        }
    }
    if spec_extract_hashmap_kv(s) is Some {
        reveal_strlit("HashMap");
        lemma_find_sub_in_range(t, "HashMap"@, 0);
        let h = crate::extract::find_sub_from(t, "HashMap"@, 0)->Some_0;
        let rest = t.subrange(h + 7, t.len() as int);
        lemma_find_char_in_range(rest, '<', 0);
        lemma_rfind_char_in_range(rest, '>', rest.len() as int);
        let a = crate::extract::find_char_from(rest, '<', 0)->Some_0;
        let b = crate::extract::rfind_char_before(rest, '>', rest.len() as int)->Some_0;
        if a + 1 <= b {
            let inner = rest.subrange(a + 1, b);
            lemma_first_top_comma_in_range(inner, 0);
            if crate::extract::first_top_comma_from(inner, 0) is Some {
                let i = crate::extract::first_top_comma_from(inner, 0)->Some_0;
                lemma_trim_len(inner.subrange(0, i));
                lemma_trim_len(inner.subrange(i + 1, inner.len() as int));
            }
        }
    }
    if spec_is_tuple_type(s) {
        if t.len() >= 2 && t[0] == '(' && t.last() == ')' {
            lemma_split_sum(t.subrange(1, t.len() - 1), 0, 0);
        } else {
            reveal_strlit("(");
            reveal_strlit(")");
            reveal_strlit(",");
            assert(t.len() >= 2 && t[0] == '(' && t.last() == ')') by {
                assert(starts_with_spec(t, "("@));
                assert(ends_with_spec(t, ")"@));
                assert(contains_spec(t, ","@));
                let ci = choose|i: int| crate::strutil::matches_at(t, ","@, i);
                assert(t.subrange(ci, ci + 1)[0] == ',');
                assert(t.subrange(0, 1)[0] == t[0]);
                assert(t.subrange(t.len() - 1, t.len() as int)[0] == t.last());
                if t.len() < 2 {
                    assert(t.len() == 1);
                    assert(t[0] == '(' && t[0] == ')');
                }
            }
        }
    }
}

#[via_fn]
proof fn spec_classify_dec(s: Seq<char>) {
    lemma_extract_shorter(s);
    if spec_is_tuple_type(s) {
        lemma_sum_lens_nonneg(spec_extract_tuple_elements(s));
    }
}

#[via_fn]
proof fn spec_classify_list_dec(elems: Seq<Seq<char>>) {
    if elems.len() > 0 {
        lemma_elem_le_sum(elems, 0);
        lemma_sum_lens_nonneg(elems.drop_first());
        assert(elems.drop_first().len() == elems.len() - 1);
        assert(sum_lens(elems) == elems[0].len() + sum_lens(elems.drop_first()));
    }
}

/// The shapes of a list of spellings, elementwise.
pub proof fn lemma_classify_list_index(elems: Seq<Seq<char>>)
    ensures
        spec_classify_list(elems).len() == elems.len(),
        forall|k: int|
            0 <= k < elems.len() ==> spec_classify_list(elems)[k] == spec_classify(elems[k]),
    decreases elems.len(),
{
    if elems.len() > 0 {
        lemma_classify_list_index(elems.drop_first());
        assert forall|k: int| 0 <= k < elems.len() implies spec_classify_list(elems)[k]
            == spec_classify(elems[k]) by {
            if k > 0 {
                assert(spec_classify_list(elems)[k] == spec_classify_list(elems.drop_first())[k
                    - 1]);
                assert(elems.drop_first()[k - 1] == elems[k]);
            }
        }
    }
}

/// Classifies a type's spelling into its shape.
pub fn classify(spelling: &str) -> (r: Shape)
    ensures
        r@ == spec_classify(spelling@),
    decreases spelling@.len(),
{
    proof {
        lemma_extract_shorter(spelling@);
    }
    if is_vec_type(spelling) {
        match extract_vec_inner(spelling) {
            Some(inner) => Shape::Vector(Box::new(classify(inner.as_str()))),
            None => Shape::Unknown,
        }
    } else if is_option_type(spelling) {
        match extract_option_inner(spelling) {
            Some(inner) => Shape::Optional(Box::new(classify(inner.as_str()))),
            None => Shape::Unknown,
        }
    } else if is_result_type(spelling) {
        match extract_result_ok(spelling) {
            Some(ok) => Shape::ResultOf(Box::new(classify(ok.as_str()))),
            None => Shape::Unknown,
        }
    } else if is_tuple_type(spelling) {
        let elems = extract_tuple_elements(spelling);
        let ghost espec = spec_extract_tuple_elements(spelling@);
        let mut shapes: Vec<Shape> = Vec::new();
        let n = elems.len();
        proof {
            lemma_classify_list_index(espec);
        }
        let mut k: usize = 0;
        while k < n
            invariant
                0 <= k <= n,
                n == elems.len(),
                elems.deep_view() == espec,
                sum_lens(espec) < spelling@.len(),
                shapes@.len() == k,
                forall|j: int| 0 <= j < k ==> shapes@[j]@ == spec_classify_list(espec)[j],
                spec_classify_list(espec).len() == espec.len(),
                forall|j: int|
                    0 <= j < espec.len() ==> spec_classify_list(espec)[j] == spec_classify(
                        espec[j],
                    ),
            decreases n - k,
        {
            proof {
                lemma_elem_le_sum(espec, k as int);
                assert(elems[k as int]@ == espec[k as int]);
            }
            let sh = classify(elems[k].as_str());
            shapes.push(sh);
            k = k + 1;
        }
        proof {
            lemma_shape_models_index(shapes@);
            assert(shape_models(shapes@) =~= spec_classify_list(espec));
        }
        Shape::Tuple(shapes)
    } else if is_box_type(spelling) {
        match extract_box_inner(spelling) {
            Some(inner) => Shape::Indirection(Box::new(classify(inner.as_str()))),
            None => Shape::Unknown,
        }
    } else if is_hashmap_type(spelling) {
        match extract_hashmap_kv(spelling) {
            Some(kv) => {
                let k = classify(kv.0.as_str());
                let v = classify(kv.1.as_str());
                Shape::Mapping(Box::new(k), Box::new(v))
            },
            None => Shape::Unknown,
        }
    } else if is_number_type(spelling) {
        Shape::Number(num_width(trim(spelling)))
    } else if is_string_type(spelling) {
        Shape::Text
    } else if str_eq(trim(spelling), "bool") {
        Shape::Boolean
    } else if is_mut_struct_ref(spelling) {
        Shape::Reference { target: extract_struct_name(spelling), mutable: true }
    } else if is_struct_ref(spelling) {
        Shape::Reference { target: extract_struct_name(spelling), mutable: false }
    } else if is_struct_type(spelling) {
        Shape::Opaque(extract_struct_name(spelling))
    } else {
        Shape::Unknown
    }
}

} // verus!
