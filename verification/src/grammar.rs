//! The supported spelling grammar and the classifier's law over it.
//!
//! `spell_of` writes a shape down the way a re-serialized type reads, in
//! either of two whitespace stylings: the spaced form a token printer
//! emits, and the tight form a hand-written source holds. Classification
//! is total and terminating by construction; the law here says it is also
//! faithful on the grammar of vectors, optionals, results, tuples,
//! indirections, mappings, references, opaque names and the primitive
//! leaves, nested to any depth: every well-formed spelling classifies to
//! its own shape, never to the unknown one, and the two stylings classify
//! identically. A mutable reference keeps its target in both stylings, but
//! only the spaced form keeps its mutability; the tight form reads as a
//! shared reference.

use vstd::prelude::*;

use crate::classify::{
    is_upper_char, spec_classify, spec_is_box_type, spec_is_hashmap_type, spec_is_mut_struct_ref,
    spec_is_number_type, spec_is_option_type, spec_is_result_type, spec_is_string_type,
    spec_is_struct_ref, spec_is_struct_type, spec_is_tuple_type, spec_is_vec_type,
    spec_num_width_of, strip_amp_spec, strip_mut_spec, NumWidth, ShapeModel,
};
use crate::extract::{
    depth_at, find_char_from, find_sub_from, first_top_comma_from, is_top_comma,
    rfind_char_before, spec_extract_box_inner, spec_extract_hashmap_kv, spec_extract_option_inner,
    spec_extract_result_ok, spec_extract_struct_name, spec_extract_tuple_elements,
    spec_extract_vec_inner, spec_split_top, split_top_from,
};
use crate::strutil::{
    contains_spec, ends_with_spec, is_space_char, lemma_trim_end_subrange, lemma_trim_noop,
    lemma_trim_start_subrange, matches_at, starts_with_spec, trim_spec,
};

verus! {

/// A character a generated struct's name may hold.
pub open spec fn ident_char(c: char) -> bool {
    ||| 97 <= c as u32 <= 122
    ||| 65 <= c as u32 <= 90
    ||| 48 <= c as u32 <= 57
    ||| c == '_'
}

/// A struct name the classifier can recognize: a nonempty identifier
/// beginning with an uppercase letter that neither spells the owned text
/// type nor contains the text slice's name.
pub open spec fn opaque_name_ok(n: Seq<char>) -> bool {
    &&& n.len() > 0
    &&& is_upper_char(n[0])
    &&& forall|i: int| 0 <= i < n.len() ==> ident_char(#[trigger] n[i])
    &&& n != "String"@
    &&& !contains_spec(n, "str"@)
}

/// The grammar the classifier's law covers: primitives, text, booleans,
/// vectors, optionals, results, tuples of two or more elements,
/// indirections, mappings, references and opaque names, nested to any
/// depth.
pub open spec fn wf_shape(sh: ShapeModel) -> bool
    decreases sh,
{
    match sh {
        ShapeModel::Number(_) => true,
        ShapeModel::Text => true,
        ShapeModel::Boolean => true,
        ShapeModel::Vector(inner) => wf_shape(*inner),
        ShapeModel::Optional(inner) => wf_shape(*inner),
        ShapeModel::ResultOf(ok) => wf_shape(*ok),
        ShapeModel::Tuple(elems) => elems.len() >= 2 && wf_list(elems),
        ShapeModel::Indirection(inner) => wf_shape(*inner),
        ShapeModel::Mapping(k, v) => wf_shape(*k) && wf_shape(*v),
        ShapeModel::Reference { target, mutable: _ } => opaque_name_ok(target),
        ShapeModel::Opaque(n) => opaque_name_ok(n),
        _ => false,
    }
}

/// Whether every shape of a list belongs to the grammar.
pub open spec fn wf_list(elems: Seq<ShapeModel>) -> bool
    decreases elems,
{
    if elems.len() == 0 {
        true
    } else {
        wf_shape(elems[0]) && wf_list(elems.drop_first())
    }
}

/// Whether a shape avoids mutable references at every depth.
pub open spec fn mut_free(sh: ShapeModel) -> bool
    decreases sh,
{
    match sh {
        ShapeModel::Vector(inner) => mut_free(*inner),
        ShapeModel::Optional(inner) => mut_free(*inner),
        ShapeModel::ResultOf(ok) => mut_free(*ok),
        ShapeModel::Tuple(elems) => mut_free_list(elems),
        ShapeModel::Indirection(inner) => mut_free(*inner),
        ShapeModel::Mapping(k, v) => mut_free(*k) && mut_free(*v),
        ShapeModel::Reference { target: _, mutable } => !mutable,
        _ => true,
    }
}

/// Whether every shape of a list avoids mutable references.
pub open spec fn mut_free_list(elems: Seq<ShapeModel>) -> bool
    decreases elems,
{
    if elems.len() == 0 {
        true
    } else {
        mut_free(elems[0]) && mut_free_list(elems.drop_first())
    }
}

/// The spelling of a numeric width.
pub open spec fn width_spelling(w: NumWidth) -> Seq<char> {
    match w {
        NumWidth::I8 => "i8"@,
        NumWidth::I16 => "i16"@,
        NumWidth::I32 => "i32"@,
        NumWidth::I64 => "i64"@,
        NumWidth::I128 => "i128"@,
        NumWidth::ISize => "isize"@,
        NumWidth::U8 => "u8"@,
        NumWidth::U16 => "u16"@,
        NumWidth::U32 => "u32"@,
        NumWidth::U64 => "u64"@,
        NumWidth::U128 => "u128"@,
        NumWidth::USize => "usize"@,
        NumWidth::F32 => "f32"@,
        NumWidth::F64 => "f64"@,
    }
}

/// The spelling of a shape, in the spaced styling a token printer emits or
/// the tight styling a hand-written source holds.
pub open spec fn spell_of(sh: ShapeModel, spaced: bool) -> Seq<char>
    decreases sh,
{
    match sh {
        ShapeModel::Number(w) => width_spelling(w),
        ShapeModel::Text => "String"@,
        ShapeModel::Boolean => "bool"@,
        ShapeModel::Vector(inner) => if spaced {
            "Vec < "@ + spell_of(*inner, spaced) + " >"@
        } else {
            "Vec<"@ + spell_of(*inner, spaced) + ">"@
        },
        ShapeModel::Optional(inner) => if spaced {
            "Option < "@ + spell_of(*inner, spaced) + " >"@
        } else {
            "Option<"@ + spell_of(*inner, spaced) + ">"@
        },
        ShapeModel::ResultOf(ok) => if spaced {
            "Result < "@ + spell_of(*ok, spaced) + " , E >"@
        } else {
            "Result<"@ + spell_of(*ok, spaced) + ",E>"@
        },
        ShapeModel::Tuple(elems) => "("@ + join_spells(elems, spaced) + ")"@,
        ShapeModel::Mapping(k, v) => if spaced {
            "HashMap < "@ + spell_of(*k, spaced) + " , "@ + spell_of(*v, spaced) + " >"@
        } else {
            "HashMap<"@ + spell_of(*k, spaced) + ","@ + spell_of(*v, spaced) + ">"@
        },
        ShapeModel::Indirection(inner) => if spaced {
            "Box < "@ + spell_of(*inner, spaced) + " >"@
        } else {
            "Box<"@ + spell_of(*inner, spaced) + ">"@
        },
        ShapeModel::Reference { target, mutable } => if mutable {
            if spaced {
                "& mut "@ + target
            } else {
                "&mut "@ + target
            }
        } else {
            if spaced {
                "& "@ + target
            } else {
                "&"@ + target
            }
        },
        ShapeModel::Opaque(n) => n,
        _ => Seq::empty(),
    }
}

/// The spellings of a tuple's elements, joined by the styling's separator.
pub open spec fn join_spells(elems: Seq<ShapeModel>, spaced: bool) -> Seq<char>
    decreases elems,
{
    if elems.len() == 0 {
        Seq::empty()
    } else if elems.len() == 1 {
        spell_of(elems[0], spaced)
    } else {
        spell_of(elems[0], spaced) + (if spaced {
            " , "@
        } else {
            ","@
        }) + join_spells(elems.drop_first(), spaced)
    }
}

/// The spellings of a list of shapes, in order.
pub open spec fn spell_list(elems: Seq<ShapeModel>, spaced: bool) -> Seq<Seq<char>>
    decreases elems,
{
    if elems.len() == 0 {
        Seq::empty()
    } else {
        seq![spell_of(elems[0], spaced)] + spell_list(elems.drop_first(), spaced)
    }
}

/// The pieces of a piece list, joined by a separator.
pub open spec fn join_pieces(xs: Seq<Seq<char>>, sep: Seq<char>) -> Seq<char>
    decreases xs.len(),
{
    if xs.len() == 0 {
        Seq::empty()
    } else if xs.len() == 1 {
        xs[0]
    } else {
        xs[0] + sep + join_pieces(xs.drop_first(), sep)
    }
}

/// A piece the splitter hands back unchanged: nonempty, trimmed at both
/// edges, with its separators nested.
pub open spec fn piece_good(x: Seq<char>) -> bool {
    &&& x.len() > 0
    &&& !is_space_char(x[0])
    &&& !is_space_char(x.last())
    &&& comma_safe(x)
}

/// Whether every piece of a list is good.
pub open spec fn pieces_good(xs: Seq<Seq<char>>) -> bool {
    forall|i: int| 0 <= i < xs.len() ==> piece_good(#[trigger] xs[i])
}

/// A match inside the suffix of a concatenation is a match in the suffix.
proof fn lemma_match_shift(a: Seq<char>, b: Seq<char>, p: Seq<char>, i: int)
    requires
        matches_at(a + b, p, i),
        i >= a.len(),
    ensures
        matches_at(b, p, i - a.len()),
{
    let s = a + b;
    assert forall|k: int| 0 <= k < p.len() implies b.subrange(
        i - a.len(),
        i - a.len() + p.len(),
    )[k] == p[k] by {
        assert(s.subrange(i, i + p.len())[k] == p[k]);
        assert(s[i + k] == b[i - a.len() + k]);
    }
    assert(b.subrange(i - a.len(), i - a.len() + p.len()) =~= p);
}

/// An identifier holds no whitespace and no delimiter characters.
proof fn lemma_ident_chars(n: Seq<char>, i: int)
    requires
        opaque_name_ok(n),
        0 <= i < n.len(),
    ensures
        !is_space_char(n[i]),
        n[i] != '<',
        n[i] != '(',
        n[i] != ')',
        n[i] != ',',
        n[i] != '&',
        n[i] != ':',
{
    assert(ident_char(n[i]));
}

/// An identifier that names a struct passes the struct check unscathed:
/// no container or primitive predicate claims it, the reference strippers
/// leave it alone, and the extracted struct name is the identifier itself.
proof fn lemma_opaque_checks(n: Seq<char>)
    requires
        opaque_name_ok(n),
    ensures
        trim_spec(n) == n,
        strip_amp_spec(n) == n,
        strip_mut_spec(n) == n,
        !spec_is_vec_type(n),
        !spec_is_option_type(n),
        !spec_is_result_type(n),
        !spec_is_tuple_type(n),
        !spec_is_box_type(n),
        !spec_is_hashmap_type(n),
        !spec_is_number_type(n),
        !spec_is_string_type(n),
        n != "bool"@,
        n != "()"@,
        spec_is_struct_type(n),
        spec_extract_struct_name(n) == n,
{
    reveal_strlit("Vec <");
    reveal_strlit("Vec<");
    reveal_strlit("Option <");
    reveal_strlit("Option<");
    reveal_strlit("Result <");
    reveal_strlit("Result<");
    reveal_strlit("(");
    reveal_strlit(")");
    reveal_strlit(",");
    reveal_strlit("Box <");
    reveal_strlit("Box<");
    reveal_strlit("HashMap <");
    reveal_strlit("HashMap<");
    reveal_strlit("std :: collections :: HashMap");
    reveal_strlit("i8");
    reveal_strlit("i16");
    reveal_strlit("i32");
    reveal_strlit("i64");
    reveal_strlit("i128");
    reveal_strlit("isize");
    reveal_strlit("u8");
    reveal_strlit("u16");
    reveal_strlit("u32");
    reveal_strlit("u64");
    reveal_strlit("u128");
    reveal_strlit("usize");
    reveal_strlit("f32");
    reveal_strlit("f64");
    reveal_strlit("String");
    reveal_strlit("& str");
    reveal_strlit("str");
    reveal_strlit("bool");
    reveal_strlit("()");
    assert forall|i: int| 0 <= i < n.len() implies !is_space_char(#[trigger] n[i]) && n[i] != '<'
        && n[i] != '(' && n[i] != ')' && n[i] != ',' && n[i] != '&' && n[i] != ':' by {
        lemma_ident_chars(n, i);
    }
    lemma_trim_noop(n);
    assert(strip_amp_spec(n) == n);
    assert(strip_mut_spec(n) == n) by {
        if n.len() >= 4 && n[0] == 'm' && n[1] == 'u' && n[2] == 't' && n[3] == ' ' {
            assert(!is_space_char(n[3]));
        }
    }
    assert(!spec_is_vec_type(n)) by {
        if starts_with_spec(n, "Vec <"@) {
            assert(n.subrange(0, 5)[3] == ' ');
        }
        if starts_with_spec(n, "Vec<"@) {
            assert(n.subrange(0, 4)[3] == '<');
        }
    }
    assert(!spec_is_option_type(n)) by {
        if starts_with_spec(n, "Option <"@) {
            assert(n.subrange(0, 8)[6] == ' ');
        }
        if starts_with_spec(n, "Option<"@) {
            assert(n.subrange(0, 7)[6] == '<');
        }
    }
    assert(!spec_is_result_type(n)) by {
        if starts_with_spec(n, "Result <"@) {
            assert(n.subrange(0, 8)[6] == ' ');
        }
        if starts_with_spec(n, "Result<"@) {
            assert(n.subrange(0, 7)[6] == '<');
        }
    }
    assert(!spec_is_tuple_type(n)) by {
        if starts_with_spec(n, "("@) {
            assert(n.subrange(0, 1)[0] == '(');
        }
    }
    assert(!spec_is_box_type(n)) by {
        if starts_with_spec(n, "Box <"@) {
            assert(n.subrange(0, 5)[3] == ' ');
        }
        if starts_with_spec(n, "Box<"@) {
            assert(n.subrange(0, 4)[3] == '<');
        }
    }
    assert(!spec_is_hashmap_type(n)) by {
        if starts_with_spec(n, "HashMap <"@) {
            assert(n.subrange(0, 9)[7] == ' ');
        }
        if starts_with_spec(n, "HashMap<"@) {
            assert(n.subrange(0, 8)[7] == '<');
        }
        if starts_with_spec(n, "std :: collections :: HashMap"@) {
            assert(n.subrange(0, 29)[3] == ' ');
        }
        if contains_spec(n, "HashMap <"@) {
            let i = choose|i: int| matches_at(n, "HashMap <"@, i);
            assert(n.subrange(i, i + 9)[8] == '<');
            assert(n[i + 8] == '<');
        }
        if contains_spec(n, "HashMap<"@) {
            let i = choose|i: int| matches_at(n, "HashMap<"@, i);
            assert(n.subrange(i, i + 8)[7] == '<');
            assert(n[i + 7] == '<');
        }
    }
    assert(!spec_is_number_type(n)) by {
        assert(65 <= n[0] as u32 <= 90);
        if n == "i8"@ {
            assert(n[0] == 'i');
        }
        if n == "i16"@ {
            assert(n[0] == 'i');
        }
        if n == "i32"@ {
            assert(n[0] == 'i');
        }
        if n == "i64"@ {
            assert(n[0] == 'i');
        }
        if n == "i128"@ {
            assert(n[0] == 'i');
        }
        if n == "isize"@ {
            assert(n[0] == 'i');
        }
        if n == "u8"@ {
            assert(n[0] == 'u');
        }
        if n == "u16"@ {
            assert(n[0] == 'u');
        }
        if n == "u32"@ {
            assert(n[0] == 'u');
        }
        if n == "u64"@ {
            assert(n[0] == 'u');
        }
        if n == "u128"@ {
            assert(n[0] == 'u');
        }
        if n == "usize"@ {
            assert(n[0] == 'u');
        }
        if n == "f32"@ {
            assert(n[0] == 'f');
        }
        if n == "f64"@ {
            assert(n[0] == 'f');
        }
    }
    assert(!spec_is_string_type(n)) by {
        if n == "& str"@ {
            assert(n[0] == '&');
        }
    }
    assert(n != "bool"@) by {
        if n == "bool"@ {
            assert(n[0] == 'b');
        }
    }
    assert(n != "()"@) by {
        if n == "()"@ {
            assert(n[0] == '(');
        }
    }
}

/// A spelling whose delimiters are balanced, never negatively nested, and
/// whose separator commas all sit inside delimiters.
pub open spec fn comma_safe(x: Seq<char>) -> bool {
    &&& depth_at(x, x.len() as int) == 0
    &&& forall|i: int| 0 <= i <= x.len() ==> #[trigger] depth_at(x, i) >= 0
    &&& forall|i: int| 0 <= i < x.len() && x[i] == ',' ==> depth_at(x, i) >= 1
}

/// The nesting depth inside a prefix of a concatenation is the prefix's own.
proof fn lemma_depth_prefix(a: Seq<char>, b: Seq<char>, i: int)
    requires
        0 <= i <= a.len(),
    ensures
        depth_at(a + b, i) == depth_at(a, i),
    decreases i,
{
    if i > 0 {
        lemma_depth_prefix(a, b, i - 1);
        assert((a + b)[i - 1] == a[i - 1]);
    }
}

/// The nesting depth inside the suffix of a concatenation adds the whole
/// prefix's depth to the suffix's own.
proof fn lemma_depth_concat(a: Seq<char>, b: Seq<char>, j: int)
    requires
        0 <= j <= b.len(),
    ensures
        depth_at(a + b, a.len() + j) == depth_at(a, a.len() as int) + depth_at(b, j),
    decreases j,
{
    if j == 0 {
        lemma_depth_prefix(a, b, a.len() as int);
    } else {
        lemma_depth_concat(a, b, j - 1);
        assert((a + b)[a.len() + j - 1] == b[j - 1]);
    }
}

/// A scan for the first top-level comma skips a range that holds none.
proof fn lemma_scan_skip(s: Seq<char>, i: int, j: int)
    requires
        0 <= i <= j <= s.len(),
        forall|k: int| i <= k < j ==> !(#[trigger] is_top_comma(s, k)),
    ensures
        first_top_comma_from(s, i) == first_top_comma_from(s, j),
    decreases j - i,
{
    if i < j {
        lemma_scan_skip(s, i + 1, j);
    }
}

/// A text of plain characters nests nothing.
proof fn lemma_depth_flat(s: Seq<char>, i: int)
    requires
        0 <= i <= s.len(),
        forall|k: int| 0 <= k < s.len() ==> #[trigger] s[k] != '<' && s[k] != '>' && s[k] != '('
            && s[k] != ')',
    ensures
        depth_at(s, i) == 0,
    decreases i,
{
    if i > 0 {
        lemma_depth_flat(s, i - 1);
    }
}

/// The depth profile of a spelling segment: every prefix depth at least
/// `lo`, the whole segment's depth exactly `net`, and every comma at local
/// depth at least `cmin`.
pub open spec fn seg_profile(s: Seq<char>, lo: int, net: int, cmin: int) -> bool {
    &&& depth_at(s, s.len() as int) == net
    &&& forall|i: int| 0 <= i <= s.len() ==> #[trigger] depth_at(s, i) >= lo
    &&& forall|i: int| 0 <= i < s.len() && s[i] == ',' ==> depth_at(s, i) >= cmin
}

/// Concatenation shifts the second segment's profile by the first's net
/// depth.
proof fn lemma_profile_concat(
    a: Seq<char>,
    b: Seq<char>,
    la: int,
    na: int,
    ca: int,
    lb: int,
    nb: int,
    cb: int,
)
    requires
        seg_profile(a, la, na, ca),
        seg_profile(b, lb, nb, cb),
    ensures
        seg_profile(
            a + b,
            if la <= na + lb {
                la
            } else {
                na + lb
            },
            na + nb,
            if ca <= na + cb {
                ca
            } else {
                na + cb
            },
        ),
{
    let s = a + b;
    assert(depth_at(s, s.len() as int) == na + nb) by {
        lemma_depth_concat(a, b, b.len() as int);
    }
    assert forall|i: int| 0 <= i <= s.len() implies #[trigger] depth_at(s, i) >= (if la <= na + lb {
        la
    } else {
        na + lb
    }) by {
        if i <= a.len() {
            lemma_depth_prefix(a, b, i);
        } else {
            lemma_depth_concat(a, b, i - a.len());
        }
    }
    assert forall|i: int| 0 <= i < s.len() && s[i] == ',' implies depth_at(s, i) >= (if ca <= na
        + cb {
        ca
    } else {
        na + cb
    }) by {
        if i < a.len() {
            assert(s[i] == a[i]);
            lemma_depth_prefix(a, b, i);
        } else {
            assert(s[i] == b[i - a.len()]);
            lemma_depth_concat(a, b, i - a.len());
        }
    }
}

/// The depth profile of a prefix that holds one opening delimiter and no
/// closing one.
proof fn lemma_depth_single_open(p: Seq<char>, lt: int, i: int)
    requires
        0 <= lt < p.len(),
        0 <= i <= p.len(),
        forall|k: int| 0 <= k < p.len() ==> #[trigger] p[k] != '>' && p[k] != ')',
        forall|k: int| 0 <= k < p.len() ==> ((p[k] == '<' || p[k] == '(') <==> k == lt),
    ensures
        depth_at(p, i) == if i <= lt {
            0int
        } else {
            1int
        },
    decreases i,
{
    if i > 0 {
        lemma_depth_single_open(p, lt, i - 1);
    }
}

/// An opening piece: one opening delimiter, no separators.
proof fn lemma_opener_profile(p: Seq<char>, lt: int)
    requires
        0 <= lt < p.len(),
        forall|k: int| 0 <= k < p.len() ==> #[trigger] p[k] != '>' && p[k] != ')' && p[k] != ',',
        forall|k: int| 0 <= k < p.len() ==> ((p[k] == '<' || p[k] == '(') <==> k == lt),
    ensures
        seg_profile(p, 0, 1, 2),
{
    assert forall|i: int| 0 <= i <= p.len() implies #[trigger] depth_at(p, i) >= 0 by {
        lemma_depth_single_open(p, lt, i);
    }
    lemma_depth_single_open(p, lt, p.len() as int);
}

/// The depth profile of a suffix that holds one closing delimiter and no
/// opening one.
proof fn lemma_depth_single_close(p: Seq<char>, gt: int, i: int)
    requires
        0 <= gt < p.len(),
        0 <= i <= p.len(),
        forall|k: int| 0 <= k < p.len() ==> #[trigger] p[k] != '<' && p[k] != '(',
        forall|k: int| 0 <= k < p.len() ==> ((p[k] == '>' || p[k] == ')') <==> k == gt),
    ensures
        depth_at(p, i) == if i <= gt {
            0int
        } else {
            -1int
        },
    decreases i,
{
    if i > 0 {
        lemma_depth_single_close(p, gt, i - 1);
    }
}

/// A closing piece: one closing delimiter, any separators before it.
proof fn lemma_closer_profile(p: Seq<char>, gt: int)
    requires
        0 <= gt < p.len(),
        forall|k: int| 0 <= k < p.len() ==> #[trigger] p[k] != '<' && p[k] != '(',
        forall|k: int| 0 <= k < p.len() ==> ((p[k] == '>' || p[k] == ')') <==> k == gt),
        forall|k: int| gt < k < p.len() ==> #[trigger] p[k] != ',',
    ensures
        seg_profile(p, -1, -1, 0),
{
    assert forall|i: int| 0 <= i <= p.len() implies #[trigger] depth_at(p, i) >= -1 by {
        lemma_depth_single_close(p, gt, i);
    }
    lemma_depth_single_close(p, gt, p.len() as int);
    assert forall|i: int| 0 <= i < p.len() && p[i] == ',' implies depth_at(p, i) >= 0 by {
        lemma_depth_single_close(p, gt, i);
    }
}

/// A separator piece without delimiters sits at its base depth.
proof fn lemma_flat_profile(p: Seq<char>)
    requires
        forall|k: int| 0 <= k < p.len() ==> #[trigger] p[k] != '<' && p[k] != '>' && p[k] != '('
            && p[k] != ')',
    ensures
        seg_profile(p, 0, 0, 0),
{
    assert forall|i: int| 0 <= i <= p.len() implies #[trigger] depth_at(p, i) >= 0 by {
        lemma_depth_flat(p, i);
    }
    lemma_depth_flat(p, p.len() as int);
    assert forall|i: int| 0 <= i < p.len() && p[i] == ',' implies depth_at(p, i) >= 0 by {
        lemma_depth_flat(p, i);
    }
}

/// A delimiter-free, separator-free spelling is trivially safe.
proof fn lemma_flat_comma_safe(p: Seq<char>)
    requires
        forall|k: int| 0 <= k < p.len() ==> #[trigger] p[k] != '<' && p[k] != '>' && p[k] != '('
            && p[k] != ')' && p[k] != ',',
    ensures
        comma_safe(p),
{
    assert forall|i: int| 0 <= i <= p.len() implies #[trigger] depth_at(p, i) >= 0 by {
        lemma_depth_flat(p, i);
    }
    lemma_depth_flat(p, p.len() as int);
}

/// A container spelling around a safe payload is safe.
proof fn lemma_wrap_comma_safe(pre: Seq<char>, x: Seq<char>, suf: Seq<char>)
    requires
        seg_profile(pre, 0, 1, 2),
        comma_safe(x),
        seg_profile(suf, -1, -1, 0),
    ensures
        comma_safe(pre + x + suf),
{
    assert(seg_profile(x, 0, 0, 1));
    lemma_profile_concat(pre, x, 0, 1, 2, 0, 0, 1);
    assert(seg_profile(pre + x, 0, 1, 2));
    lemma_profile_concat(pre + x, suf, 0, 1, 2, -1, -1, 0);
    assert(seg_profile(pre + x + suf, 0, 0, 1));
}

/// The joined spellings of well-formed shapes stay balanced, and their
/// separators sit at the join's own level.
proof fn lemma_join_spells_profile(elems: Seq<ShapeModel>, spaced: bool)
    requires
        wf_list(elems),
    ensures
        seg_profile(join_spells(elems, spaced), 0, 0, 0),
    decreases elems,
{
    reveal_strlit(" , ");
    reveal_strlit(",");
    let sep: Seq<char> = if spaced {
        " , "@
    } else {
        ","@
    };
    if elems.len() == 0 {
        lemma_flat_profile(Seq::<char>::empty());
        assert(join_spells(elems, spaced) =~= Seq::<char>::empty());
    } else if elems.len() == 1 {
        lemma_spell_comma_safe(elems[0], spaced);
        assert(seg_profile(spell_of(elems[0], spaced), 0, 0, 0));
    } else {
        lemma_spell_comma_safe(elems[0], spaced);
        lemma_join_spells_profile(elems.drop_first(), spaced);
        let x0 = spell_of(elems[0], spaced);
        let rest = join_spells(elems.drop_first(), spaced);
        lemma_flat_profile(sep);
        assert(seg_profile(x0, 0, 0, 0));
        lemma_profile_concat(x0, sep, 0, 0, 0, 0, 0, 0);
        assert(seg_profile(x0 + sep, 0, 0, 0));
        lemma_profile_concat(x0 + sep, rest, 0, 0, 0, 0, 0, 0);
        assert(seg_profile(x0 + sep + rest, 0, 0, 0));
    }
}

/// Every spelling of a well-formed shape keeps its separator commas inside
/// delimiters and its delimiters balanced.
#[verifier::rlimit(60)]
pub proof fn lemma_spell_comma_safe(sh: ShapeModel, spaced: bool)
    requires
        wf_shape(sh),
    ensures
        comma_safe(spell_of(sh, spaced)),
    decreases sh,
{
    reveal_strlit("Vec < ");
    reveal_strlit("Vec<");
    reveal_strlit("Option < ");
    reveal_strlit("Option<");
    reveal_strlit("Result < ");
    reveal_strlit("Result<");
    reveal_strlit("Box < ");
    reveal_strlit("Box<");
    reveal_strlit("HashMap < ");
    reveal_strlit("HashMap<");
    reveal_strlit(" >");
    reveal_strlit(">");
    reveal_strlit(" , E >");
    reveal_strlit(",E>");
    reveal_strlit(" , ");
    reveal_strlit(",");
    reveal_strlit("i8");
    reveal_strlit("i16");
    reveal_strlit("i32");
    reveal_strlit("i64");
    reveal_strlit("i128");
    reveal_strlit("isize");
    reveal_strlit("u8");
    reveal_strlit("u16");
    reveal_strlit("u32");
    reveal_strlit("u64");
    reveal_strlit("u128");
    reveal_strlit("usize");
    reveal_strlit("f32");
    reveal_strlit("f64");
    reveal_strlit("String");
    reveal_strlit("bool");
    reveal_strlit("& mut ");
    reveal_strlit("&mut ");
    reveal_strlit("& ");
    reveal_strlit("&");
    let s = spell_of(sh, spaced);
    match sh {
        ShapeModel::Number(_) => {
            lemma_flat_comma_safe(s);
        },
        ShapeModel::Text => {
            lemma_flat_comma_safe(s);
        },
        ShapeModel::Boolean => {
            lemma_flat_comma_safe(s);
        },
        ShapeModel::Vector(inner) => {
            lemma_spell_comma_safe(*inner, spaced);
            let x = spell_of(*inner, spaced);
            if spaced {
                lemma_opener_profile("Vec < "@, 4);
                lemma_closer_profile(" >"@, 1);
                lemma_wrap_comma_safe("Vec < "@, x, " >"@);
            } else {
                lemma_opener_profile("Vec<"@, 3);
                lemma_closer_profile(">"@, 0);
                lemma_wrap_comma_safe("Vec<"@, x, ">"@);
            }
        },
        ShapeModel::Optional(inner) => {
            lemma_spell_comma_safe(*inner, spaced);
            let x = spell_of(*inner, spaced);
            if spaced {
                lemma_opener_profile("Option < "@, 7);
                lemma_closer_profile(" >"@, 1);
                lemma_wrap_comma_safe("Option < "@, x, " >"@);
            } else {
                lemma_opener_profile("Option<"@, 6);
                lemma_closer_profile(">"@, 0);
                lemma_wrap_comma_safe("Option<"@, x, ">"@);
            }
        },
        ShapeModel::ResultOf(ok) => {
            lemma_spell_comma_safe(*ok, spaced);
            let x = spell_of(*ok, spaced);
            if spaced {
                lemma_opener_profile("Result < "@, 7);
                lemma_closer_profile(" , E >"@, 5);
                lemma_wrap_comma_safe("Result < "@, x, " , E >"@);
            } else {
                lemma_opener_profile("Result<"@, 6);
                lemma_closer_profile(",E>"@, 2);
                lemma_wrap_comma_safe("Result<"@, x, ",E>"@);
            }
        },
        ShapeModel::Tuple(elems) => {
            reveal_strlit("(");
            reveal_strlit(")");
            lemma_join_spells_profile(elems, spaced);
            let j = join_spells(elems, spaced);
            lemma_opener_profile("("@, 0);
            lemma_closer_profile(")"@, 0);
            lemma_profile_concat("("@, j, 0, 1, 2, 0, 0, 0);
            assert(seg_profile("("@ + j, 0, 1, 1));
            lemma_profile_concat("("@ + j, ")"@, 0, 1, 1, -1, -1, 0);
            assert(seg_profile("("@ + j + ")"@, 0, 0, 1));
        },
        ShapeModel::Indirection(inner) => {
            lemma_spell_comma_safe(*inner, spaced);
            let x = spell_of(*inner, spaced);
            if spaced {
                lemma_opener_profile("Box < "@, 4);
                lemma_closer_profile(" >"@, 1);
                lemma_wrap_comma_safe("Box < "@, x, " >"@);
            } else {
                lemma_opener_profile("Box<"@, 3);
                lemma_closer_profile(">"@, 0);
                lemma_wrap_comma_safe("Box<"@, x, ">"@);
            }
        },
        ShapeModel::Mapping(k, v) => {
            lemma_spell_comma_safe(*k, spaced);
            lemma_spell_comma_safe(*v, spaced);
            let kx = spell_of(*k, spaced);
            let vx = spell_of(*v, spaced);
            let pre: Seq<char> = if spaced {
                "HashMap < "@
            } else {
                "HashMap<"@
            };
            let mid: Seq<char> = if spaced {
                " , "@
            } else {
                ","@
            };
            let suf: Seq<char> = if spaced {
                " >"@
            } else {
                ">"@
            };
            if spaced {
                lemma_opener_profile(pre, 8);
                lemma_closer_profile(suf, 1);
            } else {
                lemma_opener_profile(pre, 7);
                lemma_closer_profile(suf, 0);
            }
            lemma_flat_profile(mid);
            assert(seg_profile(kx, 0, 0, 1));
            assert(seg_profile(vx, 0, 0, 1));
            lemma_profile_concat(pre, kx, 0, 1, 2, 0, 0, 1);
            assert(seg_profile(pre + kx, 0, 1, 2));
            lemma_profile_concat(pre + kx, mid, 0, 1, 2, 0, 0, 0);
            assert(seg_profile(pre + kx + mid, 0, 1, 1));
            lemma_profile_concat(pre + kx + mid, vx, 0, 1, 1, 0, 0, 1);
            assert(seg_profile(pre + kx + mid + vx, 0, 1, 1));
            lemma_profile_concat(pre + kx + mid + vx, suf, 0, 1, 1, -1, -1, 0);
            assert(seg_profile(pre + kx + mid + vx + suf, 0, 0, 1));
            assert(s == pre + kx + mid + vx + suf);
        },
        ShapeModel::Reference { target, mutable } => {
            assert forall|i: int| 0 <= i < s.len() implies #[trigger] s[i] != '<' && s[i] != '>'
                && s[i] != '(' && s[i] != ')' && s[i] != ',' by {
                let amp: Seq<char> = if mutable {
                    if spaced {
                        "& mut "@
                    } else {
                        "&mut "@
                    }
                } else {
                    if spaced {
                        "& "@
                    } else {
                        "&"@
                    }
                };
                assert(s == amp + target);
                if i >= amp.len() {
                    lemma_ident_chars(target, i - amp.len());
                }
            }
            lemma_flat_comma_safe(s);
        },
        ShapeModel::Opaque(n) => {
            assert forall|i: int| 0 <= i < s.len() implies #[trigger] s[i] != '<' && s[i] != '>'
                && s[i] != '(' && s[i] != ')' && s[i] != ',' by {
                lemma_ident_chars(n, i);
            }
            lemma_flat_comma_safe(s);
        },
        _ => {
            assert(false);
        },
    }
}

/// A payload padded with one space on each side trims back to itself.
proof fn lemma_trim_pad(padded: Seq<char>, x: Seq<char>)
    requires
        padded.len() == x.len() as int + 2,
        padded[0] == ' ',
        padded.last() == ' ',
        forall|j: int| 0 <= j < x.len() ==> padded[1 + j] == x[j],
        x.len() > 0,
        !is_space_char(x[0]),
        !is_space_char(x.last()),
    ensures
        trim_spec(padded) == x,
{
    lemma_trim_start_subrange(padded, 1);
    let m2 = padded.subrange(1, padded.len() as int);
    assert(m2[x.len() - 1] == x.last());
    lemma_trim_end_subrange(m2, x.len() as int);
    assert(m2.subrange(0, x.len() as int) =~= x);
}

/// A safe payload embedded at an offset where the surrounding depth is
/// zero contributes no top-level comma.
proof fn lemma_payload_commas_nested(inner: Seq<char>, x: Seq<char>, off: int)
    requires
        comma_safe(x),
        0 <= off,
        off + x.len() <= inner.len(),
        forall|j: int| 0 <= j < x.len() ==> inner[off + j] == x[j],
        forall|j: int| 0 <= j <= x.len() ==> depth_at(inner, off + j) == depth_at(x, j),
    ensures
        forall|k: int| off <= k < off + x.len() ==> !(#[trigger] is_top_comma(inner, k)),
{
    assert forall|k: int| off <= k < off + x.len() implies !(#[trigger] is_top_comma(inner, k)) by {
        if inner[k] == ',' {
            assert(x[k - off] == ',');
            assert(depth_at(x, k - off) >= 1);
        }
    }
}

/// The success spelling of a result spelling's argument list is the
/// payload written before the separator.
proof fn lemma_result_extract(x: Seq<char>, spaced: bool)
    requires
        comma_safe(x),
        x.len() > 0,
        !is_space_char(x[0]),
        !is_space_char(x.last()),
    ensures
        spaced ==> spec_extract_result_ok("Result < "@ + x + " , E >"@) == Some(x),
        !spaced ==> spec_extract_result_ok("Result<"@ + x + ",E>"@) == Some(x),
{
    reveal_strlit("Result < ");
    reveal_strlit("Result <");
    reveal_strlit("Result<");
    reveal_strlit(" , E >");
    reveal_strlit(" , E ");
    reveal_strlit(",E>");
    reveal_strlit(",E");
    reveal_strlit(" ");
    if spaced {
        let s = "Result < "@ + x + " , E >"@;
        assert(s[0] == 'R');
        assert(s.last() == '>') by {
            assert(s[s.len() - 1] == (" , E >"@)[5]);
        }
        lemma_trim_noop(s);
        assert(starts_with_spec(s, "Result <"@)) by {
            assert(s.subrange(0, 8) =~= "Result <"@);
        }
        let inner = s.subrange(8, s.len() - 1);
        let a = " "@ + x;
        let b = " , E "@;
        assert(inner =~= a + b) by {
            assert forall|j: int| 0 <= j < inner.len() implies inner[j] == (a + b)[j] by {
                assert(inner[j] == s[8 + j]);
                if j == 0 {
                    assert(s[8] == ("Result < "@)[8]);
                } else if j < 1 + x.len() {
                    assert(s[8 + j] == x[j - 1]);
                } else {
                    assert(s[8 + j] == (" , E >"@)[j - 1 - x.len()]);
                }
            }
        }
        lemma_inner_scan(inner, a, b, x);
        assert(first_top_comma_from(inner, 0) == Some(x.len() as int + 2));
        let piece = inner.subrange(0, x.len() as int + 2);
        assert(piece.len() == x.len() as int + 2);
        assert(piece[0] == ' ');
        assert(piece.last() == ' ') by {
            assert(inner[x.len() as int + 1] == b[0]);
        }
        assert(forall|j: int| 0 <= j < x.len() ==> piece[1 + j] == x[j]);
        lemma_trim_pad(piece, x);
    } else {
        let s = "Result<"@ + x + ",E>"@;
        assert(s[0] == 'R');
        assert(s.last() == '>') by {
            assert(s[s.len() - 1] == (",E>"@)[2]);
        }
        lemma_trim_noop(s);
        assert(!starts_with_spec(s, "Result <"@)) by {
            if starts_with_spec(s, "Result <"@) {
                assert(s.subrange(0, 8)[6] == ' ');
                assert(s[6] == '<');
            }
        }
        assert(starts_with_spec(s, "Result<"@)) by {
            assert(s.subrange(0, 7) =~= "Result<"@);
        }
        let inner = s.subrange(7, s.len() - 1);
        let b = ",E"@;
        assert(inner =~= x + b) by {
            assert forall|j: int| 0 <= j < inner.len() implies inner[j] == (x + b)[j] by {
                assert(inner[j] == s[7 + j]);
                if j < x.len() {
                    assert(s[7 + j] == x[j]);
                } else {
                    assert(s[7 + j] == (",E>"@)[j - x.len()]);
                }
            }
        }
        assert forall|j: int| 0 <= j <= x.len() implies depth_at(inner, j) == depth_at(x, j) by {
            lemma_depth_prefix(x, b, j);
        }
        lemma_payload_commas_nested(inner, x, 0);
        assert(is_top_comma(inner, x.len() as int)) by {
            assert(inner[x.len() as int] == b[0]);
        }
        lemma_scan_skip(inner, 0, x.len() as int);
        assert(first_top_comma_from(inner, x.len() as int) == Some(x.len() as int));
        assert(inner.subrange(0, x.len() as int) =~= x);
        lemma_trim_noop(x);
    }
}

/// The scan over a padded payload followed by a separator piece finds the
/// separator's comma first.
proof fn lemma_inner_scan(inner: Seq<char>, a: Seq<char>, b: Seq<char>, x: Seq<char>)
    requires
        comma_safe(x),
        x.len() > 0,
        a == " "@ + x,
        inner == a + b,
        b.len() >= 2,
        b[0] == ' ',
        b[1] == ',',
        forall|k: int| 0 <= k < b.len() ==> #[trigger] b[k] != '<' && b[k] != '>' && b[k] != '('
            && b[k] != ')',
    ensures
        first_top_comma_from(inner, 0) == Some(x.len() as int + 2),
{
    reveal_strlit(" ");
    assert(depth_at(" "@, 0) == 0);
    assert(depth_at(" "@, 1) == 0);
    assert forall|j: int| 0 <= j <= x.len() implies depth_at(inner, 1 + j) == depth_at(x, j) by {
        lemma_depth_concat(" "@, x, j);
        lemma_depth_prefix(a, b, 1 + j);
    }
    lemma_payload_commas_nested(inner, x, 1);
    assert(!is_top_comma(inner, 0)) by {
        assert(inner[0] == a[0]);
        assert(a[0] == ' ');
    }
    assert(!is_top_comma(inner, a.len() as int)) by {
        assert(inner[a.len() as int] == b[0]);
    }
    assert(is_top_comma(inner, a.len() as int + 1)) by {
        assert(inner[a.len() as int + 1] == b[1]);
        assert(depth_at(inner, a.len() as int) == depth_at(x, x.len() as int));
        assert(depth_at(inner, a.len() as int + 1) == depth_at(inner, a.len() as int) + crate::extract::depth_delta(
            inner[a.len() as int],
        ));
    }
    assert forall|k: int| 0 <= k < a.len() as int + 1 implies !(#[trigger] is_top_comma(inner, k)) by {
        if k == 0 {
        } else if k < a.len() {
            assert(!is_top_comma(inner, k));
        }
    }
    lemma_scan_skip(inner, 0, a.len() as int + 1);
    assert(first_top_comma_from(inner, a.len() as int + 1) == Some(a.len() as int + 1));
}

/// The key and value spellings of a mapping spelling are the payloads
/// around the separator.
#[verifier::rlimit(100)]
#[verifier::spinoff_prover]
proof fn lemma_mapping_extract(k: Seq<char>, v: Seq<char>, spaced: bool)
    requires
        comma_safe(k),
        comma_safe(v),
        k.len() > 0,
        v.len() > 0,
        !is_space_char(k[0]),
        !is_space_char(k.last()),
        !is_space_char(v[0]),
        !is_space_char(v.last()),
    ensures
        spaced ==> spec_extract_hashmap_kv("HashMap < "@ + k + " , "@ + v + " >"@) == Some(
            (k, v),
        ),
        !spaced ==> spec_extract_hashmap_kv("HashMap<"@ + k + ","@ + v + ">"@) == Some((k, v)),
{
    reveal_strlit("HashMap < ");
    reveal_strlit("HashMap<");
    reveal_strlit("HashMap");
    reveal_strlit(" , ");
    reveal_strlit(",");
    reveal_strlit(" >");
    reveal_strlit(">");
    reveal_strlit(" ");
    if spaced {
        let s = "HashMap < "@ + k + " , "@ + v + " >"@;
        assert(s[0] == 'H');
        assert(s.last() == '>') by {
            assert(s[s.len() - 1] == (" >"@)[1]);
        }
        lemma_trim_noop(s);
        assert(find_sub_from(s, "HashMap"@, 0) == Some(0int)) by {
            assert(s.subrange(0, 7) =~= "HashMap"@);
            assert(crate::strutil::matches_at(s, "HashMap"@, 0));
        }
        let rest = s.subrange(7, s.len() as int);
        // the tail after the mapping's name: space, bracket, space, the
        // key, the separator, the value, space, bracket
        assert(rest[0] == ' ' && rest[1] == '<' && rest[2] == ' ') by {
            assert(rest[0] == s[7]);
            assert(rest[1] == s[8]);
            assert(rest[2] == s[9]);
            assert(s[7] == ("HashMap < "@)[7]);
            assert(s[8] == ("HashMap < "@)[8]);
            assert(s[9] == ("HashMap < "@)[9]);
        }
        assert(find_char_from(rest, '<', 0) == find_char_from(rest, '<', 1));
        assert(find_char_from(rest, '<', 1) == Some(1int));
        assert(rest[rest.len() - 1] == '>') by {
            assert(rest[rest.len() - 1] == s[s.len() - 1]);
        }
        assert(rfind_char_before(rest, '>', rest.len() as int) == Some(rest.len() - 1));
        let inner = rest.subrange(2, rest.len() - 1);
        let a = " "@ + k;
        let b = " , "@ + v + " "@;
        assert(inner =~= a + b) by {
            assert forall|j: int| 0 <= j < inner.len() implies inner[j] == (a + b)[j] by {
                assert(inner[j] == s[9 + j]);
                if j == 0 {
                    assert(s[9] == ("HashMap < "@)[9]);
                } else if j < 1 + k.len() {
                    assert(s[9 + j] == k[j - 1]);
                } else if j < 1 + k.len() as int + 3 {
                    assert(s[9 + j] == (" , "@)[j - 1 - k.len()]);
                    assert((a + b)[j] == b[j - a.len()]);
                    assert(b[j - a.len()] == (" , "@)[j - a.len()]);
                } else if j < 1 + k.len() as int + 3 + v.len() {
                    assert(s[9 + j] == v[j - 4 - k.len()]);
                    assert((a + b)[j] == b[j - a.len()]);
                } else {
                    assert(s[9 + j] == (" >"@)[0]);
                    assert((a + b)[j] == b[j - a.len()]);
                }
            }
        }
        assert(b[0] == ' ' && b[1] == ',') by {
            assert(b[0] == (" , "@)[0]);
            assert(b[1] == (" , "@)[1]);
        }
        lemma_mapping_scan(inner, a, b, k, v);
        assert(first_top_comma_from(inner, 0) == Some(k.len() as int + 2));
        let key_piece = inner.subrange(0, k.len() as int + 2);
        assert(key_piece[0] == ' ');
        assert(key_piece.last() == ' ') by {
            assert(inner[k.len() as int + 1] == b[0]);
        }
        assert(forall|j: int| 0 <= j < k.len() ==> key_piece[1 + j] == k[j]);
        lemma_trim_pad(key_piece, k);
        let val_piece = inner.subrange(k.len() as int + 3, inner.len() as int);
        assert(val_piece.len() == v.len() + 2);
        assert(val_piece[0] == ' ') by {
            assert(inner[k.len() as int + 3] == b[2]);
            assert(b[2] == (" , "@)[2]);
        }
        assert(val_piece.last() == ' ') by {
            assert(inner[inner.len() - 1] == b[b.len() - 1]);
            assert(b[b.len() - 1] == (" "@)[0]);
        }
        assert(forall|j: int| 0 <= j < v.len() ==> val_piece[1 + j] == v[j]) by {
            assert forall|j: int| 0 <= j < v.len() implies val_piece[1 + j] == v[j] by {
                assert(val_piece[1 + j] == inner[k.len() as int + 4 + j]);
                assert(inner[k.len() as int + 4 + j] == b[k.len() as int + 4 + j - a.len()]);
                assert(b[3 + j] == v[j]);
            }
        }
        lemma_trim_pad(val_piece, v);
    } else {
        let s = "HashMap<"@ + k + ","@ + v + ">"@;
        assert(s[0] == 'H');
        assert(s.last() == '>') by {
            assert(s[s.len() - 1] == (">"@)[0]);
        }
        lemma_trim_noop(s);
        assert(find_sub_from(s, "HashMap"@, 0) == Some(0int)) by {
            assert(s.subrange(0, 7) =~= "HashMap"@);
            assert(crate::strutil::matches_at(s, "HashMap"@, 0));
        }
        let rest = s.subrange(7, s.len() as int);
        assert(rest[0] == '<') by {
            assert(rest[0] == s[7]);
            assert(s[7] == ("HashMap<"@)[7]);
        }
        assert(find_char_from(rest, '<', 0) == Some(0int));
        assert(rest[rest.len() - 1] == '>') by {
            assert(rest[rest.len() - 1] == s[s.len() - 1]);
        }
        assert(rfind_char_before(rest, '>', rest.len() as int) == Some(rest.len() - 1));
        let inner = rest.subrange(1, rest.len() - 1);
        let b = ","@ + v;
        assert(inner =~= k + b) by {
            assert forall|j: int| 0 <= j < inner.len() implies inner[j] == (k + b)[j] by {
                assert(inner[j] == s[8 + j]);
                if j < k.len() {
                    assert(s[8 + j] == k[j]);
                } else if j == k.len() {
                    assert(s[8 + j] == (","@)[0]);
                    assert((k + b)[j] == b[0]);
                } else {
                    assert(s[8 + j] == v[j - 1 - k.len()]);
                    assert((k + b)[j] == b[j - k.len()]);
                }
            }
        }
        assert forall|j: int| 0 <= j <= k.len() implies depth_at(inner, j) == depth_at(k, j) by {
            lemma_depth_prefix(k, b, j);
        }
        lemma_payload_commas_nested(inner, k, 0);
        assert(is_top_comma(inner, k.len() as int)) by {
            assert(inner[k.len() as int] == b[0]);
        }
        lemma_scan_skip(inner, 0, k.len() as int);
        assert(first_top_comma_from(inner, k.len() as int) == Some(k.len() as int));
        assert(inner.subrange(0, k.len() as int) =~= k);
        lemma_trim_noop(k);
        assert(inner.subrange(k.len() as int + 1, inner.len() as int) =~= v);
        lemma_trim_noop(v);
    }
}

/// The scan over a padded key followed by the separator and the value
/// finds the separator's comma first.
proof fn lemma_mapping_scan(inner: Seq<char>, a: Seq<char>, b: Seq<char>, k: Seq<char>,
    v: Seq<char>)
    requires
        comma_safe(k),
        k.len() > 0,
        a == " "@ + k,
        inner == a + b,
        b.len() >= 2,
        b[0] == ' ',
        b[1] == ',',
    ensures
        first_top_comma_from(inner, 0) == Some(k.len() as int + 2),
{
    reveal_strlit(" ");
    assert(depth_at(" "@, 0) == 0);
    assert(depth_at(" "@, 1) == 0);
    assert forall|j: int| 0 <= j <= k.len() implies depth_at(inner, 1 + j) == depth_at(k, j) by {
        lemma_depth_concat(" "@, k, j);
        lemma_depth_prefix(a, b, 1 + j);
    }
    lemma_payload_commas_nested(inner, k, 1);
    assert(!is_top_comma(inner, 0)) by {
        assert(inner[0] == a[0]);
        assert(a[0] == ' ');
    }
    assert(!is_top_comma(inner, a.len() as int)) by {
        assert(inner[a.len() as int] == b[0]);
    }
    assert(is_top_comma(inner, a.len() as int + 1)) by {
        assert(inner[a.len() as int + 1] == b[1]);
        assert(depth_at(inner, a.len() as int) == depth_at(k, k.len() as int));
        assert(depth_at(inner, a.len() as int + 1) == depth_at(inner, a.len() as int)
            + crate::extract::depth_delta(inner[a.len() as int]));
    }
    lemma_scan_skip(inner, 0, a.len() as int + 1);
    assert(first_top_comma_from(inner, a.len() as int + 1) == Some(a.len() as int + 1));
}

/// The depth at an inner position is the depth at the segment's start plus
/// the segment's own depth.
proof fn lemma_depth_mid(s: Seq<char>, i: int, m: int)
    requires
        0 <= i <= s.len(),
        0 <= m <= s.len() - i,
    ensures
        depth_at(s, i + m) == depth_at(s, i) + depth_at(s.subrange(i, s.len() as int), m),
    decreases m,
{
    if m > 0 {
        lemma_depth_mid(s, i, m - 1);
        assert(s.subrange(i, s.len() as int)[m - 1] == s[i + m - 1]);
    }
}

/// A scan across a range without top-level commas ends in the terminal
/// piece.
proof fn lemma_split_no_comma(s: Seq<char>, i: int, start: int)
    requires
        0 <= start <= i <= s.len(),
        forall|k: int| i <= k < s.len() ==> !(#[trigger] is_top_comma(s, k)),
    ensures
        split_top_from(s, i, start) == ({
            let last = trim_spec(s.subrange(start, s.len() as int));
            if last.len() > 0 {
                seq![last]
            } else {
                Seq::<Seq<char>>::empty()
            }
        }),
    decreases s.len() - i,
{
    if i < s.len() {
        lemma_split_no_comma(s, i + 1, start);
    }
}

/// A scan that first meets a top-level comma at `c` splits there.
proof fn lemma_split_until_comma(s: Seq<char>, i: int, start: int, c: int)
    requires
        0 <= start <= i <= c < s.len(),
        forall|k: int| i <= k < c ==> !(#[trigger] is_top_comma(s, k)),
        is_top_comma(s, c),
    ensures
        split_top_from(s, i, start) == seq![trim_spec(s.subrange(start, c))] + split_top_from(
            s,
            c + 1,
            c + 1,
        ),
    decreases c - i,
{
    if i < c {
        lemma_split_until_comma(s, i + 1, start, c);
    }
}

/// A payload padded with one leading space trims back to itself.
proof fn lemma_trim_lead(p: Seq<char>, x: Seq<char>)
    requires
        p.len() == x.len() + 1,
        p[0] == ' ',
        forall|j: int| 0 <= j < x.len() ==> p[1 + j] == x[j],
        x.len() > 0,
        !is_space_char(x[0]),
        !is_space_char(x.last()),
    ensures
        trim_spec(p) == x,
{
    lemma_trim_start_subrange(p, 1);
    assert(p.subrange(1, p.len() as int) =~= x);
    lemma_trim_end_subrange(x, x.len() as int);
    assert(x.subrange(0, x.len() as int) =~= x);
}

/// A payload padded with one trailing space trims back to itself.
proof fn lemma_trim_trail(p: Seq<char>, x: Seq<char>)
    requires
        p.len() == x.len() + 1,
        p.last() == ' ',
        forall|j: int| 0 <= j < x.len() ==> p[j] == x[j],
        x.len() > 0,
        !is_space_char(x[0]),
        !is_space_char(x.last()),
    ensures
        trim_spec(p) == x,
{
    lemma_trim_start_subrange(p, 0);
    assert(p.subrange(0, p.len() as int) =~= p);
    assert(p[x.len() - 1] == x.last());
    lemma_trim_end_subrange(p, x.len() as int);
    assert(p.subrange(0, x.len() as int) =~= x);
}

/// Splitting the joined suffix of good pieces yields exactly the pieces:
/// the scan from `start` sees an optional one-space pad, the first piece
/// with its separators nested, then either the end or the styling's
/// top-level separator, and recurs behind it.
#[verifier::rlimit(100)]
#[verifier::spinoff_prover]
proof fn lemma_split_suffix(inner: Seq<char>, start: int, xs: Seq<Seq<char>>, spaced: bool,
    padded: bool)
    requires
        0 <= start <= inner.len(),
        xs.len() >= 1,
        pieces_good(xs),
        depth_at(inner, start) == 0,
        inner.subrange(start, inner.len() as int) =~= (if padded {
            " "@
        } else {
            Seq::<char>::empty()
        }) + join_pieces(
            xs,
            if spaced {
                " , "@
            } else {
                ","@
            },
        ),
    ensures
        split_top_from(inner, start, start) == xs,
    decreases xs.len(),
{
    reveal_strlit(" , ");
    reveal_strlit(",");
    reveal_strlit(" ");
    let sep: Seq<char> = if spaced {
        " , "@
    } else {
        ","@
    };
    let pad: Seq<char> = if padded {
        " "@
    } else {
        Seq::<char>::empty()
    };
    let pl = pad.len() as int;
    let rem = inner.subrange(start, inner.len() as int);
    let x0 = xs[0];
    assert(piece_good(x0));
    assert(depth_at(pad, pl) == 0) by {
        if padded {
            assert(depth_at(" "@, 0) == 0);
            assert(depth_at(" "@, 1) == 0);
        }
    }
    if xs.len() == 1 {
        assert(rem =~= pad + x0);
        assert forall|k: int| start <= k < inner.len() implies !(#[trigger] is_top_comma(
            inner,
            k,
        )) by {
            let t = k - start;
            assert(inner[k] == rem[t]);
            if t < pl {
                assert(rem[t] == pad[t]);
            } else {
                assert(rem[t] == x0[t - pl]);
                if x0[t - pl] == ',' {
                    lemma_depth_mid(inner, start, t);
                    lemma_depth_concat(pad, x0, t - pl);
                    assert(depth_at(rem, t) == depth_at(x0, t - pl));
                    assert(depth_at(x0, t - pl) >= 1);
                }
            }
        }
        lemma_split_no_comma(inner, start, start);
        if padded {
            lemma_trim_lead(rem, x0);
        } else {
            assert(rem =~= x0);
            lemma_trim_noop(x0);
        }
        assert(split_top_from(inner, start, start) =~= seq![x0]);
        assert(xs =~= seq![x0]);
    } else {
        let rest = xs.drop_first();
        let jrest = join_pieces(rest, sep);
        assert(join_pieces(xs, sep) == x0 + sep + jrest);
        assert(rem =~= pad + (x0 + sep + jrest));
        assert(jrest.len() >= 1) by {
            assert(pieces_good(rest)) by {
                assert forall|i: int| 0 <= i < rest.len() implies piece_good(
                    #[trigger] rest[i],
                ) by {
                    assert(rest[i] == xs[i + 1]);
                }
            }
            assert(rest[0].len() > 0);
            if rest.len() == 1 {
                assert(jrest == rest[0]);
            } else {
                assert(jrest == rest[0] + sep + join_pieces(rest.drop_first(), sep));
            }
        }
        let c = start + pl + x0.len() + (if spaced {
            1int
        } else {
            0int
        });
        assert(c < inner.len());
        // every position before the separator's comma is below it or nested
        assert forall|k: int| start <= k < c implies !(#[trigger] is_top_comma(inner, k)) by {
            let t = k - start;
            assert(inner[k] == rem[t]);
            assert(rem[t] == (pad + (x0 + sep + jrest))[t]);
            if t < pl {
                assert(rem[t] == pad[t]);
            } else if t < pl + x0.len() {
                assert(rem[t] == x0[t - pl]);
                if x0[t - pl] == ',' {
                    lemma_depth_mid(inner, start, t);
                    lemma_depth_prefix(x0, sep + jrest, t - pl);
                    assert((x0 + (sep + jrest)) =~= (x0 + sep + jrest));
                    lemma_depth_concat(pad, x0 + sep + jrest, t - pl);
                    assert(depth_at(rem, t) == depth_at(x0 + sep + jrest, t - pl));
                    assert(depth_at(x0 + sep + jrest, t - pl) == depth_at(x0, t - pl));
                    assert(depth_at(x0, t - pl) >= 1);
                }
            } else {
                // only reachable in the spaced styling: the space before
                // the separator's comma
                assert(t == pl + x0.len());
                assert(spaced);
                assert(rem[t] == sep[0]);
            }
        }
        assert(is_top_comma(inner, c)) by {
            let t = c - start;
            assert(inner[c] == rem[t]);
            if spaced {
                assert(rem[t] == sep[1]);
            } else {
                assert(rem[t] == sep[0]);
            }
            lemma_depth_mid(inner, start, t);
            lemma_depth_concat(pad, x0 + sep + jrest, t - pl);
            assert((x0 + (sep + jrest)) =~= (x0 + sep + jrest));
            lemma_depth_concat(x0, sep + jrest, t - pl - x0.len());
            assert(depth_at(x0 + sep + jrest, t - pl) == depth_at(x0, x0.len() as int)
                + depth_at(sep + jrest, t - pl - x0.len()));
            assert(depth_at(sep + jrest, t - pl - x0.len()) == 0) by {
                if spaced {
                    lemma_depth_prefix(sep, jrest, 1);
                    assert(depth_at(sep, 0) == 0);
                    assert(depth_at(sep, 1) == 0);
                } else {
                    lemma_depth_prefix(sep, jrest, 0);
                }
            }
        }
        lemma_split_until_comma(inner, start, start, c);
        // the piece before the comma trims to the first element
        let piece = inner.subrange(start, c);
        assert(piece.len() == pl + x0.len() + (if spaced {
            1int
        } else {
            0int
        }));
        assert(forall|j: int| 0 <= j < piece.len() ==> #[trigger] piece[j] == rem[j]);
        if padded && spaced {
            assert(piece[0] == ' ');
            assert(piece.last() == ' ') by {
                assert(rem[pl + x0.len()] == sep[0]);
            }
            assert(forall|j: int| 0 <= j < x0.len() ==> piece[1 + j] == x0[j]);
            lemma_trim_pad(piece, x0);
        } else if padded {
            assert(piece[0] == ' ');
            assert(forall|j: int| 0 <= j < x0.len() ==> piece[1 + j] == x0[j]);
            lemma_trim_lead(piece, x0);
        } else if spaced {
            assert(piece.last() == ' ') by {
                assert(rem[pl + x0.len()] == sep[0]);
            }
            assert(forall|j: int| 0 <= j < x0.len() ==> piece[j] == x0[j]);
            lemma_trim_trail(piece, x0);
        } else {
            assert(piece =~= x0);
            lemma_trim_noop(x0);
        }
        // the text behind the comma is the join of the remaining pieces,
        // led by the styling's pad
        assert(depth_at(inner, c + 1) == 0) by {
            assert(inner[c] == ',');
        }
        let tail = inner.subrange(c + 1, inner.len() as int);
        let lead: Seq<char> = (if spaced {
            " "@
        } else {
            Seq::<char>::empty()
        }) + jrest;
        assert forall|m: int| 0 <= m < tail.len() implies #[trigger] tail[m] == lead[m] by {
            let t = c + 1 - start + m;
            assert(tail[m] == inner[c + 1 + m]);
            assert(inner[c + 1 + m] == rem[t]);
            if spaced {
                if m == 0 {
                    assert(rem[t] == sep[2]);
                } else {
                    assert(rem[t] == jrest[m - 1]);
                }
            } else {
                assert(rem[t] == jrest[m]);
            }
        }
        assert(tail =~= lead);
        assert(pieces_good(rest)) by {
            assert forall|i: int| 0 <= i < rest.len() implies piece_good(#[trigger] rest[i]) by {
                assert(rest[i] == xs[i + 1]);
            }
        }
        lemma_split_suffix(inner, c + 1, rest, spaced, spaced);
        assert(split_top_from(inner, start, start) =~= seq![x0] + rest);
        assert(seq![x0] + rest =~= xs);
    }
}

/// Splitting the join of good pieces yields exactly the pieces.
proof fn lemma_split_join(xs: Seq<Seq<char>>, spaced: bool)
    requires
        xs.len() >= 1,
        pieces_good(xs),
    ensures
        spec_split_top(
            join_pieces(
                xs,
                if spaced {
                    " , "@
                } else {
                    ","@
                },
            ),
        ) == xs,
{
    let sep: Seq<char> = if spaced {
        " , "@
    } else {
        ","@
    };
    let inner = join_pieces(xs, sep);
    assert(inner.subrange(0, inner.len() as int) =~= Seq::<char>::empty() + inner);
    lemma_split_suffix(inner, 0, xs, spaced, false);
}

/// The result case of the classifier's law: a result spelling around a
/// safe success spelling classifies to the success's result shape.
#[verifier::rlimit(100)]
#[verifier::spinoff_prover]
proof fn lemma_result_case(x: Seq<char>, spaced: bool)
    requires
        comma_safe(x),
        x.len() > 0,
        !is_space_char(x[0]),
        !is_space_char(x.last()),
    ensures
        ({
            let s = if spaced {
                "Result < "@ + x + " , E >"@
            } else {
                "Result<"@ + x + ",E>"@
            };
            &&& s.len() > 0
            &&& !is_space_char(s[0])
            &&& !is_space_char(s.last())
            &&& spec_classify(s) == ShapeModel::ResultOf(Box::new(spec_classify(x)))
        }),
{
    reveal_strlit("Result < ");
    reveal_strlit("Result <");
    reveal_strlit("Result<");
    reveal_strlit(" , E >");
    reveal_strlit(",E>");
    reveal_strlit("Vec <");
    reveal_strlit("Vec<");
    reveal_strlit("Option <");
    reveal_strlit("Option<");
    lemma_result_extract(x, spaced);
    let s = if spaced {
        "Result < "@ + x + " , E >"@
    } else {
        "Result<"@ + x + ",E>"@
    };
    assert(s[0] == 'R');
    if spaced {
        assert(s.last() == '>') by {
            assert(s[s.len() - 1] == (" , E >"@)[5]);
        }
    } else {
        assert(s.last() == '>') by {
            assert(s[s.len() - 1] == (",E>"@)[2]);
        }
    }
    lemma_trim_noop(s);
    assert(!spec_is_vec_type(s)) by {
        if starts_with_spec(s, "Vec <"@) {
            assert(s.subrange(0, 5)[0] == 'V');
        }
        if starts_with_spec(s, "Vec<"@) {
            assert(s.subrange(0, 4)[0] == 'V');
        }
    }
    assert(!spec_is_option_type(s)) by {
        if starts_with_spec(s, "Option <"@) {
            assert(s.subrange(0, 8)[0] == 'O');
        }
        if starts_with_spec(s, "Option<"@) {
            assert(s.subrange(0, 7)[0] == 'O');
        }
    }
    assert(spec_is_result_type(s)) by {
        if spaced {
            assert(s.subrange(0, 8) =~= "Result <"@);
        } else {
            assert(s.subrange(0, 7) =~= "Result<"@);
        }
    }
    assert(spec_classify(s) == ShapeModel::ResultOf(Box::new(spec_classify(x))));
}

/// The mapping case of the classifier's law: a mapping spelling around
/// safe key and value spellings classifies to their mapping shape.
#[verifier::rlimit(100)]
#[verifier::spinoff_prover]
proof fn lemma_mapping_case(kx: Seq<char>, vx: Seq<char>, spaced: bool)
    requires
        comma_safe(kx),
        comma_safe(vx),
        kx.len() > 0,
        vx.len() > 0,
        !is_space_char(kx[0]),
        !is_space_char(kx.last()),
        !is_space_char(vx[0]),
        !is_space_char(vx.last()),
    ensures
        ({
            let s = if spaced {
                "HashMap < "@ + kx + " , "@ + vx + " >"@
            } else {
                "HashMap<"@ + kx + ","@ + vx + ">"@
            };
            &&& s.len() > 0
            &&& !is_space_char(s[0])
            &&& !is_space_char(s.last())
            &&& spec_classify(s) == ShapeModel::Mapping(
                Box::new(spec_classify(kx)),
                Box::new(spec_classify(vx)),
            )
        }),
{
    reveal_strlit("HashMap < ");
    reveal_strlit("HashMap <");
    reveal_strlit("HashMap<");
    reveal_strlit(" , ");
    reveal_strlit(",");
    reveal_strlit(" >");
    reveal_strlit(">");
    reveal_strlit("Vec <");
    reveal_strlit("Vec<");
    reveal_strlit("Option <");
    reveal_strlit("Option<");
    reveal_strlit("Result <");
    reveal_strlit("Result<");
    reveal_strlit("(");
    reveal_strlit("Box <");
    reveal_strlit("Box<");
    lemma_mapping_extract(kx, vx, spaced);
    let s = if spaced {
        "HashMap < "@ + kx + " , "@ + vx + " >"@
    } else {
        "HashMap<"@ + kx + ","@ + vx + ">"@
    };
    assert(s[0] == 'H');
    if spaced {
        assert(s.last() == '>') by {
            assert(s[s.len() - 1] == (" >"@)[1]);
        }
    } else {
        assert(s.last() == '>') by {
            assert(s[s.len() - 1] == (">"@)[0]);
        }
    }
    lemma_trim_noop(s);
    assert(!spec_is_vec_type(s)) by {
        if starts_with_spec(s, "Vec <"@) {
            assert(s.subrange(0, 5)[0] == 'V');
        }
        if starts_with_spec(s, "Vec<"@) {
            assert(s.subrange(0, 4)[0] == 'V');
        }
    }
    assert(!spec_is_option_type(s)) by {
        if starts_with_spec(s, "Option <"@) {
            assert(s.subrange(0, 8)[0] == 'O');
        }
        if starts_with_spec(s, "Option<"@) {
            assert(s.subrange(0, 7)[0] == 'O');
        }
    }
    assert(!spec_is_result_type(s)) by {
        if starts_with_spec(s, "Result <"@) {
            assert(s.subrange(0, 8)[0] == 'R');
        }
        if starts_with_spec(s, "Result<"@) {
            assert(s.subrange(0, 7)[0] == 'R');
        }
    }
    assert(!spec_is_tuple_type(s)) by {
        if starts_with_spec(s, "("@) {
            assert(s.subrange(0, 1)[0] == '(');
        }
    }
    assert(!spec_is_box_type(s)) by {
        if starts_with_spec(s, "Box <"@) {
            assert(s.subrange(0, 5)[0] == 'B');
        }
        if starts_with_spec(s, "Box<"@) {
            assert(s.subrange(0, 4)[0] == 'B');
        }
    }
    assert(spec_is_hashmap_type(s)) by {
        if spaced {
            assert(s.subrange(0, 9) =~= "HashMap <"@);
        } else {
            assert(s.subrange(0, 8) =~= "HashMap<"@);
        }
    }
    assert(spec_classify(s) == ShapeModel::Mapping(
        Box::new(spec_classify(kx)),
        Box::new(spec_classify(vx)),
    ));
}

/// The tuple case of the classifier's law: a parenthesized list of two or
/// more good pieces classifies elementwise.
#[verifier::rlimit(100)]
#[verifier::spinoff_prover]
proof fn lemma_tuple_case(xs: Seq<Seq<char>>, spaced: bool)
    requires
        xs.len() >= 2,
        pieces_good(xs),
    ensures
        ({
            let s = "("@ + join_pieces(
                xs,
                if spaced {
                    " , "@
                } else {
                    ","@
                },
            ) + ")"@;
            &&& s.len() > 0
            &&& !is_space_char(s[0])
            &&& !is_space_char(s.last())
            &&& spec_classify(s) == ShapeModel::Tuple(crate::classify::spec_classify_list(xs))
        }),
{
    reveal_strlit("(");
    reveal_strlit(")");
    reveal_strlit(",");
    reveal_strlit(" , ");
    reveal_strlit("Vec <");
    reveal_strlit("Vec<");
    reveal_strlit("Option <");
    reveal_strlit("Option<");
    reveal_strlit("Result <");
    reveal_strlit("Result<");
    let sep: Seq<char> = if spaced {
        " , "@
    } else {
        ","@
    };
    let j = join_pieces(xs, sep);
    let s = "("@ + j + ")"@;
    let x0 = xs[0];
    assert(piece_good(x0));
    assert(j == x0 + sep + join_pieces(xs.drop_first(), sep));
    assert(s[0] == '(');
    assert(s.last() == ')') by {
        assert(s[s.len() - 1] == (")"@)[0]);
    }
    lemma_trim_noop(s);
    assert(!spec_is_vec_type(s)) by {
        if starts_with_spec(s, "Vec <"@) {
            assert(s.subrange(0, 5)[0] == 'V');
        }
        if starts_with_spec(s, "Vec<"@) {
            assert(s.subrange(0, 4)[0] == 'V');
        }
    }
    assert(!spec_is_option_type(s)) by {
        if starts_with_spec(s, "Option <"@) {
            assert(s.subrange(0, 8)[0] == 'O');
        }
        if starts_with_spec(s, "Option<"@) {
            assert(s.subrange(0, 7)[0] == 'O');
        }
    }
    assert(!spec_is_result_type(s)) by {
        if starts_with_spec(s, "Result <"@) {
            assert(s.subrange(0, 8)[0] == 'R');
        }
        if starts_with_spec(s, "Result<"@) {
            assert(s.subrange(0, 7)[0] == 'R');
        }
    }
    // the separator's comma witnesses the tuple predicate
    let cpos = 1 + x0.len() + (if spaced {
        1int
    } else {
        0int
    });
    assert(s[cpos] == ',') by {
        assert(s[cpos] == j[cpos - 1]);
        assert(j[cpos - 1] == (x0 + sep + join_pieces(xs.drop_first(), sep))[cpos - 1]);
        if spaced {
            assert(j[cpos - 1] == sep[1]);
        } else {
            assert(j[cpos - 1] == sep[0]);
        }
    }
    assert(spec_is_tuple_type(s)) by {
        assert(starts_with_spec(s, "("@)) by {
            assert(s.subrange(0, 1) =~= "("@);
        }
        assert(ends_with_spec(s, ")"@)) by {
            assert(s.subrange(s.len() - 1, s.len() as int) =~= ")"@);
        }
        assert(contains_spec(s, ","@)) by {
            assert(s.subrange(cpos, cpos + 1) =~= ","@);
            assert(crate::strutil::matches_at(s, ","@, cpos));
        }
    }
    assert(s.subrange(1, s.len() - 1) =~= j);
    lemma_split_join(xs, spaced);
    assert(spec_extract_tuple_elements(s) == xs);
    assert(spec_classify(s) == ShapeModel::Tuple(crate::classify::spec_classify_list(xs)));
}

/// A short literal spelling that begins with none of the container
/// initials is claimed by no container predicate.
proof fn lemma_leaf_not_container(s: Seq<char>)
    requires
        trim_spec(s) == s,
        1 <= s.len() <= 6,
        s[0] != 'V',
        s[0] != '(',
        s[0] != 'B',
    ensures
        !spec_is_vec_type(s),
        !spec_is_option_type(s),
        !spec_is_result_type(s),
        !spec_is_tuple_type(s),
        !spec_is_box_type(s),
        !spec_is_hashmap_type(s),
{
    reveal_strlit("Vec <");
    reveal_strlit("Vec<");
    reveal_strlit("Option <");
    reveal_strlit("Option<");
    reveal_strlit("Result <");
    reveal_strlit("Result<");
    reveal_strlit("(");
    reveal_strlit("Box <");
    reveal_strlit("Box<");
    reveal_strlit("HashMap <");
    reveal_strlit("HashMap<");
    reveal_strlit("std :: collections :: HashMap");
    assert(!spec_is_vec_type(s)) by {
        if starts_with_spec(s, "Vec <"@) {
            assert(s.subrange(0, 5)[0] == 'V');
        }
        if starts_with_spec(s, "Vec<"@) {
            assert(s.subrange(0, 4)[0] == 'V');
        }
    }
    assert(!spec_is_tuple_type(s)) by {
        if starts_with_spec(s, "("@) {
            assert(s.subrange(0, 1)[0] == '(');
        }
    }
    assert(!spec_is_box_type(s)) by {
        if starts_with_spec(s, "Box <"@) {
            assert(s.subrange(0, 5)[0] == 'B');
        }
        if starts_with_spec(s, "Box<"@) {
            assert(s.subrange(0, 4)[0] == 'B');
        }
    }
    assert(!spec_is_hashmap_type(s)) by {
        if contains_spec(s, "HashMap <"@) {
            let i = choose|i: int| matches_at(s, "HashMap <"@, i);
            assert(i + 9 <= s.len());
        }
        if contains_spec(s, "HashMap<"@) {
            let i = choose|i: int| matches_at(s, "HashMap<"@, i);
            assert(i + 8 <= s.len());
        }
    }
}

/// The classifier's law: a well-formed shape's
/// spelling classifies back to the shape itself — in particular never to
/// the unknown shape — in the spaced styling always, and in the tight
/// styling whenever the shape is free of mutable references.
#[verifier::rlimit(100)]
#[verifier::spinoff_prover]
pub proof fn lemma_classify_spelling(sh: ShapeModel, spaced: bool)
    requires
        wf_shape(sh),
        !spaced ==> mut_free(sh),
    ensures
        spell_of(sh, spaced).len() > 0,
        !is_space_char(spell_of(sh, spaced)[0]),
        !is_space_char(spell_of(sh, spaced).last()),
        spec_classify(spell_of(sh, spaced)) == sh,
    decreases sh,
{
    reveal_strlit("Vec <");
    reveal_strlit("Vec<");
    reveal_strlit("Vec < ");
    reveal_strlit("Option <");
    reveal_strlit("Option<");
    reveal_strlit("Option < ");
    reveal_strlit("Result <");
    reveal_strlit("Result<");
    reveal_strlit("(");
    reveal_strlit(")");
    reveal_strlit(",");
    reveal_strlit("Box <");
    reveal_strlit("Box<");
    reveal_strlit("Box < ");
    reveal_strlit(" >");
    reveal_strlit(">");
    reveal_strlit("HashMap <");
    reveal_strlit("HashMap<");
    reveal_strlit("std :: collections :: HashMap");
    reveal_strlit("i8");
    reveal_strlit("i16");
    reveal_strlit("i32");
    reveal_strlit("i64");
    reveal_strlit("i128");
    reveal_strlit("isize");
    reveal_strlit("u8");
    reveal_strlit("u16");
    reveal_strlit("u32");
    reveal_strlit("u64");
    reveal_strlit("u128");
    reveal_strlit("usize");
    reveal_strlit("f32");
    reveal_strlit("f64");
    reveal_strlit("String");
    reveal_strlit("& str");
    reveal_strlit("str");
    reveal_strlit("bool");
    reveal_strlit("()");
    reveal_strlit("& mut ");
    reveal_strlit("&mut ");
    reveal_strlit("& ");
    reveal_strlit("&");
    reveal_strlit("Self");
    let s = spell_of(sh, spaced);
    match sh {
        ShapeModel::Number(w) => {
            lemma_trim_noop(s);
            lemma_leaf_not_container(s);
            assert(spec_num_width_of(s) == w);
        },
        ShapeModel::Text => {
            lemma_trim_noop(s);
            lemma_leaf_not_container(s);
        },
        ShapeModel::Boolean => {
            lemma_trim_noop(s);
            lemma_leaf_not_container(s);
            assert(!spec_is_string_type(s)) by {
                if contains_spec(s, "str"@) {
                    let i = choose|i: int| matches_at(s, "str"@, i);
                    assert(s.subrange(i, i + 3)[0] == 's');
                    assert(s[i] == 's');
                }
            }
        },
        ShapeModel::Vector(inner) => {
            lemma_classify_spelling(*inner, spaced);
            let x = spell_of(*inner, spaced);
            lemma_container_case(s, x, "Vec < "@, "Vec<"@, spaced);
            if spaced {
                assert(starts_with_spec(trim_spec(s), "Vec <"@)) by {
                    assert(trim_spec(s).subrange(0, 5) =~= "Vec <"@);
                }
                assert(spec_extract_vec_inner(s) == Some(x));
            } else {
                assert(!starts_with_spec(trim_spec(s), "Vec <"@)) by {
                    if starts_with_spec(s, "Vec <"@) {
                        assert(s.subrange(0, 5)[3] == ' ');
                        assert(s[3] == '<');
                    }
                }
                assert(starts_with_spec(trim_spec(s), "Vec<"@)) by {
                    assert(trim_spec(s).subrange(0, 4) =~= "Vec<"@);
                }
                assert(spec_extract_vec_inner(s) == Some(x));
            }
            assert(spec_classify(s) == ShapeModel::Vector(Box::new(spec_classify(x))));
        },
        ShapeModel::Optional(inner) => {
            lemma_classify_spelling(*inner, spaced);
            let x = spell_of(*inner, spaced);
            lemma_container_case(s, x, "Option < "@, "Option<"@, spaced);
            assert(!spec_is_vec_type(s)) by {
                if starts_with_spec(s, "Vec <"@) {
                    assert(s.subrange(0, 5)[0] == 'V');
                    assert(s[0] == 'O');
                }
                if starts_with_spec(s, "Vec<"@) {
                    assert(s.subrange(0, 4)[0] == 'V');
                    assert(s[0] == 'O');
                }
            }
            if spaced {
                assert(starts_with_spec(trim_spec(s), "Option <"@)) by {
                    assert(trim_spec(s).subrange(0, 8) =~= "Option <"@);
                }
                assert(spec_extract_option_inner(s) == Some(x));
            } else {
                assert(!starts_with_spec(trim_spec(s), "Option <"@)) by {
                    if starts_with_spec(s, "Option <"@) {
                        assert(s.subrange(0, 8)[6] == ' ');
                        assert(s[6] == '<');
                    }
                }
                assert(starts_with_spec(trim_spec(s), "Option<"@)) by {
                    assert(trim_spec(s).subrange(0, 7) =~= "Option<"@);
                }
                assert(spec_extract_option_inner(s) == Some(x));
            }
            assert(spec_classify(s) == ShapeModel::Optional(Box::new(spec_classify(x))));
        },
        ShapeModel::Indirection(inner) => {
            lemma_classify_spelling(*inner, spaced);
            let x = spell_of(*inner, spaced);
            lemma_container_case(s, x, "Box < "@, "Box<"@, spaced);
            assert(!spec_is_vec_type(s)) by {
                if starts_with_spec(s, "Vec <"@) {
                    assert(s.subrange(0, 5)[0] == 'V');
                    assert(s[0] == 'B');
                }
                if starts_with_spec(s, "Vec<"@) {
                    assert(s.subrange(0, 4)[0] == 'V');
                    assert(s[0] == 'B');
                }
            }
            assert(!spec_is_option_type(s)) by {
                if starts_with_spec(s, "Option <"@) {
                    assert(s.subrange(0, 8)[0] == 'O');
                    assert(s[0] == 'B');
                }
                if starts_with_spec(s, "Option<"@) {
                    assert(s.subrange(0, 7)[0] == 'O');
                    assert(s[0] == 'B');
                }
            }
            assert(!spec_is_result_type(s)) by {
                if starts_with_spec(s, "Result <"@) {
                    assert(s.subrange(0, 8)[0] == 'R');
                    assert(s[0] == 'B');
                }
                if starts_with_spec(s, "Result<"@) {
                    assert(s.subrange(0, 7)[0] == 'R');
                    assert(s[0] == 'B');
                }
            }
            assert(!spec_is_tuple_type(s)) by {
                if starts_with_spec(s, "("@) {
                    assert(s.subrange(0, 1)[0] == '(');
                    assert(s[0] == 'B');
                }
            }
            if spaced {
                assert(starts_with_spec(trim_spec(s), "Box <"@)) by {
                    assert(trim_spec(s).subrange(0, 5) =~= "Box <"@);
                }
                assert(spec_extract_box_inner(s) == Some(x));
            } else {
                assert(!starts_with_spec(trim_spec(s), "Box <"@)) by {
                    if starts_with_spec(s, "Box <"@) {
                        assert(s.subrange(0, 5)[3] == ' ');
                        assert(s[3] == '<');
                    }
                }
                assert(starts_with_spec(trim_spec(s), "Box<"@)) by {
                    assert(trim_spec(s).subrange(0, 4) =~= "Box<"@);
                }
                assert(spec_extract_box_inner(s) == Some(x));
            }
            assert(spec_classify(s) == ShapeModel::Indirection(Box::new(spec_classify(x))));
        },
        ShapeModel::ResultOf(ok) => {
            lemma_classify_spelling(*ok, spaced);
            lemma_spell_comma_safe(*ok, spaced);
            lemma_result_case(spell_of(*ok, spaced), spaced);
        },
        ShapeModel::Tuple(elems) => {
            lemma_tuple_pieces(elems, spaced);
            let xs = spell_list(elems, spaced);
            lemma_tuple_case(xs, spaced);
            crate::classify::lemma_classify_list_index(xs);
            assert(crate::classify::spec_classify_list(xs) =~= elems);
            assert(s == "("@ + join_pieces(
                xs,
                if spaced {
                    " , "@
                } else {
                    ","@
                },
            ) + ")"@);
        },
        ShapeModel::Mapping(key, value) => {
            lemma_classify_spelling(*key, spaced);
            lemma_classify_spelling(*value, spaced);
            lemma_spell_comma_safe(*key, spaced);
            lemma_spell_comma_safe(*value, spaced);
            lemma_mapping_case(spell_of(*key, spaced), spell_of(*value, spaced), spaced);
        },
        ShapeModel::Reference { target, mutable } => {
            lemma_reference_case(target, mutable, spaced);
        },
        ShapeModel::Opaque(n) => {
            lemma_opaque_checks(n);
            assert(!spec_is_mut_struct_ref(n)) by {
                if starts_with_spec(n, "& mut "@) {
                    assert(n.subrange(0, 6)[0] == '&');
                    lemma_ident_chars(n, 0);
                }
            }
            assert(!spec_is_struct_ref(n)) by {
                if n[0] == '&' {
                    lemma_ident_chars(n, 0);
                }
            }
            lemma_ident_chars(n, 0);
            lemma_ident_chars(n, n.len() - 1);
        },
        _ => {
            assert(false);
        },
    }
}

/// The shared facts of a container spelling: its edges are delimiters, it
/// trims to itself, and the pad around the inner spelling trims away.
proof fn lemma_container_case(s: Seq<char>, x: Seq<char>, pre: Seq<char>, tpre: Seq<char>,
    spaced: bool)
    requires
        x.len() > 0,
        !is_space_char(x[0]),
        !is_space_char(x.last()),
        pre.len() >= 2,
        tpre.len() >= 1,
        pre.last() == ' ',
        !is_space_char(pre[0]),
        !is_space_char(tpre[0]),
        spaced ==> s == pre + x + " >"@,
        !spaced ==> s == tpre + x + ">"@,
    ensures
        s.len() > 0,
        !is_space_char(s[0]),
        !is_space_char(s.last()),
        trim_spec(s) == s,
        spaced ==> trim_spec(s.subrange(pre.len() - 1, s.len() - 1)) == x && s.len() == pre.len()
            + x.len() as int + 2,
        !spaced ==> trim_spec(s.subrange(tpre.len() as int, s.len() - 1)) == x && s.len()
            == tpre.len() + x.len() as int + 1,
{
    reveal_strlit(" >");
    reveal_strlit(">");
    if spaced {
        assert(s.len() == pre.len() + x.len() as int + 2);
        assert(s[0] == pre[0]);
        assert(s.last() == '>') by {
            assert(s[s.len() - 1] == (" >"@)[1]);
        }
        lemma_trim_noop(s);
        let mid = s.subrange(pre.len() - 1, s.len() - 1);
        assert(mid.len() == x.len() as int + 2);
        assert(mid[0] == ' ') by {
            assert(s[pre.len() - 1] == pre.last());
        }
        assert(mid[mid.len() - 1] == ' ') by {
            assert(s[s.len() - 2] == (" >"@)[0]);
        }
        assert forall|k: int| 0 <= k < x.len() implies mid[1 + k] == x[k] by {
            assert(s[pre.len() + k] == x[k]);
        }
        lemma_trim_start_subrange(mid, 1);
        let mid2 = mid.subrange(1, mid.len() as int);
        lemma_trim_end_subrange(mid2, x.len() as int);
        assert(mid2.subrange(0, x.len() as int) =~= x);
        assert(trim_spec(mid) == x);
    } else {
        assert(s.len() == tpre.len() + x.len() as int + 1);
        assert(s[0] == tpre[0]);
        assert(s.last() == '>') by {
            assert(s[s.len() - 1] == (">"@)[0]);
        }
        lemma_trim_noop(s);
        let mid = s.subrange(tpre.len() as int, s.len() - 1);
        assert(mid =~= x);
        lemma_trim_noop(mid);
    }
}

/// The spelled pieces of a tuple's elements are good and classify
/// elementwise, and their join is the tuple's joined spelling.
proof fn lemma_tuple_pieces(elems: Seq<ShapeModel>, spaced: bool)
    requires
        wf_list(elems),
        !spaced ==> mut_free_list(elems),
    ensures
        spell_list(elems, spaced).len() == elems.len(),
        pieces_good(spell_list(elems, spaced)),
        forall|i: int|
            0 <= i < elems.len() ==> spec_classify(#[trigger] spell_list(elems, spaced)[i])
                == elems[i],
        join_pieces(
            spell_list(elems, spaced),
            if spaced {
                " , "@
            } else {
                ","@
            },
        ) == join_spells(elems, spaced),
    decreases elems,
{
    let sep: Seq<char> = if spaced {
        " , "@
    } else {
        ","@
    };
    if elems.len() > 0 {
        lemma_classify_spelling(elems[0], spaced);
        lemma_spell_comma_safe(elems[0], spaced);
        lemma_tuple_pieces(elems.drop_first(), spaced);
        let xs = spell_list(elems, spaced);
        let rest_xs = spell_list(elems.drop_first(), spaced);
        assert(xs == seq![spell_of(elems[0], spaced)] + rest_xs);
        assert(xs.drop_first() =~= rest_xs);
        assert(xs[0] == spell_of(elems[0], spaced));
        assert forall|i: int| 0 <= i < xs.len() implies piece_good(#[trigger] xs[i]) by {
            if i > 0 {
                assert(xs[i] == rest_xs[i - 1]);
            }
        }
        assert forall|i: int| 0 <= i < elems.len() implies spec_classify(#[trigger] xs[i])
            == elems[i] by {
            if i > 0 {
                assert(xs[i] == rest_xs[i - 1]);
                assert(elems.drop_first()[i - 1] == elems[i]);
            }
        }
        if elems.len() == 1 {
            assert(xs.len() == 1);
            assert(join_pieces(xs, sep) == xs[0]);
            assert(join_spells(elems, spaced) == spell_of(elems[0], spaced));
        } else {
            assert(join_pieces(xs, sep) == xs[0] + sep + join_pieces(xs.drop_first(), sep));
            assert(join_spells(elems, spaced) == spell_of(elems[0], spaced) + sep + join_spells(
                elems.drop_first(),
                spaced,
            ));
        }
    }
}

/// The reference case of the classifier's law.
proof fn lemma_reference_case(target: Seq<char>, mutable: bool, spaced: bool)
    requires
        opaque_name_ok(target),
        !spaced ==> !mutable,
    ensures
        spell_of((ShapeModel::Reference { target, mutable }), spaced).len() > 0,
        !is_space_char(spell_of((ShapeModel::Reference { target, mutable }), spaced)[0]),
        !is_space_char(spell_of((ShapeModel::Reference { target, mutable }), spaced).last()),
        spec_classify(spell_of((ShapeModel::Reference { target, mutable }), spaced))
            == (ShapeModel::Reference { target, mutable }),
    decreases target.len(),
{
    reveal_strlit("& mut ");
    reveal_strlit("& ");
    reveal_strlit("&");
    reveal_strlit("Vec <");
    reveal_strlit("Vec<");
    reveal_strlit("Option <");
    reveal_strlit("Option<");
    reveal_strlit("Result <");
    reveal_strlit("Result<");
    reveal_strlit("(");
    reveal_strlit("Box <");
    reveal_strlit("Box<");
    reveal_strlit("HashMap <");
    reveal_strlit("HashMap<");
    reveal_strlit("std :: collections :: HashMap");
    reveal_strlit("i8");
    reveal_strlit("i16");
    reveal_strlit("i32");
    reveal_strlit("i64");
    reveal_strlit("i128");
    reveal_strlit("isize");
    reveal_strlit("u8");
    reveal_strlit("u16");
    reveal_strlit("u32");
    reveal_strlit("u64");
    reveal_strlit("u128");
    reveal_strlit("usize");
    reveal_strlit("f32");
    reveal_strlit("f64");
    reveal_strlit("String");
    reveal_strlit("& str");
    reveal_strlit("str");
    reveal_strlit("bool");
    reveal_strlit("()");
    lemma_opaque_checks(target);
    let amp: Seq<char> = if mutable {
        if spaced {
            "& mut "@
        } else {
            "&mut "@
        }
    } else {
        if spaced {
            "& "@
        } else {
            "&"@
        }
    };
    let s = amp + target;
    assert(spell_of(ShapeModel::Reference { target, mutable }, spaced) == s);
    assert(s.len() == amp.len() + target.len());
    assert(s[0] == '&');
    assert(s.last() == target.last());
    lemma_ident_chars(target, 0);
    lemma_ident_chars(target, target.len() - 1);
    lemma_trim_noop(s);
    // no earlier predicate claims a reference spelling
    assert(!spec_is_vec_type(s)) by {
        if starts_with_spec(s, "Vec <"@) {
            assert(s.subrange(0, 5)[0] == 'V');
        }
        if starts_with_spec(s, "Vec<"@) {
            assert(s.subrange(0, 4)[0] == 'V');
        }
    }
    assert(!spec_is_option_type(s)) by {
        if starts_with_spec(s, "Option <"@) {
            assert(s.subrange(0, 8)[0] == 'O');
        }
        if starts_with_spec(s, "Option<"@) {
            assert(s.subrange(0, 7)[0] == 'O');
        }
    }
    assert(!spec_is_result_type(s)) by {
        if starts_with_spec(s, "Result <"@) {
            assert(s.subrange(0, 8)[0] == 'R');
        }
        if starts_with_spec(s, "Result<"@) {
            assert(s.subrange(0, 7)[0] == 'R');
        }
    }
    assert(!spec_is_tuple_type(s)) by {
        if starts_with_spec(s, "("@) {
            assert(s.subrange(0, 1)[0] == '(');
        }
    }
    assert(!spec_is_box_type(s)) by {
        if starts_with_spec(s, "Box <"@) {
            assert(s.subrange(0, 5)[0] == 'B');
        }
        if starts_with_spec(s, "Box<"@) {
            assert(s.subrange(0, 4)[0] == 'B');
        }
    }
    assert(forall|k: int| 0 <= k < s.len() ==> #[trigger] s[k] != '<' && s[k] != ':') by {
        assert forall|k: int| 0 <= k < s.len() implies s[k] != '<' && s[k] != ':' by {
            if k >= amp.len() {
                lemma_ident_chars(target, k - amp.len());
            }
        }
    }
    assert(!spec_is_hashmap_type(s)) by {
        if starts_with_spec(s, "HashMap <"@) {
            assert(s.subrange(0, 9)[8] == '<');
            assert(s[8] == '<');
        }
        if starts_with_spec(s, "HashMap<"@) {
            assert(s.subrange(0, 8)[7] == '<');
            assert(s[7] == '<');
        }
        if starts_with_spec(s, "std :: collections :: HashMap"@) {
            assert(s.subrange(0, 29)[4] == ':');
            assert(s[4] == ':');
        }
        if contains_spec(s, "HashMap <"@) {
            let i = choose|i: int| matches_at(s, "HashMap <"@, i);
            assert(s.subrange(i, i + 9)[8] == '<');
            assert(s[i + 8] == '<');
        }
        if contains_spec(s, "HashMap<"@) {
            let i = choose|i: int| matches_at(s, "HashMap<"@, i);
            assert(s.subrange(i, i + 8)[7] == '<');
            assert(s[i + 7] == '<');
        }
    }
    assert(!spec_is_number_type(s)) by {
        if spec_is_number_type(s) {
            assert(trim_spec(s)[0] == '&');
        }
    }
    assert(!spec_is_string_type(s)) by {
        if s == "String"@ {
            assert(s[0] == 'S');
        }
        if s == "& str"@ {
            assert(s[2] == 's');
            if mutable {
                if spaced {
                    assert(s[2] == 'm');
                } else {
                    assert(s[2] == 'u');
                }
            } else {
                if spaced {
                    assert(s[2] == target[0]);
                    lemma_ident_chars(target, 0);
                    assert(is_upper_char(target[0]));
                } else {
                    assert(s.len() == 1 + target.len());
                    if target.len() == 4 {
                        assert(s[1] == target[0]);
                        assert(s[1] == ' ');
                        lemma_ident_chars(target, 0);
                    }
                }
            }
        }
        if contains_spec(s, "str"@) {
            let i = choose|i: int| matches_at(s, "str"@, i);
            assert(s.subrange(i, i + 3)[0] == 's');
            assert(s[i] == 's');
            if i < amp.len() {
                // no character of the reference marker is an `s`
            } else {
                lemma_match_shift(amp, target, "str"@, i);
            }
        }
    }
    assert(s != "bool"@) by {
        if s == "bool"@ {
            assert(s[0] == 'b');
        }
    }
    // the struct check on the reference-stripped base
    if mutable && spaced {
        assert(starts_with_spec(s, "& mut "@)) by {
            assert(s.subrange(0, 6) =~= "& mut "@);
        }
        assert(s.subrange(6, s.len() as int) =~= target);
        assert(spec_is_mut_struct_ref(s));
        assert(spec_extract_struct_name(s) == target) by {
            lemma_strip_to_target(s, amp, target, true);
        }
    } else {
        assert(!spec_is_mut_struct_ref(s)) by {
            if starts_with_spec(s, "& mut "@) {
                assert(s.subrange(0, 6) =~= "& mut "@);
                if mutable {
                    // unreachable here: a mutable reference is only spelled spaced
                } else {
                    if spaced {
                        assert(s[2] == target[0]);
                        assert(s.subrange(0, 6)[2] == 'm');
                        assert(s[2] == 'm');
                        lemma_ident_chars(target, 0);
                        assert(is_upper_char(target[0]));
                    } else {
                        assert(s[1] == target[0]);
                        assert(s.subrange(0, 6)[1] == ' ');
                        assert(s[1] == ' ');
                        lemma_ident_chars(target, 0);
                    }
                }
            }
        }
        if mutable {
            // tight mutable spellings read back as shared references
            assert(false);
        }
        assert(spec_is_struct_ref(s)) by {
            lemma_strip_gives_struct(s, amp, target);
        }
        assert(spec_extract_struct_name(s) == target) by {
            lemma_strip_to_target(s, amp, target, false);
        }
    }
}

/// Stripping the reference marker off a reference spelling leaves the
/// target, so the struct check accepts the spelling.
proof fn lemma_strip_gives_struct(s: Seq<char>, amp: Seq<char>, target: Seq<char>)
    requires
        opaque_name_ok(target),
        s == amp + target,
        amp == "& "@ || amp == "&"@,
        trim_spec(s) == s,
    ensures
        spec_is_struct_type(s),
        s.len() > 0 && s[0] == '&',
{
    reveal_strlit("& ");
    reveal_strlit("&");
    lemma_opaque_checks(target);
    lemma_ident_chars(target, 0);
    lemma_ident_chars(target, target.len() - 1);
    assert(s[0] == '&');
    if amp == "&"@ {
        assert(s.drop_first() =~= target);
        assert(strip_amp_spec(s) == strip_amp_spec(target));
        assert(strip_amp_spec(s) == target);
        assert(strip_mut_spec(target) == target);
        lemma_trim_noop(target);
    } else if amp == "& "@ {
        assert(s.drop_first() =~= " "@ + target) by {
            reveal_strlit(" ");
        }
        reveal_strlit(" ");
        let rest = " "@ + target;
        assert(rest[0] == ' ');
        assert(strip_amp_spec(s) == strip_amp_spec(rest));
        assert(strip_amp_spec(rest) == rest);
        assert(strip_mut_spec(rest) == rest) by {
            if rest.len() >= 4 && rest[0] == 'm' {
                assert(rest[0] == ' ');
            }
        }
        assert(trim_spec(rest) == target) by {
            lemma_trim_start_subrange(rest, 1);
            assert(rest.subrange(1, rest.len() as int) =~= target);
            lemma_trim_end_subrange(target, target.len() as int);
            assert(target.subrange(0, target.len() as int) =~= target);
        }
        lemma_opaque_checks(target);
    }
}

/// The extracted struct name of a reference spelling is its target.
proof fn lemma_strip_to_target(s: Seq<char>, amp: Seq<char>, target: Seq<char>, mutable: bool)
    requires
        opaque_name_ok(target),
        s == amp + target,
        mutable ==> amp == "& mut "@,
        !mutable ==> amp == "& "@ || amp == "&"@,
        trim_spec(s) == s,
    ensures
        spec_extract_struct_name(s) == target,
{
    reveal_strlit("& ");
    reveal_strlit("&");
    reveal_strlit("& mut ");
    reveal_strlit(" ");
    reveal_strlit(" mut ");
    reveal_strlit("mut ");
    lemma_opaque_checks(target);
    lemma_ident_chars(target, 0);
    lemma_ident_chars(target, target.len() - 1);
    if amp == "&"@ {
        assert(s.drop_first() =~= target);
        assert(strip_amp_spec(s) == target);
        lemma_trim_noop(target);
    } else if amp == "& "@ {
        let rest = " "@ + target;
        assert(s.drop_first() =~= rest);
        assert(strip_amp_spec(s) == strip_amp_spec(rest));
        assert(rest[0] == ' ');
        assert(strip_amp_spec(rest) == rest);
        assert(trim_spec(rest) == target) by {
            lemma_trim_start_subrange(rest, 1);
            assert(rest.subrange(1, rest.len() as int) =~= target);
            lemma_trim_end_subrange(target, target.len() as int);
            assert(target.subrange(0, target.len() as int) =~= target);
        }
        assert(strip_mut_spec(target) == target);
        lemma_trim_noop(target);
    } else {
        let rest = " mut "@ + target;
        assert(s.drop_first() =~= rest);
        assert(strip_amp_spec(s) == strip_amp_spec(rest));
        assert(rest[0] == ' ');
        assert(strip_amp_spec(rest) == rest);
        let body = "mut "@ + target;
        assert(trim_spec(rest) == body) by {
            lemma_trim_start_subrange(rest, 1);
            assert(rest.subrange(1, rest.len() as int) =~= body);
            lemma_trim_end_subrange(body, body.len() as int);
            assert(body.subrange(0, body.len() as int) =~= body);
            assert(body.last() == target.last());
        }
        assert(strip_mut_spec(body) == target) by {
            assert(body.len() >= 4 && body[0] == 'm' && body[1] == 'u' && body[2] == 't'
                && body[3] == ' ');
            assert(body.subrange(4, body.len() as int) =~= target);
            assert(strip_mut_spec(target) == target);
        }
        lemma_trim_noop(target);
    }
}

/// Whitespace insensitivity: for every shape of the grammar without
/// mutable references, the spaced and the tight spelling classify to the
/// same shape.
pub proof fn lemma_whitespace_variants(sh: ShapeModel)
    requires
        wf_shape(sh),
        mut_free(sh),
    ensures
        spec_classify(spell_of(sh, true)) == spec_classify(spell_of(sh, false)),
{
    lemma_classify_spelling(sh, true);
    lemma_classify_spelling(sh, false);
}

} // verus!
