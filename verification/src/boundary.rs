//! A value-level model of the conversions the generated accessors and
//! wrappers perform at the runtime boundary: what a setter accepts for a
//! field of a given shape, what the paired getter hands back, and how a
//! result-typed operation's outcome reaches the caller.
//!
//! The runtime's numbers are modeled as integers, its strings as owned
//! text, its lists as sequences of scalar items; a wrapper's outcome is
//! either one returned value, no value at all, or an error signal that
//! aborts the call.

use vstd::prelude::*;

use crate::abi::{RING_API_BADPARATYPE};

verus! {

/// One element of a runtime list.
#[derive(Debug, Clone, PartialEq, Eq)]
pub enum RtItem {
    NumItem(i64),
    TextItem(String),
    PtrItem { tag: String, addr: u64 },
    /// A positional hole, standing for an absent optional element.
    HoleItem,
}

/// The mathematical form of a list element.
pub enum RtItemModel {
    NumItem(i64),
    TextItem(Seq<char>),
    PtrItem { tag: Seq<char>, addr: u64 },
    HoleItem,
}

impl View for RtItem {
    type V = RtItemModel;

    open spec fn view(&self) -> RtItemModel {
        match self {
            RtItem::NumItem(x) => RtItemModel::NumItem(*x),
            RtItem::TextItem(s) => RtItemModel::TextItem(s@),
            RtItem::PtrItem { tag, addr } => RtItemModel::PtrItem { tag: tag@, addr: *addr },
            RtItem::HoleItem => RtItemModel::HoleItem,
        }
    }
}

/// The models of a runtime list, in order.
pub open spec fn rt_item_models(items: Seq<RtItem>) -> Seq<RtItemModel> {
    Seq::new(items.len(), |i: int| items[i]@)
}

/// One argument as the runtime hands it to a wrapper.
#[derive(Debug, Clone, PartialEq, Eq)]
pub enum RtArg {
    NumArg(i64),
    TextArg(String),
    ListArg(Vec<RtItem>),
    PtrArg { tag: String, addr: u64 },
}

/// The mathematical form of an argument.
pub enum RtArgModel {
    NumArg(i64),
    TextArg(Seq<char>),
    ListArg(Seq<RtItemModel>),
    PtrArg { tag: Seq<char>, addr: u64 },
}

impl View for RtArg {
    type V = RtArgModel;

    open spec fn view(&self) -> RtArgModel {
        match self {
            RtArg::NumArg(x) => RtArgModel::NumArg(*x),
            RtArg::TextArg(s) => RtArgModel::TextArg(s@),
            RtArg::ListArg(items) => RtArgModel::ListArg(rt_item_models(items@)),
            RtArg::PtrArg { tag, addr } => RtArgModel::PtrArg { tag: tag@, addr: *addr },
        }
    }
}

/// What one wrapper invocation leaves in the runtime's return slot.
#[derive(Debug, Clone, PartialEq, Eq)]
pub enum CallOutcome {
    /// The return slot is left untouched: callers observe an empty result.
    NoValue,
    NumValue(i64),
    TextValue(String),
    ListValue(Vec<RtItem>),
    PtrValue { tag: String, addr: u64 },
    /// A textual error signal that aborts the current call; no value is
    /// returned.
    ErrorSignal(String),
}

/// The mathematical form of a call outcome.
pub enum CallOutcomeModel {
    NoValue,
    NumValue(i64),
    TextValue(Seq<char>),
    ListValue(Seq<RtItemModel>),
    PtrValue { tag: Seq<char>, addr: u64 },
    ErrorSignal(Seq<char>),
}

impl View for CallOutcome {
    type V = CallOutcomeModel;

    open spec fn view(&self) -> CallOutcomeModel {
        match self {
            CallOutcome::NoValue => CallOutcomeModel::NoValue,
            CallOutcome::NumValue(x) => CallOutcomeModel::NumValue(*x),
            CallOutcome::TextValue(s) => CallOutcomeModel::TextValue(s@),
            CallOutcome::ListValue(items) => CallOutcomeModel::ListValue(rt_item_models(items@)),
            CallOutcome::PtrValue { tag, addr } => CallOutcomeModel::PtrValue {
                tag: tag@,
                addr: *addr,
            },
            CallOutcome::ErrorSignal(s) => CallOutcomeModel::ErrorSignal(s@),
        }
    }
}

/// What a number setter stores for an argument: the number itself, or the
/// generic parameter-type error for any other kind.
pub open spec fn spec_number_set(arg: RtArgModel) -> Result<i64, Seq<char>> {
    match arg {
        RtArgModel::NumArg(x) => Ok(x),
        _ => Err(RING_API_BADPARATYPE@),
    }
}

/// Converts a number-field setter argument.
pub fn number_field_set(arg: &RtArg) -> (r: Result<i64, String>)
    ensures
        match r {
            Ok(v) => spec_number_set(arg@) == Ok::<i64, Seq<char>>(v),
            Err(e) => spec_number_set(arg@) == Err::<i64, Seq<char>>(e@),
        },
{
    match arg {
        RtArg::NumArg(x) => Ok(*x),
        _ => Err(RING_API_BADPARATYPE.to_owned()),
    }
}

/// What a number getter returns: the stored number.
pub open spec fn spec_number_get(v: i64) -> CallOutcomeModel {
    CallOutcomeModel::NumValue(v)
}

/// Reads a number field back across the boundary.
pub fn number_field_get(v: i64) -> (r: CallOutcome)
    ensures
        r@ == spec_number_get(v),
{
    CallOutcome::NumValue(v)
}

/// What a text setter stores: the string itself, or the parameter-type
/// error for any other kind.
pub open spec fn spec_text_set(arg: RtArgModel) -> Result<Seq<char>, Seq<char>> {
    match arg {
        RtArgModel::TextArg(s) => Ok(s),
        _ => Err(RING_API_BADPARATYPE@),
    }
}

/// Converts a text-field setter argument.
pub fn text_field_set(arg: &RtArg) -> (r: Result<String, String>)
    ensures
        match r {
            Ok(v) => spec_text_set(arg@) == Ok::<Seq<char>, Seq<char>>(v@),
            Err(e) => spec_text_set(arg@) == Err::<Seq<char>, Seq<char>>(e@),
        },
{
    match arg {
        RtArg::TextArg(s) => Ok(s.clone()),
        _ => Err(RING_API_BADPARATYPE.to_owned()),
    }
}

/// What a text getter returns: the stored string.
pub open spec fn spec_text_get(s: Seq<char>) -> CallOutcomeModel {
    CallOutcomeModel::TextValue(s)
}

/// Reads a text field back across the boundary.
pub fn text_field_get(s: &String) -> (r: CallOutcome)
    ensures
        r@ == spec_text_get(s@),
{
    CallOutcome::TextValue(s.clone())
}

/// What a boolean setter stores: any nonzero number is true; a non-number
/// argument is the parameter-type error.
pub open spec fn spec_bool_set(arg: RtArgModel) -> Result<bool, Seq<char>> {
    match arg {
        RtArgModel::NumArg(x) => Ok(x != 0),
        _ => Err(RING_API_BADPARATYPE@),
    }
}

/// Converts a boolean-field setter argument.
pub fn bool_field_set(arg: &RtArg) -> (r: Result<bool, String>)
    ensures
        match r {
            Ok(v) => spec_bool_set(arg@) == Ok::<bool, Seq<char>>(v),
            Err(e) => spec_bool_set(arg@) == Err::<bool, Seq<char>>(e@),
        },
{
    match arg {
        RtArg::NumArg(x) => Ok(*x != 0),
        _ => Err(RING_API_BADPARATYPE.to_owned()),
    }
}

/// What a boolean getter returns: one for true, zero for false.
pub open spec fn spec_bool_get(b: bool) -> CallOutcomeModel {
    CallOutcomeModel::NumValue(
        if b {
            1
        } else {
            0
        },
    )
}

/// Reads a boolean field back across the boundary.
pub fn bool_field_get(b: bool) -> (r: CallOutcome)
    ensures
        r@ == spec_bool_get(b),
{
    CallOutcome::NumValue(
        if b {
            1
        } else {
            0
        },
    )
}

/// What an optional-number setter stores, under the lenient optional
/// policy: a number fills the field; an empty string — the universal
/// absent encoding — and every other kind clear it. An optional never
/// raises a type error.
pub open spec fn spec_opt_num_set(arg: RtArgModel) -> Option<i64> {
    match arg {
        RtArgModel::NumArg(x) => Some(x),
        _ => None,
    }
}

/// Converts an optional-number setter argument.
pub fn opt_num_field_set(arg: &RtArg) -> (r: Option<i64>)
    ensures
        r == spec_opt_num_set(arg@),
{
    match arg {
        RtArg::NumArg(x) => Some(*x),
        _ => None,
    }
}

/// What an optional-number getter returns: the number when present,
/// nothing at all when absent.
pub open spec fn spec_opt_num_get(field: Option<i64>) -> CallOutcomeModel {
    match field {
        Some(v) => CallOutcomeModel::NumValue(v),
        None => CallOutcomeModel::NoValue,
    }
}

/// Reads an optional-number field back across the boundary.
pub fn opt_num_field_get(field: &Option<i64>) -> (r: CallOutcome)
    ensures
        r@ == spec_opt_num_get(*field),
{
    match field {
        Some(v) => CallOutcome::NumValue(*v),
        None => CallOutcome::NoValue,
    }
}

/// What an optional-text setter stores, under the lenient optional policy:
/// an empty string — the universal absent encoding — clears the field, any
/// other string fills it, and every other kind clears it. An optional
/// never raises a type error.
pub open spec fn spec_opt_text_set(arg: RtArgModel) -> Option<Seq<char>> {
    match arg {
        RtArgModel::TextArg(s) => if s.len() == 0 {
            None
        } else {
            Some(s)
        },
        _ => None,
    }
}

/// Converts an optional-text setter argument.
pub fn opt_text_field_set(arg: &RtArg) -> (r: Option<String>)
    ensures
        spec_opt_text_set(arg@) == (match r {
            Some(ref s) => Some(s@),
            None => None::<Seq<char>>,
        }),
{
    match arg {
        RtArg::TextArg(s) => if s.as_str().is_empty() {
            None
        } else {
            Some(s.clone())
        },
        _ => None,
    }
}

/// What an optional-text getter returns: the exact string when present, no
/// value — not an empty one — when absent.
pub open spec fn spec_opt_text_get(field: Option<Seq<char>>) -> CallOutcomeModel {
    match field {
        Some(s) => CallOutcomeModel::TextValue(s),
        None => CallOutcomeModel::NoValue,
    }
}

/// Reads an optional-text field back across the boundary.
pub fn opt_text_field_get(field: &Option<String>) -> (r: CallOutcome)
    ensures
        r@ == spec_opt_text_get(
            match field {
                Some(ref s) => Some(s@),
                None => None,
            },
        ),
{
    match field {
        Some(s) => CallOutcome::TextValue(s.clone()),
        None => CallOutcome::NoValue,
    }
}

/// The numbers of a runtime list, in order; elements of any other kind are
/// silently skipped.
pub open spec fn nums_of(items: Seq<RtItemModel>) -> Seq<i64>
    decreases items.len(),
{
    if items.len() == 0 {
        Seq::empty()
    } else {
        let rest = nums_of(items.drop_first());
        match items[0] {
            RtItemModel::NumItem(x) => seq![x] + rest,
            _ => rest,
        }
    }
}

/// What a vector-of-number setter stores: the list's number elements in
/// order, skipping the rest; a non-list argument is the parameter-type
/// error.
pub open spec fn spec_vec_num_set(arg: RtArgModel) -> Result<Seq<i64>, Seq<char>> {
    match arg {
        RtArgModel::ListArg(items) => Ok(nums_of(items)),
        _ => Err(RING_API_BADPARATYPE@),
    }
}

/// Converts a vector-of-number setter argument, keeping the number
/// elements and silently dropping the rest.
pub fn vec_num_field_set(arg: &RtArg) -> (r: Result<Vec<i64>, String>)
    ensures
        match r {
            Ok(v) => spec_vec_num_set(arg@) == Ok::<Seq<i64>, Seq<char>>(v@),
            Err(e) => spec_vec_num_set(arg@) == Err::<Seq<i64>, Seq<char>>(e@),
        },
{
    match arg {
        RtArg::ListArg(items) => {
            let ghost models = rt_item_models(items@);
            let mut out: Vec<i64> = Vec::new();
            let n = items.len();
            proof {
                assert(models.subrange(0, n as int) =~= models);
                assert(out@ + nums_of(models) =~= nums_of(models));
            }
            let mut i: usize = 0;
            while i < n
                invariant
                    0 <= i <= n,
                    n == items@.len(),
                    models == rt_item_models(items@),
                    out@ + nums_of(models.subrange(i as int, n as int)) =~= nums_of(models),
                decreases n - i,
            {
                let ghost suffix = models.subrange(i as int, n as int);
                proof {
                    assert(suffix[0] == models[i as int]);
                    assert(suffix.drop_first() =~= models.subrange(i + 1, n as int));
                    assert(items@[i as int]@ == models[i as int]);
                }
                match &items[i] {
                    RtItem::NumItem(x) => {
                        let ghost prev = out@;
                        out.push(*x);
                        proof {
                            assert(out@ =~= prev.push(*x));
                            assert(out@ + nums_of(models.subrange(i + 1, n as int)) =~= nums_of(
                                models,
                            ));
                        }
                    },
                    _ => {},
                }
                i = i + 1;
            }
            proof {
                assert(nums_of(models.subrange(n as int, n as int)) =~= Seq::<i64>::empty());
                assert(out@ =~= nums_of(models));
            }
            Ok(out)
        },
        _ => Err(RING_API_BADPARATYPE.to_owned()),
    }
}

/// The runtime list a stored number vector reads back as: one number item
/// per element, in order.
pub open spec fn num_items_of(v: Seq<i64>) -> Seq<RtItemModel> {
    Seq::new(v.len(), |i: int| RtItemModel::NumItem(v[i]))
}

/// What a vector-of-number getter returns.
pub open spec fn spec_vec_num_get(v: Seq<i64>) -> CallOutcomeModel {
    CallOutcomeModel::ListValue(num_items_of(v))
}

/// Reads a vector-of-number field back across the boundary.
pub fn vec_num_field_get(field: &Vec<i64>) -> (r: CallOutcome)
    ensures
        r@ == spec_vec_num_get(field@),
{
    let mut items: Vec<RtItem> = Vec::new();
    let n = field.len();
    let mut i: usize = 0;
    while i < n
        invariant
            0 <= i <= n,
            n == field@.len(),
            items@.len() == i,
            forall|j: int| 0 <= j < i ==> items@[j] == RtItem::NumItem(field@[j]),
        decreases n - i,
    {
        items.push(RtItem::NumItem(field[i]));
        i = i + 1;
    }
    proof {
        assert(rt_item_models(items@) =~= num_items_of(field@));
    }
    CallOutcome::ListValue(items)
}

/// What a number-result wrapper leaves for the caller: the value on
/// success; on failure the error's text as the runtime's error signal, and
/// no return value.
pub open spec fn spec_result_num_return(res: Result<i64, Seq<char>>) -> CallOutcomeModel {
    match res {
        Ok(v) => CallOutcomeModel::NumValue(v),
        Err(e) => CallOutcomeModel::ErrorSignal(e),
    }
}

/// Converts a wrapped operation's number result into the runtime's return
/// protocol.
pub fn result_num_return(res: &Result<i64, String>) -> (r: CallOutcome)
    ensures
        r@ == spec_result_num_return(
            match res {
                Ok(v) => Ok::<i64, Seq<char>>(*v),
                Err(ref e) => Err::<i64, Seq<char>>(e@),
            },
        ),
{
    match res {
        Ok(v) => CallOutcome::NumValue(*v),
        Err(e) => CallOutcome::ErrorSignal(e.clone()),
    }
}

/// Round trip: a number or text value stored through its generated setter
/// is reproduced exactly by the paired getter, for every value the setter
/// accepts.
pub proof fn lemma_primitive_round_trip(x: i64, s: Seq<char>)
    ensures
        spec_number_set(RtArgModel::NumArg(x)) == Ok::<i64, Seq<char>>(x),
        spec_number_get(x) == CallOutcomeModel::NumValue(x),
        spec_text_set(RtArgModel::TextArg(s)) == Ok::<Seq<char>, Seq<char>>(s),
        spec_text_get(s) == CallOutcomeModel::TextValue(s),
{
}

/// Optional encoding: an absent optional-text field reads back as no value
/// at all, a present one as its exact string; an empty string stored
/// through a setter clears the field, and an optional setter never raises
/// an error — an argument of any other kind also clears the field.
pub proof fn lemma_optional_encoding(s: Seq<char>, x: i64)
    ensures
        spec_opt_text_get(None) == CallOutcomeModel::NoValue,
        spec_opt_text_get(Some(s)) == CallOutcomeModel::TextValue(s),
        spec_opt_text_set(RtArgModel::TextArg(Seq::empty())) == None::<Seq<char>>,
        s.len() > 0 ==> spec_opt_text_set(RtArgModel::TextArg(s)) == Some(s),
        spec_opt_text_set(RtArgModel::NumArg(x)) == None::<Seq<char>>,
        spec_opt_num_set(RtArgModel::NumArg(x)) == Some(x),
        spec_opt_num_set(RtArgModel::TextArg(s)) == None::<i64>,
{
}

/// A list of nothing but numbers survives the lenient filter unchanged.
proof fn lemma_nums_of_all_numbers(items: Seq<RtItemModel>)
    requires
        forall|i: int| 0 <= i < items.len() ==> items[i] is NumItem,
    ensures
        num_items_of(nums_of(items)) =~= items,
    decreases items.len(),
{
    if items.len() > 0 {
        lemma_nums_of_all_numbers(items.drop_first());
        let x = items[0]->NumItem_0;
        assert(items[0] == RtItemModel::NumItem(x));
        assert(nums_of(items) == seq![x] + nums_of(items.drop_first()));
        assert forall|j: int| 0 <= j < items.len() implies num_items_of(nums_of(items))[j]
            == items[j] by {
            if j > 0 {
                assert(nums_of(items)[j] == nums_of(items.drop_first())[j - 1]);
                assert(num_items_of(nums_of(items.drop_first()))[j - 1] == items.drop_first()[j
                    - 1]);
            }
        }
    }
}

/// Vector round trip: a list of numbers stored through the generated
/// setter reads back as an equal list; positions holding any other kind
/// are silently dropped by the setter, never an error.
pub proof fn lemma_vector_round_trip(items: Seq<RtItemModel>)
    ensures
        forall|i: int| 0 <= i < items.len() ==> items[i] is NumItem ==> true,
        spec_vec_num_set(RtArgModel::ListArg(items)) is Ok,
        (forall|i: int| 0 <= i < items.len() ==> items[i] is NumItem) ==> spec_vec_num_get(
            spec_vec_num_set(RtArgModel::ListArg(items))->Ok_0,
        ) == CallOutcomeModel::ListValue(items),
{
    if forall|i: int| 0 <= i < items.len() ==> items[i] is NumItem {
        lemma_nums_of_all_numbers(items);
        assert(num_items_of(nums_of(items)) == items);
    }
}

/// Result mapping: a wrapped operation that fails makes the wrapper raise
/// an error signal carrying the failure's formatted text — and an error
/// signal is never a returned value.
pub proof fn lemma_result_mapping(v: i64, e: Seq<char>)
    ensures
        spec_result_num_return(Ok(v)) == CallOutcomeModel::NumValue(v),
        spec_result_num_return(Err(e)) == CallOutcomeModel::ErrorSignal(e),
        !(spec_result_num_return(Err(e)) is NumValue),
        !(spec_result_num_return(Err(e)) is NoValue),
{
}

} // verus!
