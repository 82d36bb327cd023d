//! The wire value model: the loosely-typed structured data that crosses the
//! boundary into the analytics engine (strings, numbers, booleans, ordered
//! lists, string-keyed objects, and opaque element references).

use vstd::prelude::*;

verus! {

broadcast use vstd::std_specs::vec::group_vec_axioms;

/// An IEEE 754 double-precision number carried by its bit pattern.
///
/// The adapter never does arithmetic on these values; it only forwards them,
/// and rejects the non-finite ones at the call site, so the bit pattern is
/// all the verified code needs.
#[derive(Debug, Clone, Copy, PartialEq, Eq, Structural)]
pub struct Number {
    pub bits: u64,
}

/// A double-precision bit pattern is finite exactly when its exponent field
/// is not all ones (all ones encodes an infinity or a NaN).
pub open spec fn finite_bits(bits: u64) -> bool {
    (bits >> 52) & 0x7ff != 0x7ff
}

impl Number {
    pub fn from_bits(bits: u64) -> (r: Number)
        ensures
            r.bits == bits,
    {
        Number { bits }
    }

    pub open spec fn spec_finite(self) -> bool {
        finite_bits(self.bits)
    }

    /// True exactly when the bit pattern encodes a finite number.
    pub fn is_finite(&self) -> (r: bool)
        ensures
            r == self.spec_finite(),
    {
        (self.bits >> 52) & 0x7ff != 0x7ff
    }
}

/// The mathematical model of a wire value.
#[verifier::ext_equal]
pub enum SpecValue {
    Null,
    Bool(bool),
    UInt(u32),
    Num(u64),
    Str(Seq<char>),
    List(Seq<SpecValue>),
    Object(Seq<(Seq<char>, SpecValue)>),
    Element(u32),
}

/// A wire value as handed to the engine: the JSON-equivalent data plus the
/// two shapes that only exist at this boundary, `Null` (an explicitly absent
/// positional argument) and `Element` (an opaque reference, by handle, to a
/// document element owned by the host page).
#[derive(Debug, PartialEq)]
pub enum WireValue {
    Null,
    Bool(bool),
    UInt(u32),
    Num(Number),
    Str(String),
    List(Vec<WireValue>),
    Object(Vec<(String, WireValue)>),
    Element(u32),
}

impl WireValue {
    pub open spec fn model(self) -> SpecValue
        decreases self,
    {
        match self {
            WireValue::Null => SpecValue::Null,
            WireValue::Bool(b) => SpecValue::Bool(b),
            WireValue::UInt(n) => SpecValue::UInt(n),
            WireValue::Num(n) => SpecValue::Num(n.bits),
            WireValue::Str(s) => SpecValue::Str(s@),
            WireValue::List(l) => SpecValue::List(wire_seq_model(l@)),
            WireValue::Object(o) => SpecValue::Object(entry_seq_model(o@)),
            WireValue::Element(id) => SpecValue::Element(id),
        }
    }
}

/// The model of a sequence of wire values, element by element.
pub open spec fn wire_seq_model(l: Seq<WireValue>) -> Seq<SpecValue>
    decreases l,
{
    if l.len() == 0 {
        Seq::empty()
    } else {
        seq![l[0].model()] + wire_seq_model(l.drop_first())
    }
}

/// The model of a whole wire object (an ordered, string-keyed entry list).
pub open spec fn entry_seq_model(o: Seq<(String, WireValue)>) -> Seq<(Seq<char>, SpecValue)>
    decreases o,
{
    if o.len() == 0 {
        Seq::empty()
    } else {
        seq![(o[0].0@, o[0].1.model())] + entry_seq_model(o.drop_first())
    }
}

/// The model of a sequence is its elements' models, position by position.
pub proof fn lemma_wire_seq_model(l: Seq<WireValue>)
    ensures
        wire_seq_model(l).len() == l.len(),
        forall|i: int| 0 <= i < l.len() ==> #[trigger] wire_seq_model(l)[i] == l[i].model(),
    decreases l,
{
    if l.len() > 0 {
        let d = l.drop_first();
        lemma_wire_seq_model(d);
        assert forall|i: int| 0 <= i < l.len() implies #[trigger] wire_seq_model(l)[i] == l[
            i
        ].model() by {
            if i > 0 {
                assert(d[i - 1] == l[i]);
            }
        }
    }
}

/// The model of an entry list keeps each key and models each value, position
/// by position.
pub proof fn lemma_entry_seq_model(o: Seq<(String, WireValue)>)
    ensures
        entry_seq_model(o).len() == o.len(),
        forall|i: int| 0 <= i < o.len() ==> #[trigger] entry_seq_model(o)[i] == (
            o[i].0@,
            o[i].1.model(),
        ),
    decreases o,
{
    if o.len() > 0 {
        let d = o.drop_first();
        lemma_entry_seq_model(d);
        assert forall|i: int| 0 <= i < o.len() implies #[trigger] entry_seq_model(o)[i] == (
            o[i].0@,
            o[i].1.model(),
        ) by {
            if i > 0 {
                assert(d[i - 1] == o[i]);
            }
        }
    }
}

/// The model of a list of plain strings as a wire list.
pub open spec fn str_list_model(l: Seq<String>) -> Seq<SpecValue> {
    Seq::new(l.len(), |i: int| SpecValue::Str(l[i]@))
}

/// The model of a string-to-string map as a wire object.
pub open spec fn str_map_model(m: Seq<(String, String)>) -> Seq<(Seq<char>, SpecValue)> {
    Seq::new(m.len(), |i: int| (m[i].0@, SpecValue::Str(m[i].1@)))
}

/// The model of a string-to-boolean map as a wire object.
pub open spec fn bool_map_model(m: Seq<(String, bool)>) -> Seq<(Seq<char>, SpecValue)> {
    Seq::new(m.len(), |i: int| (m[i].0@, SpecValue::Bool(m[i].1)))
}

/// Appending one entry appends exactly its model.
pub proof fn lemma_entry_seq_model_push(s: Seq<(String, WireValue)>, e: (String, WireValue))
    ensures
        entry_seq_model(s.push(e)) == entry_seq_model(s) + seq![(e.0@, e.1.model())],
{
    lemma_entry_seq_model(s);
    lemma_entry_seq_model(s.push(e));
    assert(entry_seq_model(s.push(e)) =~= entry_seq_model(s) + seq![(e.0@, e.1.model())]);
}

/// The model of a concatenation is the concatenation of the models.
pub proof fn lemma_entry_seq_model_concat(a: Seq<(String, WireValue)>, b: Seq<(String, WireValue)>)
    ensures
        entry_seq_model(a + b) == entry_seq_model(a) + entry_seq_model(b),
{
    lemma_entry_seq_model(a);
    lemma_entry_seq_model(b);
    lemma_entry_seq_model(a + b);
    assert(entry_seq_model(a + b) =~= entry_seq_model(a) + entry_seq_model(b));
}

// The entry vocabulary of wire objects. Each spec function below gives the
// (possibly empty) entry list that one typed field contributes to a wire
// object, following the omission convention: a field still carrying its
// default contributes nothing, so the engine applies its own default rather
// than receiving an explicit override.

/// A mandatory string entry.
pub open spec fn str_entry(k: Seq<char>, v: Seq<char>) -> Seq<(Seq<char>, SpecValue)> {
    seq![(k, SpecValue::Str(v))]
}

/// An optional string entry, omitted when unset.
pub open spec fn opt_str_entry(k: Seq<char>, v: Option<String>) -> Seq<(Seq<char>, SpecValue)> {
    match v {
        Option::Some(s) => seq![(k, SpecValue::Str(s@))],
        Option::None => seq![],
    }
}

/// A string entry omitted when the string is empty.
pub open spec fn nonempty_str_entry(k: Seq<char>, v: Seq<char>) -> Seq<(Seq<char>, SpecValue)> {
    if v.len() == 0 {
        seq![]
    } else {
        seq![(k, SpecValue::Str(v))]
    }
}

/// A mandatory unsigned integer entry.
pub open spec fn u32_entry(k: Seq<char>, n: u32) -> Seq<(Seq<char>, SpecValue)> {
    seq![(k, SpecValue::UInt(n))]
}

/// An optional unsigned integer entry, omitted when unset.
pub open spec fn opt_u32_entry(k: Seq<char>, v: Option<u32>) -> Seq<(Seq<char>, SpecValue)> {
    match v {
        Option::Some(n) => seq![(k, SpecValue::UInt(n))],
        Option::None => seq![],
    }
}

/// An optional numeric entry, omitted when unset.
pub open spec fn opt_num_entry(k: Seq<char>, v: Option<Number>) -> Seq<(Seq<char>, SpecValue)> {
    match v {
        Option::Some(n) => seq![(k, SpecValue::Num(n.bits))],
        Option::None => seq![],
    }
}

/// An unset optional number is finite; a set one is finite when its bit
/// pattern is.
pub open spec fn opt_num_finite(v: Option<Number>) -> bool {
    match v {
        Option::Some(n) => n.spec_finite(),
        Option::None => true,
    }
}

/// A boolean entry omitted while it still holds its default, so that an
/// explicit override is always sent and a default never is.
pub open spec fn flag_entry(k: Seq<char>, b: bool, default: bool) -> Seq<(Seq<char>, SpecValue)> {
    if b == default {
        seq![]
    } else {
        seq![(k, SpecValue::Bool(b))]
    }
}

/// A string-list entry, omitted when the list is empty.
pub open spec fn str_list_entry(k: Seq<char>, l: Seq<String>) -> Seq<(Seq<char>, SpecValue)> {
    if l.len() == 0 {
        seq![]
    } else {
        seq![(k, SpecValue::List(str_list_model(l)))]
    }
}

/// A string-to-boolean map entry, omitted when the map is empty.
pub open spec fn bool_map_entry(k: Seq<char>, m: Seq<(String, bool)>) -> Seq<
    (Seq<char>, SpecValue),
> {
    if m.len() == 0 {
        seq![]
    } else {
        seq![(k, SpecValue::Object(bool_map_model(m)))]
    }
}

/// A mandatory string-to-string map entry.
pub open spec fn str_map_entry(k: Seq<char>, m: Seq<(String, String)>) -> Seq<
    (Seq<char>, SpecValue),
> {
    seq![(k, SpecValue::Object(str_map_model(m)))]
}

/// A string-to-string map entry, omitted when the map is empty.
pub open spec fn nonempty_str_map_entry(k: Seq<char>, m: Seq<(String, String)>) -> Seq<
    (Seq<char>, SpecValue),
> {
    if m.len() == 0 {
        seq![]
    } else {
        str_map_entry(k, m)
    }
}

/// The error taxonomy of the marshaling layer. The adapter performs no
/// validation of its own beyond representability: a value that cannot be
/// expressed in the wire shape is rejected at the call site instead of being
/// silently coerced.
#[derive(Debug, Clone, Copy, PartialEq, Eq, Structural)]
pub enum WireError {
    /// A caller-supplied number was an infinity or a NaN.
    NonFiniteNumber,
}

/// A custom user-property value: a closed variant over text, numbers and
/// nested lists, matching the engine's loosely-typed value model.
#[derive(Debug, PartialEq)]
pub enum Value {
    Text(String),
    Number(Number),
    Array(Vec<Value>),
}

impl Value {
    pub open spec fn model(self) -> SpecValue
        decreases self,
    {
        match self {
            Value::Text(s) => SpecValue::Str(s@),
            Value::Number(n) => SpecValue::Num(n.bits),
            Value::Array(a) => SpecValue::List(value_seq_model(a@)),
        }
    }

    pub open spec fn spec_finite(self) -> bool
        decreases self,
    {
        match self {
            Value::Text(_) => true,
            Value::Number(n) => n.spec_finite(),
            Value::Array(a) => value_seq_finite(a@),
        }
    }

    /// True exactly when every number anywhere in the value is finite.
    #[verifier::loop_isolation(false)]
    pub fn is_finite(&self) -> (r: bool)
        ensures
            r == self.spec_finite(),
        decreases *self,
    {
        match self {
            Value::Text(_) => true,
            Value::Number(n) => n.is_finite(),
            Value::Array(a) => {
                let mut i: usize = 0;
                let mut ok = true;
                proof {
                    lemma_value_seq_finite_index(a@);
                }
                while i < a.len()
                    invariant
                        i <= a.len(),
                        ok == forall|j: int| 0 <= j < i ==> #[trigger] a@[j].spec_finite(),
                        value_seq_finite(a@) == forall|j: int|
                            0 <= j < a@.len() ==> #[trigger] a@[j].spec_finite(),
                    decreases a.len() - i,
                {
                    proof {
                        assert(decreases_to!(*self => self->Array_0));
                        assert(decreases_to!(self->Array_0 => a@));
                        assert(decreases_to!(a@ => a@[i as int]));
                        assert(decreases_to!(*self => a@[i as int]));
                    }
                    if !a[i].is_finite() {
                        ok = false;
                    }
                    i = i + 1;
                }
                ok
            },
        }
    }

    /// Converts the value into its wire shape.
    #[verifier::loop_isolation(false)]
    pub fn to_wire(&self) -> (r: WireValue)
        ensures
            r.model() == self.model(),
        decreases *self,
    {
        match self {
            Value::Text(s) => WireValue::Str(s.clone()),
            Value::Number(n) => WireValue::Num(*n),
            Value::Array(a) => {
                let mut out: Vec<WireValue> = Vec::new();
                let mut i: usize = 0;
                while i < a.len()
                    invariant
                        i <= a.len(),
                        out@.len() == i,
                        forall|j: int| 0 <= j < i ==> #[trigger] out@[j].model() == a@[j].model(),
                    decreases a.len() - i,
                {
                    proof {
                        assert(decreases_to!(*self => self->Array_0));
                        assert(decreases_to!(self->Array_0 => a@));
                        assert(decreases_to!(a@ => a@[i as int]));
                        assert(decreases_to!(*self => a@[i as int]));
                    }
                    let w = a[i].to_wire();
                    out.push(w);
                    i = i + 1;
                }
                let r = WireValue::List(out);
                proof {
                    lemma_wire_seq_model(out@);
                    lemma_value_seq_model_index(a@);
                    assert(wire_seq_model(out@) =~= value_seq_model(a@));
                }
                r
            },
        }
    }
}

/// Whether an optional number field is absent or finite.
pub(crate) fn opt_num_is_finite(v: &Option<Number>) -> (r: bool)
    ensures
        r == opt_num_finite(*v),
{
    match v {
        Option::Some(n) => n.is_finite(),
        Option::None => true,
    }
}

/// Builds the wire list holding the given strings, in order.
pub(crate) fn str_list_value(l: &Vec<String>) -> (r: WireValue)
    ensures
        r.model() == SpecValue::List(str_list_model(l@)),
{
    let mut out: Vec<WireValue> = Vec::new();
    let mut i: usize = 0;
    while i < l.len()
        invariant
            i <= l.len(),
            out@.len() == i,
            forall|j: int| 0 <= j < i ==> #[trigger] out@[j].model() == SpecValue::Str(l@[j]@),
        decreases l.len() - i,
    {
        out.push(WireValue::Str(l[i].clone()));
        i = i + 1;
    }
    let r = WireValue::List(out);
    proof {
        lemma_wire_seq_model(r->List_0@);
        assert(wire_seq_model(r->List_0@) =~= str_list_model(l@));
    }
    r
}

/// Builds the wire object holding the given string-to-string map, in order.
pub(crate) fn str_map_value(m: &Vec<(String, String)>) -> (r: WireValue)
    ensures
        r.model() == SpecValue::Object(str_map_model(m@)),
{
    let mut out: Vec<(String, WireValue)> = Vec::new();
    let mut i: usize = 0;
    while i < m.len()
        invariant
            i <= m.len(),
            out@.len() == i,
            forall|j: int| 0 <= j < i ==> #[trigger] out@[j].0@ == m@[j].0@ && out@[j].1.model()
                == SpecValue::Str(m@[j].1@),
        decreases m.len() - i,
    {
        out.push((m[i].0.clone(), WireValue::Str(m[i].1.clone())));
        i = i + 1;
    }
    let r = WireValue::Object(out);
    proof {
        lemma_entry_seq_model(r->Object_0@);
        assert(entry_seq_model(r->Object_0@) =~= str_map_model(m@));
    }
    r
}

/// Builds the wire object holding the given string-to-boolean map, in order.
pub(crate) fn bool_map_value(m: &Vec<(String, bool)>) -> (r: WireValue)
    ensures
        r.model() == SpecValue::Object(bool_map_model(m@)),
{
    let mut out: Vec<(String, WireValue)> = Vec::new();
    let mut i: usize = 0;
    while i < m.len()
        invariant
            i <= m.len(),
            out@.len() == i,
            forall|j: int| 0 <= j < i ==> #[trigger] out@[j].0@ == m@[j].0@ && out@[j].1.model()
                == SpecValue::Bool(m@[j].1),
        decreases m.len() - i,
    {
        out.push((m[i].0.clone(), WireValue::Bool(m[i].1)));
        i = i + 1;
    }
    let r = WireValue::Object(out);
    proof {
        lemma_entry_seq_model(r->Object_0@);
        assert(entry_seq_model(r->Object_0@) =~= bool_map_model(m@));
    }
    r
}

/// Appends a mandatory string entry.
pub(crate) fn push_str_entry(out: &mut Vec<(String, WireValue)>, k: &str, v: &String)
    ensures
        entry_seq_model(final(out)@) == entry_seq_model(old(out)@) + str_entry(k@, v@),
{
    let e = (k.to_owned(), WireValue::Str(v.clone()));
    let ghost ge = e;
    out.push(e);
    proof {
        lemma_entry_seq_model_push(old(out)@, ge);
        assert(entry_seq_model(out@) =~= entry_seq_model(old(out)@) + str_entry(k@, v@));
    }
}

/// Appends an optional string entry, or nothing when it is unset.
pub(crate) fn push_opt_str_entry(out: &mut Vec<(String, WireValue)>, k: &str, v: &Option<String>)
    ensures
        entry_seq_model(final(out)@) == entry_seq_model(old(out)@) + opt_str_entry(k@, *v),
{
    match v {
        Option::Some(s) => {
            push_str_entry(out, k, s);
        },
        Option::None => {
            proof {
                assert(entry_seq_model(out@) =~= entry_seq_model(out@) + opt_str_entry(k@, *v));
            }
        },
    }
}

/// Appends a string entry, or nothing when the string is empty.
pub(crate) fn push_nonempty_str_entry(out: &mut Vec<(String, WireValue)>, k: &str, v: &String)
    ensures
        entry_seq_model(final(out)@) == entry_seq_model(old(out)@) + nonempty_str_entry(k@, v@),
{
    if !v.as_str().is_empty() {
        push_str_entry(out, k, v);
    } else {
        proof {
            assert(entry_seq_model(out@) =~= entry_seq_model(out@) + nonempty_str_entry(k@, v@));
        }
    }
}

/// Appends a mandatory unsigned integer entry.
pub(crate) fn push_u32_entry(out: &mut Vec<(String, WireValue)>, k: &str, n: u32)
    ensures
        entry_seq_model(final(out)@) == entry_seq_model(old(out)@) + u32_entry(k@, n),
{
    let e = (k.to_owned(), WireValue::UInt(n));
    let ghost ge = e;
    out.push(e);
    proof {
        lemma_entry_seq_model_push(old(out)@, ge);
        assert(entry_seq_model(out@) =~= entry_seq_model(old(out)@) + u32_entry(k@, n));
    }
}

/// Appends an optional unsigned integer entry, or nothing when it is unset.
pub(crate) fn push_opt_u32_entry(out: &mut Vec<(String, WireValue)>, k: &str, v: &Option<u32>)
    ensures
        entry_seq_model(final(out)@) == entry_seq_model(old(out)@) + opt_u32_entry(k@, *v),
{
    match v {
        Option::Some(n) => {
            push_u32_entry(out, k, *n);
        },
        Option::None => {
            proof {
                assert(entry_seq_model(out@) =~= entry_seq_model(out@) + opt_u32_entry(k@, *v));
            }
        },
    }
}

/// Appends an optional numeric entry, or nothing when it is unset.
pub(crate) fn push_opt_num_entry(out: &mut Vec<(String, WireValue)>, k: &str, v: &Option<Number>)
    ensures
        entry_seq_model(final(out)@) == entry_seq_model(old(out)@) + opt_num_entry(k@, *v),
{
    match v {
        Option::Some(n) => {
            let e = (k.to_owned(), WireValue::Num(*n));
            let ghost ge = e;
            out.push(e);
            proof {
                lemma_entry_seq_model_push(old(out)@, ge);
                assert(entry_seq_model(out@) =~= entry_seq_model(old(out)@) + opt_num_entry(
                    k@,
                    *v,
                ));
            }
        },
        Option::None => {
            proof {
                assert(entry_seq_model(out@) =~= entry_seq_model(out@) + opt_num_entry(k@, *v));
            }
        },
    }
}

/// Appends a boolean entry, or nothing while the flag holds its default.
pub(crate) fn push_flag_entry(out: &mut Vec<(String, WireValue)>, k: &str, b: bool, default: bool)
    ensures
        entry_seq_model(final(out)@) == entry_seq_model(old(out)@) + flag_entry(k@, b, default),
{
    if b != default {
        let e = (k.to_owned(), WireValue::Bool(b));
        let ghost ge = e;
        out.push(e);
        proof {
            lemma_entry_seq_model_push(old(out)@, ge);
            assert(entry_seq_model(out@) =~= entry_seq_model(old(out)@) + flag_entry(
                k@,
                b,
                default,
            ));
        }
    } else {
        proof {
            assert(entry_seq_model(out@) =~= entry_seq_model(out@) + flag_entry(k@, b, default));
        }
    }
}

/// Appends a string-list entry, or nothing when the list is empty.
pub(crate) fn push_str_list_entry(out: &mut Vec<(String, WireValue)>, k: &str, l: &Vec<String>)
    ensures
        entry_seq_model(final(out)@) == entry_seq_model(old(out)@) + str_list_entry(k@, l@),
{
    if l.len() > 0 {
        let e = (k.to_owned(), str_list_value(l));
        let ghost ge = e;
        out.push(e);
        proof {
            lemma_entry_seq_model_push(old(out)@, ge);
            assert(entry_seq_model(out@) =~= entry_seq_model(old(out)@) + str_list_entry(k@, l@));
        }
    } else {
        proof {
            assert(entry_seq_model(out@) =~= entry_seq_model(out@) + str_list_entry(k@, l@));
        }
    }
}

/// Appends a string-to-boolean map entry, or nothing when the map is empty.
pub(crate) fn push_bool_map_entry(
    out: &mut Vec<(String, WireValue)>,
    k: &str,
    m: &Vec<(String, bool)>,
)
    ensures
        entry_seq_model(final(out)@) == entry_seq_model(old(out)@) + bool_map_entry(k@, m@),
{
    if m.len() > 0 {
        let e = (k.to_owned(), bool_map_value(m));
        let ghost ge = e;
        out.push(e);
        proof {
            lemma_entry_seq_model_push(old(out)@, ge);
            assert(entry_seq_model(out@) =~= entry_seq_model(old(out)@) + bool_map_entry(k@, m@));
        }
    } else {
        proof {
            assert(entry_seq_model(out@) =~= entry_seq_model(out@) + bool_map_entry(k@, m@));
        }
    }
}

/// Appends a mandatory string-to-string map entry.
pub(crate) fn push_str_map_entry(
    out: &mut Vec<(String, WireValue)>,
    k: &str,
    m: &Vec<(String, String)>,
)
    ensures
        entry_seq_model(final(out)@) == entry_seq_model(old(out)@) + str_map_entry(k@, m@),
{
    let e = (k.to_owned(), str_map_value(m));
    let ghost ge = e;
    out.push(e);
    proof {
        lemma_entry_seq_model_push(old(out)@, ge);
        assert(entry_seq_model(out@) =~= entry_seq_model(old(out)@) + str_map_entry(k@, m@));
    }
}

/// Appends a string-to-string map entry, or nothing when the map is empty.
pub(crate) fn push_nonempty_str_map_entry(
    out: &mut Vec<(String, WireValue)>,
    k: &str,
    m: &Vec<(String, String)>,
)
    ensures
        entry_seq_model(final(out)@) == entry_seq_model(old(out)@) + nonempty_str_map_entry(
            k@,
            m@,
        ),
{
    if m.len() > 0 {
        push_str_map_entry(out, k, m);
    } else {
        proof {
            assert(entry_seq_model(out@) =~= entry_seq_model(out@) + nonempty_str_map_entry(
                k@,
                m@,
            ));
        }
    }
}

/// The model of a sequence of user-property values, element by element.
pub open spec fn value_seq_model(l: Seq<Value>) -> Seq<SpecValue>
    decreases l,
{
    if l.len() == 0 {
        Seq::empty()
    } else {
        seq![l[0].model()] + value_seq_model(l.drop_first())
    }
}

/// A sequence of user-property values is finite when each element is.
pub open spec fn value_seq_finite(l: Seq<Value>) -> bool
    decreases l,
{
    if l.len() == 0 {
        true
    } else {
        l[0].spec_finite() && value_seq_finite(l.drop_first())
    }
}

pub proof fn lemma_value_seq_model_index(l: Seq<Value>)
    ensures
        value_seq_model(l).len() == l.len(),
        forall|i: int| 0 <= i < l.len() ==> #[trigger] value_seq_model(l)[i] == l[i].model(),
    decreases l,
{
    if l.len() > 0 {
        let d = l.drop_first();
        lemma_value_seq_model_index(d);
        assert forall|i: int| 0 <= i < l.len() implies #[trigger] value_seq_model(l)[i] == l[
            i
        ].model() by {
            if i > 0 {
                assert(d[i - 1] == l[i]);
            }
        }
    }
}

pub proof fn lemma_value_seq_finite_index(l: Seq<Value>)
    ensures
        value_seq_finite(l) == forall|i: int| 0 <= i < l.len() ==> #[trigger] l[i].spec_finite(),
    decreases l,
{
    if l.len() > 0 {
        let d = l.drop_first();
        lemma_value_seq_finite_index(d);
        if value_seq_finite(l) {
            assert forall|i: int| 0 <= i < l.len() implies #[trigger] l[i].spec_finite() by {
                if i > 0 {
                    assert(d[i - 1] == l[i]);
                }
            }
        } else {
            if l[0].spec_finite() {
                let i = choose|i: int| 0 <= i < d.len() && !(#[trigger] d[i].spec_finite());
                assert(d[i] == l[i + 1]);
                assert(!l[i + 1].spec_finite());
            }
        }
    }
}

} // verus!
