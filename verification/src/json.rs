//! The wire-value model: a JSON document tree, its ghost counterpart, and a
//! renderer that produces the exact textual form of a document.
use vstd::prelude::*;
use vstd::string::*;

verus! {

broadcast use vstd::std_specs::vec::group_vec_axioms, vstd::seq::group_seq_axioms;

/// A non-integer number, kept as explicit decimal digits so that the rendered
/// text is pinned exactly: `int_part` before the point, then `frac` padded
/// with leading zeroes to `frac_width` digits.  `new(2, 0, 1)` renders as
/// `2.0`, `new(0, 65, 2)` as `0.65`, `new(10, 1, 2)` as `10.01`.
#[derive(Clone, Copy, Debug, PartialEq, Eq, Structural)]
pub struct Decimal {
    pub neg: bool,
    pub int_part: u64,
    pub frac: u64,
    pub frac_width: u8,
}

impl Decimal {
    /// A non-negative decimal from its rendered parts.
    pub fn new(int_part: u64, frac: u64, frac_width: u8) -> (r: Decimal)
        ensures
            r == (Decimal { neg: false, int_part, frac, frac_width }),
    {
        Decimal { neg: false, int_part, frac, frac_width }
    }

    /// The same digits with a leading minus sign.
    pub fn negated(self) -> (r: Decimal)
        ensures
            r == (Decimal { neg: true, ..self }),
    {
        Decimal { neg: true, ..self }
    }
}

/// The ghost form of a document: what a `Json` value denotes.
pub enum JVal {
    Null,
    Bool(bool),
    UInt(u128),
    Int(i128),
    Num(Decimal),
    Str(Seq<char>),
    Arr(Seq<JVal>),
    Obj(Seq<(Seq<char>, JVal)>),
}

/// An executable JSON document tree.  Object entries keep their order; the
/// renderer emits them exactly as stored.
#[derive(Debug)]
pub enum Json {
    Null,
    Bool(bool),
    UInt(u128),
    Int(i128),
    Num(Decimal),
    Str(String),
    Arr(Vec<Json>),
    Obj(Vec<(String, Json)>),
}

impl Json {
    /// A string value from a borrowed slice.
    pub fn text(s: &str) -> (r: Json)
        ensures
            jv(r) == JVal::Str(s@),
    {
        Json::Str(s.to_owned())
    }

    /// An unsigned integer value.
    pub fn uint(n: u64) -> (r: Json)
        ensures
            jv(r) == JVal::UInt(n as u128),
    {
        Json::UInt(n as u128)
    }
}

pub open spec fn jv(j: Json) -> JVal
    decreases j,
{
    match j {
        Json::Null => JVal::Null,
        Json::Bool(b) => JVal::Bool(b),
        Json::UInt(n) => JVal::UInt(n),
        Json::Int(n) => JVal::Int(n),
        Json::Num(d) => JVal::Num(d),
        Json::Str(s) => JVal::Str(s@),
        Json::Arr(v) => JVal::Arr(jv_list(v@)),
        Json::Obj(es) => JVal::Obj(jv_entries(es@)),
    }
}

pub open spec fn jv_list(s: Seq<Json>) -> Seq<JVal>
    decreases s,
{
    if s.len() == 0 {
        Seq::empty()
    } else {
        jv_list(s.drop_last()).push(jv(s.last()))
    }
}

pub open spec fn jv_entries(s: Seq<(String, Json)>) -> Seq<(Seq<char>, JVal)>
    decreases s,
{
    if s.len() == 0 {
        Seq::empty()
    } else {
        jv_entries(s.drop_last()).push((s.last().0@, jv(s.last().1)))
    }
}

pub broadcast proof fn lemma_jv_list_push(s: Seq<Json>, j: Json)
    ensures
        #[trigger] jv_list(s.push(j)) == jv_list(s).push(jv(j)),
{
    assert(s.push(j).drop_last() =~= s);
}

pub broadcast proof fn lemma_jv_entries_push(s: Seq<(String, Json)>, p: (String, Json))
    ensures
        #[trigger] jv_entries(s.push(p)) == jv_entries(s).push((p.0@, jv(p.1))),
{
    assert(s.push(p).drop_last() =~= s);
}

pub proof fn lemma_jv_list_len(s: Seq<Json>)
    ensures
        jv_list(s).len() == s.len(),
        forall|i: int| 0 <= i < s.len() ==> jv_list(s)[i] == jv(s[i]),
    decreases s,
{
    if s.len() > 0 {
        lemma_jv_list_len(s.drop_last());
    }
}

/// An attribute slot: the wire name of the attribute and its value, `None`
/// when the attribute was never set.
pub open spec fn present(slots: Seq<(Seq<char>, Option<JVal>)>) -> Seq<(Seq<char>, JVal)>
    decreases slots,
{
    if slots.len() == 0 {
        Seq::empty()
    } else {
        let rest = present(slots.drop_last());
        match slots.last().1 {
            Some(v) => rest.push((slots.last().0, v)),
            None => rest,
        }
    }
}

pub broadcast proof fn lemma_present_push(
    slots: Seq<(Seq<char>, Option<JVal>)>,
    p: (Seq<char>, Option<JVal>),
)
    ensures
        #[trigger] present(slots.push(p)) == (match p.1 {
            Some(v) => present(slots).push((p.0, v)),
            None => present(slots),
        }),
{
    assert(slots.push(p).drop_last() =~= slots);
}

pub open spec fn opt_str(o: Option<String>) -> Option<JVal> {
    match o {
        Some(s) => Some(JVal::Str(s@)),
        None => None,
    }
}

pub open spec fn opt_u64(o: Option<u64>) -> Option<JVal> {
    match o {
        Some(n) => Some(JVal::UInt(n as u128)),
        None => None,
    }
}

pub open spec fn opt_usize(o: Option<usize>) -> Option<JVal> {
    match o {
        Some(n) => Some(JVal::UInt(n as u128)),
        None => None,
    }
}

pub open spec fn opt_i64(o: Option<i64>) -> Option<JVal> {
    match o {
        Some(n) => Some(JVal::Int(n as i128)),
        None => None,
    }
}

pub open spec fn opt_bool(o: Option<bool>) -> Option<JVal> {
    match o {
        Some(b) => Some(JVal::Bool(b)),
        None => None,
    }
}

pub open spec fn opt_dec(o: Option<Decimal>) -> Option<JVal> {
    match o {
        Some(d) => Some(JVal::Num(d)),
        None => None,
    }
}

pub open spec fn opt_json(o: Option<Json>) -> Option<JVal> {
    match o {
        Some(j) => Some(jv(j)),
        None => None,
    }
}

/// The value of an attribute that is always emitted: `null` when unset.
pub open spec fn json_or_null(o: Option<Json>) -> JVal {
    match o {
        Some(j) => jv(j),
        None => JVal::Null,
    }
}

/// The executable counterpart of [`json_or_null`].
pub fn take_or_null(o: Option<Json>) -> (r: Json)
    ensures
        jv(r) == json_or_null(o),
{
    match o {
        Some(j) => j,
        None => Json::Null,
    }
}

/// The value of a text attribute that is always emitted: `null` when unset.
pub open spec fn str_or_null(o: Option<String>) -> JVal {
    match o {
        Some(s) => JVal::Str(s@),
        None => JVal::Null,
    }
}

/// The executable counterpart of [`str_or_null`].
pub fn take_str_or_null(o: Option<String>) -> (r: Json)
    ensures
        jv(r) == str_or_null(o),
{
    match o {
        Some(s) => Json::Str(s),
        None => Json::Null,
    }
}

/// The view of a string list as an array value.
pub open spec fn str_list_jval(s: Seq<String>) -> Seq<JVal>
    decreases s,
{
    if s.len() == 0 {
        Seq::empty()
    } else {
        str_list_jval(s.drop_last()).push(JVal::Str(s.last()@))
    }
}

pub broadcast proof fn lemma_str_list_push(s: Seq<String>, x: String)
    ensures
        #[trigger] str_list_jval(s.push(x)) == str_list_jval(s).push(JVal::Str(x@)),
{
    assert(s.push(x).drop_last() =~= s);
}

/// Converts an owned string list into an array document.
pub fn strings_to_json(list: Vec<String>) -> (r: Json)
    ensures
        jv(r) == JVal::Arr(str_list_jval(list@)),
{
    broadcast use lemma_jv_list_push, lemma_str_list_push;

    let mut out: Vec<Json> = Vec::new();
    let n = list.len();
    let ghost orig = list@;
    let mut rest = list;
    let mut k: usize = 0;
    while k < n
        invariant
            k <= n,
            orig.len() == n,
            rest@ =~= orig.subrange(k as int, n as int),
            jv_list(out@) == str_list_jval(orig.subrange(0, k as int)),
        decreases n - k,
    {
        let s = rest.remove(0);
        assert(s == orig[k as int]);
        let ghost prev = out@;
        out.push(Json::Str(s));
        proof {
            lemma_jv_list_push(prev, Json::Str(s));
            lemma_str_list_push(orig.subrange(0, k as int), s);
            assert(orig.subrange(0, k + 1).drop_last() =~= orig.subrange(0, k as int));
            assert(rest@ =~= orig.subrange(k + 1, n as int));
            assert(str_list_jval(orig.subrange(0, k + 1)) == str_list_jval(
                orig.subrange(0, k as int),
            ).push(JVal::Str(orig[k as int]@)));
        }
        k = k + 1;
    }
    proof {
        assert(orig.subrange(0, n as int) =~= orig);
    }
    Json::Arr(out)
}

/// Appends one object entry under a fixed attribute name.
pub fn push_entry(es: &mut Vec<(String, Json)>, name: &str, j: Json)
    ensures
        jv_entries(final(es)@) == jv_entries(old(es)@).push((name@, jv(j))),
{
    let ghost e0 = es@;
    let p = (String::from_str(name), j);
    let ghost gp = p;
    es.push(p);
    proof {
        lemma_jv_entries_push(e0, gp);
    }
}

/// Appends one object entry under a runtime key.
pub fn push_key_entry(es: &mut Vec<(String, Json)>, key: String, j: Json)
    ensures
        jv_entries(final(es)@) == jv_entries(old(es)@).push((key@, jv(j))),
{
    let ghost e0 = es@;
    let p = (key, j);
    let ghost gp = p;
    es.push(p);
    proof {
        lemma_jv_entries_push(e0, gp);
    }
}

/// An object holding one entry under a runtime key.
pub fn wrap_key(key: String, j: Json) -> (r: Json)
    ensures
        jv(r) == JVal::Obj(Seq::empty().push((key@, jv(j)))),
{
    let mut es: Vec<(String, Json)> = Vec::new();
    let ghost e0 = es@;
    let p = (key, j);
    let ghost gp = p;
    es.push(p);
    proof {
        lemma_jv_entries_push(e0, gp);
    }
    Json::Obj(es)
}

/// An object holding one entry under a fixed tag.
pub fn wrap_tag(tag: &str, j: Json) -> (r: Json)
    ensures
        jv(r) == JVal::Obj(Seq::empty().push((tag@, jv(j)))),
{
    let mut es: Vec<(String, Json)> = Vec::new();
    push_entry(&mut es, tag, j);
    Json::Obj(es)
}

/// The serialization key of a field-keyed node: the field name, or the empty
/// string when the field was never set.
pub open spec fn field_key(f: Option<String>) -> Seq<char> {
    match f {
        Some(s) => s@,
        None => Seq::empty(),
    }
}

pub fn key_or_empty(f: Option<String>) -> (r: String)
    ensures
        r@ == field_key(f),
{
    match f {
        Some(s) => s,
        None => String::new(),
    }
}

/// Appends the decimal digits of `n`.
pub fn append_u64(out: &mut String, n: u64)
    ensures
        final(out)@ == old(out)@ + dec_str(n as nat),
{
    append_digits(out, n as u128);
}

/// One step of [`present`]: appends the entry when the slot is set.
pub open spec fn push_present(
    es: Seq<(Seq<char>, JVal)>,
    name: Seq<char>,
    v: Option<JVal>,
) -> Seq<(Seq<char>, JVal)> {
    match v {
        Some(j) => es.push((name, j)),
        None => es,
    }
}

pub broadcast proof fn lemma_present_push_slot(
    slots: Seq<(Seq<char>, Option<JVal>)>,
    p: (Seq<char>, Option<JVal>),
)
    ensures
        #[trigger] present(slots.push(p)) == push_present(present(slots), p.0, p.1),
{
    assert(slots.push(p).drop_last() =~= slots);
}

/// Appends one optional object entry: nothing when the slot is unset.
pub fn push_opt_slot(es: &mut Vec<(String, Json)>, name: &str, v: Option<Json>)
    ensures
        jv_entries(final(es)@) == push_present(jv_entries(old(es)@), name@, opt_json(v)),
{
    if let Some(j) = v {
        push_entry(es, name, j);
    }
}

pub fn str_slot(o: Option<String>) -> (r: Option<Json>)
    ensures
        opt_json(r) == opt_str(o),
{
    match o {
        Some(s) => Some(Json::Str(s)),
        None => None,
    }
}

pub fn u64_slot(o: Option<u64>) -> (r: Option<Json>)
    ensures
        opt_json(r) == opt_u64(o),
{
    match o {
        Some(n) => Some(Json::UInt(n as u128)),
        None => None,
    }
}

pub fn usize_slot(o: Option<usize>) -> (r: Option<Json>)
    ensures
        opt_json(r) == opt_usize(o),
{
    match o {
        Some(n) => Some(Json::UInt(n as u128)),
        None => None,
    }
}

pub fn i64_slot(o: Option<i64>) -> (r: Option<Json>)
    ensures
        opt_json(r) == opt_i64(o),
{
    match o {
        Some(n) => Some(Json::Int(n as i128)),
        None => None,
    }
}

pub fn bool_slot(o: Option<bool>) -> (r: Option<Json>)
    ensures
        opt_json(r) == opt_bool(o),
{
    match o {
        Some(b) => Some(Json::Bool(b)),
        None => None,
    }
}

pub fn dec_slot(o: Option<Decimal>) -> (r: Option<Json>)
    ensures
        opt_json(r) == opt_dec(o),
{
    match o {
        Some(d) => Some(Json::Num(d)),
        None => None,
    }
}

pub proof fn lemma_present_append(
    a: Seq<(Seq<char>, Option<JVal>)>,
    b: Seq<(Seq<char>, Option<JVal>)>,
)
    ensures
        present(a + b) == present(a) + present(b),
    decreases b,
{
    if b.len() == 0 {
        assert(a + b =~= a);
        assert(present(a) + present(b) =~= present(a));
    } else {
        lemma_present_append(a, b.drop_last());
        assert((a + b).drop_last() =~= a + b.drop_last());
        assert((a + b).last() == b.last());
        match b.last().1 {
            Some(v) => {
                assert((present(a) + present(b.drop_last())).push((b.last().0, v)) =~= present(a)
                    + present(b.drop_last()).push((b.last().0, v)));
            },
            None => {},
        }
    }
}

pub broadcast proof fn lemma_entries_add_push(
    a: Seq<(Seq<char>, JVal)>,
    b: Seq<(Seq<char>, JVal)>,
    x: (Seq<char>, JVal),
)
    ensures
        #[trigger] (a + b.push(x)) == (a + b).push(x),
{
    assert(a + b.push(x) =~= (a + b).push(x));
}

pub broadcast proof fn lemma_entries_add_empty(a: Seq<(Seq<char>, JVal)>)
    ensures
        #[trigger] (a + Seq::<(Seq<char>, JVal)>::empty()) == a,
{
    assert(a + Seq::<(Seq<char>, JVal)>::empty() =~= a);
}

pub open spec fn has_key(es: Seq<(Seq<char>, JVal)>, name: Seq<char>) -> bool {
    exists|i: int| 0 <= i < es.len() && es[i].0 == name
}

/// If every slot carrying `name` is unset, `name` does not appear among the
/// emitted keys.
pub proof fn lemma_present_omits(slots: Seq<(Seq<char>, Option<JVal>)>, name: Seq<char>)
    requires
        forall|i: int| 0 <= i < slots.len() && slots[i].0 == name ==> slots[i].1 is None,
    ensures
        !has_key(present(slots), name),
    decreases slots,
{
    if slots.len() > 0 {
        lemma_present_omits(slots.drop_last(), name);
        assert(forall|i: int|
            0 <= i < slots.len() - 1 ==> slots.drop_last()[i] == slots[i]);
        let es = present(slots);
        let rest = present(slots.drop_last());
        assert forall|i: int| 0 <= i < es.len() implies es[i].0 != name by {
            if i < rest.len() {
                assert(rest[i].0 != name);
            }
        }
    }
}

/// An unset slot whose name no other slot shares does not appear among the
/// emitted keys.
pub proof fn lemma_present_omits_at(slots: Seq<(Seq<char>, Option<JVal>)>, k: int)
    requires
        0 <= k < slots.len(),
        slots[k].1 is None,
        forall|i: int| 0 <= i < slots.len() && i != k ==> slots[i].0 != slots[k].0,
    ensures
        !has_key(present(slots), slots[k].0),
{
    lemma_present_omits(slots, slots[k].0);
}

/// A set slot's name does appear among the emitted keys.
pub proof fn lemma_present_has(slots: Seq<(Seq<char>, Option<JVal>)>, k: int)
    requires
        0 <= k < slots.len(),
        slots[k].1 is Some,
    ensures
        has_key(present(slots), slots[k].0),
    decreases slots,
{
    if k == slots.len() - 1 {
        let es = present(slots);
        assert(es[es.len() - 1].0 == slots[k].0);
    } else {
        lemma_present_has(slots.drop_last(), k);
        let rest = present(slots.drop_last());
        let es = present(slots);
        let i = choose|i: int| 0 <= i < rest.len() && rest[i].0 == slots.drop_last()[k].0;
        assert(es[i].0 == slots[k].0);
    }
}

pub open spec fn digit_char(d: nat) -> char {
    if d == 0 {
        '0'
    } else if d == 1 {
        '1'
    } else if d == 2 {
        '2'
    } else if d == 3 {
        '3'
    } else if d == 4 {
        '4'
    } else if d == 5 {
        '5'
    } else if d == 6 {
        '6'
    } else if d == 7 {
        '7'
    } else if d == 8 {
        '8'
    } else {
        '9'
    }
}

/// The decimal digits of `n`, most significant first.
pub open spec fn dec_str(n: nat) -> Seq<char>
    decreases n,
{
    if n < 10 {
        Seq::empty().push(digit_char(n))
    } else {
        dec_str(n / 10).push(digit_char(n % 10))
    }
}

pub open spec fn dec_len(n: nat) -> nat
    decreases n,
{
    if n < 10 {
        1
    } else {
        1 + dec_len(n / 10)
    }
}

pub proof fn lemma_dec_str_len(n: nat)
    ensures
        dec_str(n).len() == dec_len(n),
    decreases n,
{
    if n >= 10 {
        lemma_dec_str_len(n / 10);
    }
}

pub open spec fn pow10(k: nat) -> nat
    decreases k,
{
    if k == 0 {
        1
    } else {
        10 * pow10((k - 1) as nat)
    }
}

pub proof fn lemma_dec_len_bound(n: nat, k: nat)
    requires
        n < pow10(k),
        k >= 1,
    ensures
        dec_len(n) <= k,
    decreases k,
{
    if n >= 10 {
        assert(pow10(k) == 10 * pow10((k - 1) as nat));
        assert(n / 10 < pow10((k - 1) as nat)) by (nonlinear_arith)
            requires
                n < 10 * pow10((k - 1) as nat),
        ;
        lemma_dec_len_bound(n / 10, (k - 1) as nat);
    }
}

pub open spec fn zeroes(k: nat) -> Seq<char>
    decreases k,
{
    if k == 0 {
        Seq::empty()
    } else {
        zeroes((k - 1) as nat).push('0')
    }
}

/// The fraction digits of a decimal: `frac` padded with leading zeroes to
/// `width` digits; never truncated.
pub open spec fn frac_digits(frac: nat, width: nat) -> Seq<char> {
    if width <= dec_len(frac) {
        dec_str(frac)
    } else {
        zeroes((width - dec_len(frac)) as nat) + dec_str(frac)
    }
}

pub open spec fn decimal_str(d: Decimal) -> Seq<char> {
    let digits = dec_str(d.int_part as nat) + Seq::empty().push('.') + frac_digits(
        d.frac as nat,
        d.frac_width as nat,
    );
    if d.neg {
        Seq::empty().push('-') + digits
    } else {
        digits
    }
}

pub open spec fn hex_char(d: nat) -> char {
    if d < 10 {
        digit_char(d)
    } else if d == 10 {
        'a'
    } else if d == 11 {
        'b'
    } else if d == 12 {
        'c'
    } else if d == 13 {
        'd'
    } else if d == 14 {
        'e'
    } else {
        'f'
    }
}

/// How one character appears inside a rendered string literal: the short
/// escapes of JSON, `\u00..` for the other control characters, and the
/// character itself otherwise.
pub open spec fn escape_char(c: char) -> Seq<char> {
    if c == '"' {
        "\\\""@
    } else if c == '\\' {
        "\\\\"@
    } else if c == '\u{8}' {
        "\\b"@
    } else if c == '\t' {
        "\\t"@
    } else if c == '\n' {
        "\\n"@
    } else if c == '\u{c}' {
        "\\f"@
    } else if c == '\r' {
        "\\r"@
    } else if (c as u32) < 0x20 {
        "\\u00"@ + Seq::empty().push(hex_char((c as u32 / 16) as nat)).push(
            hex_char((c as u32 % 16) as nat),
        )
    } else {
        Seq::empty().push(c)
    }
}

pub open spec fn escape(s: Seq<char>) -> Seq<char>
    decreases s,
{
    if s.len() == 0 {
        Seq::empty()
    } else {
        escape(s.drop_last()) + escape_char(s.last())
    }
}

/// A rendered string literal: quotes around the escaped characters.
pub open spec fn quoted(s: Seq<char>) -> Seq<char> {
    Seq::empty().push('"') + escape(s) + Seq::empty().push('"')
}

/// The exact text of a document: every value of the ghost tree has one
/// rendering and this is it.
pub open spec fn render_jval(v: JVal) -> Seq<char>
    decreases v,
{
    match v {
        JVal::Null => "null"@,
        JVal::Bool(b) => if b {
            "true"@
        } else {
            "false"@
        },
        JVal::UInt(n) => dec_str(n as nat),
        JVal::Int(n) => if n < 0 {
            Seq::empty().push('-') + dec_str((-(n as int)) as nat)
        } else {
            dec_str(n as nat)
        },
        JVal::Num(d) => decimal_str(d),
        JVal::Str(s) => quoted(s),
        JVal::Arr(els) => Seq::empty().push('[') + render_list(els) + Seq::empty().push(']'),
        JVal::Obj(es) => Seq::empty().push('{') + render_entries(es) + Seq::empty().push('}'),
    }
}

pub open spec fn render_list(els: Seq<JVal>) -> Seq<char>
    decreases els,
{
    if els.len() == 0 {
        Seq::empty()
    } else if els.len() == 1 {
        render_jval(els.last())
    } else {
        render_list(els.drop_last()) + Seq::empty().push(',') + render_jval(els.last())
    }
}

pub open spec fn render_entries(es: Seq<(Seq<char>, JVal)>) -> Seq<char>
    decreases es,
{
    if es.len() == 0 {
        Seq::empty()
    } else if es.len() == 1 {
        quoted(es.last().0) + Seq::empty().push(':') + render_jval(es.last().1)
    } else {
        render_entries(es.drop_last()) + Seq::empty().push(',') + quoted(es.last().0)
            + Seq::empty().push(':') + render_jval(es.last().1)
    }
}

fn digit_piece(d: u64) -> (r: &'static str)
    requires
        d < 10,
    ensures
        r@ == Seq::empty().push(digit_char(d as nat)),
{
    let r: &'static str = if d == 0 {
        "0"
    } else if d == 1 {
        "1"
    } else if d == 2 {
        "2"
    } else if d == 3 {
        "3"
    } else if d == 4 {
        "4"
    } else if d == 5 {
        "5"
    } else if d == 6 {
        "6"
    } else if d == 7 {
        "7"
    } else if d == 8 {
        "8"
    } else {
        "9"
    };
    proof {
        reveal_strlit("0");
        reveal_strlit("1");
        reveal_strlit("2");
        reveal_strlit("3");
        reveal_strlit("4");
        reveal_strlit("5");
        reveal_strlit("6");
        reveal_strlit("7");
        reveal_strlit("8");
        reveal_strlit("9");
        assert(r@ =~= Seq::empty().push(digit_char(d as nat)));
    }
    r
}

fn hex_piece(d: u64) -> (r: &'static str)
    requires
        d < 16,
    ensures
        r@ == Seq::empty().push(hex_char(d as nat)),
{
    if d < 10 {
        digit_piece(d)
    } else {
        let r: &'static str = if d == 10 {
            "a"
        } else if d == 11 {
            "b"
        } else if d == 12 {
            "c"
        } else if d == 13 {
            "d"
        } else if d == 14 {
            "e"
        } else {
            "f"
        };
        proof {
            reveal_strlit("a");
            reveal_strlit("b");
            reveal_strlit("c");
            reveal_strlit("d");
            reveal_strlit("e");
            reveal_strlit("f");
            assert(r@ =~= Seq::empty().push(hex_char(d as nat)));
        }
        r
    }
}

fn append_digits(out: &mut String, n: u128)
    ensures
        final(out)@ == old(out)@ + dec_str(n as nat),
    decreases n,
{
    if n < 10 {
        out.append(digit_piece(n as u64));
    } else {
        append_digits(out, n / 10);
        out.append(digit_piece((n % 10) as u64));
        proof {
            assert(old(out)@ + dec_str((n / 10) as nat) + Seq::empty().push(
                digit_char((n % 10) as nat),
            ) =~= old(out)@ + dec_str(n as nat));
        }
    }
}

fn dec_len_u64(n: u64) -> (r: usize)
    ensures
        r == dec_len(n as nat),
        r <= 20,
    decreases n,
{
    proof {
        reveal_with_fuel(pow10, 21);
        assert(pow10(20) == 100000000000000000000);
        lemma_dec_len_bound(n as nat, 20);
    }
    if n < 10 {
        1
    } else {
        1 + dec_len_u64(n / 10)
    }
}

fn append_decimal(out: &mut String, d: &Decimal)
    ensures
        final(out)@ == old(out)@ + decimal_str(*d),
{
    if d.neg {
        out.append("-");
        proof {
            reveal_strlit("-");
            assert("-"@ =~= Seq::empty().push('-'));
        }
    }
    append_digits(out, d.int_part as u128);
    out.append(".");
    proof {
        reveal_strlit(".");
        assert("."@ =~= Seq::empty().push('.'));
    }
    let ghost mid = out@;
    let digits = dec_len_u64(d.frac);
    let width = d.frac_width as usize;
    let mut pad: usize = digits;
    while pad < width
        invariant
            digits <= pad <= width || pad == digits,
            digits == dec_len(d.frac as nat),
            pad >= digits,
            out@ == mid + zeroes((pad - digits) as nat),
        decreases width - pad,
    {
        out.append("0");
        proof {
            reveal_strlit("0");
            assert("0"@ =~= Seq::empty().push('0'));
        }
        pad = pad + 1;
    }
    append_digits(out, d.frac as u128);
    proof {
        if width <= digits {
            assert(out@ =~= old(out)@ + decimal_str(*d));
        } else {
            assert(frac_digits(d.frac as nat, d.frac_width as nat) == zeroes(
                (width - digits) as nat,
            ) + dec_str(d.frac as nat));
            assert(out@ =~= old(out)@ + decimal_str(*d));
        }
    }
}

fn append_escaped(out: &mut String, s: &str)
    ensures
        final(out)@ == old(out)@ + escape(s@),
{
    let n = s.unicode_len();
    let ghost base = out@;
    let mut i: usize = 0;
    while i < n
        invariant
            i <= n,
            n == s@.len(),
            out@ == base + escape(s@.subrange(0, i as int)),
        decreases n - i,
    {
        let c = s.get_char(i);
        if c == '"' {
            out.append("\\\"");
        } else if c == '\\' {
            out.append("\\\\");
        } else if c == '\u{8}' {
            out.append("\\b");
        } else if c == '\t' {
            out.append("\\t");
        } else if c == '\n' {
            out.append("\\n");
        } else if c == '\u{c}' {
            out.append("\\f");
        } else if c == '\r' {
            out.append("\\r");
        } else if (c as u32) < 0x20 {
            out.append("\\u00");
            out.append(hex_piece((c as u32 / 16) as u64));
            out.append(hex_piece((c as u32 % 16) as u64));
            proof {
                assert(out@ =~= base + escape(s@.subrange(0, i as int)) + escape_char(c));
            }
        } else {
            let piece = s.substring_char(i, i + 1);
            out.append(piece);
            proof {
                assert(piece@ =~= Seq::empty().push(c));
            }
        }
        proof {
            let t = s@.subrange(0, i + 1);
            assert(t.drop_last() =~= s@.subrange(0, i as int));
            assert(t.last() == c);
            assert(escape(t) == escape(s@.subrange(0, i as int)) + escape_char(c));
            assert(out@ =~= base + escape(t));
        }
        i = i + 1;
    }
    proof {
        assert(s@.subrange(0, n as int) =~= s@);
    }
}

fn append_quoted(out: &mut String, s: &str)
    ensures
        final(out)@ == old(out)@ + quoted(s@),
{
    out.append("\"");
    append_escaped(out, s);
    out.append("\"");
    proof {
        reveal_strlit("\"");
        assert("\""@ =~= Seq::empty().push('"'));
        assert(out@ =~= old(out)@ + quoted(s@));
    }
}

#[verifier::loop_isolation(false)]
fn append_json(out: &mut String, j: &Json)
    ensures
        final(out)@ == old(out)@ + render_jval(jv(*j)),
    decreases *j,
{
    match j {
        Json::Null => {
            out.append("null");
        },
        Json::Bool(b) => {
            if *b {
                out.append("true");
            } else {
                out.append("false");
            }
        },
        Json::UInt(n) => {
            append_digits(out, *n);
        },
        Json::Int(n) => {
            if *n < 0 {
                out.append("-");
                proof {
                    reveal_strlit("-");
                    assert("-"@ =~= Seq::empty().push('-'));
                }
                let mag: u128 = if *n == i128::MIN {
                    170141183460469231731687303715884105728u128
                } else {
                    (-(*n)) as u128
                };
                append_digits(out, mag);
                proof {
                    assert(out@ =~= old(out)@ + render_jval(jv(*j)));
                }
            } else {
                append_digits(out, *n as u128);
            }
        },
        Json::Num(d) => {
            append_decimal(out, d);
        },
        Json::Str(s) => {
            append_quoted(out, s.as_str());
        },
        Json::Arr(v) => {
            proof {
                lemma_jv_list_len(v@);
            }
            out.append("[");
            proof {
                reveal_strlit("[");
                assert("["@ =~= Seq::empty().push('['));
            }
            let ghost base = out@;
            let ghost els = jv_list(v@);
            let m = v.len();
            let mut k: usize = 0;
            while k < m
                invariant
                    k <= m,
                    m == v@.len(),
                    els == jv_list(v@),
                    els.len() == m,
                    forall|t: int| 0 <= t < m ==> els[t] == jv(v@[t]),
                    base == old(out)@ + Seq::empty().push('['),
                    out@ == base + render_list(els.subrange(0, k as int)),
                decreases m - k,
            {
                if k > 0 {
                    out.append(",");
                    proof {
                        reveal_strlit(",");
                        assert(","@ =~= Seq::empty().push(','));
                    }
                }
                append_json(out, &v[k]);
                proof {
                    let t = els.subrange(0, k + 1);
                    assert(t.drop_last() =~= els.subrange(0, k as int));
                    assert(t.last() == els[k as int]);
                    assert(out@ =~= base + render_list(t));
                }
                k = k + 1;
            }
            out.append("]");
            proof {
                reveal_strlit("]");
                assert("]"@ =~= Seq::empty().push(']'));
                assert(els.subrange(0, m as int) =~= els);
                assert(out@ =~= old(out)@ + render_jval(jv(*j)));
            }
        },
        Json::Obj(es) => {
            proof {
                lemma_jv_entries_len(es@);
            }
            out.append("{");
            proof {
                reveal_strlit("{");
                assert("{"@ =~= Seq::empty().push('{'));
            }
            let ghost base = out@;
            let ghost ges = jv_entries(es@);
            let m = es.len();
            let mut k: usize = 0;
            while k < m
                invariant
                    k <= m,
                    m == es@.len(),
                    ges == jv_entries(es@),
                    ges.len() == m,
                    forall|t: int|
                        0 <= t < m ==> ges[t] == (es@[t].0@, jv(es@[t].1)),
                    base == old(out)@ + Seq::empty().push('{'),
                    out@ == base + render_entries(ges.subrange(0, k as int)),
                decreases m - k,
            {
                if k > 0 {
                    out.append(",");
                    proof {
                        reveal_strlit(",");
                        assert(","@ =~= Seq::empty().push(','));
                    }
                }
                append_quoted(out, es[k].0.as_str());
                out.append(":");
                proof {
                    reveal_strlit(":");
                    assert(":"@ =~= Seq::empty().push(':'));
                }
                append_json(out, &es[k].1);
                proof {
                    let t = ges.subrange(0, k + 1);
                    assert(t.drop_last() =~= ges.subrange(0, k as int));
                    assert(t.last() == ges[k as int]);
                    assert(out@ =~= base + render_entries(t));
                }
                k = k + 1;
            }
            out.append("}");
            proof {
                reveal_strlit("}");
                assert("}"@ =~= Seq::empty().push('}'));
                assert(ges.subrange(0, m as int) =~= ges);
                assert(out@ =~= old(out)@ + render_jval(jv(*j)));
            }
        },
    }
}

pub proof fn lemma_jv_entries_len(s: Seq<(String, Json)>)
    ensures
        jv_entries(s).len() == s.len(),
        forall|i: int| 0 <= i < s.len() ==> jv_entries(s)[i] == (s[i].0@, jv(s[i].1)),
    decreases s,
{
    if s.len() > 0 {
        lemma_jv_entries_len(s.drop_last());
    }
}

impl Json {
    /// The exact wire text of this document.
    pub fn render(&self) -> (r: String)
        ensures
            r@ == render_jval(jv(*self)),
    {
        let mut out = String::new();
        append_json(&mut out, self);
        out
    }
}

} // verus!
