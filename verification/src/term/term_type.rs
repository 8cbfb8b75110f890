use crate::json::{jv, jv_list, lemma_jv_list_push, Decimal, JVal, Json};
use vstd::prelude::*;

verus! {

/// A bare scalar term: text, a signed or unsigned integer, or a decimal
/// number.  The wire value is the scalar itself, with no tag around it.
#[derive(Debug)]
pub enum TermType {
    Text(String),
    Int(i128),
    UInt(u128),
    Float(Decimal),
}

impl TermType {
    pub open spec fn jval(self) -> JVal {
        match self {
            TermType::Text(s) => JVal::Str(s@),
            TermType::Int(i) => JVal::Int(i),
            TermType::UInt(u) => JVal::UInt(u),
            TermType::Float(d) => JVal::Num(d),
        }
    }

    pub fn to_json(self) -> (r: Json)
        ensures
            jv(r) == self.jval(),
    {
        match self {
            TermType::Text(s) => Json::Str(s),
            TermType::Int(i) => Json::Int(i),
            TermType::UInt(u) => Json::UInt(u),
            TermType::Float(d) => Json::Num(d),
        }
    }
}

pub open spec fn term_list_jval(s: Seq<TermType>) -> Seq<JVal>
    decreases s,
{
    if s.len() == 0 {
        Seq::empty()
    } else {
        term_list_jval(s.drop_last()).push(s.last().jval())
    }
}

pub broadcast proof fn lemma_term_list_push(s: Seq<TermType>, x: TermType)
    ensures
        #[trigger] term_list_jval(s.push(x)) == term_list_jval(s).push(x.jval()),
{
    assert(s.push(x).drop_last() =~= s);
}

pub open spec fn opt_term_type(o: Option<TermType>) -> Option<JVal> {
    match o {
        Some(t) => Some(t.jval()),
        None => None,
    }
}

/// Converts an owned term list into an array document.
pub fn terms_to_json(list: Vec<TermType>) -> (r: Json)
    ensures
        jv(r) == JVal::Arr(term_list_jval(list@)),
{
    let mut out: Vec<Json> = Vec::new();
    let n = list.len();
    let ghost orig = list@;
    let mut rest = list;
    let mut k: usize = 0;
    while k < n
        invariant
            k <= n,
            orig.len() == n,
            rest@ =~= orig.subrange(k as int, n as int),
            jv_list(out@) == term_list_jval(orig.subrange(0, k as int)),
        decreases n - k,
    {
        let t = rest.remove(0);
        assert(t == orig[k as int]);
        let ghost prev = out@;
        let ghost gt = t;
        let j = t.to_json();
        out.push(j);
        proof {
            lemma_jv_list_push(prev, j);
            lemma_term_list_push(orig.subrange(0, k as int), gt);
            assert(orig.subrange(0, k + 1).drop_last() =~= orig.subrange(0, k as int));
            assert(rest@ =~= orig.subrange(k + 1, n as int));
        }
        k = k + 1;
    }
    proof {
        assert(orig.subrange(0, n as int) =~= orig);
    }
    Json::Arr(out)
}

} // verus!
