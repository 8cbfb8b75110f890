use crate::json::{
    field_key, jv, key_or_empty, opt_dec, opt_str, present, push_entry, wrap_key, Decimal, JVal,
    Json,
};
use crate::misc::relation::{opt_relation, Relation};
use crate::term::term_type::{opt_term_type, TermType};
use vstd::prelude::*;

verus! {

broadcast use crate::json::lemma_present_push;

/// The attribute object of a range query.
#[derive(Debug)]
pub struct RangeValue {
    pub gt: Option<TermType>,
    pub gte: Option<TermType>,
    pub lte: Option<TermType>,
    pub lt: Option<TermType>,
    pub format: Option<String>,
    pub relation: Option<Relation>,
    pub boost: Option<Decimal>,
    pub time_zone: Option<String>,
}

/// Matches documents whose field value lies within the given bounds, keyed
/// by the field name.
#[derive(Debug)]
pub struct Range {
    pub field: Option<String>,
    pub value: RangeValue,
}

impl Range {
    pub fn new() -> (r: Self)
        ensures
            r.field is None,
            r.value.gt is None,
            r.value.gte is None,
            r.value.lte is None,
            r.value.lt is None,
            r.value.format is None,
            r.value.relation is None,
            r.value.boost is None,
            r.value.time_zone is None,
    {
        Range {
            field: None,
            value: RangeValue {
                gt: None,
                gte: None,
                lte: None,
                lt: None,
                format: None,
                relation: None,
                boost: None,
                time_zone: None,
            },
        }
    }

    pub fn field(self, field: String) -> (r: Self)
        ensures
            r == (Range { field: Some(field), ..self }),
    {
        Range { field: Some(field), ..self }
    }

    pub fn gt(self, gt: TermType) -> (r: Self)
        ensures
            r == (Range { value: RangeValue { gt: Some(gt), ..self.value }, ..self }),
    {
        Range { value: RangeValue { gt: Some(gt), ..self.value }, ..self }
    }

    pub fn gte(self, gte: TermType) -> (r: Self)
        ensures
            r == (Range { value: RangeValue { gte: Some(gte), ..self.value }, ..self }),
    {
        Range { value: RangeValue { gte: Some(gte), ..self.value }, ..self }
    }

    pub fn lt(self, lt: TermType) -> (r: Self)
        ensures
            r == (Range { value: RangeValue { lt: Some(lt), ..self.value }, ..self }),
    {
        Range { value: RangeValue { lt: Some(lt), ..self.value }, ..self }
    }

    pub fn lte(self, lte: TermType) -> (r: Self)
        ensures
            r == (Range { value: RangeValue { lte: Some(lte), ..self.value }, ..self }),
    {
        Range { value: RangeValue { lte: Some(lte), ..self.value }, ..self }
    }

    pub fn time_zone(self, time_zone: String) -> (r: Self)
        ensures
            r == (Range {
                value: RangeValue { time_zone: Some(time_zone), ..self.value },
                ..self
            }),
    {
        Range { value: RangeValue { time_zone: Some(time_zone), ..self.value }, ..self }
    }

    pub fn format(self, format: String) -> (r: Self)
        ensures
            r == (Range { value: RangeValue { format: Some(format), ..self.value }, ..self }),
    {
        Range { value: RangeValue { format: Some(format), ..self.value }, ..self }
    }

    pub fn boost(self, boost: Decimal) -> (r: Self)
        ensures
            r == (Range { value: RangeValue { boost: Some(boost), ..self.value }, ..self }),
    {
        Range { value: RangeValue { boost: Some(boost), ..self.value }, ..self }
    }

    pub fn relation(self, relation: Relation) -> (r: Self)
        ensures
            r == (Range { value: RangeValue { relation: Some(relation), ..self.value }, ..self }),
    {
        Range { value: RangeValue { relation: Some(relation), ..self.value }, ..self }
    }

    pub open spec fn slots(self) -> Seq<(Seq<char>, Option<JVal>)> {
        Seq::empty().push(("gt"@, opt_term_type(self.value.gt))).push(
            ("gte"@, opt_term_type(self.value.gte)),
        ).push(("lte"@, opt_term_type(self.value.lte))).push(
            ("lt"@, opt_term_type(self.value.lt)),
        ).push(("format"@, opt_str(self.value.format))).push(
            ("relation"@, opt_relation(self.value.relation)),
        ).push(("boost"@, opt_dec(self.value.boost))).push(
            ("time_zone"@, opt_str(self.value.time_zone)),
        )
    }

    pub open spec fn jval(self) -> JVal {
        JVal::Obj(
            Seq::empty().push((field_key(self.field), JVal::Obj(present(self.slots())))),
        )
    }

    pub fn to_json(self) -> (r: Json)
        ensures
            jv(r) == self.jval(),
    {
        let mut es: Vec<(String, Json)> = Vec::new();
        if let Some(t) = self.value.gt {
            push_entry(&mut es, "gt", t.to_json());
        }
        if let Some(t) = self.value.gte {
            push_entry(&mut es, "gte", t.to_json());
        }
        if let Some(t) = self.value.lte {
            push_entry(&mut es, "lte", t.to_json());
        }
        if let Some(t) = self.value.lt {
            push_entry(&mut es, "lt", t.to_json());
        }
        if let Some(s) = self.value.format {
            push_entry(&mut es, "format", Json::Str(s));
        }
        if let Some(x) = self.value.relation {
            push_entry(&mut es, "relation", x.to_json());
        }
        if let Some(b) = self.value.boost {
            push_entry(&mut es, "boost", Json::Num(b));
        }
        if let Some(s) = self.value.time_zone {
            push_entry(&mut es, "time_zone", Json::Str(s));
        }
        wrap_key(key_or_empty(self.field), Json::Obj(es))
    }
}

} // verus!
