use crate::intervals::interval_rule::IntervalRule;
use crate::json::{jv, wrap_tag, JVal, Json};
use crate::misc::script::Script;
use vstd::prelude::*;

verus! {

/// Restricts where a rule may match: one wrapped rule under a directional
/// tag, or an inline script.
#[derive(Debug)]
pub enum FilterRule {
    After(IntervalRule),
    Before(IntervalRule),
    ContainedBy(IntervalRule),
    Containing(IntervalRule),
    NotContainedBy(IntervalRule),
    NotContaining(IntervalRule),
    NotOverlapping(IntervalRule),
    Overlapping(IntervalRule),
    Script(Script),
}

impl FilterRule {
    pub open spec fn jval(self) -> JVal
        decreases self, 2int,
    {
        match self {
            FilterRule::After(x) => JVal::Obj(Seq::empty().push(("after"@, x.jval()))),
            FilterRule::Before(x) => JVal::Obj(Seq::empty().push(("before"@, x.jval()))),
            FilterRule::ContainedBy(x) => JVal::Obj(
                Seq::empty().push(("contained_by"@, x.jval())),
            ),
            FilterRule::Containing(x) => JVal::Obj(Seq::empty().push(("containing"@, x.jval()))),
            FilterRule::NotContainedBy(x) => JVal::Obj(
                Seq::empty().push(("not_contained_by"@, x.jval())),
            ),
            FilterRule::NotContaining(x) => JVal::Obj(
                Seq::empty().push(("not_containing"@, x.jval())),
            ),
            FilterRule::NotOverlapping(x) => JVal::Obj(
                Seq::empty().push(("not_overlapping"@, x.jval())),
            ),
            FilterRule::Overlapping(x) => JVal::Obj(Seq::empty().push(("overlapping"@, x.jval()))),
            FilterRule::Script(s) => JVal::Obj(Seq::empty().push(("script"@, s.jval()))),
        }
    }

    pub fn to_json(self) -> (r: Json)
        ensures
            jv(r) == self.jval(),
        decreases self,
    {
        match self {
            FilterRule::After(x) => wrap_tag("after", x.to_json()),
            FilterRule::Before(x) => wrap_tag("before", x.to_json()),
            FilterRule::ContainedBy(x) => wrap_tag("contained_by", x.to_json()),
            FilterRule::Containing(x) => wrap_tag("containing", x.to_json()),
            FilterRule::NotContainedBy(x) => wrap_tag("not_contained_by", x.to_json()),
            FilterRule::NotContaining(x) => wrap_tag("not_containing", x.to_json()),
            FilterRule::NotOverlapping(x) => wrap_tag("not_overlapping", x.to_json()),
            FilterRule::Overlapping(x) => wrap_tag("overlapping", x.to_json()),
            FilterRule::Script(s) => wrap_tag("script", s.to_json()),
        }
    }
}

/// The value of an optional nested filter slot.
pub open spec fn opt_filter(o: Option<Box<FilterRule>>) -> Option<JVal>
    decreases o, 3int,
{
    match o {
        Some(f) => Some((*f).jval()),
        None => None,
    }
}

} // verus!
