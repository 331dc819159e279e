//! The apply-if-present dispatcher.  Every recognized property of a command,
//! argument or group subtree goes through the same contract: an absent (or
//! null) source value leaves the result untouched, a present and coercible
//! value is recorded, and a present but incompatible value fails the whole
//! build with the first offending property.

use vstd::prelude::*;

use crate::coerce::{coerce, spec_coerce, Coerced, CoercedModel, PropModel, PropType, PropValue};
use crate::config::ConfigValue;
use crate::errors::{BuildError, ErrorModel};

verus! {

/// The mathematical shape of a property table: recognized property names
/// paired with the semantic type each expects.
pub open spec fn table_model(t: Seq<(String, PropType)>) -> Seq<(Seq<char>, PropType)> {
    t.map_values(|p: (String, PropType)| (p.0@, p.1))
}

/// The mathematical shape of an applied-property list.
pub open spec fn props_model(p: Seq<(String, PropValue)>) -> Seq<(Seq<char>, PropModel)> {
    p.map_values(|q: (String, PropValue)| (q.0@, q.1@))
}

/// What coercing the property `name` of `cv` to type `t` yields; a missing
/// key counts as absent.
pub open spec fn spec_coerce_prop(cv: ConfigValue, name: Seq<char>, t: PropType) -> CoercedModel {
    match cv.spec_lookup(name) {
        None => CoercedModel::Absent,
        Some(v) => spec_coerce(t, v),
    }
}

/// The applied-property list that `cv` yields for `table`, walked front to
/// back: absent properties are skipped, present and coercible ones are
/// recorded in table order, and the first mismatch fails the whole walk.
pub open spec fn spec_apply_table(cv: ConfigValue, table: Seq<(Seq<char>, PropType)>) -> Result<
    Seq<(Seq<char>, PropModel)>,
    ErrorModel,
>
    decreases table.len(),
{
    if table.len() == 0 {
        Ok(Seq::empty())
    } else {
        let name = table[0].0;
        let t = table[0].1;
        match spec_coerce_prop(cv, name, t) {
            CoercedModel::Mismatch => Err(
                ErrorModel::TypeMismatch { property: name, expected: t },
            ),
            CoercedModel::Absent => spec_apply_table(cv, table.drop_first()),
            CoercedModel::Present(pv) => match spec_apply_table(cv, table.drop_first()) {
                Ok(props) => Ok(seq![(name, pv)] + props),
                Err(e) => Err(e),
            },
        }
    }
}

/// Applies every property in `table` to the subtree `cv`.
pub fn apply_table(cv: &ConfigValue, table: &Vec<(String, PropType)>) -> (r: Result<
    Vec<(String, PropValue)>,
    BuildError,
>)
    ensures
        match r {
            Ok(props) => spec_apply_table(*cv, table_model(table@)) == Ok::<
                Seq<(Seq<char>, PropModel)>,
                ErrorModel,
            >(props_model(props@)),
            Err(e) => spec_apply_table(*cv, table_model(table@)) == Err::<
                Seq<(Seq<char>, PropModel)>,
                ErrorModel,
            >(e@),
        },
{
    let ghost tm = table_model(table@);
    let mut acc: Vec<(String, PropValue)> = Vec::new();
    let n = table.len();
    proof {
        assert(tm.skip(0) =~= tm);
        if spec_apply_table(*cv, tm) is Ok {
            assert(props_model(acc@) + spec_apply_table(*cv, tm)->Ok_0 =~= spec_apply_table(
                *cv,
                tm,
            )->Ok_0);
        }
    }
    for i in 0..n
        invariant
            n == table@.len(),
            tm == table_model(table@),
            tm.len() == n,
            match spec_apply_table(*cv, tm.skip(i as int)) {
                Ok(rest) => spec_apply_table(*cv, tm) == Ok::<
                    Seq<(Seq<char>, PropModel)>,
                    ErrorModel,
                >(props_model(acc@) + rest),
                Err(e) => spec_apply_table(*cv, tm) == Err::<
                    Seq<(Seq<char>, PropModel)>,
                    ErrorModel,
                >(e),
            },
    {
        let ghost rest_tab = tm.skip(i as int);
        let ghost old_acc = acc@;
        proof {
            assert(rest_tab[0] == tm[i as int]);
            assert(rest_tab.drop_first() =~= tm.skip(i as int + 1));
            assert(tm[i as int] == (table@[i as int].0@, table@[i as int].1));
        }
        let entry = &table[i];
        let c = match cv.lookup(&entry.0) {
            Some(v) => coerce(entry.1, v),
            None => Coerced::Absent,
        };
        proof {
            assert(c@ == spec_coerce_prop(*cv, entry.0@, entry.1));
        }
        match c {
            Coerced::Mismatch => {
                return Err(BuildError::TypeMismatch { property: entry.0.clone(), expected: entry.1 });
            },
            Coerced::Absent => {},
            Coerced::Present(pv) => {
                let ghost pvm = pv@;
                acc.push((entry.0.clone(), pv));
                proof {
                    assert(props_model(acc@) =~= props_model(old_acc).push((entry.0@, pvm)));
                    match spec_apply_table(*cv, tm.skip(i as int + 1)) {
                        Ok(rest2) => {
                            assert(props_model(old_acc).push((entry.0@, pvm)) + rest2
                                =~= props_model(old_acc) + (seq![(entry.0@, pvm)] + rest2));
                        },
                        Err(_) => {},
                    }
                }
            },
        }
    }
    proof {
        assert(tm.skip(n as int) =~= Seq::<(Seq<char>, PropType)>::empty());
        assert(props_model(acc@) + Seq::<(Seq<char>, PropModel)>::empty() =~= props_model(acc@));
    }
    Ok(acc)
}

} // verus!
