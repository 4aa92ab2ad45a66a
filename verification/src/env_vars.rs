//! Ordered lists of environment variables in which each name occurs once.

use crate::text::str_eq;
use vstd::prelude::*;

verus! {

/// The position `at` holds the first variable of `vars` named `name`.
pub open spec fn is_first_named(vars: Seq<(Seq<char>, Seq<char>)>, name: Seq<char>, at: int) -> bool {
    &&& 0 <= at < vars.len()
    &&& vars[at].0 == name
    &&& forall|j: int| 0 <= j < at ==> (#[trigger] vars[j]).0 != name
}

/// No variable of `vars` is named `name`.
pub open spec fn is_unnamed(vars: Seq<(Seq<char>, Seq<char>)>, name: Seq<char>) -> bool {
    forall|j: int| 0 <= j < vars.len() ==> (#[trigger] vars[j]).0 != name
}

/// The position of the first variable named `name`, if there is one.
pub open spec fn first_named(vars: Seq<(Seq<char>, Seq<char>)>, name: Seq<char>) -> Option<int> {
    if exists|at: int| is_first_named(vars, name, at) {
        Some(choose|at: int| is_first_named(vars, name, at))
    } else {
        None
    }
}

/// The value that `vars` gives `name`: that of the first variable so named.
pub open spec fn value_of(vars: Seq<(Seq<char>, Seq<char>)>, name: Seq<char>) -> Option<Seq<char>> {
    match first_named(vars, name) {
        Some(at) => Some(vars[at].1),
        None => None,
    }
}

/// `vars` with `name` set to `value`: in place where `name` is there already,
/// else at the end.
pub open spec fn with_var(
    vars: Seq<(Seq<char>, Seq<char>)>,
    name: Seq<char>,
    value: Seq<char>,
) -> Seq<(Seq<char>, Seq<char>)> {
    match first_named(vars, name) {
        Some(at) => vars.update(at, (name, value)),
        None => vars.push((name, value)),
    }
}

/// `vars` with `name` set to `value` where there is a value, else unchanged.
pub open spec fn with_optional_var(
    vars: Seq<(Seq<char>, Seq<char>)>,
    name: Seq<char>,
    value: Option<Seq<char>>,
) -> Seq<(Seq<char>, Seq<char>)> {
    match value {
        Some(v) => with_var(vars, name, v),
        None => vars,
    }
}

/// The variables of `vars` set one after the other, from the first to the
/// last, into an empty list: each name once, with the value given last.
pub open spec fn deduplicated(vars: Seq<(Seq<char>, Seq<char>)>) -> Seq<(Seq<char>, Seq<char>)>
    decreases vars.len(),
{
    if vars.len() == 0 {
        Seq::empty()
    } else {
        with_var(deduplicated(vars.drop_last()), vars.last().0, vars.last().1)
    }
}

/// Every name occurs once.
pub open spec fn names_distinct(vars: Seq<(Seq<char>, Seq<char>)>) -> bool {
    forall|i: int, j: int|
        0 <= i < vars.len() && 0 <= j < vars.len() && i != j ==> (#[trigger] vars[i]).0 != (
        #[trigger] vars[j]).0
}

/// A first position is the only first position.
pub proof fn lemma_first_named_unique(vars: Seq<(Seq<char>, Seq<char>)>, name: Seq<char>, at: int)
    requires
        is_first_named(vars, name, at),
    ensures
        first_named(vars, name) == Some(at),
{
    let chosen = choose|k: int| is_first_named(vars, name, k);
    if chosen < at {
        assert(vars[chosen].0 != name);
    } else if at < chosen {
        assert(vars[at].0 != name);
    }
}

/// Where no variable has the name, there is no first position.
pub proof fn lemma_first_named_none(vars: Seq<(Seq<char>, Seq<char>)>, name: Seq<char>)
    requires
        is_unnamed(vars, name),
    ensures
        first_named(vars, name) is None,
{
    assert forall|at: int| !is_first_named(vars, name, at) by {
        if 0 <= at < vars.len() {
            assert(vars[at].0 != name);
        }
    }
}

/// There is a first position, or no variable has the name.
pub proof fn lemma_first_named_cases(vars: Seq<(Seq<char>, Seq<char>)>, name: Seq<char>)
    ensures
        match first_named(vars, name) {
            Some(at) => is_first_named(vars, name, at),
            None => is_unnamed(vars, name),
        },
    decreases vars.len(),
{
    if first_named(vars, name) is None {
        if !is_unnamed(vars, name) {
            let j = choose|j: int| 0 <= j < vars.len() && (#[trigger] vars[j]).0 == name;
            lemma_least_named(vars, name, j);
        }
    }
}

/// Where some variable before or at `upto` has the name, one is the first.
proof fn lemma_least_named(vars: Seq<(Seq<char>, Seq<char>)>, name: Seq<char>, upto: int)
    requires
        0 <= upto < vars.len(),
        vars[upto].0 == name,
    ensures
        exists|at: int| is_first_named(vars, name, at),
    decreases upto,
{
    if forall|j: int| 0 <= j < upto ==> (#[trigger] vars[j]).0 != name {
        assert(is_first_named(vars, name, upto));
    } else {
        let j = choose|j: int| 0 <= j < upto && (#[trigger] vars[j]).0 == name;
        lemma_least_named(vars, name, j);
    }
}

/// Setting a variable gives its name the new value and leaves the value of
/// every other name as it was.
pub proof fn lemma_with_var_value(
    vars: Seq<(Seq<char>, Seq<char>)>,
    name: Seq<char>,
    value: Seq<char>,
    other: Seq<char>,
)
    ensures
        value_of(with_var(vars, name, value), other) == if other == name {
            Some(value)
        } else {
            value_of(vars, other)
        },
{
    let after = with_var(vars, name, value);
    lemma_first_named_cases(vars, name);
    lemma_first_named_cases(vars, other);
    let target: int = match first_named(vars, name) {
        Some(at) => at,
        None => vars.len() as int,
    };
    assert(after.len() > target && after[target] == (name, value));
    assert(forall|j: int| 0 <= j < after.len() && j != target ==> after[j] == vars[j]);
    if other == name {
        assert forall|j: int| 0 <= j < target implies (#[trigger] after[j]).0 != name by {
            assert(vars[j].0 != name);
        }
        assert(is_first_named(after, name, target));
        lemma_first_named_unique(after, name, target);
    } else {
        match first_named(vars, other) {
            Some(at) => {
                assert(at != target);
                assert forall|j: int| 0 <= j < at implies (#[trigger] after[j]).0 != other by {
                    if j != target {
                        assert(vars[j].0 != other);
                    }
                }
                assert(is_first_named(after, other, at));
                lemma_first_named_unique(after, other, at);
            },
            None => {
                assert forall|j: int| 0 <= j < after.len() implies (#[trigger] after[j]).0
                    != other by {
                    if j != target {
                        assert(vars[j].0 != other);
                    }
                }
                lemma_first_named_none(after, other);
            },
        }
    }
}

/// Setting a variable in a list of distinct names leaves the names distinct.
pub proof fn lemma_with_var_distinct(
    vars: Seq<(Seq<char>, Seq<char>)>,
    name: Seq<char>,
    value: Seq<char>,
)
    requires
        names_distinct(vars),
    ensures
        names_distinct(with_var(vars, name, value)),
{
    let after = with_var(vars, name, value);
    lemma_first_named_cases(vars, name);
    assert forall|i: int, j: int|
        0 <= i < after.len() && 0 <= j < after.len() && i != j implies (#[trigger] after[i]).0 != (
    #[trigger] after[j]).0 by {
        match first_named(vars, name) {
            Some(at) => {
                assert(after[i].0 == vars[i].0);
                assert(after[j].0 == vars[j].0);
            },
            None => {
                if i < vars.len() {
                    assert(after[i] == vars[i]);
                }
                if j < vars.len() {
                    assert(after[j] == vars[j]);
                }
            },
        }
    }
}

/// A deduplicated list has distinct names.
pub proof fn lemma_deduplicated_distinct(vars: Seq<(Seq<char>, Seq<char>)>)
    ensures
        names_distinct(deduplicated(vars)),
    decreases vars.len(),
{
    if vars.len() > 0 {
        lemma_deduplicated_distinct(vars.drop_last());
        lemma_with_var_distinct(deduplicated(vars.drop_last()), vars.last().0, vars.last().1);
    }
}

/// Sets `name` to `value` in `vars`: in place where the name is there already,
/// else at the end.
pub fn set_var(vars: &mut Vec<(String, String)>, name: &str, value: &str)
    ensures
        final(vars).deep_view() == with_var(old(vars).deep_view(), name@, value@),
{
    let ghost before = vars.deep_view();
    let mut i: usize = 0;
    while i < vars.len()
        invariant
            i <= vars.len(),
            vars.deep_view() == before,
            before == old(vars).deep_view(),
            forall|j: int| 0 <= j < i ==> (#[trigger] before[j]).0 != name@,
        decreases vars.len() - i,
    {
        if str_eq(vars[i].0.as_str(), name) {
            proof {
                assert(before[i as int].0 == name@);
                assert(is_first_named(before, name@, i as int));
                lemma_first_named_unique(before, name@, i as int);
            }
            vars.set(i, (String::from_str(name), String::from_str(value)));
            assert(vars.deep_view() =~= before.update(i as int, (name@, value@)));
            return ;
        }
        assert(before[i as int].0 != name@);
        i += 1;
    }
    proof {
        lemma_first_named_none(before, name@);
    }
    vars.push((String::from_str(name), String::from_str(value)));
    assert(vars.deep_view() =~= before.push((name@, value@)));
}

/// The variables of `vars`, each name once, with the value given last.
pub fn deduplicate(vars: &Vec<(String, String)>) -> (r: Vec<(String, String)>)
    ensures
        r.deep_view() == deduplicated(vars.deep_view()),
{
    let mut r: Vec<(String, String)> = Vec::new();
    assert(r.deep_view() =~= deduplicated(vars.deep_view().take(0)));
    let mut i: usize = 0;
    while i < vars.len()
        invariant
            i <= vars.len(),
            r.deep_view() == deduplicated(vars.deep_view().take(i as int)),
        decreases vars.len() - i,
    {
        let ghost upto = vars.deep_view().take(i + 1);
        assert(upto.drop_last() =~= vars.deep_view().take(i as int));
        assert(upto.last() == (vars@[i as int].0@, vars@[i as int].1@));
        set_var(&mut r, vars[i].0.as_str(), vars[i].1.as_str());
        i += 1;
    }
    assert(vars.deep_view().take(vars.len() as int) =~= vars.deep_view());
    r
}

} // verus!
