//! The environment report: the variables that the session server hands back
//! once it is up, and the rule for which of them may be passed on to the
//! session manager.

use crate::command::{set_environment, Command, CommandView};
use vstd::prelude::*;
use vstd::string::StringExecFns;

verus! {

/// A variable of a report, as a pair of name and value.
pub type Binding = (Seq<char>, Seq<char>);

/// One environment variable: its name and its value.
#[derive(Debug, PartialEq, Eq)]
pub struct EnvVar {
    pub name: String,
    pub value: String,
}

impl View for EnvVar {
    type V = Binding;

    open spec fn view(&self) -> Binding {
        (self.name@, self.value@)
    }
}

/// The bindings that a sequence of variables stands for.
pub open spec fn bindings(vars: Seq<EnvVar>) -> Seq<Binding> {
    vars.map_values(|v: EnvVar| v@)
}

/// No name is bound twice.
pub open spec fn names_distinct(vars: Seq<Binding>) -> bool {
    forall|i: int, j: int| 0 <= i < j < vars.len() ==> vars[i].0 != vars[j].0
}

/// Some binding of `vars` is for `name`.
pub open spec fn binds(vars: Seq<Binding>, name: Seq<char>) -> bool {
    exists|i: int| 0 <= i < vars.len() && #[trigger] vars[i].0 == name
}

/// Where `name` is bound in `vars`. Meaningful where `binds(vars, name)`.
pub open spec fn place_of(vars: Seq<Binding>, name: Seq<char>) -> int {
    choose|i: int| 0 <= i < vars.len() && #[trigger] vars[i].0 == name
}

/// `vars` after binding `name` to `value`: a name already bound keeps its
/// place and takes the new value, a new name goes to the end.
pub open spec fn with_binding(vars: Seq<Binding>, name: Seq<char>, value: Seq<char>) -> Seq<
    Binding,
> {
    if binds(vars, name) {
        vars.update(place_of(vars, name), (name, value))
    } else {
        vars.push((name, value))
    }
}

/// The mapping from name to value that `vars` spells out.
pub open spec fn as_map(vars: Seq<Binding>) -> Map<Seq<char>, Seq<char>> {
    Map::new(|name: Seq<char>| binds(vars, name), |name: Seq<char>| vars[place_of(vars, name)].1)
}

/// The names that are private to one process and must not reach the session
/// manager.
pub open spec fn is_blocked(name: Seq<char>) -> bool {
    name == "XAUTHORITY"@ || name == "_"@ || name == "SHELL"@ || name == "SHLVL"@
}

/// The set of blocked names.
pub open spec fn blocked_names() -> Set<Seq<char>> {
    Set::new(|name: Seq<char>| is_blocked(name))
}

/// The bindings that may be passed on: those whose name is not blocked, in
/// their order.
pub open spec fn passed_on(vars: Seq<Binding>) -> Seq<Binding> {
    vars.filter(|b: Binding| !is_blocked(b.0))
}

/// Whether `name` is one of the blocked names.
pub fn is_blocked_name(name: &String) -> (blocked: bool)
    ensures
        blocked == is_blocked(name@),
{
    *name == String::from_str("XAUTHORITY") || *name == String::from_str("_") || *name
        == String::from_str("SHELL") || *name == String::from_str("SHLVL")
}

/// An environment report: variables with their values, no name twice, in the
/// order in which the names were first bound.
#[derive(Debug)]
pub struct EnvReport {
    vars: Vec<EnvVar>,
}

impl View for EnvReport {
    type V = Seq<Binding>;

    closed spec fn view(&self) -> Seq<Binding> {
        bindings(self.vars@)
    }
}

impl EnvReport {
    #[verifier::type_invariant]
    spec fn well_formed(&self) -> bool {
        names_distinct(bindings(self.vars@))
    }

    /// The report without any variable.
    pub fn new() -> (report: EnvReport)
        ensures
            report@ == Seq::<Binding>::empty(),
    {
        let report = EnvReport { vars: Vec::new() };
        proof {
            assert(report@ =~= Seq::<Binding>::empty());
        }
        report
    }

    /// The number of variables.
    pub fn len(&self) -> (n: usize)
        ensures
            n == self@.len(),
    {
        self.vars.len()
    }

    /// Where `name` is bound, if it is.
    fn find(&self, name: &String) -> (found: Option<usize>)
        ensures
            names_distinct(self@),
            match found {
                Some(i) => i < self@.len() && self@[i as int].0 == name@ && binds(self@, name@)
                    && place_of(self@, name@) == i,
                None => !binds(self@, name@),
            },
    {
        let mut i: usize = 0;
        while i < self.vars.len()
            invariant
                i <= self.vars.len(),
                forall|k: int| 0 <= k < i ==> bindings(self.vars@)[k].0 != name@,
            decreases self.vars.len() - i,
        {
            if self.vars[i].name == *name {
                proof {
                    use_type_invariant(self);
                    assert(self@[i as int].0 == name@);
                }
                return Some(i);
            }
            i += 1;
        }
        proof {
            use_type_invariant(self);
        }
        None
    }

    /// The value that `name` is bound to, if it is bound.
    pub fn get(&self, name: &String) -> (value: Option<&String>)
        ensures
            names_distinct(self@),
            match value {
                Some(v) => as_map(self@).contains_key(name@) && as_map(self@)[name@] == v@,
                None => !as_map(self@).contains_key(name@),
            },
    {
        match self.find(name) {
            Some(i) => Some(&self.vars[i].value),
            None => None,
        }
    }

    /// This report with `name` bound to `value`, in place of an earlier value
    /// if there was one.
    pub fn with(self, name: String, value: String) -> (report: EnvReport)
        ensures
            report@ == with_binding(self@, name@, value@),
            names_distinct(report@),
    {
        let found = self.find(&name);
        proof {
            lemma_with_binding(self@, name@, value@);
        }
        let mut vars = self.vars;
        match found {
            Some(i) => {
                vars.set(i, EnvVar { name, value });
            },
            None => {
                vars.push(EnvVar { name, value });
            },
        }
        proof {
            assert(bindings(vars@) =~= with_binding(self@, name@, value@));
        }
        EnvReport { vars }
    }

    /// Binds `name` to `value`, in place of an earlier value if there was one.
    pub fn insert(&mut self, name: String, value: String)
        ensures
            final(self)@ == with_binding(old(self)@, name@, value@),
            names_distinct(final(self)@),
    {
        let mut before = EnvReport::new();
        core::mem::swap(self, &mut before);
        *self = before.with(name, value);
    }

    /// The variables, in order.
    pub fn vars(&self) -> (vars: &Vec<EnvVar>)
        ensures
            bindings(vars@) == self@,
            names_distinct(self@),
    {
        proof {
            use_type_invariant(self);
        }
        &self.vars
    }
}

/// Removes the variables that are private to one process and must not reach
/// the session manager. Every other variable stays, with its value, in its
/// place among the others.
pub fn filter_env_vars(env_vars: EnvReport) -> (filtered: EnvReport)
    ensures
        filtered@ == passed_on(env_vars@),
        names_distinct(filtered@),
        as_map(filtered@) == as_map(env_vars@).remove_keys(blocked_names()),
{
    proof {
        use_type_invariant(&env_vars);
        lemma_passed_on(env_vars@);
    }
    let ghost all = env_vars@;
    let ghost seen: int = 0;
    let mut vars = env_vars.vars;
    let mut i: usize = 0;
    proof {
        reveal(Seq::filter);
        assert(all.take(0) =~= Seq::<Binding>::empty());
        assert(bindings(vars@) =~= passed_on(all.take(0)) + all.skip(0));
    }
    while i < vars.len()
        invariant
            0 <= seen <= all.len(),
            i == passed_on(all.take(seen)).len(),
            bindings(vars@) == passed_on(all.take(seen)) + all.skip(seen),
        decreases all.len() - seen,
    {
        proof {
            lemma_passed_on_step(all, seen);
            assert(bindings(vars@)[i as int] == all[seen]);
        }
        if is_blocked_name(&vars[i].name) {
            let ghost before = bindings(vars@);
            vars.remove(i);
            proof {
                assert(bindings(vars@) =~= before.remove(i as int));
                assert(before.remove(i as int) =~= passed_on(all.take(seen + 1)) + all.skip(
                    seen + 1,
                ));
            }
        } else {
            proof {
                assert(bindings(vars@) =~= passed_on(all.take(seen + 1)) + all.skip(seen + 1));
            }
            i += 1;
        }
        proof {
            seen = seen + 1;
        }
    }
    proof {
        assert(all.take(seen) =~= all);
        assert(bindings(vars@) =~= passed_on(all));
    }
    EnvReport { vars }
}

/// What a sequence of commands stands for.
pub open spec fn commands(list: Seq<Command>) -> Seq<CommandView> {
    list.map_values(|c: Command| c@)
}

/// The requests that propagate a report to the session manager: one
/// `set-environment` for each binding that is passed on, in their order.
pub open spec fn propagation(vars: Seq<Binding>) -> Seq<CommandView> {
    passed_on(vars).map_values(|b: Binding| set_environment(b.0, b.1))
}

/// The session-manager requests that propagate `report`: it is filtered, and
/// each variable that is left becomes one `set-environment` request.
pub fn propagation_commands(report: EnvReport) -> (requests: Vec<Command>)
    ensures
        commands(requests@) == propagation(report@),
{
    let filtered = filter_env_vars(report);
    let vars = filtered.vars();
    let mut requests: Vec<Command> = Vec::new();
    let mut i: usize = 0;
    while i < vars.len()
        invariant
            i <= vars.len(),
            bindings(vars@) == passed_on(report@),
            commands(requests@) == propagation(report@).take(i as int),
        decreases vars.len() - i,
    {
        let request = Command::set_environment(&vars[i].name, &vars[i].value);
        let ghost before = commands(requests@);
        requests.push(request);
        proof {
            assert(passed_on(report@)[i as int] == vars@[i as int]@);
            assert(propagation(report@)[i as int] == request@);
            assert(commands(requests@) =~= before.push(request@));
            assert(commands(requests@) =~= propagation(report@).take(i + 1));
        }
        i += 1;
    }
    proof {
        assert(propagation(report@).take(i as int) =~= propagation(report@));
    }
    requests
}

/// What one more binding adds to those passed on: itself, unless its name is
/// blocked.
pub proof fn lemma_passed_on_step(vars: Seq<Binding>, k: int)
    requires
        0 <= k < vars.len(),
    ensures
        passed_on(vars.take(k + 1)) == if is_blocked(vars[k].0) {
            passed_on(vars.take(k))
        } else {
            passed_on(vars.take(k)).push(vars[k])
        },
{
    reveal(Seq::filter);
    assert(vars.take(k + 1).drop_last() =~= vars.take(k));
}

/// Filtering removes exactly the bindings of blocked names: a binding is
/// passed on if and only if it was reported under a name that is not blocked,
/// the names stay distinct, and the mapping is the reported one without the
/// blocked names.
pub proof fn lemma_passed_on(vars: Seq<Binding>)
    ensures
        forall|b: Binding| #[trigger]
            passed_on(vars).contains(b) <==> vars.contains(b) && !is_blocked(b.0),
        names_distinct(vars) ==> names_distinct(passed_on(vars)),
        names_distinct(vars) ==> as_map(passed_on(vars)) == as_map(vars).remove_keys(
            blocked_names(),
        ),
    decreases vars.len(),
{
    reveal(Seq::filter);
    let kept = passed_on(vars);
    if vars.len() > 0 {
        let front = vars.drop_last();
        let last = vars.last();
        lemma_passed_on(front);
        assert forall|b: Binding| #[trigger] kept.contains(b) <==> vars.contains(b) && !is_blocked(
            b.0,
        ) by {
            if kept.contains(b) {
                let k = choose|k: int| 0 <= k < kept.len() && kept[k] == b;
                if k < passed_on(front).len() {
                    assert(passed_on(front).contains(b));
                    let j = choose|j: int| 0 <= j < front.len() && front[j] == b;
                    assert(vars[j] == b);
                } else {
                    assert(vars[vars.len() - 1] == b);
                }
            }
            if vars.contains(b) && !is_blocked(b.0) {
                let j = choose|j: int| 0 <= j < vars.len() && vars[j] == b;
                if j < front.len() {
                    assert(front[j] == b);
                    assert(passed_on(front).contains(b));
                    let k = choose|k: int| 0 <= k < passed_on(front).len() && passed_on(front)[k]
                        == b;
                    assert(kept[k] == b);
                } else {
                    assert(kept[kept.len() - 1] == b);
                }
            }
        }
        if names_distinct(vars) {
            assert(names_distinct(front)) by {
                assert forall|i: int, j: int| 0 <= i < j < front.len() implies front[i].0
                    != front[j].0 by {
                    assert(vars[i].0 != vars[j].0);
                }
            }
            assert forall|i: int, j: int| 0 <= i < j < kept.len() implies kept[i].0
                != kept[j].0 by {
                if j < passed_on(front).len() {
                    assert(passed_on(front)[i].0 != passed_on(front)[j].0);
                } else {
                    assert(passed_on(front).contains(kept[i]));
                    let k = choose|k: int| 0 <= k < front.len() && front[k] == kept[i];
                    assert(vars[k].0 != vars[vars.len() - 1].0);
                }
            }
        }
    }
    if names_distinct(vars) {
        assert forall|n: Seq<char>| binds(kept, n) <==> binds(vars, n) && !is_blocked(n) by {
            if binds(kept, n) {
                let k = place_of(kept, n);
                assert(kept.contains(kept[k]));
                let j = choose|j: int| 0 <= j < vars.len() && vars[j] == kept[k];
                assert(vars[j].0 == n);
            }
            if binds(vars, n) && !is_blocked(n) {
                let j = place_of(vars, n);
                assert(vars.contains(vars[j]));
                assert(kept.contains(vars[j]));
                let k = choose|k: int| 0 <= k < kept.len() && kept[k] == vars[j];
                assert(kept[k].0 == n);
            }
        }
        assert forall|n: Seq<char>| binds(kept, n) implies #[trigger] as_map(kept)[n] == as_map(
            vars,
        )[n] by {
            let k = place_of(kept, n);
            assert(kept.contains(kept[k]));
            let j = choose|j: int| 0 <= j < vars.len() && vars[j] == kept[k];
            assert(vars[j].0 == n);
            assert(place_of(vars, n) == j);
        }
        assert(as_map(kept) =~= as_map(vars).remove_keys(blocked_names()));
    }
}

/// Binding a name keeps the names distinct, and acts on the mapping as an
/// insertion does.
pub proof fn lemma_with_binding(vars: Seq<Binding>, name: Seq<char>, value: Seq<char>)
    requires
        names_distinct(vars),
    ensures
        names_distinct(with_binding(vars, name, value)),
        as_map(with_binding(vars, name, value)) == as_map(vars).insert(name, value),
{
    let after = with_binding(vars, name, value);
    assert forall|n: Seq<char>| binds(after, n) == (binds(vars, n) || n == name) by {
        if binds(vars, name) {
            let p = place_of(vars, name);
            if binds(after, n) {
                let k = place_of(after, n);
                assert(vars[k].0 == n || n == name);
            }
            if binds(vars, n) {
                let k = place_of(vars, n);
                assert(after[k].0 == n);
            }
            if n == name {
                assert(after[p].0 == n);
            }
        } else {
            if binds(after, n) {
                let k = place_of(after, n);
                if k < vars.len() {
                    assert(vars[k].0 == n);
                }
            }
            if binds(vars, n) {
                let k = place_of(vars, n);
                assert(after[k].0 == n);
            }
            if n == name {
                assert(after[vars.len() as int].0 == n);
            }
        }
    }
    assert(names_distinct(after));
    assert forall|n: Seq<char>| binds(after, n) implies #[trigger] as_map(after)[n] == as_map(
        vars,
    ).insert(name, value)[n] by {
        let k = place_of(after, n);
        if n == name {
            if binds(vars, name) {
                assert(after[place_of(vars, name)].0 == name);
            } else {
                assert(after[vars.len() as int].0 == name);
            }
        } else {
            assert(binds(vars, n));
            let j = place_of(vars, n);
            assert(after[j].0 == n);
            assert(k == j);
        }
    }
    assert(as_map(after) =~= as_map(vars).insert(name, value));
}

} // verus!
