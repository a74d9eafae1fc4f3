use vstd::prelude::*;
use crate::capture::{
    run_filter,
    CaptureOutcome,
    pattern_captures,
    pattern_compiles,
    pattern_group_count,
};
use crate::decimal::{dec_of, usize_to_string};
use crate::errors::{UserErr, UserErrView};
use crate::template::{replace, spec_replace};
use crate::trigger::{spec_describe, spec_matches, Trigger, TriggerView};
use crate::values::{spec_insert, spec_lookup, ValueSet};

verus! {

/// Where a variable takes its value from.
#[derive(Debug, Clone, Copy, PartialEq, Eq)]
pub enum VarSource {
    File,
    Line,
    CurrentOrAboveLineContent,
}

/// The name of a variable source as it appears in configuration text.
pub open spec fn spec_source_text(s: VarSource) -> Seq<char> {
    match s {
        VarSource::File => "file"@,
        VarSource::Line => "line"@,
        VarSource::CurrentOrAboveLineContent => "currentOrAboveLineContent"@,
    }
}

impl VarSource {
    /// Renders the source name for messages.
    pub fn text(&self) -> (r: String)
        ensures
            r@ == spec_source_text(*self),
    {
        match self {
            VarSource::File => String::from_str("file"),
            VarSource::Line => String::from_str("line"),
            VarSource::CurrentOrAboveLineContent => String::from_str("currentOrAboveLineContent"),
        }
    }
}

/// The mathematical content of a [`Var`].
pub ghost struct VarView {
    pub name: Seq<char>,
    pub source: VarSource,
    pub filter: Seq<char>,
}

/// A named, derived value: its name, the source it reads from, and an
/// extraction pattern with exactly one capture group.
#[derive(Debug)]
pub struct Var {
    pub name: String,
    pub source: VarSource,
    pub filter: String,
}

impl View for Var {
    type V = VarView;

    open spec fn view(&self) -> VarView {
        VarView { name: self.name@, source: self.source, filter: self.filter@ }
    }
}

/// The mathematical content of an [`Action`]: absent variables count as an
/// empty list, which behaves the same.
pub ghost struct ActionView {
    pub trigger: TriggerView,
    pub run: Seq<char>,
    pub vars: Seq<VarView>,
}

/// A configuration rule: a trigger pattern paired with a command template and
/// optional variables.
#[derive(Debug)]
pub struct Action {
    pub trigger: Trigger,
    pub run: String,
    pub vars: Option<Vec<Var>>,
}

impl View for Action {
    type V = ActionView;

    open spec fn view(&self) -> ActionView {
        ActionView {
            trigger: self.trigger@,
            run: self.run@,
            vars: match self.vars {
                Some(vs) => vs@.map_values(|v: Var| v@),
                None => Seq::<VarView>::empty(),
            },
        }
    }
}

/// The ordered rule table: the first matching action wins.
#[derive(Debug)]
pub struct Configuration {
    pub actions: Vec<Action>,
}

impl View for Configuration {
    type V = Seq<ActionView>;

    open spec fn view(&self) -> Seq<ActionView> {
        self.actions@.map_values(|a: Action| a@)
    }
}

/// The value the variable takes given the values known so far, or the error
/// reported: an unsupported source, no known file to read from, a filter
/// that does not compile, one that does not match, one with a capture-group
/// count other than one, or a capture group that took no part in the match.
pub open spec fn spec_calculate_var(v: VarView, known: Seq<(Seq<char>, Seq<char>)>) -> Result<
    Seq<char>,
    UserErrView,
> {
    if !(v.source is File) {
        Err(
            UserErrView {
                message: "variable source not implemented: "@ + spec_source_text(v.source),
                guidance: "only the \"file\" variable source is supported so far"@,
            },
        )
    } else {
        match spec_lookup(known, "file"@) {
            None => Err(
                UserErrView {
                    message: "no file name known for this trigger"@,
                    guidance: "a variable with the \"file\" source needs a trigger that carries a file"@,
                },
            ),
            Some(text) => {
                if !pattern_compiles(v.filter) {
                    Err(
                        UserErrView {
                            message: "cannot parse filter pattern: "@ + v.filter,
                            guidance: "the filter of a variable must be a valid regular expression"@,
                        },
                    )
                } else if pattern_group_count(v.filter) != 2 {
                    Err(
                        UserErrView {
                            message: "found "@ + dec_of(pattern_group_count(v.filter))
                                + " captures"@,
                            guidance: "filters in the Tertestrial configuration file can only contain one capture group"@,
                        },
                    )
                } else {
                    match pattern_captures(v.filter, text) {
                        None => Err(
                            UserErrView {
                                message: "filter pattern does not match: "@ + v.filter,
                                guidance: "the filter of a variable must match the file name of the trigger"@,
                            },
                        ),
                        Some(groups) => match groups[1] {
                            Some(s) => Ok(s),
                            None => Err(
                                UserErrView {
                                    message: "the capture group took no part in the match: "@
                                        + v.filter,
                                    guidance: "the filter's capture group must match text whenever the filter matches"@,
                                },
                            ),
                        },
                    }
                }
            },
        }
    }
}

/// Computes one variable's value from the values known so far.
pub fn calculate_var(var: &Var, values: &ValueSet) -> (r: Result<String, UserErr>)
    ensures
        match spec_calculate_var(var@, values@) {
            Ok(s) => r matches Ok(v) && v@ == s,
            Err(e) => r matches Err(u) && u@ == e,
        },
{
    match var.source {
        VarSource::File => {},
        _ => {
            let mut m = String::from_str("variable source not implemented: ");
            let t = var.source.text();
            m.append(t.as_str());
            return Err(
                UserErr::new(
                    m,
                    String::from_str("only the \"file\" variable source is supported so far"),
                ),
            );
        },
    }
    let text = match values.get("file") {
        Some(t) => t,
        None => {
            return Err(
                UserErr::from_str(
                    "no file name known for this trigger",
                    "a variable with the \"file\" source needs a trigger that carries a file",
                ),
            );
        },
    };
    match run_filter(var.filter.as_str(), text.as_str()) {
        CaptureOutcome::BadPattern => {
            let mut m = String::from_str("cannot parse filter pattern: ");
            m.append(var.filter.as_str());
            Err(
                UserErr::new(
                    m,
                    String::from_str("the filter of a variable must be a valid regular expression"),
                ),
            )
        },
        CaptureOutcome::NoMatch(count) => {
            if count != 2 {
                let mut m = String::from_str("found ");
                let digits = usize_to_string(count);
                m.append(digits.as_str());
                m.append(" captures");
                Err(
                    UserErr::new(
                        m,
                        String::from_str(
                            "filters in the Tertestrial configuration file can only contain one capture group",
                        ),
                    ),
                )
            } else {
                let mut m = String::from_str("filter pattern does not match: ");
                m.append(var.filter.as_str());
                Err(
                    UserErr::new(
                        m,
                        String::from_str(
                            "the filter of a variable must match the file name of the trigger",
                        ),
                    ),
                )
            }
        },
        CaptureOutcome::Groups(gs) => {
            if gs.len() != 2 {
                let mut m = String::from_str("found ");
                let digits = usize_to_string(gs.len());
                m.append(digits.as_str());
                m.append(" captures");
                Err(
                    UserErr::new(
                        m,
                        String::from_str(
                            "filters in the Tertestrial configuration file can only contain one capture group",
                        ),
                    ),
                )
            } else {
                match &gs[1] {
                    Some(s) => Ok(s.clone()),
                    None => {
                        let mut m = String::from_str(
                            "the capture group took no part in the match: ",
                        );
                        m.append(var.filter.as_str());
                        Err(
                            UserErr::new(
                                m,
                                String::from_str(
                                    "the filter's capture group must match text whenever the filter matches",
                                ),
                            ),
                        )
                    },
                }
            }
        },
    }
}

/// The placeholder values a query trigger seeds: its command always, its
/// file and its line in decimal where present.
pub open spec fn seed_values(q: TriggerView) -> Seq<(Seq<char>, Seq<char>)> {
    let s0 = spec_insert(Seq::<(Seq<char>, Seq<char>)>::empty(), "command"@, q.command);
    let s1 = match q.file {
        Some(f) => spec_insert(s0, "file"@, f),
        None => s0,
    };
    match q.line {
        Some(l) => spec_insert(s1, "line"@, dec_of(l as nat)),
        None => s1,
    }
}

/// The values after evaluating the declared variables in order, each one
/// reading the values known before it and binding its own name; or the first
/// variable error.
pub open spec fn add_vars(known: Seq<(Seq<char>, Seq<char>)>, vars: Seq<VarView>) -> Result<
    Seq<(Seq<char>, Seq<char>)>,
    UserErrView,
>
    decreases vars.len(),
{
    if vars.len() == 0 {
        Ok(known)
    } else {
        match spec_calculate_var(vars[0], known) {
            Err(e) => Err(e),
            Ok(val) => add_vars(spec_insert(known, vars[0].name, val), vars.drop_first()),
        }
    }
}

/// Every known value substituted into the template, in the order the values
/// became known.
pub open spec fn apply_values(text: Seq<char>, pairs: Seq<(Seq<char>, Seq<char>)>) -> Seq<char>
    decreases pairs.len(),
{
    if pairs.len() == 0 {
        text
    } else {
        apply_values(spec_replace(text, pairs[0].0, pairs[0].1), pairs.drop_first())
    }
}

/// The fully substituted command of an action for a query trigger, or the
/// first variable error.
pub open spec fn spec_format_run(a: ActionView, q: TriggerView) -> Result<Seq<char>, UserErrView> {
    match add_vars(seed_values(q), a.vars) {
        Err(e) => Err(e),
        Ok(pairs) => Ok(apply_values(a.run, pairs)),
    }
}

/// The position of the first action at or after `i` whose pattern accepts
/// the query.
pub open spec fn first_match_from(actions: Seq<ActionView>, q: TriggerView, i: int) -> Option<int>
    decreases actions.len() - i,
{
    if i < 0 || i >= actions.len() {
        None
    } else if spec_matches(actions[i].trigger, q) {
        Some(i)
    } else {
        first_match_from(actions, q, i + 1)
    }
}

/// The position of the first action whose pattern accepts the query.
pub open spec fn first_match(actions: Seq<ActionView>, q: TriggerView) -> Option<int> {
    first_match_from(actions, q, 0)
}

/// The error reported when no action matches a trigger.
pub open spec fn no_action_err(q: TriggerView) -> UserErrView {
    UserErrView {
        message: "cannot determine command for trigger: "@ + spec_describe(q),
        guidance: "Please make sure that this trigger is listed in your configuration file"@,
    }
}

impl Configuration {
    /// Builds the substituted command of one action for a query trigger:
    /// seeds the values from the query, evaluates the action's variables in
    /// declaration order, then replaces every known placeholder in the
    /// template, unknown ones staying as literal text.
    #[verifier::loop_isolation(false)]
    pub fn format_run(&self, action: &Action, trigger: &Trigger) -> (r: Result<String, UserErr>)
        ensures
            match spec_format_run(action@, trigger@) {
                Ok(s) => r matches Ok(c) && c@ == s,
                Err(e) => r matches Err(u) && u@ == e,
            },
    {
        let mut values = ValueSet::new();
        values.insert(String::from_str("command"), trigger.command.clone());
        match &trigger.file {
            Some(f) => values.insert(String::from_str("file"), f.clone()),
            None => {},
        }
        match trigger.line {
            Some(l) => values.insert(String::from_str("line"), usize_to_string(l)),
            None => {},
        }
        proof {
            assert(values@ == seed_values(trigger@));
        }
        match &action.vars {
            Some(vs) => {
                let n = vs.len();
                let mut i: usize = 0;
                proof {
                    assert(action@.vars.subrange(0, n as int) =~= action@.vars);
                }
                while i < n
                    invariant
                        n == vs@.len(),
                        i <= n,
                        add_vars(seed_values(trigger@), action@.vars) == add_vars(
                            values@,
                            action@.vars.subrange(i as int, n as int),
                        ),
                    decreases n - i,
                {
                    let ghost rest = action@.vars.subrange(i as int, n as int);
                    proof {
                        assert(rest[0] == action@.vars[i as int]);
                        assert(rest.drop_first() =~= action@.vars.subrange(
                            i as int + 1,
                            n as int,
                        ));
                    }
                    match calculate_var(&vs[i], &values) {
                        Ok(val) => {
                            let nm = vs[i].name.clone();
                            values.insert(nm, val);
                        },
                        Err(e) => {
                            return Err(e);
                        },
                    }
                    i = i + 1;
                }
                proof {
                    assert(action@.vars.subrange(n as int, n as int) =~= Seq::<VarView>::empty());
                }
            },
            None => {},
        }
        let mut current = action.run.clone();
        let total = values.len();
        let mut i: usize = 0;
        proof {
            assert(values@.subrange(0, total as int) =~= values@);
        }
        while i < total
            invariant
                total == values@.len(),
                i <= total,
                apply_values(action@.run, values@) == apply_values(
                    current@,
                    values@.subrange(i as int, total as int),
                ),
            decreases total - i,
        {
            let ghost rest = values@.subrange(i as int, total as int);
            proof {
                assert(rest[0] == values@[i as int]);
                assert(rest.drop_first() =~= values@.subrange(i as int + 1, total as int));
            }
            let next = replace(
                current.as_str(),
                values.pairs[i].0.as_str(),
                values.pairs[i].1.as_str(),
            );
            current = next;
            i = i + 1;
        }
        proof {
            assert(values@.subrange(total as int, total as int) =~= Seq::<
                (Seq<char>, Seq<char>),
            >::empty());
        }
        Ok(current)
    }

    /// Resolves a live trigger against the rule table: scans the actions in
    /// configuration order, and returns the substituted command of the first
    /// action whose pattern accepts the trigger; with no match, the error
    /// names the trigger and asks for a rule.
    #[verifier::loop_isolation(false)]
    pub fn get_command(&self, trigger: Trigger) -> (r: Result<String, UserErr>)
        ensures
            match first_match(self@, trigger@) {
                None => r matches Err(e) && e@ == no_action_err(trigger@),
                Some(i) => match spec_format_run(self@[i], trigger@) {
                    Ok(s) => r matches Ok(c) && c@ == s,
                    Err(e) => r matches Err(u) && u@ == e,
                },
            },
    {
        let n = self.actions.len();
        let mut i: usize = 0;
        while i < n
            invariant
                n == self@.len(),
                i <= n,
                first_match(self@, trigger@) == first_match_from(self@, trigger@, i as int),
            decreases n - i,
        {
            let action = &self.actions[i];
            if action.trigger.matches_client_trigger(&trigger) {
                return self.format_run(action, &trigger);
            }
            i = i + 1;
        }
        let mut m = String::from_str("cannot determine command for trigger: ");
        let d = trigger.describe();
        m.append(d.as_str());
        Err(
            UserErr::new(
                m,
                String::from_str(
                    "Please make sure that this trigger is listed in your configuration file",
                ),
            ),
        )
    }
}

proof fn lemma_first_match_from_found(actions: Seq<ActionView>, q: TriggerView, j: int, i: int)
    requires
        0 <= j <= i < actions.len(),
        spec_matches(actions[i].trigger, q),
    ensures
        first_match_from(actions, q, j) matches Some(k) && j <= k <= i && spec_matches(
            actions[k].trigger,
            q,
        ),
    decreases i - j,
{
    if !spec_matches(actions[j].trigger, q) {
        lemma_first_match_from_found(actions, q, j + 1, i);
    }
}

/// Law: the first matching action wins. Whenever the action at position `i`
/// accepts the query, some action at or before `i` is the one selected — two
/// actions that both match are decided by their order in the list, and a
/// matching action is never passed over for a later one.
pub proof fn lemma_first_match_wins(actions: Seq<ActionView>, q: TriggerView, i: int)
    requires
        0 <= i < actions.len(),
        spec_matches(actions[i].trigger, q),
    ensures
        first_match(actions, q) matches Some(k) && 0 <= k <= i && spec_matches(
            actions[k].trigger,
            q,
        ),
{
    lemma_first_match_from_found(actions, q, 0, i);
}

proof fn lemma_first_match_from_none(actions: Seq<ActionView>, q: TriggerView, j: int)
    requires
        0 <= j,
        forall|x: int| j <= x < actions.len() ==> !spec_matches(actions[x].trigger, q),
    ensures
        first_match_from(actions, q, j) is None,
    decreases actions.len() - j,
{
    if j < actions.len() {
        lemma_first_match_from_none(actions, q, j + 1);
    }
}

/// Law: a query whose command kind equals no action's command kind matches
/// nothing, so resolving it reports the no-action error, which names the
/// trigger.
pub proof fn lemma_unmatched_command(actions: Seq<ActionView>, q: TriggerView)
    requires
        forall|x: int| 0 <= x < actions.len() ==> actions[x].trigger.command != q.command,
    ensures
        first_match(actions, q) is None,
{
    assert forall|x: int| 0 <= x < actions.len() implies !spec_matches(actions[x].trigger, q) by {
        assert(actions[x].trigger.command != q.command);
    }
    lemma_first_match_from_none(actions, q, 0);
}

/// Law: with pairwise distinct command kinds, a query that the action at
/// position `i` accepts selects exactly that action — no other can match.
pub proof fn lemma_distinct_commands_select(actions: Seq<ActionView>, q: TriggerView, i: int)
    requires
        forall|a: int, b: int|
            0 <= a < b < actions.len() ==> actions[a].trigger.command != actions[b].trigger.command,
        0 <= i < actions.len(),
        spec_matches(actions[i].trigger, q),
    ensures
        first_match(actions, q) == Some(i),
{
    lemma_first_match_from_found(actions, q, 0, i);
    let k = first_match(actions, q)->0;
    assert(actions[k].trigger.command == q.command);
    assert(actions[i].trigger.command == q.command);
    if k < i {
        assert(actions[k].trigger.command != actions[i].trigger.command);
    }
}

/// Law: the no-action error names the command kind it could not resolve —
/// its message carries the query's command verbatim.
pub proof fn lemma_no_action_err_names_command(q: TriggerView)
    ensures
        exists|s: int|
            0 <= s && s + q.command.len() <= no_action_err(q).message.len() && #[trigger] no_action_err(
                q,
            ).message.subrange(s, s + q.command.len() as int) == q.command,
{
    let m = no_action_err(q).message;
    let pre = "cannot determine command for trigger: "@ + "command "@;
    let s = pre.len() as int;
    assert(m.subrange(s, s + q.command.len() as int) =~= q.command);
    assert(0 <= s && s + q.command.len() <= m.len() && m.subrange(s, s + q.command.len() as int)
        == q.command);
}

/// Law: a valid filter of a file-sourced variable whose capture-group count
/// is not exactly one fails with the capture-count error, whether or not the
/// filter matches the file and whatever its groups would capture.
pub proof fn lemma_wrong_group_count(v: VarView, known: Seq<(Seq<char>, Seq<char>)>)
    requires
        v.source is File,
        pattern_compiles(v.filter),
        spec_lookup(known, "file"@) is Some,
        pattern_group_count(v.filter) != 2,
    ensures
        spec_calculate_var(v, known) matches Err(e) && e.guidance
            == "filters in the Tertestrial configuration file can only contain one capture group"@,
{
}

} // verus!
