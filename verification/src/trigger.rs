use vstd::prelude::*;
use crate::decimal::{dec_of, usize_to_string};

verus! {

/// The mathematical content of a [`Trigger`].
pub ghost struct TriggerView {
    pub command: Seq<char>,
    pub file: Option<Seq<char>>,
    pub line: Option<usize>,
}

/// A request to run a test: a command kind plus optional file and line
/// context. A trigger serves both as a match pattern, as authored in the
/// configuration, and as a concrete query derived from editor input. For a
/// pattern, an absent `file` or `line` matches anything.
#[derive(Debug)]
pub struct Trigger {
    pub command: String,
    pub file: Option<String>,
    pub line: Option<usize>,
}

impl View for Trigger {
    type V = TriggerView;

    open spec fn view(&self) -> TriggerView {
        TriggerView {
            command: self.command@,
            file: match self.file {
                Some(f) => Some(f@),
                None => None,
            },
            line: self.line,
        }
    }
}

/// Whether the pattern trigger accepts the query trigger: commands must be
/// equal exactly; a file or line the pattern names must be present in the
/// query and equal to it exactly; one the pattern omits matches anything.
/// File patterns are compared as plain strings here — regular expressions act
/// only inside variable filters.
pub open spec fn spec_matches(pattern: TriggerView, query: TriggerView) -> bool {
    &&& pattern.command == query.command
    &&& match (pattern.file, query.file) {
        (Some(pf), Some(qf)) => pf == qf,
        (Some(_), None) => false,
        (None, _) => true,
    }
    &&& match (pattern.line, query.line) {
        (Some(pl), Some(ql)) => pl == ql,
        (Some(_), None) => false,
        (None, _) => true,
    }
}

/// The one-line description of a trigger used in error messages.
pub open spec fn spec_describe(t: TriggerView) -> Seq<char> {
    "command "@ + t.command + (match t.file {
        Some(f) => ", file "@ + f,
        None => Seq::<char>::empty(),
    }) + (match t.line {
        Some(l) => ", line "@ + dec_of(l as nat),
        None => Seq::<char>::empty(),
    })
}

impl Trigger {
    /// Whether this pattern trigger accepts the given query trigger.
    pub fn matches_client_trigger(&self, query: &Trigger) -> (r: bool)
        ensures
            r == spec_matches(self@, query@),
    {
        if !(self.command == query.command) {
            return false;
        }
        match (&self.file, &query.file) {
            (Some(pf), Some(qf)) => {
                if !crate::values::str_eq(pf.as_str(), qf.as_str()) {
                    return false;
                }
            },
            (Some(_), None) => {
                return false;
            },
            (None, _) => {},
        }
        match (self.line, query.line) {
            (Some(pl), Some(ql)) => {
                if pl != ql {
                    return false;
                }
            },
            (Some(_), None) => {
                return false;
            },
            (None, _) => {},
        }
        true
    }

    /// Renders the trigger for error messages.
    pub fn describe(&self) -> (r: String)
        ensures
            r@ == spec_describe(self@),
    {
        let mut out = String::new();
        out.append("command ");
        out.append(self.command.as_str());
        match &self.file {
            Some(f) => {
                out.append(", file ");
                out.append(f.as_str());
            },
            None => {},
        }
        match self.line {
            Some(l) => {
                out.append(", line ");
                let digits = usize_to_string(l);
                out.append(digits.as_str());
            },
            None => {},
        }
        proof {
            assert(out@ =~= spec_describe(self@));
        }
        out
    }
}

} // verus!
