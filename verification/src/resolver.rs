//! The resolution decision tree.
//!
//! A [`Resolver`] walks the strict priority order: the override variable's
//! value if one is set, otherwise the bare executable name, otherwise
//! `<home>/.cargo/bin/<name>`. It cannot validate a candidate itself —
//! validation means spawning a trial child process — so it hands each
//! candidate out through [`Resolver::candidate`] and is told the verdict
//! through [`Resolver::advance`]. The whole tree, as a function of the
//! inputs and of the verdicts received so far, is [`resolution_step`].

use vstd::prelude::*;

use crate::error::ResolveError;
use crate::fallback::fallback_candidate;
use crate::fallback::fallback_chars;
use crate::upper::override_var_name;
use crate::upper::upper_chars;

verus! {

/// The final outcome of a resolution, at the specification level.
pub enum SpecOutcome {
    /// The candidate with these characters validated and is returned
    /// exactly as it was tried.
    Resolved(Seq<char>),
    /// The override variable was set but its value did not validate.
    EnvVarInvalid,
    /// No override was set, and neither the bare name nor the fallback
    /// path validated.
    NotFound,
}

/// Where a resolution stands after some number of validation verdicts:
/// either one more candidate awaits validation, or an outcome is reached.
pub enum SpecStep {
    Pending(Seq<char>),
    Done(SpecOutcome),
}

/// The characters of an optional string.
pub open spec fn opt_chars(o: Option<String>) -> Option<Seq<char>> {
    match o {
        Some(s) => Some(s@),
        None => None,
    }
}

/// The whole decision tree. `verdicts` holds the validation verdicts
/// received so far, in the order the candidates were handed out.
///
/// With an override set, its value is the one and only candidate: a
/// favourable verdict resolves to it, an unfavourable one is a hard
/// configuration error, and the bare name and the fallback path are never
/// reached. Without an override, the bare name is tried first and the
/// fallback path after it — or not at all when no home directory is known.
pub open spec fn resolution_step(
    name: Seq<char>,
    override_value: Option<Seq<char>>,
    home: Option<Seq<char>>,
    verdicts: Seq<bool>,
) -> SpecStep {
    match override_value {
        Some(v) => if verdicts.len() == 0 {
            SpecStep::Pending(v)
        } else if verdicts[0] {
            SpecStep::Done(SpecOutcome::Resolved(v))
        } else {
            SpecStep::Done(SpecOutcome::EnvVarInvalid)
        },
        None => if verdicts.len() == 0 {
            SpecStep::Pending(name)
        } else if verdicts[0] {
            SpecStep::Done(SpecOutcome::Resolved(name))
        } else {
            match home {
                Some(h) => if verdicts.len() == 1 {
                    SpecStep::Pending(fallback_chars(h, name))
                } else if verdicts[1] {
                    SpecStep::Done(SpecOutcome::Resolved(fallback_chars(h, name)))
                } else {
                    SpecStep::Done(SpecOutcome::NotFound)
                },
                None => SpecStep::Done(SpecOutcome::NotFound),
            }
        },
    }
}

enum Phase {
    ValidatingOverride,
    ValidatingBare,
    ValidatingFallback(String),
    Resolved(String),
    FailedEnvVar,
    FailedNotFound,
}

/// One in-progress resolution of an executable name.
///
/// The caller constructs it with the inputs read from the environment,
/// then repeats: take the candidate from [`Resolver::candidate`], run the
/// validation trial on it, and report the verdict to
/// [`Resolver::advance`] — until no candidate is left — and takes the
/// outcome from [`Resolver::finish`].
pub struct Resolver {
    name: String,
    var: String,
    override_value: Option<String>,
    home: Option<String>,
    phase: Phase,
    verdicts: Ghost<Seq<bool>>,
}

impl Resolver {
    /// The executable name being resolved.
    pub closed spec fn spec_name(self) -> Seq<char> {
        self.name@
    }

    /// The override variable's value, if the variable was set.
    pub closed spec fn spec_override(self) -> Option<Seq<char>> {
        opt_chars(self.override_value)
    }

    /// The user's home directory, if one is known.
    pub closed spec fn spec_home(self) -> Option<Seq<char>> {
        opt_chars(self.home)
    }

    /// The validation verdicts received so far, oldest first.
    pub closed spec fn verdicts(self) -> Seq<bool> {
        self.verdicts@
    }

    /// Where this resolution stands.
    pub open spec fn current(self) -> SpecStep {
        resolution_step(self.spec_name(), self.spec_override(), self.spec_home(), self.verdicts())
    }

    /// The resolver's state agrees with the decision tree on the inputs
    /// and verdicts seen so far.
    pub closed spec fn wf(self) -> bool {
        &&& self.var@ == upper_chars(self.name@)
        &&& match self.phase {
            Phase::ValidatingOverride => self.override_value is Some && self.verdicts@.len() == 0,
            Phase::ValidatingBare => self.override_value is None && self.verdicts@.len() == 0,
            Phase::ValidatingFallback(p) => {
                &&& self.override_value is None
                &&& self.home is Some
                &&& self.verdicts@.len() == 1
                &&& !self.verdicts@[0]
                &&& p@ == fallback_chars(self.home->0@, self.name@)
            },
            Phase::Resolved(s) => (self.current() matches SpecStep::Done(SpecOutcome::Resolved(p))
                && s@ == p),
            Phase::FailedEnvVar => self.current() == SpecStep::Done(SpecOutcome::EnvVarInvalid),
            Phase::FailedNotFound => self.current() == SpecStep::Done(SpecOutcome::NotFound),
        }
    }

    /// Starts a resolution for `name`, given the override variable's value
    /// (if the variable was set) and the user's home directory (if known).
    pub fn new(name: String, override_value: Option<String>, home: Option<String>) -> (r: Resolver)
        ensures
            r.wf(),
            r.spec_name() == name@,
            r.spec_override() == opt_chars(override_value),
            r.spec_home() == opt_chars(home),
            r.verdicts() == Seq::<bool>::empty(),
    {
        let var = override_var_name(name.as_str());
        let phase = if override_value.is_some() {
            Phase::ValidatingOverride
        } else {
            Phase::ValidatingBare
        };
        Resolver { name, var, override_value, home, phase, verdicts: Ghost(Seq::empty()) }
    }

    /// The name of the override variable consulted for this resolution.
    pub fn env_var_name(&self) -> (r: &String)
        requires
            self.wf(),
        ensures
            r@ == upper_chars(self.spec_name()),
    {
        &self.var
    }

    /// The candidate the caller must now validate, or `None` once the
    /// resolution has finished.
    pub fn candidate(&self) -> (r: Option<&String>)
        requires
            self.wf(),
        ensures
            match self.current() {
                SpecStep::Pending(c) => r matches Some(s) && s@ == c,
                SpecStep::Done(_) => r is None,
            },
    {
        match &self.phase {
            Phase::ValidatingOverride => match &self.override_value {
                Some(v) => Some(v),
                None => None,
            },
            Phase::ValidatingBare => Some(&self.name),
            Phase::ValidatingFallback(p) => Some(p),
            Phase::Resolved(_) => None,
            Phase::FailedEnvVar => None,
            Phase::FailedNotFound => None,
        }
    }

    /// Whether the resolution has reached an outcome.
    pub fn is_finished(&self) -> (b: bool)
        requires
            self.wf(),
        ensures
            b == (self.current() is Done),
    {
        match &self.phase {
            Phase::ValidatingOverride => false,
            Phase::ValidatingBare => false,
            Phase::ValidatingFallback(_) => false,
            Phase::Resolved(_) => true,
            Phase::FailedEnvVar => true,
            Phase::FailedNotFound => true,
        }
    }

    /// Records the verdict of the validation trial on the current
    /// candidate and moves the resolution one step forward.
    pub fn advance(&mut self, valid: bool)
        requires
            old(self).wf(),
            old(self).current() is Pending,
        ensures
            final(self).wf(),
            final(self).spec_name() == old(self).spec_name(),
            final(self).spec_override() == old(self).spec_override(),
            final(self).spec_home() == old(self).spec_home(),
            final(self).verdicts() == old(self).verdicts().push(valid),
    {
        let next = match &self.phase {
            Phase::ValidatingOverride => if valid {
                match &self.override_value {
                    Some(v) => Phase::Resolved(v.clone()),
                    None => Phase::FailedEnvVar,
                }
            } else {
                Phase::FailedEnvVar
            },
            Phase::ValidatingBare => if valid {
                Phase::Resolved(self.name.clone())
            } else {
                match &self.home {
                    Some(h) => Phase::ValidatingFallback(
                        fallback_candidate(h.as_str(), self.name.as_str()),
                    ),
                    None => Phase::FailedNotFound,
                }
            },
            Phase::ValidatingFallback(p) => if valid {
                Phase::Resolved(p.clone())
            } else {
                Phase::FailedNotFound
            },
            Phase::Resolved(_) => Phase::FailedNotFound,
            Phase::FailedEnvVar => Phase::FailedNotFound,
            Phase::FailedNotFound => Phase::FailedNotFound,
        };
        self.phase = next;
        self.verdicts = Ghost(self.verdicts@.push(valid));
    }

    /// The outcome: the validated candidate exactly as it was handed out,
    /// or the error saying what went wrong — a broken override names the
    /// override variable; an exhausted search names the executable and the
    /// override variable both.
    pub fn finish(self) -> (r: Result<String, ResolveError>)
        requires
            self.wf(),
            self.current() is Done,
        ensures
            match self.current()->Done_0 {
                SpecOutcome::Resolved(p) => r matches Ok(s) && s@ == p,
                SpecOutcome::EnvVarInvalid => (r matches Err(e)
                    && e matches ResolveError::EnvVarInvalid { var }
                    && var@ == upper_chars(self.spec_name())),
                SpecOutcome::NotFound => (r matches Err(e)
                    && e matches ResolveError::NotFound { name, var }
                    && name@ == self.spec_name()
                    && var@ == upper_chars(self.spec_name())),
            },
    {
        let Resolver { name, var, override_value: _, home: _, phase, verdicts: _ } = self;
        match phase {
            Phase::Resolved(s) => Ok(s),
            Phase::FailedEnvVar => Err(ResolveError::EnvVarInvalid { var }),
            Phase::FailedNotFound => Err(ResolveError::NotFound { name, var }),
            Phase::ValidatingOverride => Err(ResolveError::NotFound { name, var }),
            Phase::ValidatingBare => Err(ResolveError::NotFound { name, var }),
            Phase::ValidatingFallback(_) => Err(ResolveError::NotFound { name, var }),
        }
    }
}

/// An override that validates strictly dominates: whatever the home
/// directory is and whatever any later verdict says, a favourable first
/// verdict resolves to exactly the override value, unmodified.
pub proof fn lemma_override_dominates(
    name: Seq<char>,
    v: Seq<char>,
    home: Option<Seq<char>>,
    verdicts: Seq<bool>,
)
    requires
        verdicts.len() >= 1,
        verdicts[0],
    ensures
        resolution_step(name, Some(v), home, verdicts) == SpecStep::Done(
            SpecOutcome::Resolved(v),
        ),
{
}

/// An override that is set but fails validation is a hard configuration
/// error: the resolution fails at once, and never falls through to the
/// bare name or the fallback path.
pub proof fn lemma_override_invalid_fails(
    name: Seq<char>,
    v: Seq<char>,
    home: Option<Seq<char>>,
    verdicts: Seq<bool>,
)
    requires
        verdicts.len() >= 1,
        !verdicts[0],
    ensures
        resolution_step(name, Some(v), home, verdicts) == SpecStep::Done(
            SpecOutcome::EnvVarInvalid,
        ),
{
}

/// With an override set, the override value is the only candidate the
/// resolution ever hands out for validation: no bare-name and no fallback
/// trial is ever requested, whatever the verdicts.
pub proof fn lemma_override_only_candidate(
    name: Seq<char>,
    v: Seq<char>,
    home: Option<Seq<char>>,
    verdicts: Seq<bool>,
)
    ensures
        resolution_step(name, Some(v), home, verdicts) matches SpecStep::Pending(c) ==> c == v,
{
}

/// Without an override, a bare name that validates is returned unchanged,
/// not expanded to an absolute path.
pub proof fn lemma_bare_name_kept(name: Seq<char>, home: Option<Seq<char>>, verdicts: Seq<bool>)
    requires
        verdicts.len() >= 1,
        verdicts[0],
    ensures
        resolution_step(name, None, home, verdicts) == SpecStep::Done(
            SpecOutcome::Resolved(name),
        ),
{
}

/// Without an override, when the bare name fails and the fallback path
/// validates, the resolution returns the full constructed fallback path.
pub proof fn lemma_fallback_used(name: Seq<char>, h: Seq<char>, verdicts: Seq<bool>)
    requires
        verdicts.len() >= 2,
        !verdicts[0],
        verdicts[1],
    ensures
        resolution_step(name, None, Some(h), verdicts) == SpecStep::Done(
            SpecOutcome::Resolved(fallback_chars(h, name)),
        ),
{
}

/// Without an override, when the bare name fails and the fallback path
/// fails too (or no home directory is known), the resolution fails with
/// the not-found outcome.
pub proof fn lemma_nothing_found(name: Seq<char>, home: Option<Seq<char>>, verdicts: Seq<bool>)
    requires
        verdicts.len() >= 1,
        !verdicts[0],
        home is Some ==> verdicts.len() >= 2 && !verdicts[1],
    ensures
        resolution_step(name, None, home, verdicts) == SpecStep::Done(SpecOutcome::NotFound),
{
}

} // verus!
