//! Severity filters and the `--enable=` argument they give rise to.

use vstd::prelude::*;
use crate::text::{concat2, join, joined, option_view, slice_views_of};

verus! {

/// A category of diagnostic that the analyser can report.
#[derive(Clone, Copy, PartialEq, Eq, Debug, Structural)]
pub enum Severity {
    Error,
    Warning,
    Style,
    Performance,
}

impl Severity {
    /// The word by which the analyser knows this category.
    pub open spec fn spec_name(self) -> Seq<char> {
        match self {
            Severity::Error => "error"@,
            Severity::Warning => "warning"@,
            Severity::Style => "style"@,
            Severity::Performance => "performance"@,
        }
    }

    /// The word by which the analyser knows this category.
    pub fn name(self) -> (r: &'static str)
        ensures
            r@ == self.spec_name(),
    {
        match self {
            Severity::Error => "error",
            Severity::Warning => "warning",
            Severity::Style => "style",
            Severity::Performance => "performance",
        }
    }

    /// Position of the category in the fixed order in which categories are listed.
    pub open spec fn rank(self) -> int {
        match self {
            Severity::Error => 0,
            Severity::Warning => 1,
            Severity::Style => 2,
            Severity::Performance => 3,
        }
    }

    /// Whether the category has to be switched on explicitly. Errors are
    /// always reported by the analyser and are never named to it.
    pub open spec fn optional(self) -> bool {
        self != Severity::Error
    }
}

/// The names of the given categories, in order.
pub open spec fn names_of(levels: Seq<Severity>) -> Seq<Seq<char>> {
    Seq::new(levels.len(), |i: int| levels[i].spec_name())
}

/// Which categories of diagnostic the user has ticked.
#[derive(Clone, Copy, PartialEq, Eq, Debug, Structural)]
pub struct SeverityFilters {
    pub error: bool,
    pub warning: bool,
    pub style: bool,
    pub performance: bool,
}

impl SeverityFilters {
    /// The filters as the interface first shows them: errors and warnings
    /// ticked, style and performance not.
    pub fn new() -> (r: Self)
        ensures
            r == (SeverityFilters { error: true, warning: true, style: false, performance: false }),
    {
        SeverityFilters { error: true, warning: true, style: false, performance: false }
    }

    /// Whether `level` is ticked.
    pub open spec fn selects(self, level: Severity) -> bool {
        match level {
            Severity::Error => self.error,
            Severity::Warning => self.warning,
            Severity::Style => self.style,
            Severity::Performance => self.performance,
        }
    }

    /// Whether `level` is ticked.
    pub fn is_selected(&self, level: Severity) -> (r: bool)
        ensures
            r == self.selects(level),
    {
        match level {
            Severity::Error => self.error,
            Severity::Warning => self.warning,
            Severity::Style => self.style,
            Severity::Performance => self.performance,
        }
    }

    /// The ticked categories that have to be named to the analyser: warning,
    /// style and performance, in that order, each only if ticked.
    pub open spec fn spec_enabled_levels(self) -> Seq<Severity> {
        (if self.warning {
            seq![Severity::Warning]
        } else {
            Seq::empty()
        }) + (if self.style {
            seq![Severity::Style]
        } else {
            Seq::empty()
        }) + (if self.performance {
            seq![Severity::Performance]
        } else {
            Seq::empty()
        })
    }

    /// The ticked categories that have to be named to the analyser.
    pub fn enabled_levels(&self) -> (r: Vec<Severity>)
        ensures
            r@ == self.spec_enabled_levels(),
    {
        let mut r: Vec<Severity> = Vec::new();
        if self.warning {
            r.push(Severity::Warning);
        }
        if self.style {
            r.push(Severity::Style);
        }
        if self.performance {
            r.push(Severity::Performance);
        }
        r
    }

    /// The argument that switches the ticked categories on: absent when none
    /// of warning, style, performance is ticked, else `--enable=` followed by
    /// their names with commas between.
    pub open spec fn spec_enable_argument(self) -> Option<Seq<char>> {
        if self.spec_enabled_levels().len() == 0 {
            None
        } else {
            Some("--enable="@ + joined(names_of(self.spec_enabled_levels()), ","@))
        }
    }

    /// The argument that switches the ticked categories on, if any is needed.
    pub fn enable_argument(&self) -> (r: Option<String>)
        ensures
            option_view(r) == self.spec_enable_argument(),
    {
        let levels = self.enabled_levels();
        if levels.len() == 0 {
            return None;
        }
        let mut names: Vec<&str> = Vec::new();
        let mut i: usize = 0;
        while i < levels.len()
            invariant
                i <= levels.len(),
                names@.len() == i,
                forall|k: int| 0 <= k < i ==> names@[k]@ == levels@[k].spec_name(),
            decreases levels.len() - i,
        {
            names.push(levels[i].name());
            i = i + 1;
        }
        assert(slice_views_of(names@) == names_of(levels@));
        let list = join(&names, ",");
        Some(concat2("--enable=", list.as_str()))
    }
}

/// The enable argument is present exactly when at least one of warning,
/// style and performance is ticked. The categories it lists are exactly the
/// ticked ones among those three, each once, always in the order warning,
/// style, performance, and its text is `--enable=` followed by their names
/// with commas between. Whether errors are ticked makes no difference.
pub proof fn lemma_enable_argument(f: SeverityFilters)
    ensures
        f.spec_enable_argument() is Some <==> (f.warning || f.style || f.performance),
        forall|level: Severity|
            f.spec_enabled_levels().contains(level) <==> (level.optional() && f.selects(level)),
        forall|i: int, j: int|
            0 <= i < j < f.spec_enabled_levels().len() ==> f.spec_enabled_levels()[i].rank()
                < f.spec_enabled_levels()[j].rank(),
        f.spec_enable_argument() matches Some(a) ==> a == "--enable="@ + joined(
            names_of(f.spec_enabled_levels()),
            ","@,
        ),
        forall|e: bool|
            (SeverityFilters { error: e, ..f }).spec_enable_argument() == f.spec_enable_argument(),
{
    let levels = f.spec_enabled_levels();
    assert forall|level: Severity|
        levels.contains(level) <==> (level.optional() && f.selects(level)) by {
        if level.optional() && f.selects(level) {
            let w: int = 0;
            let s: int = if f.warning { 1 } else { 0 };
            let p: int = s + if f.style { 1int } else { 0int };
            match level {
                Severity::Warning => { assert(levels[w] == level); },
                Severity::Style => { assert(levels[s] == level); },
                Severity::Performance => { assert(levels[p] == level); },
                Severity::Error => {},
            }
        }
    }
}

impl Default for SeverityFilters {
    fn default() -> (r: Self)
        ensures
            r == (SeverityFilters { error: true, warning: true, style: false, performance: false }),
    {
        SeverityFilters::new()
    }
}

} // verus!
