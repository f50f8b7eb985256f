//! The external executables the front-end relies on, and what a search for
//! them at startup came to.

use vstd::prelude::*;
use crate::process::{ProcessOutcome, ProcessOutcomeView};

verus! {

/// An external executable that the front-end may run.
#[derive(Clone, Copy, PartialEq, Eq, Debug, Structural)]
pub enum Tool {
    /// The static analyser.
    Cppcheck,
    /// The renderer that turns the analyser's XML into an HTML report.
    HtmlReport,
    /// The preferred browser for printing the report to PDF.
    Chrome,
    /// The browser used for printing when the preferred one is absent.
    Chromium,
}

impl Tool {
    /// The name under which the executable is searched for and run.
    pub open spec fn spec_name(self) -> Seq<char> {
        match self {
            Tool::Cppcheck => "cppcheck"@,
            Tool::HtmlReport => "cppcheck-htmlreport"@,
            Tool::Chrome => "google-chrome"@,
            Tool::Chromium => "chromium-browser"@,
        }
    }

    /// The name under which the executable is searched for and run.
    pub fn name(self) -> (r: &'static str)
        ensures
            r@ == self.spec_name(),
    {
        match self {
            Tool::Cppcheck => "cppcheck",
            Tool::HtmlReport => "cppcheck-htmlreport",
            Tool::Chrome => "google-chrome",
            Tool::Chromium => "chromium-browser",
        }
    }
}

/// The names of the given tools, in order.
pub open spec fn tool_names(tools: Seq<Tool>) -> Seq<Seq<char>> {
    Seq::new(tools.len(), |i: int| tools[i].spec_name())
}

/// Every tool that is searched for at startup.
pub open spec fn spec_known_tools() -> Seq<Tool> {
    seq![Tool::Cppcheck, Tool::HtmlReport, Tool::Chrome, Tool::Chromium]
}

/// The tools without which the front-end offers to install its dependencies.
pub open spec fn spec_required_tools() -> Seq<Tool> {
    seq![Tool::Cppcheck, Tool::HtmlReport, Tool::Chrome]
}

/// The browsers able to print to PDF, most preferred first.
pub open spec fn spec_pdf_browsers() -> Seq<Tool> {
    seq![Tool::Chrome, Tool::Chromium]
}

/// Every tool that is searched for at startup.
pub fn known_tools() -> (r: Vec<Tool>)
    ensures
        r@ == spec_known_tools(),
{
    let mut r: Vec<Tool> = Vec::new();
    r.push(Tool::Cppcheck);
    r.push(Tool::HtmlReport);
    r.push(Tool::Chrome);
    r.push(Tool::Chromium);
    r
}

/// The tools without which the front-end offers to install its dependencies.
pub fn required_tools() -> (r: Vec<Tool>)
    ensures
        r@ == spec_required_tools(),
{
    let mut r: Vec<Tool> = Vec::new();
    r.push(Tool::Cppcheck);
    r.push(Tool::HtmlReport);
    r.push(Tool::Chrome);
    r
}

/// The browsers able to print to PDF, most preferred first.
pub fn pdf_browsers() -> (r: Vec<Tool>)
    ensures
        r@ == spec_pdf_browsers(),
{
    let mut r: Vec<Tool> = Vec::new();
    r.push(Tool::Chrome);
    r.push(Tool::Chromium);
    r
}

/// What a search for an executable on the search path came to.
#[derive(Clone, Copy, PartialEq, Eq, Debug, Structural)]
pub enum Lookup {
    /// The executable was located.
    Found,
    /// The search ran and located nothing.
    NotFound,
    /// The search itself could not be carried out.
    Failed,
}

impl Lookup {
    /// What a run of the search utility says: the executable was located
    /// where the utility exited with success, it was not where the utility
    /// exited otherwise, and the search failed where the utility could not
    /// be started.
    pub open spec fn spec_from_search(outcome: ProcessOutcomeView) -> Lookup {
        match outcome {
            ProcessOutcomeView::Completed { status, .. } => if status == Some(0i32) {
                Lookup::Found
            } else {
                Lookup::NotFound
            },
            ProcessOutcomeView::LaunchFailed => Lookup::Failed,
        }
    }

    /// What a run of the search utility says.
    pub fn from_search(outcome: &ProcessOutcome) -> (r: Lookup)
        ensures
            r == Lookup::spec_from_search(outcome@),
    {
        match outcome {
            ProcessOutcome::Completed { status, .. } => match status {
                Some(code) => if *code == 0 {
                    Lookup::Found
                } else {
                    Lookup::NotFound
                },
                None => Lookup::NotFound,
            },
            ProcessOutcome::LaunchFailed => Lookup::Failed,
        }
    }

    /// Whether the executable counts as reachable. A search that failed
    /// counts like one that located nothing.
    pub open spec fn spec_reachable(self) -> bool {
        self == Lookup::Found
    }

    /// Whether the executable counts as reachable.
    pub fn reachable(self) -> (r: bool)
        ensures
            r == self.spec_reachable(),
    {
        match self {
            Lookup::Found => true,
            Lookup::NotFound => false,
            Lookup::Failed => false,
        }
    }
}

/// For each known tool, whether it was found reachable at startup.
#[derive(Clone, Copy, PartialEq, Eq, Debug, Structural)]
pub struct ToolTable {
    pub cppcheck: bool,
    pub html_report: bool,
    pub chrome: bool,
    pub chromium: bool,
}

impl ToolTable {
    /// The table before any search: nothing is known to be reachable.
    pub fn new() -> (r: Self)
        ensures
            forall|tool: Tool| !r.has(tool),
    {
        ToolTable { cppcheck: false, html_report: false, chrome: false, chromium: false }
    }

    /// Whether `tool` is recorded as reachable.
    pub open spec fn has(self, tool: Tool) -> bool {
        match tool {
            Tool::Cppcheck => self.cppcheck,
            Tool::HtmlReport => self.html_report,
            Tool::Chrome => self.chrome,
            Tool::Chromium => self.chromium,
        }
    }

    /// Whether `tool` is recorded as reachable.
    pub fn is_available(&self, tool: Tool) -> (r: bool)
        ensures
            r == self.has(tool),
    {
        match tool {
            Tool::Cppcheck => self.cppcheck,
            Tool::HtmlReport => self.html_report,
            Tool::Chrome => self.chrome,
            Tool::Chromium => self.chromium,
        }
    }

    /// Records what the search for `tool` came to. Other entries are kept.
    pub fn record(&mut self, tool: Tool, lookup: Lookup)
        ensures
            forall|t: Tool|
                final(self).has(t) == if t == tool {
                    lookup.spec_reachable()
                } else {
                    old(self).has(t)
                },
    {
        let found = lookup.reachable();
        match tool {
            Tool::Cppcheck => {
                self.cppcheck = found;
            },
            Tool::HtmlReport => {
                self.html_report = found;
            },
            Tool::Chrome => {
                self.chrome = found;
            },
            Tool::Chromium => {
                self.chromium = found;
            },
        }
    }

    /// The required tools that are not reachable, in the order in which they
    /// are required.
    pub open spec fn spec_missing(self) -> Seq<Tool> {
        spec_required_tools().filter(|tool: Tool| !self.has(tool))
    }

    /// The required tools that are not reachable.
    pub fn missing(&self) -> (r: Vec<Tool>)
        ensures
            r@ == self.spec_missing(),
    {
        let required = required_tools();
        let ghost absent = |tool: Tool| !self.has(tool);
        let mut r: Vec<Tool> = Vec::new();
        let mut i: usize = 0;
        proof {
            reveal(Seq::filter);
            assert(required@.take(0).filter(absent) == Seq::<Tool>::empty());
        }
        while i < required.len()
            invariant
                i <= required.len(),
                absent == (|tool: Tool| !self.has(tool)),
                r@ == required@.take(i as int).filter(absent),
            decreases required.len() - i,
        {
            let tool = required[i];
            proof {
                reveal(Seq::filter);
                assert(required@.take(i as int + 1).drop_last() == required@.take(i as int));
            }
            if !self.is_available(tool) {
                r.push(tool);
            }
            i = i + 1;
        }
        assert(required@.take(required.len() as int) == required@);
        r
    }

    /// The browser with which the report is printed to PDF: the most
    /// preferred one that is reachable, if any is.
    pub open spec fn spec_pdf_tool(self) -> Option<Tool> {
        if self.has(Tool::Chrome) {
            Some(Tool::Chrome)
        } else if self.has(Tool::Chromium) {
            Some(Tool::Chromium)
        } else {
            None
        }
    }

    /// The browser with which the report is printed to PDF, if any.
    pub fn pdf_tool(&self) -> (r: Option<Tool>)
        ensures
            r == self.spec_pdf_tool(),
    {
        if self.chrome {
            Some(Tool::Chrome)
        } else if self.chromium {
            Some(Tool::Chromium)
        } else {
            None
        }
    }
}

/// The browser chosen for printing is a reachable PDF browser, and no
/// browser that is preferred to it is reachable. None is chosen exactly when
/// no PDF browser is reachable.
pub proof fn lemma_pdf_tool_is_first_reachable(table: ToolTable)
    ensures
        table.spec_pdf_tool() matches Some(tool) ==> exists|k: int|
            0 <= k < spec_pdf_browsers().len() && #[trigger] spec_pdf_browsers()[k] == tool
                && table.has(tool) && forall|j: int|
                0 <= j < k ==> !table.has(#[trigger] spec_pdf_browsers()[j]),
        table.spec_pdf_tool() is None <==> forall|k: int|
            0 <= k < spec_pdf_browsers().len() ==> !table.has(#[trigger] spec_pdf_browsers()[k]),
{
    let browsers = spec_pdf_browsers();
    assert(browsers[0] == Tool::Chrome);
    assert(browsers[1] == Tool::Chromium);
}

/// A required tool is listed as missing exactly when it is not reachable;
/// nothing else is listed, nothing is listed twice, and the order is that of
/// the required tools.
pub proof fn lemma_missing(table: ToolTable)
    ensures
        forall|tool: Tool|
            table.spec_missing().contains(tool) <==> (spec_required_tools().contains(tool)
                && !table.has(tool)),
        table.spec_missing().len() == 0 <==> (table.has(Tool::Cppcheck) && table.has(
            Tool::HtmlReport,
        ) && table.has(Tool::Chrome)),
{
    let required = spec_required_tools();
    let absent = |tool: Tool| !table.has(tool);
    let missing = table.spec_missing();
    assert(missing == required.filter(absent));
    assert forall|tool: Tool|
        missing.contains(tool) <==> (required.contains(tool) && !table.has(tool)) by {
        if missing.contains(tool) {
            let i = choose|i: int| 0 <= i < missing.len() && missing[i] == tool;
            required.lemma_filter_pred(absent, i);
            required.lemma_filter_contains_rev(absent, tool);
        }
        if required.contains(tool) && !table.has(tool) {
            let k = choose|k: int| 0 <= k < required.len() && required[k] == tool;
            required.lemma_filter_contains(absent, k);
        }
    }
    assert(required[0] == Tool::Cppcheck);
    assert(required[1] == Tool::HtmlReport);
    assert(required[2] == Tool::Chrome);
    if missing.len() == 0 {
        assert(!missing.contains(required[0]));
        assert(!missing.contains(required[1]));
        assert(!missing.contains(required[2]));
    } else {
        assert(missing.contains(missing[0]));
    }
}

} // verus!
