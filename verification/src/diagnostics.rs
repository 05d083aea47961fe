//! Diagnostics reported by the language server, in the editor's coordinates.

use vstd::prelude::*;
use crate::text::{Position, Range, WireRange};

verus! {

/// How serious an issue is.
#[derive(Clone, Copy, Debug, PartialEq, Eq, Structural)]
pub enum Severity {
    Error,
    Warning,
    Info,
    Hint,
}

/// A colour: three channels from 0 to 255, and an opacity in percent.
#[derive(Clone, Copy, Debug, PartialEq, Eq, Structural)]
pub struct Rgba {
    pub red: u8,
    pub green: u8,
    pub blue: u8,
    pub opacity: u8,
}

impl Severity {
    /// Whether the protocol gives `code` a meaning as a severity.
    pub open spec fn is_code(code: i32) -> bool {
        1 <= code <= 4
    }

    /// The severity that the protocol writes as `code`.
    pub open spec fn of_code(code: i32) -> Severity
        recommends
            Severity::is_code(code),
    {
        if code == 1 {
            Severity::Error
        } else if code == 2 {
            Severity::Warning
        } else if code == 3 {
            Severity::Info
        } else {
            Severity::Hint
        }
    }

    /// The severity of a diagnostic that may name none: an error unless it says otherwise.
    pub open spec fn of_optional_code(code: Option<i32>) -> Severity {
        match code {
            Some(code) => Severity::of_code(code),
            None => Severity::Error,
        }
    }

    /// The colour in which an issue of this severity is shown.
    pub open spec fn shade(self) -> Rgba {
        match self {
            Severity::Error => Rgba { red: 239, green: 48, blue: 84, opacity: 90 },
            Severity::Warning => Rgba { red: 245, green: 230, blue: 99, opacity: 90 },
            Severity::Info => Rgba { red: 71, green: 168, blue: 189, opacity: 90 },
            Severity::Hint => Rgba { red: 71, green: 168, blue: 189, opacity: 90 },
        }
    }

    /// Tells whether `code` is one of the protocol's severities.
    pub fn known_code(code: i32) -> (known: bool)
        ensures
            known == Severity::is_code(code),
    {
        1 <= code && code <= 4
    }

    /// The severity for one of the protocol's codes.
    pub fn from_code(code: i32) -> (severity: Severity)
        requires
            Severity::is_code(code),
        ensures
            severity == Severity::of_code(code),
    {
        if code == 1 {
            Severity::Error
        } else if code == 2 {
            Severity::Warning
        } else if code == 3 {
            Severity::Info
        } else {
            Severity::Hint
        }
    }

    pub fn color(&self) -> (color: Rgba)
        ensures
            color == self.shade(),
    {
        match self {
            Severity::Error => Rgba { red: 239, green: 48, blue: 84, opacity: 90 },
            Severity::Warning => Rgba { red: 245, green: 230, blue: 99, opacity: 90 },
            Severity::Info => Rgba { red: 71, green: 168, blue: 189, opacity: 90 },
            Severity::Hint => Rgba { red: 71, green: 168, blue: 189, opacity: 90 },
        }
    }
}

/// A diagnostic as the protocol carries it: the range in wire coordinates, the
/// severity as its code if one was given, the link of the code's description if
/// one was given, and the message.
#[derive(Debug, PartialEq, Eq)]
pub struct WireDiagnostic {
    pub range: WireRange,
    pub severity: Option<i32>,
    pub code_description: Option<String>,
    pub message: String,
}

/// A warning or an error from the language server.
#[derive(Debug, PartialEq, Eq)]
pub struct Issue {
    pub range: Range,
    pub code_description: Option<String>,
    pub message: String,
    pub severity: Severity,
}

fn clone_link(link: &Option<String>) -> (copy: Option<String>)
    ensures
        copy == *link,
{
    match link {
        Some(href) => Some(href.clone()),
        None => None,
    }
}

impl WireDiagnostic {
    /// Whether the severity, if one is given, is one that the protocol defines.
    pub open spec fn well_formed(self) -> bool {
        match self.severity {
            Some(code) => Severity::is_code(code),
            None => true,
        }
    }

    /// Tells whether the severity, if one is given, is one that the protocol defines.
    pub fn is_well_formed(&self) -> (ok: bool)
        ensures
            ok == self.well_formed(),
    {
        match self.severity {
            Some(code) => Severity::known_code(code),
            None => true,
        }
    }
}

impl Issue {
    /// The issue that a diagnostic from the wire stands for.
    pub open spec fn of_wire(wire: WireDiagnostic) -> Issue {
        Issue {
            range: Range::of_wire(wire.range),
            code_description: wire.code_description,
            message: wire.message,
            severity: Severity::of_optional_code(wire.severity),
        }
    }

    /// Whether the issue's range contains `position`.
    pub open spec fn covers(self, position: Position) -> bool {
        self.range.contains(position)
    }

    /// Takes a diagnostic from the wire: its range into editor
    /// coordinates, its severity from the code, an error where none is given.
    pub fn from_wire(wire: &WireDiagnostic) -> (issue: Issue)
        requires
            wire.well_formed(),
        ensures
            issue == Issue::of_wire(*wire),
    {
        let severity = match wire.severity {
            Some(code) => Severity::from_code(code),
            None => Severity::Error,
        };
        Issue {
            range: Range::from_wire(wire.range),
            code_description: clone_link(&wire.code_description),
            message: wire.message.clone(),
            severity,
        }
    }
}

impl Clone for Issue {
    fn clone(&self) -> (copy: Self)
        ensures
            copy == *self,
    {
        Issue {
            range: self.range,
            code_description: clone_link(&self.code_description),
            message: self.message.clone(),
            severity: self.severity,
        }
    }
}

/// Whether every diagnostic of the list is well formed.
pub open spec fn all_well_formed(diagnostics: Seq<WireDiagnostic>) -> bool {
    forall|i: int| 0 <= i < diagnostics.len() ==> (#[trigger] diagnostics[i]).well_formed()
}

/// The index of the first issue that covers `position`, if there is one.
pub open spec fn first_covering(issues: Seq<Issue>, position: Position) -> Option<int>
    decreases issues.len(),
{
    if issues.len() == 0 {
        None
    } else if issues[0].covers(position) {
        Some(0)
    } else {
        match first_covering(issues.drop_first(), position) {
            Some(i) => Some(i + 1),
            None => None,
        }
    }
}

/// The first issue in storage order that covers `position`, if there is one.
pub open spec fn issue_at(issues: Seq<Issue>, position: Position) -> Option<Issue> {
    match first_covering(issues, position) {
        Some(i) => Some(issues[i]),
        None => None,
    }
}

/// `first_covering` finds an index exactly when some issue covers the
/// position, and the index it finds is the least such.
pub proof fn lemma_first_covering(issues: Seq<Issue>, position: Position)
    ensures
        first_covering(issues, position) is Some <==> exists|i: int|
            0 <= i < issues.len() && (#[trigger] issues[i]).covers(position),
        first_covering(issues, position) matches Some(first) ==> {
            &&& 0 <= first < issues.len()
            &&& issues[first].covers(position)
            &&& forall|j: int| 0 <= j < first ==> !(#[trigger] issues[j]).covers(position)
        },
    decreases issues.len(),
{
    if issues.len() == 0 {
    } else if issues[0].covers(position) {
    } else {
        let rest = issues.drop_first();
        lemma_first_covering(rest, position);
        assert forall|i: int| 0 <= i < rest.len() implies rest[i] == issues[i + 1] by {}
        if first_covering(rest, position) is Some {
            let first = first_covering(rest, position).unwrap();
            assert(issues[first + 1].covers(position));
            assert forall|j: int| 0 <= j < first + 1 implies !(#[trigger] issues[j]).covers(
                position,
            ) by {
                if j > 0 {
                    assert(rest[j - 1] == issues[j]);
                }
            }
        } else {
            assert forall|i: int| 0 <= i < issues.len() implies !(#[trigger] issues[i]).covers(
                position,
            ) by {
                if i > 0 {
                    assert(rest[i - 1] == issues[i]);
                }
            }
        }
    }
}

/// On an empty set of issues no position is covered.
pub proof fn lemma_no_issue_in_empty_set(position: Position)
    ensures
        issue_at(Seq::<Issue>::empty(), position) is None,
{
}

/// The diagnostics of one document.
#[derive(Debug, PartialEq, Eq)]
pub struct ClientDiagnostics {
    pub issues: Vec<Issue>,
    pub uri: String,
}

impl ClientDiagnostics {
    /// The set that a publication from the server stands for: one issue for
    /// each diagnostic, in the order in which they came.
    pub open spec fn stands_for(self, uri: String, diagnostics: Seq<WireDiagnostic>) -> bool {
        &&& self.uri == uri
        &&& self.issues@.len() == diagnostics.len()
        &&& forall|i: int|
            0 <= i < diagnostics.len() ==> #[trigger] self.issues@[i] == Issue::of_wire(
                diagnostics[i],
            )
    }

    /// Takes in the diagnostics that the server published for `uri`.
    pub fn from_wire(uri: String, diagnostics: &Vec<WireDiagnostic>) -> (set: ClientDiagnostics)
        requires
            all_well_formed(diagnostics@),
        ensures
            set.stands_for(uri, diagnostics@),
    {
        let mut issues: Vec<Issue> = Vec::new();
        let mut i: usize = 0;
        while i < diagnostics.len()
            invariant
                i <= diagnostics@.len(),
                all_well_formed(diagnostics@),
                issues@.len() == i,
                forall|k: int|
                    0 <= k < i ==> #[trigger] issues@[k] == Issue::of_wire(diagnostics@[k]),
            decreases diagnostics@.len() - i,
        {
            issues.push(Issue::from_wire(&diagnostics[i]));
            i += 1;
        }
        ClientDiagnostics { issues, uri }
    }

    /// The first issue, in storage order, whose range contains `position`:
    /// at or after the range's start and before its end.
    pub fn diagnostic_in_position(&self, position: Position) -> (found: Option<Issue>)
        ensures
            found == issue_at(self.issues@, position),
            found is Some <==> exists|i: int|
                0 <= i < self.issues@.len() && (#[trigger] self.issues@[i]).covers(position),
            found matches Some(issue) ==> exists|i: int|
                {
                    &&& 0 <= i < self.issues@.len()
                    &&& issue == #[trigger] self.issues@[i]
                    &&& issue.covers(position)
                    &&& forall|j: int|
                        0 <= j < i ==> !(#[trigger] self.issues@[j]).covers(position)
                },
    {
        let mut i: usize = 0;
        while i < self.issues.len()
            invariant
                i <= self.issues@.len(),
                forall|j: int| 0 <= j < i ==> !(#[trigger] self.issues@[j]).covers(position),
            decreases self.issues@.len() - i,
        {
            if self.issues[i].range.pos_in_range(position) {
                proof {
                    lemma_first_covering(self.issues@, position);
                    assert(self.issues@[i as int].covers(position));
                }
                return Some(self.issues[i].clone());
            }
            i += 1;
        }
        proof {
            lemma_first_covering(self.issues@, position);
        }
        None
    }
}

impl Clone for ClientDiagnostics {
    fn clone(&self) -> (copy: Self)
        ensures
            copy.uri == self.uri,
            copy.issues@ == self.issues@,
    {
        let mut issues: Vec<Issue> = Vec::new();
        let mut i: usize = 0;
        while i < self.issues.len()
            invariant
                i <= self.issues@.len(),
                issues@ == self.issues@.subrange(0, i as int),
            decreases self.issues@.len() - i,
        {
            issues.push(self.issues[i].clone());
            assert(issues@ == self.issues@.subrange(0, i + 1));
            i += 1;
        }
        assert(issues@ == self.issues@);
        ClientDiagnostics { issues, uri: self.uri.clone() }
    }
}

/// The latest diagnostics of every document that the server has reported on,
/// one set for each URI.
#[derive(Debug)]
pub struct DiagnosticsIndex {
    sets: Vec<ClientDiagnostics>,
}

impl View for DiagnosticsIndex {
    type V = Map<Seq<char>, Seq<Issue>>;

    /// For each URI that was reported on, the issues of its latest set.
    closed spec fn view(&self) -> Map<Seq<char>, Seq<Issue>> {
        Map::new(
            |uri: Seq<char>| self.holds(uri),
            |uri: Seq<char>| self.sets@[self.place(uri)].issues@,
        )
    }
}

impl DiagnosticsIndex {
    /// Whether the index holds at most one set for each URI. Every index that
    /// this module hands out does.
    pub closed spec fn well_formed(self) -> bool {
        forall|i: int, j: int|
            0 <= i < j < self.sets@.len() ==> (#[trigger] self.sets@[i]).uri@ != (
            #[trigger] self.sets@[j]).uri@
    }

    spec fn holds(self, uri: Seq<char>) -> bool {
        exists|i: int| 0 <= i < self.sets@.len() && (#[trigger] self.sets@[i]).uri@ == uri
    }

    spec fn place(self, uri: Seq<char>) -> int {
        choose|i: int| 0 <= i < self.sets@.len() && (#[trigger] self.sets@[i]).uri@ == uri
    }

    /// An index that holds nothing.
    pub fn new() -> (index: DiagnosticsIndex)
        ensures
            index.well_formed(),
            index@ == Map::<Seq<char>, Seq<Issue>>::empty(),
    {
        let index = DiagnosticsIndex { sets: Vec::new() };
        assert(index@ =~= Map::<Seq<char>, Seq<Issue>>::empty());
        index
    }

    fn find(&self, uri: &String) -> (found: Option<usize>)
        ensures
            match found {
                Some(i) => i < self.sets@.len() && self.sets@[i as int].uri@ == uri@,
                None => !self.holds(uri@),
            },
    {
        let mut i: usize = 0;
        while i < self.sets.len()
            invariant
                i <= self.sets@.len(),
                forall|k: int| 0 <= k < i ==> (#[trigger] self.sets@[k]).uri@ != uri@,
            decreases self.sets@.len() - i,
        {
            if self.sets[i].uri == *uri {
                return Some(i);
            }
            i += 1;
        }
        None
    }

    /// Takes the set that the server published for a document. It takes the
    /// place of the set held for that URI, whole; the sets of other documents
    /// stay as they are.
    pub fn publish(&mut self, set: ClientDiagnostics)
        requires
            old(self).well_formed(),
        ensures
            final(self).well_formed(),
            final(self)@ == old(self)@.insert(set.uri@, set.issues@),
    {
        let ghost before = *self;
        match self.find(&set.uri) {
            Some(i) => {
                self.sets.set(i, set);
                assert forall|uri: Seq<char>| self.holds(uri) == (before.holds(uri) || uri
                    == set.uri@) by {
                    if before.holds(uri) {
                        assert(self.sets@[before.place(uri)].uri@ == uri);
                    }
                    if self.holds(uri) {
                        assert(before.sets@[self.place(uri)].uri@ == uri);
                    }
                    assert(self.sets@[i as int].uri@ == set.uri@);
                }
                assert forall|uri: Seq<char>| self.holds(uri) implies #[trigger] self@[uri]
                    == before@.insert(set.uri@, set.issues@)[uri] by {
                    let k = self.place(uri);
                    if uri == set.uri@ {
                        assert(k == i);
                    } else {
                        assert(before.sets@[k].uri@ == uri);
                        assert(before.place(uri) == k);
                    }
                }
            },
            None => {
                self.sets.push(set);
                assert forall|uri: Seq<char>| self.holds(uri) == (before.holds(uri) || uri
                    == set.uri@) by {
                    if before.holds(uri) {
                        assert(self.sets@[before.place(uri)].uri@ == uri);
                    }
                    if self.holds(uri) {
                        let k = self.place(uri);
                        if k < before.sets@.len() {
                            assert(before.sets@[k].uri@ == uri);
                        }
                    }
                    assert(self.sets@[before.sets@.len() as int].uri@ == set.uri@);
                }
                assert forall|uri: Seq<char>| self.holds(uri) implies #[trigger] self@[uri]
                    == before@.insert(set.uri@, set.issues@)[uri] by {
                    let k = self.place(uri);
                    if uri == set.uri@ {
                        assert(k == before.sets@.len());
                    } else {
                        assert(before.sets@[k].uri@ == uri);
                        assert(before.place(uri) == k);
                    }
                }
            },
        }
        assert(self@ =~= before@.insert(set.uri@, set.issues@));
    }

    /// The first issue of the document `uri` whose range contains `position`,
    /// in the order of its latest set; none where the document has no set.
    pub fn diagnostic_at(&self, uri: &String, position: Position) -> (found: Option<Issue>)
        requires
            self.well_formed(),
        ensures
            found == (if self@.contains_key(uri@) {
                issue_at(self@[uri@], position)
            } else {
                None
            }),
    {
        match self.find(uri) {
            Some(i) => {
                assert(self.holds(uri@));
                assert(self.place(uri@) == i);
                self.sets[i].diagnostic_in_position(position)
            },
            None => None,
        }
    }
}

/// A set that is published takes the place of the one before it, whole: of
/// two sets published one after the other for one document, the second alone
/// is held afterwards, and every other document keeps what it had.
pub proof fn lemma_publish_replaces(
    index: Map<Seq<char>, Seq<Issue>>,
    uri: Seq<char>,
    first: Seq<Issue>,
    second: Seq<Issue>,
)
    ensures
        index.insert(uri, first).insert(uri, second) == index.insert(uri, second),
        index.insert(uri, second)[uri] == second,
        forall|other: Seq<char>|
            other != uri && index.contains_key(other) ==> #[trigger] index.insert(
                uri,
                second,
            )[other] == index[other],
{
    assert(index.insert(uri, first).insert(uri, second) =~= index.insert(uri, second));
}

} // verus!
