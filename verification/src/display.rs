//! The display mode shared by every cell of the grid.

use vstd::prelude::*;
use vstd::string::StrSliceExecFns;

verus! {

/// Which way of drawing an icon the cells currently use.
#[derive(Clone, Copy, Debug, PartialEq, Eq, Structural)]
pub enum DisplayIconKind {
    /// No icon is drawn.
    Off,
    /// The dynamic icon component.
    Icon,
    /// The static icon component.
    Static,
    /// The dynamic icon, built from a template.
    Template,
    /// The static icon, built from a template.
    StaticTemplate,
}

/// Whether two texts hold the same characters. The texts are compared
/// character by character once their lengths agree.
fn same_text(a: &str, b: &str) -> (same: bool)
    ensures
        same == (a@ == b@),
{
    let n = a.unicode_len();
    if b.unicode_len() != n {
        return false;
    }
    let mut i: usize = 0;
    while i < n
        invariant
            i <= n,
            n == a@.len(),
            n == b@.len(),
            forall|j: int| 0 <= j < i ==> a@[j] == b@[j],
        decreases n - i,
    {
        if a.get_char(i) != b.get_char(i) {
            return false;
        }
        i = i + 1;
    }
    assert(a@ =~= b@);
    true
}

impl DisplayIconKind {
    /// The text that stands for this mode in the mode selector.
    pub open spec fn value_spec(self) -> Seq<char> {
        match self {
            DisplayIconKind::Off => ""@,
            DisplayIconKind::Icon => "icon"@,
            DisplayIconKind::Static => "static"@,
            DisplayIconKind::Template => "template"@,
            DisplayIconKind::StaticTemplate => "static-template"@,
        }
    }

    /// The mode that a selector text stands for, if it stands for one.
    pub open spec fn from_value_spec(text: Seq<char>) -> Option<DisplayIconKind> {
        if text == DisplayIconKind::Off.value_spec() {
            Some(DisplayIconKind::Off)
        } else if text == DisplayIconKind::Icon.value_spec() {
            Some(DisplayIconKind::Icon)
        } else if text == DisplayIconKind::Static.value_spec() {
            Some(DisplayIconKind::Static)
        } else if text == DisplayIconKind::Template.value_spec() {
            Some(DisplayIconKind::Template)
        } else if text == DisplayIconKind::StaticTemplate.value_spec() {
            Some(DisplayIconKind::StaticTemplate)
        } else {
            None
        }
    }

    /// The text that stands for this mode in the mode selector: empty for
    /// `Off`, else `icon`, `static`, `template` or `static-template`.
    pub fn value(self) -> (text: &'static str)
        ensures
            text@ == self.value_spec(),
    {
        match self {
            DisplayIconKind::Off => "",
            DisplayIconKind::Icon => "icon",
            DisplayIconKind::Static => "static",
            DisplayIconKind::Template => "template",
            DisplayIconKind::StaticTemplate => "static-template",
        }
    }

    /// Reads a selector text. Returns the mode whose text it is, and `None`
    /// for any other text.
    pub fn from_value(text: &str) -> (kind: Option<DisplayIconKind>)
        ensures
            kind == DisplayIconKind::from_value_spec(text@),
    {
        if same_text(text, "") {
            Some(DisplayIconKind::Off)
        } else if same_text(text, "icon") {
            Some(DisplayIconKind::Icon)
        } else if same_text(text, "static") {
            Some(DisplayIconKind::Static)
        } else if same_text(text, "template") {
            Some(DisplayIconKind::Template)
        } else if same_text(text, "static-template") {
            Some(DisplayIconKind::StaticTemplate)
        } else {
            None
        }
    }

    /// Whether a cell in this mode draws anything.
    pub fn renders_icon(self) -> (drawn: bool)
        ensures
            drawn == (self != DisplayIconKind::Off),
    {
        !matches!(self, DisplayIconKind::Off)
    }
}

/// The one place where the current display mode is kept. Whoever owns it
/// sets the mode; the cells only read it.
pub struct DisplayIcon {
    kind: DisplayIconKind,
}

impl View for DisplayIcon {
    type V = DisplayIconKind;

    closed spec fn view(&self) -> DisplayIconKind {
        self.kind
    }
}

impl DisplayIcon {
    /// A display mode that starts at `Off`.
    pub fn new() -> (display: Self)
        ensures
            display@ == DisplayIconKind::Off,
    {
        DisplayIcon { kind: DisplayIconKind::Off }
    }

    /// The current mode.
    pub fn get(&self) -> (kind: DisplayIconKind)
        ensures
            kind == self@,
    {
        self.kind
    }

    /// Makes `kind` the current mode.
    pub fn set(&mut self, kind: DisplayIconKind)
        ensures
            final(self)@ == kind,
    {
        self.kind = kind;
    }
}

/// The texts of two different modes differ.
pub proof fn lemma_values_distinct(a: DisplayIconKind, b: DisplayIconKind)
    requires
        a.value_spec() == b.value_spec(),
    ensures
        a == b,
{
    reveal_strlit("");
    reveal_strlit("icon");
    reveal_strlit("static");
    reveal_strlit("template");
    reveal_strlit("static-template");
    if a != b {
        let x = a.value_spec();
        let y = b.value_spec();
        assert(x.len() == y.len());
        assert(x[0] == y[0]);
    }
}

/// Reading the text of a mode gives that mode back, and a text that is read
/// as a mode is the text of that mode.
pub proof fn lemma_value_round_trip(kind: DisplayIconKind, text: Seq<char>)
    ensures
        DisplayIconKind::from_value_spec(kind.value_spec()) == Some(kind),
        DisplayIconKind::from_value_spec(text) == Some(kind) <==> text == kind.value_spec(),
{
    let own = kind.value_spec();
    if own == DisplayIconKind::Off.value_spec() {
        lemma_values_distinct(kind, DisplayIconKind::Off);
    }
    if own == DisplayIconKind::Icon.value_spec() {
        lemma_values_distinct(kind, DisplayIconKind::Icon);
    }
    if own == DisplayIconKind::Static.value_spec() {
        lemma_values_distinct(kind, DisplayIconKind::Static);
    }
    if own == DisplayIconKind::Template.value_spec() {
        lemma_values_distinct(kind, DisplayIconKind::Template);
    }
    if own == DisplayIconKind::StaticTemplate.value_spec() {
        lemma_values_distinct(kind, DisplayIconKind::StaticTemplate);
    }
}

} // verus!
