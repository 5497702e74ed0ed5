use vstd::prelude::*;
use vstd::string::*;

use crate::control::DisplayIdentity;
use crate::text::{debug_quote, debug_quoted, decimal_text, push_decimal, str_eq};

verus! {

/// A command received on the command topic.
#[derive(Debug, PartialEq, Eq)]
pub enum Command {
    /// Set the brightness of the selected displays to a percentage.
    SetBrightness { display: DisplayTarget, brightness: u8 },
    /// Rediscover the displays, then publish status and values.
    ListDisplays,
    /// Refresh the feature values of the known displays.
    ScanDisplays,
}

/// The displays a command addresses: the word `"all"`, or one zero-based index.
#[derive(Debug, PartialEq, Eq)]
pub enum DisplayTarget {
    All(String),
    Index(usize),
}

/// The aggregate document published on the status topic.
#[derive(Debug, PartialEq, Eq)]
pub struct Status {
    pub displays: Vec<DisplayStatus>,
    pub command: Option<CommandResult>,
}

/// One detected display, as listed in the status document.
#[derive(Clone, Debug, PartialEq, Eq)]
pub struct DisplayStatus {
    pub index: usize,
    pub id: String,
    pub name: String,
}

/// The outcome of a command.
#[derive(Debug, PartialEq, Eq)]
pub struct CommandResult {
    pub ok: bool,
    pub error: Option<String>,
    pub results: Vec<BrightnessResult>,
}

/// The outcome of a brightness change on one display.
#[derive(Debug, PartialEq, Eq)]
pub struct BrightnessResult {
    pub index: usize,
    pub id: String,
    pub name: String,
    pub requested_percent: u8,
    pub applied_vcp_value: Option<u16>,
    pub error: Option<String>,
}

/// What a retained display topic carries.
#[derive(Debug, PartialEq, Eq)]
pub enum Payload {
    /// JSON `null`: the value could not be read.
    Null,
    /// A JSON number.
    Number(u64),
    /// The identity document of a display.
    Identity(DisplayIdentity),
}

/// A retained message below `<topic>/`.
#[derive(Debug, PartialEq, Eq)]
pub struct Publication {
    pub topic_suffix: String,
    pub payload: Payload,
}

/// The text of an optional string.
pub open spec fn opt_text(s: Option<String>) -> Option<Seq<char>> {
    match s {
        Some(t) => Some(t@),
        None => None,
    }
}

/// The error for a textual target other than `"all"`.
pub open spec fn not_all_message(value: Seq<char>) -> Seq<char> {
    "display must be \"all\" or a zero-based numeric index, got "@ + debug_quoted(value)
}

/// The error for an index at or beyond the number of detected displays.
pub open spec fn unknown_index_message(index: nat, count: nat) -> Seq<char> {
    "display index "@ + decimal_text(index) + " does not exist; detected displays: "@
        + decimal_text(count)
}

/// `0, 1, .., count - 1`.
pub open spec fn all_indices(count: nat) -> Seq<usize> {
    Seq::new(count, |i: int| i as usize)
}

impl DisplayTarget {
    /// The indices this target selects among `count` displays, or the error text.
    pub open spec fn selection(&self, count: nat) -> Result<Seq<usize>, Seq<char>> {
        match self {
            DisplayTarget::All(value) => if value@ == "all"@ {
                Ok(all_indices(count))
            } else {
                Err(not_all_message(value@))
            },
            DisplayTarget::Index(index) => if *index < count {
                Ok(seq![*index])
            } else {
                Err(unknown_index_message(*index as nat, count))
            },
        }
    }

    /// Resolves the target against the number of detected displays.
    pub fn indices(&self, count: usize) -> (r: Result<Vec<usize>, String>)
        ensures
            match (r, self.selection(count as nat)) {
                (Ok(v), Ok(s)) => v@ == s,
                (Err(e), Err(m)) => e@ == m,
                _ => false,
            },
    {
        match self {
            DisplayTarget::All(value) => {
                if str_eq(value.as_str(), "all") {
                    let mut v: Vec<usize> = Vec::new();
                    let mut i: usize = 0;
                    while i < count
                        invariant
                            i <= count,
                            v@ == all_indices(i as nat),
                        decreases count - i,
                    {
                        v.push(i);
                        i = i + 1;
                        assert(v@ =~= all_indices(i as nat));
                    }
                    Ok(v)
                } else {
                    let mut m = "display must be \"all\" or a zero-based numeric index, got ".to_owned();
                    let quoted = debug_quote(value.as_str());
                    m.append(quoted.as_str());
                    Err(m)
                }
            },
            DisplayTarget::Index(index) => {
                if *index < count {
                    let mut v: Vec<usize> = Vec::new();
                    v.push(*index);
                    assert(v@ =~= seq![*index]);
                    Ok(v)
                } else {
                    let mut m = "display index ".to_owned();
                    push_decimal(&mut m, *index as u64);
                    m.append(" does not exist; detected displays: ");
                    push_decimal(&mut m, count as u64);
                    Err(m)
                }
            },
        }
    }
}

/// What a target selects among `count` displays: an index below `count` selects that one
/// display alone, any other index nothing; `"all"` selects every display once, in order; any
/// other word nothing.
pub proof fn lemma_selection_shape(target: DisplayTarget, count: usize)
    ensures
        match target {
            DisplayTarget::Index(i) => if i < count {
                target.selection(count as nat) matches Ok(sel) && sel.len() == 1 && sel[0] == i
            } else {
                target.selection(count as nat) is Err
            },
            DisplayTarget::All(v) => if v@ == "all"@ {
                target.selection(count as nat) matches Ok(sel) && sel.len() == count && forall|k: int|
                    0 <= k < count ==> #[trigger] sel[k] == k
            } else {
                target.selection(count as nat) is Err
            },
        },
{
}

impl DisplayStatus {
    /// An equal copy.
    pub fn duplicate(&self) -> (s: DisplayStatus)
        ensures
            s == *self,
    {
        DisplayStatus { index: self.index, id: self.id.clone(), name: self.name.clone() }
    }
}

/// An equal copy of a status listing.
pub fn copy_statuses(v: &Vec<DisplayStatus>) -> (r: Vec<DisplayStatus>)
    ensures
        r@ == v@,
{
    let mut r: Vec<DisplayStatus> = Vec::new();
    let mut i: usize = 0;
    while i < v.len()
        invariant
            i <= v@.len(),
            r@ == v@.subrange(0, i as int),
        decreases v@.len() - i,
    {
        r.push(v[i].duplicate());
        i = i + 1;
        assert(r@ =~= v@.subrange(0, i as int));
    }
    assert(v@.subrange(0, v@.len() as int) =~= v@);
    r
}

impl CommandResult {
    /// A successful result without per-display results.
    pub fn success() -> (r: CommandResult)
        ensures
            r.ok,
            r.error is None,
            r.results@.len() == 0,
    {
        CommandResult { ok: true, error: None, results: Vec::new() }
    }

    /// A failed result carrying the error text and no per-display results.
    pub fn failure(error: &str) -> (r: CommandResult)
        ensures
            !r.ok,
            opt_text(r.error) == Some(error@),
            r.results@.len() == 0,
    {
        CommandResult { ok: false, error: Some(error.to_owned()), results: Vec::new() }
    }
}

} // verus!
