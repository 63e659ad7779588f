//! Reading an `.import` file: the UID of the resource and the path of its
//! source.
//!
//! The file is read line by line, each line for itself. A field may be found
//! on several lines; the last of them counts.

use crate::pattern::{source_file_in, uid_in, SidecarPatterns};
use crate::text::{lines, split_lines, text_of, texts};
use vstd::prelude::*;

verus! {

/// The two fields of an `.import` file, as far as they were found.
pub struct Fields {
    pub uid: Option<Seq<char>>,
    pub source_file: Option<Seq<char>>,
}

/// A field after one more line: what the line holds, or else what was found
/// before.
pub open spec fn later(before: Option<Seq<char>>, capture: Option<Seq<char>>) -> Option<Seq<char>> {
    if capture is Some {
        capture
    } else {
        before
    }
}

impl Fields {
    /// Nothing found yet.
    pub open spec fn none() -> Fields {
        Fields { uid: None, source_file: None }
    }

    /// The fields after one more line, in which `uid` and `source_file` were
    /// found or not.
    pub open spec fn record(self, uid: Option<Seq<char>>, source_file: Option<Seq<char>>) -> Fields {
        Fields { uid: later(self.uid, uid), source_file: later(self.source_file, source_file) }
    }

    /// Whether both fields were found.
    pub open spec fn is_complete(self) -> bool {
        self.uid is Some && self.source_file is Some
    }
}

/// The fields that a sequence of lines yields.
pub open spec fn fields_of(lines: Seq<Seq<char>>) -> Fields
    decreases lines.len(),
{
    if lines.len() == 0 {
        Fields::none()
    } else {
        fields_of(lines.drop_last()).record(uid_in(lines.last()), source_file_in(lines.last()))
    }
}

/// The last line that holds a UID gives the UID, and the last line that holds
/// a source path gives the source path.
pub proof fn lemma_last_match_wins(lines: Seq<Seq<char>>, at: int)
    requires
        0 <= at < lines.len(),
    ensures
        uid_in(lines[at]) is Some && (forall|j: int|
            at < j < lines.len() ==> uid_in(#[trigger] lines[j]) is None) ==> fields_of(lines).uid
            == uid_in(lines[at]),
        source_file_in(lines[at]) is Some && (forall|j: int|
            at < j < lines.len() ==> source_file_in(#[trigger] lines[j]) is None) ==> fields_of(
            lines,
        ).source_file == source_file_in(lines[at]),
    decreases lines.len(),
{
    let front = lines.drop_last();
    if at < lines.len() - 1 {
        lemma_last_match_wins(front, at);
        if uid_in(lines[at]) is Some && (forall|j: int|
            at < j < lines.len() ==> uid_in(#[trigger] lines[j]) is None) {
            assert forall|j: int| at < j < front.len() implies uid_in(#[trigger] front[j]) is None by {
                assert(front[j] == lines[j]);
            }
        }
        if source_file_in(lines[at]) is Some && (forall|j: int|
            at < j < lines.len() ==> source_file_in(#[trigger] lines[j]) is None) {
            assert forall|j: int| at < j < front.len() implies source_file_in(
                #[trigger] front[j],
            ) is None by {
                assert(front[j] == lines[j]);
            }
        }
    }
}

/// A field is missing if and only if no line holds it.
pub proof fn lemma_no_match_no_field(lines: Seq<Seq<char>>)
    ensures
        fields_of(lines).uid is None <==> forall|j: int|
            0 <= j < lines.len() ==> uid_in(#[trigger] lines[j]) is None,
        fields_of(lines).source_file is None <==> forall|j: int|
            0 <= j < lines.len() ==> source_file_in(#[trigger] lines[j]) is None,
    decreases lines.len(),
{
    if lines.len() > 0 {
        let front = lines.drop_last();
        lemma_no_match_no_field(front);
        assert forall|j: int| 0 <= j < front.len() implies front[j] == lines[j] by {}
    }
}

/// The two fields of an `.import` file, as far as they were found.
#[derive(Debug, PartialEq, Eq)]
pub struct SidecarFields {
    pub uid: Option<String>,
    pub source_file: Option<String>,
}

impl View for SidecarFields {
    type V = Fields;

    open spec fn view(&self) -> Fields {
        Fields { uid: text_of(self.uid), source_file: text_of(self.source_file) }
    }
}

impl SidecarFields {
    /// No field found yet.
    pub fn new() -> (fields: SidecarFields)
        ensures
            fields@ == Fields::none(),
    {
        SidecarFields { uid: None, source_file: None }
    }

    /// Takes in what the search of one more line gave. A field that the line
    /// holds replaces what was found before; one that it does not hold stays.
    pub fn record(&mut self, uid: Option<String>, source_file: Option<String>)
        ensures
            final(self)@ == old(self)@.record(text_of(uid), text_of(source_file)),
    {
        if uid.is_some() {
            self.uid = uid;
        }
        if source_file.is_some() {
            self.source_file = source_file;
        }
    }
}

/// Searches every line of the text of an `.import` file for the two fields.
pub fn extract_fields(patterns: &SidecarPatterns, content: &str) -> (fields: SidecarFields)
    ensures
        fields@ == fields_of(lines(content@)),
{
    let all = split_lines(content);
    let mut fields = SidecarFields::new();
    let mut i: usize = 0;
    while i < all.len()
        invariant
            i <= all.len(),
            fields@ == fields_of(texts(all@).take(i as int)),
        decreases all.len() - i,
    {
        let line = all[i].as_str();
        let uid = patterns.uid_in(line);
        let source_file = patterns.source_file_in(line);
        proof {
            let seen = texts(all@).take(i + 1);
            assert(seen.drop_last() =~= texts(all@).take(i as int));
        }
        fields.record(uid, source_file);
        i += 1;
    }
    proof {
        assert(texts(all@).take(all.len() as int) =~= texts(all@));
    }
    fields
}

} // verus!
