//! Waiting for the editor to write the `.import` files.
//!
//! The editor writes them in its own time, so the caller looks for them again
//! and again. Looking and sleeping are the caller's work; what to do after
//! each look is decided here. A look reports, for every `.import` path, whether
//! a file lies there. `ImportScan::observe` takes one such report and answers
//! with a `ScanStep`: stop with the full set, announce and sleep and look
//! again, or give up.

use crate::text::texts;
use vstd::prelude::*;
use vstd::string::StringExecFns;

verus! {

/// How many times the caller looks before the scan gives up.
pub const MAX_POLLS: usize = 100;

/// How many seconds the caller sleeps between two looks.
pub const POLL_INTERVAL_SECONDS: u64 = 1;

/// What the user is told while the scan waits.
#[derive(Clone, Copy, Debug, PartialEq, Eq, Structural)]
pub enum Notice {
    /// The first look found too few files: say what is awaited.
    Waiting,
    /// A later look found too few files: show that the scan goes on.
    Progress,
}

impl Notice {
    /// The characters to print.
    pub open spec fn text(self) -> Seq<char> {
        match self {
            Notice::Waiting => "Waiting for .import files. Make Godot window active. This will prompt it to create the .import files: ."@,
            Notice::Progress => "."@,
        }
    }

    /// The text to print, without a line feed.
    pub fn message(&self) -> (out: String)
        ensures
            out@ == self.text(),
    {
        match self {
            Notice::Waiting => String::from_str(
                "Waiting for .import files. Make Godot window active. This will prompt it to create the .import files: .",
            ),
            Notice::Progress => String::from_str("."),
        }
    }
}

/// Whether a look saw the `.import` file at place `i`. A report that is too
/// short has not seen the places it leaves out.
pub open spec fn seen(present: Seq<bool>, i: int) -> bool {
    0 <= i < present.len() && present[i]
}

/// The `.import` paths that a look saw, in the order of the candidates.
pub open spec fn found(sidecars: Seq<Seq<char>>, present: Seq<bool>) -> Seq<Seq<char>>
    decreases sidecars.len(),
{
    if sidecars.len() == 0 {
        Seq::empty()
    } else {
        let before = found(sidecars.drop_last(), present);
        if seen(present, sidecars.len() - 1) {
            before.push(sidecars.last())
        } else {
            before
        }
    }
}

/// The notice for a look that found too few files, after `polls` earlier
/// looks.
pub open spec fn notice_after(polls: nat) -> Notice {
    if polls == 0 {
        Notice::Waiting
    } else {
        Notice::Progress
    }
}

/// What a step of the scan says, over sequences of characters.
pub enum Step {
    Complete { found: Seq<Seq<char>> },
    Wait { polls: nat, notice: Notice },
    GiveUp { found: Seq<Seq<char>>, notice: Notice },
}

/// The step that follows a look, after `polls` earlier looks. The scan stops
/// as soon as as many files were found as there are candidates. Else the user
/// is told and a second passes; after the last look of the budget the scan
/// then gives up.
pub open spec fn next_step(polls: nat, sidecars: Seq<Seq<char>>, present: Seq<bool>) -> Step {
    let seen_now = found(sidecars, present);
    if seen_now.len() == sidecars.len() {
        Step::Complete { found: seen_now }
    } else if polls + 1 >= MAX_POLLS {
        Step::GiveUp { found: seen_now, notice: notice_after(polls) }
    } else {
        Step::Wait { polls: polls + 1, notice: notice_after(polls) }
    }
}

/// How a scan ends.
pub enum ScanEnd {
    /// Every `.import` file was seen in one look.
    Found(Seq<Seq<char>>),
    /// The budget is spent; the last look saw only these.
    Incomplete(Seq<Seq<char>>),
    /// The reports ran out before the scan came to an end.
    Unfinished,
}

/// The end of a scan that has made `polls` looks and then gets the reports of
/// `observations`, one after the other.
pub open spec fn scan(polls: nat, sidecars: Seq<Seq<char>>, observations: Seq<Seq<bool>>) -> ScanEnd
    decreases observations.len(),
{
    if observations.len() == 0 {
        ScanEnd::Unfinished
    } else {
        match next_step(polls, sidecars, observations[0]) {
            Step::Complete { found } => ScanEnd::Found(found),
            Step::GiveUp { found, notice } => ScanEnd::Incomplete(found),
            Step::Wait { polls: next, notice } => scan(next, sidecars, observations.drop_first()),
        }
    }
}

/// A look never finds more files than there are candidates, and it finds as
/// many exactly when it sees them all; what it found is then the full list.
pub proof fn lemma_found_all(sidecars: Seq<Seq<char>>, present: Seq<bool>)
    ensures
        found(sidecars, present).len() <= sidecars.len(),
        found(sidecars, present).len() == sidecars.len() <==> forall|i: int|
            0 <= i < sidecars.len() ==> seen(present, i),
        found(sidecars, present).len() == sidecars.len() ==> found(sidecars, present) == sidecars,
    decreases sidecars.len(),
{
    if sidecars.len() > 0 {
        let front = sidecars.drop_last();
        lemma_found_all(front, present);
        if found(sidecars, present).len() == sidecars.len() {
            assert(found(sidecars, present) =~= sidecars);
        }
    }
}

/// Where one look within the budget sees every `.import` file, the scan ends
/// with the full list: as many paths as there are candidates, in their order.
pub proof fn lemma_scan_succeeds(
    polls: nat,
    sidecars: Seq<Seq<char>>,
    observations: Seq<Seq<bool>>,
    look: int,
)
    requires
        0 <= look < observations.len(),
        polls + look < MAX_POLLS,
        forall|i: int| 0 <= i < sidecars.len() ==> seen(observations[look], i),
    ensures
        scan(polls, sidecars, observations) == ScanEnd::Found(sidecars),
    decreases look,
{
    lemma_found_all(sidecars, observations[0]);
    if look > 0 && found(sidecars, observations[0]).len() != sidecars.len() {
        let rest = observations.drop_first();
        assert(rest[look - 1] == observations[look]);
        lemma_scan_succeeds(polls + 1, sidecars, rest, look - 1);
    }
}

/// Where one `.import` file is seen in no look of the budget, the scan gives
/// up, whatever else the looks see.
pub proof fn lemma_scan_gives_up(
    polls: nat,
    sidecars: Seq<Seq<char>>,
    observations: Seq<Seq<bool>>,
    missing: int,
)
    requires
        polls < MAX_POLLS,
        observations.len() >= MAX_POLLS - polls,
        0 <= missing < sidecars.len(),
        forall|look: int| 0 <= look < MAX_POLLS - polls ==> !seen(observations[look], missing),
    ensures
        scan(polls, sidecars, observations) is Incomplete,
        scan(polls, sidecars, observations)->Incomplete_0.len() < sidecars.len(),
    decreases MAX_POLLS - polls,
{
    lemma_found_all(sidecars, observations[0]);
    if polls + 1 < MAX_POLLS {
        let rest = observations.drop_first();
        assert forall|look: int| 0 <= look < MAX_POLLS - (polls + 1) implies !seen(
            rest[look],
            missing,
        ) by {
            assert(rest[look] == observations[look + 1]);
        }
        lemma_scan_gives_up(polls + 1, sidecars, rest, missing);
    }
}

/// No scan outlasts its budget: once it has been given as many reports as it
/// had looks left, it has come to an end.
pub proof fn lemma_scan_ends(polls: nat, sidecars: Seq<Seq<char>>, observations: Seq<Seq<bool>>)
    requires
        polls < MAX_POLLS,
        observations.len() >= MAX_POLLS - polls,
    ensures
        !(scan(polls, sidecars, observations) is Unfinished),
    decreases observations.len(),
{
    if next_step(polls, sidecars, observations[0]) is Wait {
        lemma_scan_ends(polls + 1, sidecars, observations.drop_first());
    }
}

/// A scan for `.import` files: how many looks it has made. It has always a
/// look left.
pub struct ImportScan {
    polls: usize,
}

/// What the caller does after a look.
pub enum ScanStep {
    /// Every `.import` file was seen: go on with `found`.
    Complete { found: Vec<String> },
    /// Too few were seen: print the notice, sleep for `POLL_INTERVAL_SECONDS`,
    /// look again and hand the report to `scan`.
    Wait { scan: ImportScan, notice: Notice },
    /// Too few were seen and the budget is spent: print the notice, sleep for
    /// `POLL_INTERVAL_SECONDS`, and stop. The import set is incomplete; `found`
    /// is what the last look saw.
    GiveUp { found: Vec<String>, notice: Notice },
}

impl View for ScanStep {
    type V = Step;

    open spec fn view(&self) -> Step {
        match *self {
            ScanStep::Complete { found } => Step::Complete { found: texts(found@) },
            ScanStep::Wait { scan, notice } => Step::Wait { polls: scan.polls(), notice },
            ScanStep::GiveUp { found, notice } => Step::GiveUp { found: texts(found@), notice },
        }
    }
}

impl ImportScan {
    #[verifier::type_invariant]
    spec fn within_budget(self) -> bool {
        self.polls < MAX_POLLS
    }

    /// The number of looks made so far.
    pub closed spec fn polls(self) -> nat {
        self.polls as nat
    }

    /// A scan that has not looked yet.
    pub fn new() -> (scan: ImportScan)
        ensures
            scan.polls() == 0,
    {
        ImportScan { polls: 0 }
    }

    /// Takes the report of one look and says what to do next. `present[i]`
    /// tells whether a file lies at `sidecars[i]`.
    pub fn observe(self, sidecars: &Vec<String>, present: &Vec<bool>) -> (step: ScanStep)
        ensures
            self.polls() < MAX_POLLS,
            step@ == next_step(self.polls(), texts(sidecars@), present@),
    {
        proof {
            use_type_invariant(&self);
        }
        let seen_now = found_sidecars(sidecars, present);
        proof {
            lemma_found_all(texts(sidecars@), present@);
        }
        if seen_now.len() == sidecars.len() {
            return ScanStep::Complete { found: seen_now };
        }
        let notice = if self.polls == 0 {
            Notice::Waiting
        } else {
            Notice::Progress
        };
        if self.polls + 1 >= MAX_POLLS {
            ScanStep::GiveUp { found: seen_now, notice }
        } else {
            ScanStep::Wait { scan: ImportScan { polls: self.polls + 1 }, notice }
        }
    }
}

/// How a scan over recorded reports ended.
#[derive(Debug, PartialEq, Eq)]
pub enum ScanOutcome {
    /// Every `.import` file was seen in one look; these are their paths.
    Found(Vec<String>),
    /// The budget is spent; the last look saw only these.
    Incomplete(Vec<String>),
    /// The reports ran out before the scan came to an end.
    Unfinished,
}

impl View for ScanOutcome {
    type V = ScanEnd;

    open spec fn view(&self) -> ScanEnd {
        match *self {
            ScanOutcome::Found(found) => ScanEnd::Found(texts(found@)),
            ScanOutcome::Incomplete(found) => ScanEnd::Incomplete(texts(found@)),
            ScanOutcome::Unfinished => ScanEnd::Unfinished,
        }
    }
}

/// The views of a list of reports, in order.
pub open spec fn reports(observations: Seq<Vec<bool>>) -> Seq<Seq<bool>> {
    Seq::new(observations.len(), |i: int| observations[i]@)
}

/// Runs a fresh scan over reports that were recorded beforehand, one look
/// after the other, without printing or sleeping.
pub fn scan_reports(sidecars: &Vec<String>, observations: &Vec<Vec<bool>>) -> (end: ScanOutcome)
    ensures
        end@ == scan(0, texts(sidecars@), reports(observations@)),
{
    let ghost all = reports(observations@);
    let mut state = ImportScan::new();
    let mut i: usize = 0;
    assert(all.skip(0) =~= all);
    while i < observations.len()
        invariant
            i <= observations.len(),
            all == reports(observations@),
            scan(0, texts(sidecars@), all) == scan(state.polls(), texts(sidecars@), all.skip(i as int)),
        decreases observations.len() - i,
    {
        proof {
            assert(all.skip(i as int).drop_first() =~= all.skip(i + 1));
        }
        match state.observe(sidecars, &observations[i]) {
            ScanStep::Complete { found } => {
                return ScanOutcome::Found(found);
            },
            ScanStep::GiveUp { found, notice: _ } => {
                return ScanOutcome::Incomplete(found);
            },
            ScanStep::Wait { scan: next, notice: _ } => {
                state = next;
            },
        }
        i += 1;
    }
    ScanOutcome::Unfinished
}

/// The `.import` paths that a look saw, in the order of the candidates.
pub fn found_sidecars(sidecars: &Vec<String>, present: &Vec<bool>) -> (seen_now: Vec<String>)
    ensures
        texts(seen_now@) == found(texts(sidecars@), present@),
{
    let mut seen_now: Vec<String> = Vec::new();
    let mut i: usize = 0;
    while i < sidecars.len()
        invariant
            i <= sidecars.len(),
            texts(seen_now@) == found(texts(sidecars@).take(i as int), present@),
        decreases sidecars.len() - i,
    {
        proof {
            let all = texts(sidecars@);
            assert(all.take(i + 1).drop_last() =~= all.take(i as int));
        }
        if i < present.len() && present[i] {
            seen_now.push(sidecars[i].clone());
        }
        i += 1;
    }
    assert(texts(sidecars@).take(sidecars.len() as int) =~= texts(sidecars@));
    seen_now
}

} // verus!
