use vstd::prelude::*;

use crate::codec::{decode, decoded, StatusEvent, StatusEventView};

verus! {

/// One record of a worker's output, as the process runner reports it.
#[derive(Debug)]
pub enum OutputRecord {
    /// A line of standard output.
    Stdout(String),
    /// A line of standard error.
    Stderr(String),
    /// The process ended, with its exit code where the platform gives one.
    Terminated(Option<i32>),
}

/// What the bridge hands on for one record.
#[derive(Debug)]
pub enum Emission {
    /// A decoded status event, published as `tunnel-stdout`.
    Status(StatusEvent),
    /// A diagnostic line, for the log only.
    Diagnostic(String),
    /// The worker ended, published as `tunnel-terminated`.
    Terminated,
}

pub enum EmissionView {
    Status(StatusEventView),
    Diagnostic(Seq<char>),
    Terminated,
}

impl View for Emission {
    type V = EmissionView;

    open spec fn view(&self) -> EmissionView {
        match self {
            Emission::Status(e) => EmissionView::Status(e@),
            Emission::Diagnostic(s) => EmissionView::Diagnostic(s@),
            Emission::Terminated => EmissionView::Terminated,
        }
    }
}

pub open spec fn emission_of(record: OutputRecord) -> Option<EmissionView> {
    match record {
        OutputRecord::Stdout(line) => match decoded(line@) {
            Some(e) => Some(EmissionView::Status(e)),
            None => None,
        },
        OutputRecord::Stderr(line) => Some(EmissionView::Diagnostic(line@)),
        OutputRecord::Terminated(_) => Some(EmissionView::Terminated),
    }
}

pub open spec fn emissions_of(record: OutputRecord) -> Seq<EmissionView> {
    match emission_of(record) {
        Some(e) => seq![e],
        None => Seq::empty(),
    }
}

pub open spec fn is_end(record: OutputRecord) -> bool {
    record is Terminated
}

/// What the bridge publishes for a stream of records, in order: it stops after the
/// first termination notice.
pub open spec fn bridged(records: Seq<OutputRecord>) -> Seq<EmissionView>
    decreases records.len(),
{
    if records.len() == 0 {
        Seq::empty()
    } else if is_end(records[0]) {
        emissions_of(records[0])
    } else {
        emissions_of(records[0]) + bridged(records.drop_first())
    }
}

pub open spec fn views_of(v: Seq<Emission>) -> Seq<EmissionView> {
    v.map_values(|e: Emission| e@)
}

/// Handles one record: a stdout line becomes a status event if it decodes and is
/// dropped otherwise, a stderr line becomes a diagnostic, a termination notice is passed on.
pub fn route(record: &OutputRecord) -> (r: Option<Emission>)
    ensures
        match r {
            Some(e) => emission_of(*record) == Some(e@),
            None => emission_of(*record) is None,
        },
{
    match record {
        OutputRecord::Stdout(line) => match decode(line.as_str()) {
            Some(e) => Some(Emission::Status(e)),
            None => None,
        },
        OutputRecord::Stderr(line) => Some(Emission::Diagnostic(line.clone())),
        OutputRecord::Terminated(_) => Some(Emission::Terminated),
    }
}

/// Whether the bridge stops after this record.
pub fn ends_stream(record: &OutputRecord) -> (r: bool)
    ensures
        r == is_end(*record),
{
    match record {
        OutputRecord::Terminated(_) => true,
        _ => false,
    }
}

/// Runs the bridge over a whole recorded stream and returns what it publishes.
pub fn republish(records: &Vec<OutputRecord>) -> (r: Vec<Emission>)
    ensures
        views_of(r@) == bridged(records@),
{
    let mut out: Vec<Emission> = Vec::new();
    let mut i: usize = 0;
    assert(records@.skip(0) =~= records@);
    assert(views_of(out@) + bridged(records@) =~= bridged(records@));
    while i < records.len()
        invariant
            i <= records.len(),
            forall|j: int| 0 <= j < i ==> !is_end(#[trigger] records@[j]),
            views_of(out@) + bridged(records@.skip(i as int)) == bridged(records@),
        decreases records.len() - i,
    {
        let ghost rest = records@.skip(i as int);
        assert(rest.drop_first() =~= records@.skip(i + 1));
        assert(rest[0] == records@[i as int]);
        let ghost before = views_of(out@);
        let item = route(&records[i]);
        match item {
            Some(e) => out.push(e),
            None => {},
        }
        assert(views_of(out@) =~= before + emissions_of(records@[i as int]));
        if ends_stream(&records[i]) {
            assert(bridged(rest) == emissions_of(records@[i as int]));
            assert(views_of(out@) =~= bridged(records@));
            return out;
        }
        assert(bridged(rest) == emissions_of(records@[i as int]) + bridged(records@.skip(i + 1)));
        assert(before + emissions_of(records@[i as int]) + bridged(records@.skip(i + 1)) =~= before + (
        emissions_of(records@[i as int]) + bridged(records@.skip(i + 1))));
        i = i + 1;
    }
    assert(records@.skip(i as int) =~= Seq::<OutputRecord>::empty());
    assert(views_of(out@) =~= bridged(records@));
    out
}

/// Publication keeps order: what a stream publishes is what its first part publishes,
/// then what the rest publishes, as long as the first part holds no termination notice.
pub proof fn lemma_bridged_in_order(first: Seq<OutputRecord>, rest: Seq<OutputRecord>)
    requires
        forall|j: int| 0 <= j < first.len() ==> !is_end(#[trigger] first[j]),
    ensures
        bridged(first + rest) == bridged(first) + bridged(rest),
    decreases first.len(),
{
    if first.len() == 0 {
        assert(first + rest =~= rest);
    } else {
        let tail = first.drop_first();
        assert((first + rest).drop_first() =~= tail + rest);
        assert((first + rest)[0] == first[0]);
        assert forall|j: int| 0 <= j < tail.len() implies !is_end(#[trigger] tail[j]) by {
            assert(tail[j] == first[j + 1]);
        }
        lemma_bridged_in_order(tail, rest);
        assert(emissions_of(first[0]) + (bridged(tail) + bridged(rest)) =~= emissions_of(first[0])
            + bridged(tail) + bridged(rest));
    }
}

/// Publication ends at the first termination notice: nothing recorded after it is published.
pub proof fn lemma_bridged_stops(first: Seq<OutputRecord>, rest: Seq<OutputRecord>)
    requires
        first.len() > 0,
        is_end(first.last()),
    ensures
        bridged(first + rest) == bridged(first),
    decreases first.len(),
{
    if first.len() == 1 {
        assert((first + rest)[0] == first[0]);
    } else if is_end(first[0]) {
        assert((first + rest)[0] == first[0]);
    } else {
        let tail = first.drop_first();
        assert((first + rest).drop_first() =~= tail + rest);
        assert((first + rest)[0] == first[0]);
        assert(tail.last() == first.last());
        lemma_bridged_stops(tail, rest);
    }
}

} // verus!
