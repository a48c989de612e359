//! Series alignment: rows become five sequences of one length, on a common
//! integer axis, with the elapsed time since the first row as axis labels.

use vstd::prelude::*;
use crate::clock::{lemma_seconds_within_a_day, time_reading, TimeOfDay, TIME_FORMAT};
use crate::ingest::Row;
use crate::label::{elapsed_label, lemma_zero_label, seconds_label};

verus! {

/// The rows of a log laid out for drawing: positions, their labels, and one
/// sequence of readings for each metric.
#[derive(Clone, Debug, PartialEq)]
pub struct AlignedSeries<V> {
    pub x_index: Vec<usize>,
    pub x_label: Vec<String>,
    pub ram: Vec<V>,
    pub cpu: Vec<V>,
    pub gpu: Vec<V>,
}

/// Why rows could not be aligned.
#[derive(Clone, Copy, Debug, PartialEq, Eq, Structural)]
pub enum AlignError {
    /// The time of the row at this position is not a time of day in the log's format.
    BadTime { row: usize },
}

impl<V> AlignedSeries<V> {
    /// The number of samples.
    pub open spec fn count(self) -> nat {
        self.x_index@.len()
    }

    /// All five sequences have one length.
    pub open spec fn wf(self) -> bool {
        &&& self.x_label@.len() == self.count()
        &&& self.ram@.len() == self.count()
        &&& self.cpu@.len() == self.count()
        &&& self.gpu@.len() == self.count()
    }

    /// The number of samples.
    pub fn len(&self) -> (n: usize)
        ensures
            n == self.count(),
    {
        self.x_index.len()
    }

    /// The label at position `x` of the axis, if the axis reaches that far.
    pub fn label_at(&self, x: usize) -> (label: Option<&String>)
        ensures
            x < self.x_label@.len() ==> label == Some(&self.x_label@[x as int]),
            x >= self.x_label@.len() ==> label is None,
    {
        if x < self.x_label.len() {
            Some(&self.x_label[x])
        } else {
            None
        }
    }
}

/// `series` is the alignment of `rows` whose times of day are `times`: the
/// positions count up from zero, each label tells the whole seconds since the
/// first time, and the readings are those of the rows, in their order.
pub open spec fn aligned<V>(rows: Seq<Row<V>>, times: Seq<TimeOfDay>, series: AlignedSeries<V>) -> bool {
    &&& series.count() == rows.len()
    &&& series.wf()
    &&& forall|i: int|
        #![trigger series.x_index@[i]]
        #![trigger series.x_label@[i]]
        #![trigger series.ram@[i]]
        #![trigger series.cpu@[i]]
        #![trigger series.gpu@[i]]
        0 <= i < rows.len() ==> {
            &&& series.x_index@[i] == i
            &&& series.x_label@[i]@ == seconds_label(times[i].seconds_since(times[0]))
            &&& series.ram@[i] == rows[i].ram
            &&& series.cpu@[i] == rows[i].cpu
            &&& series.gpu@[i] == rows[i].gpu
        }
}

/// The time of day read in the time field of a row, where there is one.
pub open spec fn time_of<V>(row: Row<V>) -> Option<TimeOfDay> {
    time_reading(row.time@, TIME_FORMAT@)
}

/// The times of day of rows that all hold one.
pub open spec fn times_of<V>(rows: Seq<Row<V>>) -> Seq<TimeOfDay> {
    Seq::new(rows.len(), |i: int| time_of(rows[i]).unwrap())
}

/// The first `upto` rows all hold a time of day.
pub open spec fn all_timed<V>(rows: Seq<Row<V>>, upto: int) -> bool {
    forall|j: int| 0 <= j < upto && j < rows.len() ==> (#[trigger] time_of(rows[j])) is Some
}

/// Lays out rows whose times of day are known. The first time is the origin
/// of the labels; nothing is added where a later time lies before it on the
/// clock, so such a label is negative.
pub fn align_times<V: Copy>(rows: &Vec<Row<V>>, times: &Vec<TimeOfDay>) -> (series: AlignedSeries<V>)
    requires
        rows@.len() == times@.len(),
        forall|i: int| 0 <= i < times@.len() ==> (#[trigger] times@[i]).wf(),
    ensures
        aligned(rows@, times@, series),
        rows@.len() >= 1 ==> series.x_label@[0]@ == "0s"@,
{
    let n = rows.len();
    let mut x_index: Vec<usize> = Vec::new();
    let mut x_label: Vec<String> = Vec::new();
    let mut ram: Vec<V> = Vec::new();
    let mut cpu: Vec<V> = Vec::new();
    let mut gpu: Vec<V> = Vec::new();
    let mut i: usize = 0;
    while i < n
        invariant
            i <= n,
            n == rows@.len(),
            n == times@.len(),
            forall|j: int| 0 <= j < times@.len() ==> (#[trigger] times@[j]).wf(),
            x_index@.len() == i,
            x_label@.len() == i,
            ram@.len() == i,
            cpu@.len() == i,
            gpu@.len() == i,
            forall|j: int|
                #![trigger x_index@[j]]
                #![trigger x_label@[j]]
                #![trigger ram@[j]]
                #![trigger cpu@[j]]
                #![trigger gpu@[j]]
                0 <= j < i ==> {
                    &&& x_index@[j] == j
                    &&& x_label@[j]@ == seconds_label(times@[j].seconds_since(times@[0]))
                    &&& ram@[j] == rows@[j].ram
                    &&& cpu@[j] == rows@[j].cpu
                    &&& gpu@[j] == rows@[j].gpu
                },
        decreases n - i,
    {
        let secs = times[i].elapsed_since(times[0]);
        x_index.push(i);
        x_label.push(elapsed_label(secs));
        ram.push(rows[i].ram);
        cpu.push(rows[i].cpu);
        gpu.push(rows[i].gpu);
        i += 1;
    }
    proof {
        if n >= 1 {
            lemma_seconds_within_a_day(times@[0], times@[0]);
            lemma_zero_label();
        }
    }
    AlignedSeries { x_index, x_label, ram, cpu, gpu }
}

/// Lays out rows for drawing. Each row's time field is read as a time of
/// day; the first row that holds none ends the work. No rows give an empty
/// series.
pub fn align_series<V: Copy>(rows: &Vec<Row<V>>) -> (out: Result<AlignedSeries<V>, AlignError>)
    ensures
        match out {
            Ok(series) => {
                &&& all_timed(rows@, rows@.len() as int)
                &&& aligned(rows@, times_of(rows@), series)
                &&& rows@.len() >= 1 ==> series.x_label@[0]@ == "0s"@
            },
            Err(AlignError::BadTime { row }) => {
                &&& row < rows@.len()
                &&& time_of(rows@[row as int]) is None
                &&& all_timed(rows@, row as int)
            },
        },
{
    let mut times: Vec<TimeOfDay> = Vec::new();
    let mut i: usize = 0;
    while i < rows.len()
        invariant
            i <= rows@.len(),
            times@.len() == i,
            all_timed(rows@, i as int),
            forall|j: int| 0 <= j < i ==> (#[trigger] times@[j]).wf(),
            forall|j: int| 0 <= j < i ==> Some(#[trigger] times@[j]) == time_of(rows@[j]),
        decreases rows@.len() - i,
    {
        match TimeOfDay::parse(rows[i].time.as_str()) {
            Some(time) => times.push(time),
            None => {
                return Err(AlignError::BadTime { row: i });
            },
        }
        i += 1;
    }
    assert(times@ =~= times_of(rows@));
    Ok(align_times(rows, &times))
}

} // verus!
