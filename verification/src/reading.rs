//! Readings: the three text cells of each row are read as numbers by a
//! reader that the caller supplies, and the first cell it refuses ends the work.

use vstd::prelude::*;
use crate::ingest::Row;

verus! {

/// One of the three metrics that a row holds.
#[derive(Clone, Copy, Debug, PartialEq, Eq, Structural)]
pub enum Metric {
    Ram,
    Cpu,
    Gpu,
}

/// The cell that was refused: the position of its row, and its metric.
#[derive(Clone, Copy, Debug, PartialEq, Eq, Structural)]
pub struct ReadingError {
    pub row: usize,
    pub metric: Metric,
}

/// The cell of a row that holds a metric.
pub open spec fn cell_of<V>(row: Row<V>, metric: Metric) -> V {
    match metric {
        Metric::Ram => row.ram,
        Metric::Cpu => row.cpu,
        Metric::Gpu => row.gpu,
    }
}

/// `typed` is `text` with each of its three cells read by `read`.
pub open spec fn row_read<V, R: Fn(&String) -> Option<V>>(
    read: R,
    text: Row<String>,
    typed: Row<V>,
) -> bool {
    &&& typed.time@ == text.time@
    &&& read.ensures((&text.ram,), Some(typed.ram))
    &&& read.ensures((&text.cpu,), Some(typed.cpu))
    &&& read.ensures((&text.gpu,), Some(typed.gpu))
}

/// `read` gives a value for `cell`.
pub open spec fn accepts<V, R: Fn(&String) -> Option<V>>(read: R, cell: String) -> bool {
    exists|value: V| read.ensures((&cell,), Some(value))
}

/// `read` refuses the cell of `metric` in `text`, after it gave a value for
/// each cell that comes before it in the order RAM, CPU, GPU.
pub open spec fn refused_at<V, R: Fn(&String) -> Option<V>>(
    read: R,
    text: Row<String>,
    metric: Metric,
) -> bool {
    &&& read.ensures((&cell_of(text, metric),), None::<V>)
    &&& metric != Metric::Ram ==> accepts::<V, R>(read, text.ram)
    &&& metric == Metric::Gpu ==> accepts::<V, R>(read, text.cpu)
}

/// `read` gives a value for each of the three cells of `text`.
pub open spec fn row_accepted<V, R: Fn(&String) -> Option<V>>(read: R, text: Row<String>) -> bool {
    &&& accepts::<V, R>(read, text.ram)
    &&& accepts::<V, R>(read, text.cpu)
    &&& accepts::<V, R>(read, text.gpu)
}

/// Reads the three cells of one row, in the order RAM, CPU, GPU, and stops
/// at the first that is refused.
pub fn read_row<V, R: Fn(&String) -> Option<V>>(text: &Row<String>, read: &R) -> (out: Result<
    Row<V>,
    Metric,
>)
    requires
        forall|cell: &String| #[trigger] read.requires((cell,)),
    ensures
        match out {
            Ok(typed) => row_read(*read, *text, typed),
            Err(metric) => refused_at::<V, R>(*read, *text, metric),
        },
{
    let ram = match read(&text.ram) {
        Some(value) => value,
        None => {
            return Err(Metric::Ram);
        },
    };
    let cpu = match read(&text.cpu) {
        Some(value) => value,
        None => {
            return Err(Metric::Cpu);
        },
    };
    let gpu = match read(&text.gpu) {
        Some(value) => value,
        None => {
            return Err(Metric::Gpu);
        },
    };
    Ok(Row { time: text.time.clone(), ram, cpu, gpu })
}

/// Reads the cells of every row, in order. The result holds one typed row
/// for each text row, with the same time; the first refused cell is reported
/// with the position of its row.
pub fn read_rows<V, R: Fn(&String) -> Option<V>>(rows: &Vec<Row<String>>, read: &R) -> (out: Result<
    Vec<Row<V>>,
    ReadingError,
>)
    requires
        forall|cell: &String| #[trigger] read.requires((cell,)),
    ensures
        match out {
            Ok(typed) => {
                &&& typed@.len() == rows@.len()
                &&& forall|i: int|
                    0 <= i < rows@.len() ==> row_read(*read, rows@[i], #[trigger] typed@[i])
            },
            Err(refused) => {
                &&& refused.row < rows@.len()
                &&& refused_at::<V, R>(*read, rows@[refused.row as int], refused.metric)
                &&& forall|j: int|
                    0 <= j < refused.row ==> row_accepted::<V, R>(*read, #[trigger] rows@[j])
            },
        },
{
    let mut typed: Vec<Row<V>> = Vec::new();
    let mut i: usize = 0;
    while i < rows.len()
        invariant
            i <= rows@.len(),
            typed@.len() == i,
            forall|cell: &String| #[trigger] read.requires((cell,)),
            forall|j: int| 0 <= j < i ==> row_read(*read, rows@[j], #[trigger] typed@[j]),
            forall|j: int| 0 <= j < i ==> row_accepted::<V, R>(*read, #[trigger] rows@[j]),
        decreases rows@.len() - i,
    {
        match read_row(&rows[i], read) {
            Ok(row) => typed.push(row),
            Err(metric) => {
                return Err(ReadingError { row: i, metric });
            },
        }
        i += 1;
    }
    Ok(typed)
}

} // verus!
