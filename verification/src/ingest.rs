//! Row ingestion: the records of a CSV text are classified by the value of
//! their time column, and the four mapped cells of each data record become a row.

use vstd::prelude::*;
use vstd::string::*;

verus! {

/// The positions, counted from zero, of the four columns that are read.
#[derive(Clone, Copy, Debug, PartialEq, Eq, Structural)]
pub struct ColumnMap {
    pub time: usize,
    pub ram: usize,
    pub cpu: usize,
    pub gpu: usize,
}

impl ColumnMap {
    /// A record of `width` cells holds all four columns.
    pub open spec fn within(self, width: nat) -> bool {
        self.time < width && self.ram < width && self.cpu < width && self.gpu < width
    }
}

/// One observation: the time of day as it was written, and the three readings.
#[derive(Clone, Debug, PartialEq)]
pub struct Row<V> {
    pub time: String,
    pub ram: V,
    pub cpu: V,
    pub gpu: V,
}

/// The text of the four mapped cells of one record.
pub struct Cells {
    pub time: Seq<char>,
    pub ram: Seq<char>,
    pub cpu: Seq<char>,
    pub gpu: Seq<char>,
}

impl DeepView for Row<String> {
    type V = Cells;

    open spec fn deep_view(&self) -> Cells {
        Cells { time: self.time@, ram: self.ram@, cpu: self.cpu@, gpu: self.gpu@ }
    }
}

/// What a record is taken for.
#[derive(Clone, Copy, Debug, PartialEq, Eq, Structural)]
pub enum RecordKind {
    /// The time column holds the header token: the record names the columns.
    Header,
    /// The time column is empty: a blank trailer line.
    Blank,
    /// A sample.
    Data,
    /// A mapped column that is needed lies beyond the record's last cell.
    Short,
}

/// The value of the time column that marks a header record.
pub const HEADER_TOKEN: &'static str = "Time";

/// The kind of a record. A blank record needs its time column only; a header
/// and a data record need all four columns.
pub open spec fn kind_of(record: Seq<Seq<char>>, map: ColumnMap) -> RecordKind {
    if map.time >= record.len() {
        RecordKind::Short
    } else if record[map.time as int].len() == 0 {
        RecordKind::Blank
    } else if !map.within(record.len()) {
        RecordKind::Short
    } else if record[map.time as int] == HEADER_TOKEN@ {
        RecordKind::Header
    } else {
        RecordKind::Data
    }
}

/// The four mapped cells of a record that holds them.
pub open spec fn cells_of(record: Seq<Seq<char>>, map: ColumnMap) -> Cells {
    Cells {
        time: record[map.time as int],
        ram: record[map.ram as int],
        cpu: record[map.cpu as int],
        gpu: record[map.gpu as int],
    }
}

/// The mapped cells of a record of the given kind, nothing for one of another kind.
pub open spec fn cells_if(record: Seq<Seq<char>>, map: ColumnMap, kind: RecordKind) -> Option<
    Cells,
> {
    if kind_of(record, map) == kind {
        Some(cells_of(record, map))
    } else {
        None
    }
}

/// The mapped cells of the records of one kind, in the order of the records.
pub open spec fn cells_of_kind(
    records: Seq<Seq<Seq<char>>>,
    map: ColumnMap,
    kind: RecordKind,
) -> Seq<Cells> {
    records.filter_map(|record: Seq<Seq<char>>| cells_if(record, map, kind))
}

/// The records of one kind, in their order.
pub open spec fn records_of_kind(
    records: Seq<Seq<Seq<char>>>,
    map: ColumnMap,
    kind: RecordKind,
) -> Seq<Seq<Seq<char>>> {
    records.filter(|record: Seq<Seq<char>>| kind_of(record, map) == kind)
}

/// The rows are the data records and nothing else: there is exactly one row
/// for each data record, header and blank records add none, and the rows
/// stand in the order of their records. The same holds of the header cells
/// and the header records.
pub proof fn lemma_one_row_per_record(records: Seq<Seq<Seq<char>>>, map: ColumnMap, kind: RecordKind)
    ensures
        cells_of_kind(records, map, kind).len() == records_of_kind(records, map, kind).len(),
        cells_of_kind(records, map, kind).len() <= records.len(),
        forall|i: int|
            0 <= i < cells_of_kind(records, map, kind).len() ==> #[trigger] cells_of_kind(
                records,
                map,
                kind,
            )[i] == cells_of(records_of_kind(records, map, kind)[i], map),
    decreases records.len(),
{
    reveal(Seq::filter);
    if records.len() > 0 {
        lemma_one_row_per_record(records.drop_last(), map, kind);
    }
}

/// No record among the first `upto` is short.
pub open spec fn none_short(records: Seq<Seq<Seq<char>>>, map: ColumnMap, upto: int) -> bool {
    forall|j: int|
        0 <= j < upto && j < records.len() ==> kind_of(#[trigger] records[j], map)
            != RecordKind::Short
}

/// The rows and the header records read from a text.
#[derive(Debug)]
pub struct Ingested {
    /// One row for each data record, in file order.
    pub rows: Vec<Row<String>>,
    /// The mapped cells of each header record, for reporting.
    pub headers: Vec<Row<String>>,
}

/// The error of the `csv` crate's reader, carried through as it came.
#[verifier::external_type_specification]
#[verifier::external_body]
pub struct ExCsvError(csv::Error);

/// Why a text gave no rows.
#[derive(Debug)]
pub enum IngestError {
    /// The record at this position lacks a mapped column.
    ShortRecord { record: usize },
    /// The reader gave up after this many records.
    Malformed { record: usize, cause: csv::Error },
}

/// What a `csv::Reader` without a header row and with its other settings
/// left alone reads in `bytes`: the cells of the records that come before its
/// first error, and whether there was an error.
pub uninterp spec fn csv_scan(bytes: Seq<u8>) -> (Seq<Seq<Seq<char>>>, bool);

/// What ingestion makes of the records read and of the reader's failure, if
/// there was one: the earliest trouble in file order decides.
pub open spec fn ingested(
    records: Seq<Seq<Seq<char>>>,
    failed: bool,
    map: ColumnMap,
    out: Result<Ingested, IngestError>,
) -> bool {
    match out {
        Ok(found) => {
            &&& !failed
            &&& none_short(records, map, records.len() as int)
            &&& found.rows.deep_view() == cells_of_kind(records, map, RecordKind::Data)
            &&& found.headers.deep_view() == cells_of_kind(records, map, RecordKind::Header)
        },
        Err(IngestError::ShortRecord { record }) => {
            &&& record < records.len()
            &&& kind_of(records[record as int], map) == RecordKind::Short
            &&& none_short(records, map, record as int)
        },
        Err(IngestError::Malformed { record, .. }) => {
            &&& failed
            &&& record == records.len()
            &&& none_short(records, map, records.len() as int)
        },
    }
}

/// `csv::ReaderBuilder::has_headers(false)`, `from_reader` on the bytes, and
/// `Reader::records` walked up to its first error: the records that came
/// before it, each `StringRecord` copied cell by cell, and that error.
#[verifier::external_body]
fn scan_csv(bytes: &[u8]) -> (out: (Vec<Vec<String>>, Option<csv::Error>))
    ensures
        out.0.deep_view() == csv_scan(bytes@).0,
        out.1.is_some() == csv_scan(bytes@).1,
{
    let mut reader = csv::ReaderBuilder::new().has_headers(false).from_reader(bytes);
    let mut records: Vec<Vec<String>> = Vec::new();
    for result in reader.records() {
        match result {
            Ok(record) => records.push(record.iter().map(String::from).collect()),
            Err(cause) => return (records, Some(cause)),
        }
    }
    (records, None)
}

fn is_header_token(cell: &String) -> (yes: bool)
    ensures
        yes == (cell@ == HEADER_TOKEN@),
{
    let token = String::from_str(HEADER_TOKEN);
    *cell == token
}

/// Tells what a record is: by the value of its time column, and by its width
/// where that value asks for the other columns.
pub fn classify(record: &Vec<String>, map: &ColumnMap) -> (kind: RecordKind)
    ensures
        kind == kind_of(record.deep_view(), *map),
{
    let width = record.len();
    if map.time >= width {
        return RecordKind::Short;
    }
    assert(record.deep_view()[map.time as int] == record@[map.time as int]@);
    if record[map.time].as_str().is_empty() {
        RecordKind::Blank
    } else if map.ram >= width || map.cpu >= width || map.gpu >= width {
        RecordKind::Short
    } else if is_header_token(&record[map.time]) {
        RecordKind::Header
    } else {
        RecordKind::Data
    }
}

/// Copies the four mapped cells out of a record.
pub fn pick(record: &Vec<String>, map: &ColumnMap) -> (row: Row<String>)
    requires
        map.within(record@.len()),
    ensures
        row.deep_view() == cells_of(record.deep_view(), *map),
{
    Row {
        time: record[map.time].clone(),
        ram: record[map.ram].clone(),
        cpu: record[map.cpu].clone(),
        gpu: record[map.gpu].clone(),
    }
}

/// Turns records into rows: every data record gives one row, in order;
/// header records are set aside, blank ones dropped. The first record that
/// lacks a column it needs ends the work.
pub fn ingest(records: &Vec<Vec<String>>, map: &ColumnMap) -> (out: Result<Ingested, IngestError>)
    ensures
        ingested(records.deep_view(), false, *map, out),
{
    let ghost all = records.deep_view();
    let mut rows: Vec<Row<String>> = Vec::new();
    let mut headers: Vec<Row<String>> = Vec::new();
    let mut i: usize = 0;
    while i < records.len()
        invariant
            i <= records.len(),
            all == records.deep_view(),
            none_short(all, *map, i as int),
            rows.deep_view() =~= cells_of_kind(all.take(i as int), *map, RecordKind::Data),
            headers.deep_view() =~= cells_of_kind(all.take(i as int), *map, RecordKind::Header),
        decreases records.len() - i,
    {
        let record = &records[i];
        assert(all[i as int] == record.deep_view());
        let kind = classify(record, map);
        proof {
            all.lemma_filter_map_take_succ(
                |r: Seq<Seq<char>>| cells_if(r, *map, RecordKind::Data),
                i as int,
            );
            all.lemma_filter_map_take_succ(
                |r: Seq<Seq<char>>| cells_if(r, *map, RecordKind::Header),
                i as int,
            );
        }
        match kind {
            RecordKind::Short => {
                return Err(IngestError::ShortRecord { record: i });
            },
            RecordKind::Header => {
                let cells = pick(record, map);
                headers.push(cells);
            },
            RecordKind::Data => {
                let row = pick(record, map);
                rows.push(row);
            },
            RecordKind::Blank => {},
        }
        i += 1;
    }
    assert(all.take(i as int) =~= all);
    Ok(Ingested { rows, headers })
}

/// Reads the rows of a CSV text. Every record is classified, the first line
/// too: no line is taken for a header by its position.
///
/// The result is `Ok` exactly when the reader reports no error and no record
/// is short; otherwise the error names the earliest trouble in file order.
pub fn read_csv(bytes: &[u8], map: &ColumnMap) -> (out: Result<Ingested, IngestError>)
    ensures
        ingested(csv_scan(bytes@).0, csv_scan(bytes@).1, *map, out),
{
    let (records, failure) = scan_csv(bytes);
    match ingest(&records, map) {
        Err(short) => Err(short),
        Ok(found) => match failure {
            Some(cause) => Err(IngestError::Malformed { record: records.len(), cause }),
            None => Ok(found),
        },
    }
}

} // verus!
