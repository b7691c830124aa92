//! The daemon's process table, turned into typed records.
//!
//! A process listing arrives as a table: one row of column titles and one
//! row of values per process. Each value is assigned to the record field its
//! column title names; titles the client does not know are ignored, and
//! fields whose column is absent keep their empty or absent default.

use vstd::prelude::*;

use crate::transport::str_eq;

verus! {

/// A process listing as the daemon reports it: column titles and one row of
/// values per process.
#[derive(Debug, Clone)]
pub struct Top {
    /// The column titles, in table order.
    pub titles: Vec<String>,
    /// One row of column values per process.
    pub processes: Vec<Vec<String>>,
}

/// One process of a container, as named by the table's columns.
#[derive(Debug, Clone)]
pub struct Process {
    /// The owning user (`UID` or `USER` column).
    pub user: String,
    /// The process id (`PID` column).
    pub pid: String,
    /// CPU use (`%CPU` column).
    pub cpu: Option<String>,
    /// Memory use (`%MEM` column).
    pub memory: Option<String>,
    /// Virtual memory size (`VSZ` column).
    pub vsz: Option<String>,
    /// Resident set size (`RSS` column).
    pub rss: Option<String>,
    /// Controlling terminal (`TTY` column).
    pub tty: Option<String>,
    /// Process state (`STAT` column).
    pub stat: Option<String>,
    /// Start time (`START` or `STIME` column).
    pub start: Option<String>,
    /// Accumulated time (`TIME` column).
    pub time: Option<String>,
    /// The command line (`CMD` or `COMMAND` column).
    pub command: String,
}

/// The mathematical shape of one process record.
#[verifier::ext_equal]
pub struct ProcessModel {
    /// See [`Process::user`].
    pub user: Seq<char>,
    /// See [`Process::pid`].
    pub pid: Seq<char>,
    /// See [`Process::cpu`].
    pub cpu: Option<Seq<char>>,
    /// See [`Process::memory`].
    pub memory: Option<Seq<char>>,
    /// See [`Process::vsz`].
    pub vsz: Option<Seq<char>>,
    /// See [`Process::rss`].
    pub rss: Option<Seq<char>>,
    /// See [`Process::tty`].
    pub tty: Option<Seq<char>>,
    /// See [`Process::stat`].
    pub stat: Option<Seq<char>>,
    /// See [`Process::start`].
    pub start: Option<Seq<char>>,
    /// See [`Process::time`].
    pub time: Option<Seq<char>>,
    /// See [`Process::command`].
    pub command: Seq<char>,
}

/// The view of an optional string.
pub open spec fn opt_str_view(o: Option<String>) -> Option<Seq<char>> {
    match o {
        Some(s) => Some(s@),
        None => None,
    }
}

impl View for Process {
    type V = ProcessModel;

    open spec fn view(&self) -> ProcessModel {
        ProcessModel {
            user: self.user@,
            pid: self.pid@,
            cpu: opt_str_view(self.cpu),
            memory: opt_str_view(self.memory),
            vsz: opt_str_view(self.vsz),
            rss: opt_str_view(self.rss),
            tty: opt_str_view(self.tty),
            stat: opt_str_view(self.stat),
            start: opt_str_view(self.start),
            time: opt_str_view(self.time),
            command: self.command@,
        }
    }
}

/// The views of a sequence of strings.
pub open spec fn strings_view(v: Seq<String>) -> Seq<Seq<char>> {
    Seq::new(v.len(), |i: int| v[i]@)
}

/// A record with every field empty or absent.
pub open spec fn empty_process() -> ProcessModel {
    ProcessModel {
        user: Seq::empty(),
        pid: Seq::empty(),
        cpu: None,
        memory: None,
        vsz: None,
        rss: None,
        tty: None,
        stat: None,
        start: None,
        time: None,
        command: Seq::empty(),
    }
}

/// Assigns one column's value to the field its title names; an unknown
/// title changes nothing.
pub open spec fn apply_column(p: ProcessModel, title: Seq<char>, value: Seq<char>) -> ProcessModel {
    if title == "UID"@ || title == "USER"@ {
        ProcessModel { user: value, ..p }
    } else if title == "PID"@ {
        ProcessModel { pid: value, ..p }
    } else if title == "%CPU"@ {
        ProcessModel { cpu: Some(value), ..p }
    } else if title == "%MEM"@ {
        ProcessModel { memory: Some(value), ..p }
    } else if title == "VSZ"@ {
        ProcessModel { vsz: Some(value), ..p }
    } else if title == "RSS"@ {
        ProcessModel { rss: Some(value), ..p }
    } else if title == "TTY"@ {
        ProcessModel { tty: Some(value), ..p }
    } else if title == "STAT"@ {
        ProcessModel { stat: Some(value), ..p }
    } else if title == "START"@ || title == "STIME"@ {
        ProcessModel { start: Some(value), ..p }
    } else if title == "TIME"@ {
        ProcessModel { time: Some(value), ..p }
    } else if title == "CMD"@ || title == "COMMAND"@ {
        ProcessModel { command: value, ..p }
    } else {
        p
    }
}

/// The record built from the first `i` columns of one row.
pub open spec fn row_process(titles: Seq<Seq<char>>, row: Seq<Seq<char>>, i: int) -> ProcessModel
    decreases i,
{
    if i <= 0 {
        empty_process()
    } else {
        apply_column(row_process(titles, row, i - 1), titles[i - 1], row[i - 1])
    }
}

/// Assigns one column's value to the field of `p` that `title` names.
fn assign_column(p: &mut Process, title: &str, value: &String)
    ensures
        final(p)@ == apply_column(old(p)@, title@, value@),
{
    if str_eq(title, "UID") || str_eq(title, "USER") {
        p.user = value.clone();
    } else if str_eq(title, "PID") {
        p.pid = value.clone();
    } else if str_eq(title, "%CPU") {
        p.cpu = Some(value.clone());
    } else if str_eq(title, "%MEM") {
        p.memory = Some(value.clone());
    } else if str_eq(title, "VSZ") {
        p.vsz = Some(value.clone());
    } else if str_eq(title, "RSS") {
        p.rss = Some(value.clone());
    } else if str_eq(title, "TTY") {
        p.tty = Some(value.clone());
    } else if str_eq(title, "STAT") {
        p.stat = Some(value.clone());
    } else if str_eq(title, "START") || str_eq(title, "STIME") {
        p.start = Some(value.clone());
    } else if str_eq(title, "TIME") {
        p.time = Some(value.clone());
    } else if str_eq(title, "CMD") || str_eq(title, "COMMAND") {
        p.command = value.clone();
    }
}

/// Turns a process listing into one record per row, each row's values
/// assigned by column title. Every row must be no wider than the title row.
pub fn parse_processes(top: &Top) -> (r: Vec<Process>)
    requires
        forall|j: int| 0 <= j < top.processes@.len() ==> (#[trigger] top.processes@[j])@.len()
            <= top.titles@.len(),
    ensures
        r@.len() == top.processes@.len(),
        forall|j: int| 0 <= j < r@.len() ==> (#[trigger] r@[j])@ == row_process(
            strings_view(top.titles@),
            strings_view(top.processes@[j]@),
            top.processes@[j]@.len() as int,
        ),
{
    let ghost titles_v = strings_view(top.titles@);
    let mut out: Vec<Process> = Vec::new();
    let n = top.processes.len();
    let mut j: usize = 0;
    while j < n
        invariant
            j <= n,
            n == top.processes@.len(),
            out@.len() == j,
            titles_v == strings_view(top.titles@),
            forall|k: int| 0 <= k < n ==> (#[trigger] top.processes@[k])@.len()
                <= top.titles@.len(),
            forall|k: int| 0 <= k < j ==> (#[trigger] out@[k])@ == row_process(
                titles_v,
                strings_view(top.processes@[k]@),
                top.processes@[k]@.len() as int,
            ),
        decreases n - j,
    {
        let row = &top.processes[j];
        let ghost row_v = strings_view(row@);
        let mut p = Process {
            user: String::new(),
            pid: String::new(),
            cpu: None,
            memory: None,
            vsz: None,
            rss: None,
            tty: None,
            stat: None,
            start: None,
            time: None,
            command: String::new(),
        };
        proof {
            assert(p@ =~~= empty_process());
        }
        let m = row.len();
        let mut i: usize = 0;
        while i < m
            invariant
                i <= m,
                j < n,
                n == top.processes@.len(),
                m == row@.len(),
                row@ == top.processes@[j as int]@,
                m <= top.titles@.len(),
                titles_v == strings_view(top.titles@),
                row_v == strings_view(row@),
                p@ == row_process(titles_v, row_v, i as int),
            decreases m - i,
        {
            let title = &top.titles[i];
            assign_column(&mut p, title.as_str(), &row[i]);
            i += 1;
        }
        out.push(p);
        j += 1;
    }
    out
}

} // verus!
