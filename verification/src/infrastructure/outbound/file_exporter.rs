//! The rules of the export to numbered files: how the files are named,
//! what they hold, and how the numbering resumes.

use vstd::prelude::*;

use crate::domain::model::entity::balance::{Balance, BalanceView};
use crate::domain::model::error::ClientError;
use crate::domain::model::value::text::{parse_usize, usize_to_string};

verus! {

/// The first place from `from` on at which a character of `s` is `stop` or
/// `other_stop`; the length of `s` where there is none.
pub open spec fn first_stop(s: Seq<char>, from: int, stop: char, other_stop: char) -> int
    decreases s.len() - from,
{
    if from < 0 || from >= s.len() || s[from] == stop || s[from] == other_stop {
        from
    } else {
        first_stop(s, from + 1, stop, other_stop)
    }
}

/// The counter in a file name: what stands between the first underscore
/// and the next underscore or dot, read as a number. `None` without an
/// underscore, and where what follows it is no number.
pub open spec fn counter_of(file_name: Seq<char>) -> Option<usize> {
    let underscore = first_stop(file_name, 0, '_', '_');
    if underscore >= file_name.len() {
        None
    } else {
        let end = first_stop(file_name, underscore + 1, '_', '.');
        crate::domain::model::value::text::parsed_usize(file_name.subrange(underscore + 1, end))
    }
}

/// The place of the first `stop` or `other_stop` from `from` on.
fn find_stop(s: &str, from: usize, stop: char, other_stop: char) -> (r: usize)
    requires
        from <= s@.len(),
    ensures
        r == first_stop(s@, from as int, stop, other_stop),
        from <= r <= s@.len(),
{
    let length = s.unicode_len();
    let mut i: usize = from;
    while i < length
        invariant
            from <= i <= length,
            length == s@.len(),
            first_stop(s@, from as int, stop, other_stop) == first_stop(
                s@,
                i as int,
                stop,
                other_stop,
            ),
        decreases length - i,
    {
        let c = s.get_char(i);
        if c == stop || c == other_stop {
            return i;
        }
        i = i + 1;
    }
    i
}

/// The counter in the name of an export file.
pub fn extract_counter(file_name: &str) -> (r: Option<usize>)
    ensures
        r == counter_of(file_name@),
{
    let length = file_name.unicode_len();
    let underscore = find_stop(file_name, 0, '_', '_');
    if underscore >= length {
        return None;
    }
    let end = find_stop(file_name, underscore + 1, '_', '.');
    parse_usize(file_name.substring_char(underscore + 1, end))
}

/// The name ends in `.DAT`.
pub open spec fn has_extension(file_name: Seq<char>) -> bool {
    file_name.len() >= 4 && file_name.subrange(file_name.len() - 4, file_name.len() as int)
        == seq!['.', 'D', 'A', 'T']
}

/// Whether the name ends in `.DAT`.
pub fn is_export_file(file_name: &str) -> (r: bool)
    ensures
        r == has_extension(file_name@),
{
    let length = file_name.unicode_len();
    if length < 4 {
        return false;
    }
    let matches = file_name.get_char(length - 4) == '.' && file_name.get_char(length - 3) == 'D'
        && file_name.get_char(length - 2) == 'A' && file_name.get_char(length - 1) == 'T';
    proof {
        let tail = file_name@.subrange(length - 4, length as int);
        assert(tail[0] == file_name@[length - 4]);
        assert(tail[1] == file_name@[length - 3]);
        assert(tail[2] == file_name@[length - 2]);
        assert(tail[3] == file_name@[length - 1]);
        if matches {
            assert(tail =~= seq!['.', 'D', 'A', 'T']);
        }
    }
    matches
}

/// The highest counter among the export files of a directory, zero where
/// there is none.
pub open spec fn last_counter(file_names: Seq<String>) -> usize
    decreases file_names.len(),
{
    if file_names.len() == 0 {
        0
    } else {
        let before = last_counter(file_names.drop_last());
        let name = file_names.last()@;
        if has_extension(name) {
            match counter_of(name) {
                Some(counter) => if counter > before {
                    counter
                } else {
                    before
                },
                None => before,
            }
        } else {
            before
        }
    }
}

/// The name of the export file of a day with a counter.
pub open spec fn file_name_of(day: Seq<char>, counter: usize) -> Seq<char> {
    day + "_"@ + crate::domain::model::value::text::decimal_text(counter as nat) + ".DAT"@
}

/// The line of a balance in an export file: the id, a space, the amount,
/// and a line feed.
pub open spec fn line_of(balance: BalanceView) -> Seq<char> {
    crate::domain::model::value::text::decimal_text(balance.client_id as nat) + " "@
        + crate::domain::model::value::amount::decimal_notation(
        balance.amount.mantissa as i128,
        balance.amount.scale as u32,
    ) + "\n"@
}

/// A file to be written: its name and its lines.
#[derive(Debug)]
pub struct ExportFile {
    name: String,
    lines: Vec<String>,
}

impl ExportFile {
    /// The name of the file.
    pub closed spec fn name_view(&self) -> Seq<char> {
        self.name@
    }

    /// The lines of the file.
    pub closed spec fn lines_view(&self) -> Seq<String> {
        self.lines@
    }

    /// The name of the file.
    pub fn name(&self) -> (r: &str)
        ensures
            r@ == self.name_view(),
    {
        self.name.as_str()
    }

    /// The lines of the file, each with its line feed.
    pub fn lines(&self) -> (r: &Vec<String>)
        ensures
            r@ == self.lines_view(),
    {
        &self.lines
    }
}

/// An exporter that writes each snapshot to a file of its own, numbered
/// by a counter that goes on where the files of the directory end.
#[derive(Debug)]
pub struct FileExporter {
    counter: usize,
}

impl View for FileExporter {
    type V = usize;

    closed spec fn view(&self) -> usize {
        self.counter
    }
}

impl FileExporter {
    /// The exporter for a directory that holds these files: the counter
    /// goes on after the highest one among its export files.
    pub fn new(file_names: &Vec<String>) -> (r: Self)
        ensures
            r@ == last_counter(file_names@),
    {
        let mut last_file_counter: usize = 0;
        let mut i: usize = 0;
        while i < file_names.len()
            invariant
                i <= file_names@.len(),
                last_file_counter == last_counter(file_names@.subrange(0, i as int)),
            decreases file_names@.len() - i,
        {
            proof {
                assert(file_names@.subrange(0, i + 1).drop_last() =~= file_names@.subrange(
                    0,
                    i as int,
                ));
            }
            let file_name = file_names[i].as_str();
            if is_export_file(file_name) {
                match extract_counter(file_name) {
                    Some(counter) => {
                        if counter > last_file_counter {
                            last_file_counter = counter;
                        }
                    },
                    None => {},
                }
            }
            i = i + 1;
        }
        proof {
            assert(file_names@.subrange(0, i as int) =~= file_names@);
        }
        Self { counter: last_file_counter }
    }

    /// The counter of the file written last.
    pub fn counter(&self) -> (r: usize)
        ensures
            r == self@,
    {
        self.counter
    }

    /// Plans the export of a snapshot on the given day, written as
    /// `DDMMYYYY`: the next counter names the file and each balance gets a
    /// line. An empty snapshot is `BalancesEmpty`; a counter that cannot
    /// go on is `Unknown`. Nothing is counted unless a file is planned.
    pub fn plan_export(&mut self, balances: &[Balance], day: &str) -> (r: Result<
        ExportFile,
        ClientError,
    >)
        ensures
            match r {
                Ok(file) => {
                    &&& balances@.len() > 0
                    &&& old(self)@ < usize::MAX
                    &&& final(self)@ == old(self)@ + 1
                    &&& file.name_view() == file_name_of(day@, final(self)@)
                    &&& file.lines_view().len() == balances@.len()
                    &&& forall|i: int|
                        0 <= i < balances@.len() ==> (#[trigger] file.lines_view()[i])@ == line_of(
                            balances@[i]@,
                        )
                },
                Err(e) => {
                    &&& final(self)@ == old(self)@
                    &&& if balances@.len() == 0 {
                        e@ is BalancesEmpty
                    } else {
                        e@ is Unknown && old(self)@ == usize::MAX
                    }
                },
            },
    {
        if balances.len() == 0 {
            return Err(ClientError::BalancesEmpty);
        }
        if self.counter == usize::MAX {
            return Err(ClientError::Unknown("no file counter is left".to_string()));
        }
        self.counter = self.counter + 1;
        let mut name = day.to_string();
        let number = usize_to_string(self.counter);
        name.append("_");
        name.append(number.as_str());
        name.append(".DAT");
        let mut lines: Vec<String> = Vec::new();
        let mut i: usize = 0;
        while i < balances.len()
            invariant
                i <= balances@.len(),
                lines@.len() == i,
                forall|j: int| 0 <= j < i ==> (#[trigger] lines@[j])@ == line_of(balances@[j]@),
            decreases balances@.len() - i,
        {
            lines.push(export_line(&balances[i]));
            i = i + 1;
        }
        Ok(ExportFile { name, lines })
    }
}

/// The line of a balance in an export file.
pub fn export_line(balance: &Balance) -> (r: String)
    ensures
        r@ == line_of(balance@),
{
    let id = balance.client_id().to_string();
    let amount = balance.balance().to_string();
    line_from(id.as_str(), amount.as_str())
}

/// A line of an export file from the texts of an id and of an amount:
/// the id, a space, the amount, and a line feed.
pub fn line_from(id: &str, amount: &str) -> (r: String)
    ensures
        r@ == id@ + " "@ + amount@ + "\n"@,
{
    let mut line = id.to_string();
    line.append(" ");
    line.append(amount);
    line.append("\n");
    line
}

} // verus!
