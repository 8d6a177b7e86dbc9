//! The list of addresses to download: expanded from a template over a range
//! of numbers, or read from the text of a list file.

use vstd::prelude::*;
use crate::arguments::ConfigError;
use crate::decimal::{render_i64, signed_decimal};
use crate::text::{chars_of, string_of};

verus! {

/// `template` with every placeholder `{}` replaced by `number`, taking the
/// placeholders from left to right.
pub open spec fn expand_template(template: Seq<char>, number: Seq<char>) -> Seq<char>
    decreases template.len(),
{
    if template.len() == 0 {
        Seq::empty()
    } else if template.len() >= 2 && template[0] == '{' && template[1] == '}' {
        number + expand_template(template.skip(2), number)
    } else {
        seq![template[0]] + expand_template(template.skip(1), number)
    }
}

/// The addresses that `template` gives for the numbers from `start` to `end`,
/// both included, in rising order.
pub open spec fn sequence_entries(template: Seq<char>, start: int, end: int) -> Seq<Seq<char>> {
    Seq::new(
        (end - start + 1) as nat,
        |k: int| expand_template(template, signed_decimal(start + k)),
    )
}

/// Whether `c` ends a line: a carriage return or a line feed.
pub open spec fn is_line_end(c: char) -> bool {
    c == '\r' || c == '\n'
}

/// `line` without the carriage returns and line feeds at its end.
pub open spec fn strip_line_end(line: Seq<char>) -> Seq<char>
    decreases line.len(),
{
    if line.len() > 0 && is_line_end(line.last()) {
        strip_line_end(line.drop_last())
    } else {
        line
    }
}

/// The lines of `text`: the stretches between its line feeds. There is always
/// a last line, which is empty where the text ends in a line feed.
pub open spec fn lines_of(text: Seq<char>) -> Seq<Seq<char>>
    decreases text.len(),
{
    if text.len() == 0 {
        seq![Seq::empty()]
    } else {
        let before = lines_of(text.drop_last());
        if text.last() == '\n' {
            before.push(Seq::empty())
        } else {
            before.update(before.len() - 1, before.last().push(text.last()))
        }
    }
}

/// The entries that `lines` hold: each line without its line end, in order,
/// leaving out the lines of which nothing remains.
pub open spec fn entries_of(lines: Seq<Seq<char>>) -> Seq<Seq<char>>
    decreases lines.len(),
{
    if lines.len() == 0 {
        Seq::empty()
    } else {
        let before = entries_of(lines.drop_last());
        let entry = strip_line_end(lines.last());
        if entry.len() > 0 {
            before.push(entry)
        } else {
            before
        }
    }
}

/// The addresses that the text of a list file holds.
pub open spec fn list_entries(text: Seq<char>) -> Seq<Seq<char>> {
    entries_of(lines_of(text))
}

/// A text always has a last line.
pub proof fn lemma_lines_of_nonempty(text: Seq<char>)
    ensures
        lines_of(text).len() >= 1,
    decreases text.len(),
{
    if text.len() > 0 {
        lemma_lines_of_nonempty(text.drop_last());
    }
}

/// No entry of a list is empty, and none ends in a carriage return or a line
/// feed.
pub proof fn lemma_entries_are_stripped(lines: Seq<Seq<char>>, k: int)
    requires
        0 <= k < entries_of(lines).len(),
    ensures
        entries_of(lines)[k].len() > 0,
        !is_line_end(entries_of(lines)[k].last()),
    decreases lines.len(),
{
    if lines.len() > 0 {
        let before = entries_of(lines.drop_last());
        if k < before.len() {
            lemma_entries_are_stripped(lines.drop_last(), k);
        } else {
            lemma_strip_line_end(lines.last());
        }
    }
}

/// What is left of a line is empty or ends in another character.
pub proof fn lemma_strip_line_end(line: Seq<char>)
    ensures
        strip_line_end(line).len() <= line.len(),
        strip_line_end(line) == line.take(strip_line_end(line).len() as int),
        strip_line_end(line).len() > 0 ==> !is_line_end(strip_line_end(line).last()),
    decreases line.len(),
{
    if line.len() > 0 && is_line_end(line.last()) {
        lemma_strip_line_end(line.drop_last());
    }
}

/// `template` with every placeholder replaced by `number`.
fn expand(template: &Vec<char>, number: &Vec<char>) -> (out: Vec<char>)
    ensures
        out@ == expand_template(template@, number@),
{
    let mut out: Vec<char> = Vec::new();
    let mut i: usize = 0;
    assert(template@.skip(0) =~= template@);
    while i < template.len()
        invariant
            i <= template.len(),
            out@ + expand_template(template@.skip(i as int), number@) == expand_template(
                template@,
                number@,
            ),
        decreases template.len() - i,
    {
        let ghost rest = template@.skip(i as int);
        let ghost done = out@;
        if template[i] == '{' && i + 1 < template.len() && template[i + 1] == '}' {
            let mut j: usize = 0;
            while j < number.len()
                invariant
                    j <= number.len(),
                    out@ == done + number@.take(j as int),
                decreases number.len() - j,
            {
                out.push(number[j]);
                j += 1;
            }
            assert(rest.skip(2) =~= template@.skip(i + 2));
            i += 2;
        } else {
            out.push(template[i]);
            assert(rest.skip(1) =~= template@.skip(i + 1));
            i += 1;
        }
    }
    out
}

/// The addresses that `url` gives for the numbers from `start` to `end`, both
/// included: `url` with each placeholder `{}` replaced by the number in
/// decimal notation. A range whose start is above its end is refused.
pub fn create_sequential_download_list(url: &str, start: i64, end: i64) -> (r: Result<
    Vec<String>,
    ConfigError,
>)
    ensures
        start > end ==> r == Err::<Vec<String>, ConfigError>(ConfigError::StartAfterEnd),
        start <= end ==> r is Ok && r->Ok_0.deep_view() == sequence_entries(
            url@,
            start as int,
            end as int,
        ),
{
    if start > end {
        return Err(ConfigError::StartAfterEnd);
    }
    let template = chars_of(url);
    let mut urls: Vec<String> = Vec::new();
    let mut i: i64 = start;
    loop
        invariant_except_break
            start <= i <= end,
            urls.deep_view() == sequence_entries(url@, start as int, i - 1),
        invariant
            start <= end,
            template@ == url@,
        ensures
            urls.deep_view() == sequence_entries(url@, start as int, end as int),
        decreases end - i,
    {
        let number = chars_of(render_i64(i).as_str());
        let entry = string_of(&expand(&template, &number));
        let ghost before = urls.deep_view();
        urls.push(entry);
        assert(before.push(entry@) =~= sequence_entries(url@, start as int, i as int));
        if i == end {
            break ;
        }
        i += 1;
    }
    Ok(urls)
}

/// The number of characters of `line` that remain without its line end.
fn stripped_len(line: &Vec<char>) -> (n: usize)
    ensures
        n <= line.len(),
        n == strip_line_end(line@).len(),
        strip_line_end(line@) == line@.take(n as int),
{
    let mut n: usize = line.len();
    assert(line@.take(n as int) =~= line@);
    while n > 0 && (line[n - 1] == '\r' || line[n - 1] == '\n')
        invariant
            n <= line.len(),
            strip_line_end(line@) == strip_line_end(line@.take(n as int)),
        decreases n,
    {
        assert(line@.take(n as int).drop_last() =~= line@.take(n - 1));
        n -= 1;
    }
    n
}

/// Ends the line `line`: adds what remains of it to `entries`, if anything
/// does.
fn push_entry(entries: &mut Vec<String>, line: &Vec<char>)
    ensures
        final(entries).deep_view() == {
            let entry = strip_line_end(line@);
            if entry.len() > 0 {
                old(entries).deep_view().push(entry)
            } else {
                old(entries).deep_view()
            }
        },
{
    let n = stripped_len(line);
    if n > 0 {
        let mut kept: Vec<char> = Vec::new();
        let mut j: usize = 0;
        while j < n
            invariant
                j <= n <= line.len(),
                kept@ == line@.take(j as int),
            decreases n - j,
        {
            kept.push(line[j]);
            j += 1;
        }
        let entry = string_of(&kept);
        entries.push(entry);
    }
}

/// The addresses in the text of a list file: one per line, without the
/// carriage returns and line feeds that end the line. A line of which nothing
/// remains holds no address.
pub fn create_download_list_from_file(contents: &str) -> (files: Vec<String>)
    ensures
        files.deep_view() == list_entries(contents@),
{
    let text = chars_of(contents);
    let mut files: Vec<String> = Vec::new();
    let mut line: Vec<char> = Vec::new();
    let mut i: usize = 0;
    while i < text.len()
        invariant
            i <= text.len(),
            text@ == contents@,
            lines_of(text@.take(i as int)).len() >= 1,
            line@ == lines_of(text@.take(i as int)).last(),
            files.deep_view() == entries_of(lines_of(text@.take(i as int)).drop_last()),
        decreases text.len() - i,
    {
        let ghost before = lines_of(text@.take(i as int));
        let ghost after = lines_of(text@.take(i + 1));
        assert(text@.take(i + 1).drop_last() =~= text@.take(i as int));
        if text[i] == '\n' {
            assert(after.drop_last() =~= before);
            push_entry(&mut files, &line);
            line = Vec::new();
        } else {
            assert(after.drop_last() =~= before.drop_last());
            line.push(text[i]);
        }
        i += 1;
    }
    assert(text@.take(text.len() as int) =~= text@);
    push_entry(&mut files, &line);
    files
}

} // verus!
