//! Text for people: ages in words, and the lists that a picker shows.

use crate::sessions::{outputs_view, sessions_view, JobOutput, JobOutputView, Session, SessionView};
use crate::text::{decimal, push_decimal};
use std::collections::HashMap;
use vstd::prelude::*;
use vstd::std_specs::iter::IteratorSpec;

pub use crate::liveness::is_job_suspended;

verus! {

/// The seconds that have passed at `now` since `timestamp`: none where the
/// timestamp lies ahead of `now`.
pub open spec fn elapsed(timestamp: u64, now: u64) -> nat {
    if timestamp <= now {
        (now - timestamp) as nat
    } else {
        0
    }
}

/// A count with its unit: `count`, the unit's letter, and ` ago`.
pub open spec fn count_ago(count: nat, unit: char) -> Seq<char> {
    decimal(count) + seq![unit, ' ', 'a', 'g', 'o']
}

/// An age of `seconds` in the largest unit that it fills: seconds below a
/// minute, then whole minutes, hours, days, and from seven days on weeks.
pub open spec fn age_text(seconds: nat) -> Seq<char> {
    if seconds < 60 {
        count_ago(seconds, 's')
    } else if seconds < 3600 {
        count_ago(seconds / 60, 'm')
    } else if seconds < 86400 {
        count_ago(seconds / 3600, 'h')
    } else if seconds < 604800 {
        count_ago(seconds / 86400, 'd')
    } else {
        count_ago(seconds / 604800, 'w')
    }
}

/// The count and the unit's suffix as a string.
fn count_with_unit(count: u64, suffix: &str) -> (text: String)
    ensures
        text@ == decimal(count as nat) + suffix@,
{
    let mut text = String::new();
    push_decimal(&mut text, count);
    text.append(suffix);
    assert(text@ =~= decimal(count as nat) + suffix@);
    text
}

/// How long before `now` the moment `timestamp` was, in words: `42s ago`,
/// `5m ago`, `3h ago`, `2d ago`, `6w ago`. Both are seconds since the epoch.
/// A timestamp that lies ahead of `now` reads `0s ago`.
pub fn time_ago(timestamp: u64, now: u64) -> (text: String)
    ensures
        text@ == age_text(elapsed(timestamp, now)),
{
    proof {
        reveal_strlit("s ago");
        reveal_strlit("m ago");
        reveal_strlit("h ago");
        reveal_strlit("d ago");
        reveal_strlit("w ago");
        assert("s ago"@ =~= seq!['s', ' ', 'a', 'g', 'o']);
        assert("m ago"@ =~= seq!['m', ' ', 'a', 'g', 'o']);
        assert("h ago"@ =~= seq!['h', ' ', 'a', 'g', 'o']);
        assert("d ago"@ =~= seq!['d', ' ', 'a', 'g', 'o']);
        assert("w ago"@ =~= seq!['w', ' ', 'a', 'g', 'o']);
    }
    let diff: u64 = if timestamp <= now {
        now - timestamp
    } else {
        0
    };
    if diff < 60 {
        count_with_unit(diff, "s ago")
    } else if diff < 3600 {
        count_with_unit(diff / 60, "m ago")
    } else if diff < 86400 {
        count_with_unit(diff / 3600, "h ago")
    } else if diff < 604800 {
        count_with_unit(diff / 86400, "d ago")
    } else {
        count_with_unit(diff / 604800, "w ago")
    }
}

/// The directories of `sessions`, each on a line of its own.
pub open spec fn directory_lines(sessions: Seq<SessionView>) -> Seq<char>
    decreases sessions.len(),
{
    if sessions.len() == 0 {
        Seq::empty()
    } else {
        directory_lines(sessions.drop_last()) + sessions.last().directory + seq!['\n']
    }
}

/// What a picker is shown to choose a session: the directory of each
/// session, in order, each followed by a line break.
pub fn build_fzf_sessions_input(sessions: Vec<Session>) -> (input: String)
    ensures
        input@ == directory_lines(sessions_view(sessions@)),
{
    let ghost full = sessions_view(sessions@);
    let mut input = String::new();
    let mut i: usize = 0;
    proof {
        reveal_strlit("\n");
        assert("\n"@ =~= seq!['\n']);
        assert(input@ =~= directory_lines(full.take(0)));
    }
    while i < sessions.len()
        invariant
            i <= sessions.len(),
            full == sessions_view(sessions@),
            "\n"@ == seq!['\n'],
            input@ == directory_lines(full.take(i as int)),
        decreases sessions.len() - i,
    {
        proof {
            assert(full.take(i + 1).drop_last() =~= full.take(i as int));
            assert(full.take(i + 1).last() == full[i as int]);
        }
        input.append(sessions[i].directory.as_str());
        input.append("\n");
        assert(input@ =~= directory_lines(full.take(i + 1)));
        i += 1;
    }
    assert(full.take(sessions.len() as int) =~= full);
    input
}

/// The line that a picker shows for a job: `[number:pid] - command, age`,
/// then a space and a line break.
pub open spec fn job_line(job: JobOutputView) -> Seq<char> {
    seq!['['] + decimal(job.number as nat) + seq![':'] + decimal(job.pid as nat) + seq![
        ']',
        ' ',
        '-',
        ' ',
    ] + job.command + seq![',', ' '] + job.suspended + seq![' ', '\n']
}

/// The line of each job by the job's number. Where several jobs share a
/// number, the last of them gives the line.
pub open spec fn lines_by_number(jobs: Seq<JobOutputView>) -> Map<u8, Seq<char>>
    decreases jobs.len(),
{
    if jobs.len() == 0 {
        Map::empty()
    } else {
        lines_by_number(jobs.drop_last()).insert(jobs.last().number, job_line(jobs.last()))
    }
}

/// The parts in order, with the separator between each two.
pub open spec fn joined(parts: Seq<Seq<char>>, separator: Seq<char>) -> Seq<char>
    decreases parts.len(),
{
    if parts.len() == 0 {
        Seq::empty()
    } else if parts.len() == 1 {
        parts[0]
    } else {
        joined(parts.drop_last(), separator) + separator + parts.last()
    }
}

/// The texts of a map of strings.
pub open spec fn texts_of(map: Map<u8, String>) -> Map<u8, Seq<char>> {
    Map::new(|number: u8| map.contains_key(number), |number: u8| map[number]@)
}

/// The lines of `lines` in the order in which `order` names their numbers.
pub open spec fn lines_in_order(lines: Map<u8, Seq<char>>, order: Seq<u8>) -> Seq<Seq<char>> {
    Seq::new(order.len(), |i: int| lines[order[i]])
}

/// Whether `order` names every number of `lines` once, and nothing else.
pub open spec fn lists_each_once(order: Seq<u8>, lines: Map<u8, Seq<char>>) -> bool {
    &&& order.no_duplicates()
    &&& forall|number: u8| order.contains(number) <==> lines.contains_key(number)
}

/// The picker's line for one job.
fn job_line_text(job: &JobOutput) -> (line: String)
    ensures
        line@ == job_line(job@),
{
    proof {
        reveal_strlit("[");
        reveal_strlit(":");
        reveal_strlit("] - ");
        reveal_strlit(", ");
        reveal_strlit(" \n");
        assert("["@ =~= seq!['[']);
        assert(":"@ =~= seq![':']);
        assert("] - "@ =~= seq![']', ' ', '-', ' ']);
        assert(", "@ =~= seq![',', ' ']);
        assert(" \n"@ =~= seq![' ', '\n']);
    }
    let mut line = String::new();
    line.append("[");
    push_decimal(&mut line, job.number as u64);
    line.append(":");
    push_decimal(&mut line, job.pid as u64);
    line.append("] - ");
    line.append(job.command.as_str());
    line.append(", ");
    line.append(job.suspended.as_str());
    line.append(" \n");
    assert(line@ =~= job_line(job@));
    line
}

/// What a picker is shown to choose a job, and the way back from a line to
/// the job's number.
///
/// The map gives each job number its line; a number that occurs twice keeps
/// the line of the later job. The text holds every line of the map once,
/// with a line break between each two. The order of the lines is that in
/// which the map hands them out, which is not fixed: the contract says that
/// the text is the lines in some order.
pub fn build_fzf_jobs_input(jobs: Vec<JobOutput>) -> (built: (HashMap<u8, String>, String))
    ensures
        texts_of(built.0@) == lines_by_number(outputs_view(jobs@)),
        exists|order: Seq<u8>|
            lists_each_once(order, lines_by_number(outputs_view(jobs@))) && built.1@ == joined(
                lines_in_order(lines_by_number(outputs_view(jobs@)), order),
                seq!['\n'],
            ),
{
    broadcast use vstd::std_specs::hash::group_hash_axioms;

    let ghost full = outputs_view(jobs@);
    let mut jobs_map: HashMap<u8, String> = HashMap::new();
    let mut i: usize = 0;
    assert(texts_of(jobs_map@) =~= lines_by_number(full.take(0)));
    while i < jobs.len()
        invariant
            i <= jobs.len(),
            full == outputs_view(jobs@),
            texts_of(jobs_map@) == lines_by_number(full.take(i as int)),
        decreases jobs.len() - i,
    {
        proof {
            assert(full.take(i + 1).drop_last() =~= full.take(i as int));
            assert(full.take(i + 1).last() == full[i as int]);
        }
        let ghost before = jobs_map@;
        let line = job_line_text(&jobs[i]);
        jobs_map.insert(jobs[i].number, line);
        assert(texts_of(jobs_map@) =~= texts_of(before).insert(jobs[i as int].number, line@));
        i += 1;
    }
    assert(full.take(jobs.len() as int) =~= full);
    let ghost lines = lines_by_number(full);
    let ghost keys: Seq<u8> = vstd::std_specs::hash::spec_keys_iter(&jobs_map).remaining().unref();
    let mut input = String::new();
    let mut first = true;
    proof {
        reveal_strlit("\n");
        assert("\n"@ =~= seq!['\n']);
    }
    for number in it: jobs_map.keys()
        invariant
            "\n"@ == seq!['\n'],
            texts_of(jobs_map@) == lines,
            it.seq().unref() == keys,
            first == (it.index() == 0),
            input@ == joined(lines_in_order(lines, keys.take(it.index())), seq!['\n']),
    {
        let ghost n = it.index();
        assert(keys[n] == *number);
        assert(keys.to_set().contains(keys[n]));
        assert(jobs_map@.contains_key(*number));
        let found = jobs_map.get(number);
        assert(found is Some);
        if let Some(line) = found {
            if !first {
                input.append("\n");
            }
            input.append(line.as_str());
            first = false;
            proof {
                let shown = lines_in_order(lines, keys.take(n + 1));
                assert(shown.drop_last() =~= lines_in_order(lines, keys.take(n)));
                assert(shown.last() == lines[keys[n]]);
                assert(line@ == texts_of(jobs_map@)[*number]);
            }
        }
    }
    proof {
        assert(keys.take(keys.len() as int) =~= keys);
        assert(lists_each_once(keys, lines)) by {
            assert forall|number: u8| keys.contains(number) <==> lines.contains_key(number) by {
                assert(keys.to_set().contains(number) <==> keys.contains(number));
                assert(texts_of(jobs_map@).contains_key(number) <==> jobs_map@.contains_key(
                    number,
                ));
            }
        }
    }
    (jobs_map, input)
}

/// The number of the job whose line was picked: a number that the map gives
/// exactly the text `selected`, and `None` exactly where it gives that text
/// to no number.
pub fn pick_job(lines: &HashMap<u8, String>, selected: &String) -> (picked: Option<u8>)
    ensures
        match picked {
            Some(number) => lines@.contains_key(number) && lines@[number]@ == selected@,
            None => forall|number: u8|
                lines@.contains_key(number) ==> (#[trigger] lines@[number])@ != selected@,
        },
{
    broadcast use vstd::std_specs::hash::group_hash_axioms;

    let ghost keys: Seq<u8> = vstd::std_specs::hash::spec_keys_iter(lines).remaining().unref();
    for number in it: lines.keys()
        invariant
            it.seq().unref() == keys,
            forall|j: int|
                0 <= j < it.index() ==> (#[trigger] lines@[keys[j]])@ != selected@,
    {
        let ghost n = it.index();
        assert(keys[n] == *number);
        assert(keys.to_set().contains(keys[n]));
        if let Some(line) = lines.get(number) {
            if *line == *selected {
                return Some(*number);
            }
        }
    }
    proof {
        assert forall|number: u8| lines@.contains_key(number) implies (#[trigger] lines@[number])@
            != selected@ by {
            assert(keys.to_set().contains(number));
            let j = choose|j: int| 0 <= j < keys.len() && keys[j] == number;
            assert(lines@[keys[j]]@ != selected@);
        }
    }
    None
}

} // verus!
