use vstd::prelude::*;

verus! {

/// One log line: the timestamp in brackets, a space, then the message.
pub open spec fn log_line(ts: Seq<char>, msg: Seq<char>) -> Seq<char> {
    "["@ + ts + "] "@ + msg
}

/// Holds when a piece of text can stand inside a single log line.
pub open spec fn single_line(s: Seq<char>) -> bool {
    forall|i: int| 0 <= i < s.len() ==> s[i] != '\n'
}

/// Well-formed log content: empty, or ending in a newline. Every append
/// keeps it.
pub open spec fn terminated(content: Seq<char>) -> bool {
    content.len() == 0 || content[content.len() - 1] == '\n'
}

/// The content of the log file after one append: the old content, the new
/// line, a newline terminator.
pub open spec fn appended(content: Seq<char>, line: Seq<char>) -> Seq<char> {
    content + line + seq!['\n']
}

/// Index of the first newline in `s`, or `s.len()` when there is none.
pub open spec fn first_newline(s: Seq<char>) -> int
    decreases s.len(),
{
    if s.len() == 0 {
        0
    } else if s[0] == '\n' {
        0
    } else {
        1 + first_newline(s.skip(1))
    }
}

/// The lines of a file content: maximal newline-free runs with their
/// terminators dropped; a final run without a terminator counts as a line.
pub open spec fn lines_of(s: Seq<char>) -> Seq<Seq<char>>
    decreases s.len()
        via lines_of_decreases
{
    if s.len() == 0 {
        Seq::empty()
    } else {
        let i = first_newline(s);
        if i >= s.len() {
            seq![s]
        } else {
            seq![s.take(i)] + lines_of(s.skip(i + 1))
        }
    }
}

#[via_fn]
proof fn lines_of_decreases(s: Seq<char>) {
    lemma_first_newline_bounds(s);
}

proof fn lemma_first_newline_bounds(s: Seq<char>)
    ensures
        0 <= first_newline(s) <= s.len(),
        first_newline(s) < s.len() ==> s[first_newline(s)] == '\n',
        forall|j: int| 0 <= j < first_newline(s) ==> s[j] != '\n',
    decreases s.len(),
{
    if s.len() == 0 {
    } else if s[0] == '\n' {
    } else {
        lemma_first_newline_bounds(s.skip(1));
        let i = first_newline(s);
        if i < s.len() {
            assert(s.skip(1)[i - 1] == s[i]);
        }
        assert forall|j: int| 0 <= j < i implies s[j] != '\n' by {
            if j > 0 {
                assert(s.skip(1)[j - 1] == s[j]);
            }
        }
    }
}

/// The first newline of `s` is at `i` exactly when `i` holds a newline and
/// nothing before it does.
proof fn lemma_first_newline_at(s: Seq<char>, i: int)
    requires
        0 <= i < s.len(),
        s[i] == '\n',
        forall|j: int| 0 <= j < i ==> s[j] != '\n',
    ensures
        first_newline(s) == i,
{
    lemma_first_newline_bounds(s);
    let f = first_newline(s);
    if f < i {
        assert(s[f] == '\n');
        assert(false);
    } else if f > i {
        assert(s[i] != '\n');
        assert(false);
    }
}

/// Splitting into lines distributes over concatenation when the first part
/// is newline-terminated.
proof fn lemma_lines_concat(c: Seq<char>, t: Seq<char>)
    requires
        terminated(c),
    ensures
        lines_of(c + t) == lines_of(c) + lines_of(t),
    decreases c.len(),
{
    if c.len() == 0 {
        assert(c + t =~= t);
        assert(lines_of(c) + lines_of(t) =~= lines_of(t));
    } else {
        lemma_first_newline_bounds(c);
        let i = first_newline(c);
        if i >= c.len() {
            assert(c[c.len() - 1] != '\n');
            assert(false);
        }
        assert forall|j: int| 0 <= j < i implies (c + t)[j] != '\n' by {
            assert((c + t)[j] == c[j]);
        }
        assert((c + t)[i] == c[i]);
        lemma_first_newline_at(c + t, i);
        let rest = c.skip(i + 1);
        assert((c + t).skip(i + 1) =~= rest + t);
        assert((c + t).take(i) =~= c.take(i));
        if rest.len() > 0 {
            assert(rest[rest.len() - 1] == c[c.len() - 1]);
        }
        lemma_lines_concat(rest, t);
        assert(lines_of(c + t) =~= seq![c.take(i)] + (lines_of(rest) + lines_of(t)));
        assert(lines_of(c) =~= seq![c.take(i)] + lines_of(rest));
        assert(lines_of(c + t) =~= lines_of(c) + lines_of(t));
    }
}

/// A single appended line adds exactly that line to the file, at the end,
/// and keeps the content well formed.
pub proof fn lemma_append_one_line(content: Seq<char>, line: Seq<char>)
    requires
        terminated(content),
        single_line(line),
    ensures
        terminated(appended(content, line)),
        lines_of(appended(content, line)) == lines_of(content).push(line),
{
    let unit = line + seq!['\n'];
    assert(unit[unit.len() - 1] == '\n');
    lemma_first_newline_at(unit, line.len() as int);
    assert(unit.take(line.len() as int) =~= line);
    assert(unit.skip(line.len() as int + 1) =~= Seq::<char>::empty());
    assert(lines_of(Seq::<char>::empty()) =~= Seq::<Seq<char>>::empty());
    assert(lines_of(unit) =~= seq![unit.take(line.len() as int)] + lines_of(
        unit.skip(line.len() as int + 1),
    ));
    assert(lines_of(unit) =~= seq![line]);
    lemma_lines_concat(content, unit);
    assert(appended(content, line) =~= content + unit);
    assert(lines_of(content).push(line) =~= lines_of(content) + seq![line]);
    assert(appended(content, line)[appended(content, line).len() - 1] == '\n');
}

/// A log line built from single-line parts is itself a single line.
pub proof fn lemma_log_line_single(ts: Seq<char>, msg: Seq<char>)
    requires
        single_line(ts),
        single_line(msg),
    ensures
        single_line(log_line(ts, msg)),
{
    reveal_strlit("[");
    reveal_strlit("] ");
    let l = log_line(ts, msg);
    assert forall|i: int| 0 <= i < l.len() implies l[i] != '\n' by {
        if i < 1 {
            assert(l[i] == "["@[0]);
        } else if i < 1 + ts.len() {
            assert(l[i] == ts[i - 1]);
        } else if i < 3 + ts.len() {
            assert(l[i] == "] "@[i - 1 - ts.len()]);
        } else {
            assert(l[i] == msg[i - 3 - ts.len()]);
        }
    }
}

/// Two appends of formatted lines to an empty log yield a file of exactly
/// those two lines, in call order, each in the timestamp-prefixed format.
pub proof fn lemma_two_appends_two_lines(ts1: Seq<char>, msg1: Seq<char>, ts2: Seq<char>, msg2: Seq<char>)
    requires
        single_line(ts1),
        single_line(msg1),
        single_line(ts2),
        single_line(msg2),
    ensures
        lines_of(appended(appended(Seq::empty(), log_line(ts1, msg1)), log_line(ts2, msg2)))
            == seq![log_line(ts1, msg1), log_line(ts2, msg2)],
{
    lemma_log_line_single(ts1, msg1);
    lemma_log_line_single(ts2, msg2);
    let once = appended(Seq::empty(), log_line(ts1, msg1));
    lemma_append_one_line(Seq::empty(), log_line(ts1, msg1));
    lemma_append_one_line(once, log_line(ts2, msg2));
    assert(lines_of(Seq::<char>::empty()) =~= Seq::<Seq<char>>::empty());
    assert(lines_of(appended(once, log_line(ts2, msg2)))
        =~= seq![log_line(ts1, msg1), log_line(ts2, msg2)]);
}

/// Formats one log line from a timestamp and a message.
pub fn format_log_line(timestamp: &str, message: &str) -> (r: String)
    ensures
        r@ == log_line(timestamp@, message@),
{
    let mut line = String::from_str("[");
    line.append(timestamp);
    line.append("] ");
    line.append(message);
    proof {
        assert(line@ =~= log_line(timestamp@, message@));
    }
    line
}

/// Relies on chrono's `Local::now` and `DateTime::format` with a fixed
/// year-to-millisecond pattern: the result is a local timestamp, built from
/// digits and fixed punctuation, so it is never empty and never holds a
/// newline. Its exact text depends on the clock, so nothing more is stated.
#[verifier::external_body]
fn current_timestamp() -> (r: String)
    ensures
        r@.len() > 0,
        single_line(r@),
{
    chrono::Local::now().format("%Y-%m-%d %H:%M:%S%.3f").to_string()
}

/// Builds the log line for a message: the current local timestamp in
/// brackets, then the message. The timestamp depends on the clock, so the
/// contract fixes only the shape of the line.
pub fn timestamped_line(message: &str) -> (r: String)
    ensures
        exists|ts: Seq<char>|
            #![auto]
            ts.len() > 0 && single_line(ts) && r@ == log_line(ts, message@),
{
    let ts = current_timestamp();
    let line = format_log_line(ts.as_str(), message);
    proof {
        assert(ts@.len() > 0 && single_line(ts@) && line@ == log_line(ts@, message@));
    }
    line
}

/// Appends one line and its newline terminator to a file content held in
/// memory: the pure core of what one append call does to the log file.
pub fn append_line(content: &str, line: &str) -> (r: String)
    ensures
        r@ == appended(content@, line@),
{
    let mut s = String::from_str(content);
    s.append(line);
    s.append("\n");
    proof {
        reveal_strlit("\n");
        assert(s@ =~= appended(content@, line@));
    }
    s
}

} // verus!
