//! The built-in tools. Each is known to the registry by name and
//! description; what each computes from its arguments and from what the
//! system hands back (file contents, process output) is here, while the
//! reading, writing and spawning themselves happen at the caller.

use vstd::prelude::*;
use vstd::string::*;
use crate::text::{
    chars_of, concat_chars, contains_chars, contains_seq, contains_str, decimal, decimal_chars,
    ends_with_chars, has_prefix, has_suffix, starts_with_str, is_white, is_white_char, join_chars, join_with, lines_of, select, split_lines,
    string_of,
};
use crate::tools::Tool;
use crate::types::ToolResult;

verus! {

/// A result with no call id yet, the given text and error flag.
pub open spec fn result_is(r: ToolResult, content: Seq<char>, is_error: bool) -> bool {
    r.tool_call_id@ == Seq::<char>::empty() && r.content@ == content && r.is_error == is_error
}

/// A tool result from its text and error flag.
pub fn tool_result(content: String, is_error: bool) -> (r: ToolResult)
    ensures
        result_is(r, content@, is_error),
{
    ToolResult { tool_call_id: String::new(), content, is_error }
}

/// An error result whose text is `a` followed by `b`.
fn error_of(a: &str, b: &str) -> (r: ToolResult)
    ensures
        result_is(r, a@ + b@, true),
{
    let mut m = String::from_str(a);
    m.append(b);
    tool_result(m, true)
}

/// An error result whose text is `a`, `b`, `c`, `d` in turn.
fn error_of4(a: &str, b: &str, c: &str, d: &str) -> (r: ToolResult)
    ensures
        result_is(r, a@ + b@ + c@ + d@, true),
{
    let mut m = String::from_str(a);
    m.append(b);
    m.append(c);
    m.append(d);
    tool_result(m, true)
}

/// The smaller of two numbers.
pub open spec fn min_int(a: int, b: int) -> int {
    if a <= b {
        a
    } else {
        b
    }
}

/// The first line shown: the offset, counted from 1, or 1 when absent or 0.
pub open spec fn first_line(offset: Option<u64>) -> usize {
    let o: u64 = match offset {
        Some(o) => o,
        None => 1,
    };
    if o < 1 {
        1
    } else {
        o as usize
    }
}

/// The number of lines shown: the limit, or 2000 when absent.
pub open spec fn line_limit(limit: Option<u64>) -> usize {
    match limit {
        Some(l) => l as usize,
        None => 2000,
    }
}

/// Where the shown lines start (counted from 0).
pub open spec fn window_start(lines: Seq<Seq<char>>, first: usize) -> int {
    min_int(first - 1, lines.len() as int)
}

/// The shown lines, each after its number, one per line.
pub open spec fn numbered_window(lines: Seq<Seq<char>>, first: usize, limit: usize) -> Seq<char> {
    let start = window_start(lines, first);
    let end = min_int(start + limit, lines.len() as int);
    join_with(
        Seq::new((end - start) as nat, |k: int| decimal((start + k + 1) as nat) + ": "@ + lines[start + k]),
        "\n"@,
    )
}

/// Reads a file, or a range of its lines.
pub struct ReadFile;

impl ReadFile {
    pub fn new() -> (r: Self) {
        ReadFile
    }

    /// The first line and the number of lines to show for the given
    /// `offset` and `limit` arguments.
    pub fn window(offset: Option<u64>, limit: Option<u64>) -> (r: (usize, usize))
        ensures
            r.0 == first_line(offset),
            r.1 == line_limit(limit),
    {
        let o: u64 = match offset {
            Some(o) => o,
            None => 1,
        };
        let o: u64 = if o < 1 { 1 } else { o };
        let l: u64 = match limit {
            Some(l) => l,
            None => 2000,
        };
        (o as usize, l as usize)
    }

    /// The error for a call without a path.
    pub fn missing_path() -> (r: ToolResult)
        ensures
            result_is(r, "Missing 'path' parameter"@, true),
    {
        tool_result(String::from_str("Missing 'path' parameter"), true)
    }

    /// The error for a file that could not be read.
    pub fn read_error(path: &str, error: &str) -> (r: ToolResult)
        ensures
            result_is(r, "Error reading "@ + path@ + ": "@ + error@, true),
    {
        error_of4("Error reading ", path, ": ", error)
    }

    /// Lines `first ..` of `content`, at most `limit` of them, each after
    /// its line number; the window ends at the last line however large
    /// `limit` is.
    pub fn render(content: &str, first: usize, limit: usize) -> (r: ToolResult)
        requires
            first >= 1,
        ensures
            result_is(r, numbered_window(lines_of(content@), first, limit), false),
    {
        let text = chars_of(content);
        let lines = split_lines(&text);
        let ghost ls = lines_of(content@);
        let start: usize = if first - 1 < lines.len() { first - 1 } else { lines.len() };
        let end: usize = if limit < lines.len() - start { start + limit } else { lines.len() };
        let ghost want = Seq::new(
            (end - start) as nat,
            |k: int| decimal((start + k + 1) as nat) + ": "@ + ls[start + k],
        );
        let sep = chars_of(": ");
        let mut pieces: Vec<Vec<char>> = Vec::new();
        let mut k: usize = start;
        while k < end
            invariant
                start <= k <= end <= lines@.len(),
                lines@.len() == ls.len(),
                forall|i: int| 0 <= i < lines@.len() ==> #[trigger] lines@[i]@ == ls[i],
                sep@ == ": "@,
                want.len() == end - start,
                forall|i: int| 0 <= i < end - start ==> #[trigger] want[i] == decimal(
                    (start + i + 1) as nat,
                ) + ": "@ + ls[start + i],
                pieces@.map_values(|v: Vec<char>| v@) == want.take(k - start),
            decreases end - k,
        {
            let num = decimal_chars((k + 1) as u64);
            let head = concat_chars(&num, &sep);
            let piece = concat_chars(&head, &lines[k]);
            let ghost before = pieces@;
            assert(piece@ == want[k - start]);
            pieces.push(piece);
            assert(pieces@.map_values(|v: Vec<char>| v@) =~= before.map_values(|v: Vec<char>| v@).push(
                want[k - start],
            ));
            assert(want.take(k + 1 - start) =~= want.take(k - start).push(want[k - start]));
            k += 1;
        }
        assert(want.take(end - start) =~= want);
        let joined = join_chars(&pieces, "\n");
        tool_result(string_of(&joined), false)
    }
}

impl Tool for ReadFile {
    open spec fn obeys_tool_spec(&self) -> bool {
        true
    }

    open spec fn tool_name(&self) -> Seq<char> {
        "read_file"@
    }

    open spec fn tool_description(&self) -> Seq<char> {
        "Read file contents. Returns the content of a file at the given path."@
    }

    fn name(&self) -> (r: &str) {
        "read_file"
    }

    fn description(&self) -> (r: &str) {
        "Read file contents. Returns the content of a file at the given path."
    }
}

/// A path separator, on any platform.
pub open spec fn is_separator(c: char) -> bool {
    c == '/' || c == '\\'
}

/// The parts of a path between its separators.
pub open spec fn path_parts(p: Seq<char>) -> Seq<Seq<char>>
    decreases p.len(),
{
    if p.len() == 0 {
        seq![Seq::<char>::empty()]
    } else if is_separator(p.last()) {
        path_parts(p.drop_last()).push(Seq::<char>::empty())
    } else {
        let q = path_parts(p.drop_last());
        q.update(q.len() - 1, q.last().push(p.last()))
    }
}

/// How a part moves through the directory tree: `..` climbs one level, an
/// empty part and `.` stay, a name descends one level.
pub open spec fn part_step(part: Seq<char>) -> int {
    if part == ".."@ {
        -1
    } else if part.len() == 0 || part == "."@ {
        0
    } else {
        1
    }
}

/// How deep below the starting directory a sequence of parts ends.
pub open spec fn depth_of(parts: Seq<Seq<char>>) -> int
    decreases parts.len(),
{
    if parts.len() == 0 {
        0
    } else {
        depth_of(parts.drop_last()) + part_step(parts.last())
    }
}

/// Whether following the parts one by one never climbs above the starting
/// directory.
pub open spec fn never_above(parts: Seq<Seq<char>>) -> bool
    decreases parts.len(),
{
    if parts.len() == 0 {
        true
    } else {
        never_above(parts.drop_last()) && depth_of(parts) >= 0
    }
}

/// Whether a path is absolute: it starts at a separator or at a drive
/// letter followed by `:`.
pub open spec fn is_absolute_path(p: Seq<char>) -> bool {
    ||| p.len() > 0 && is_separator(p[0])
    ||| p.len() >= 2 && p[1] == ':' && (('a' <= p[0] && p[0] <= 'z') || ('A' <= p[0] && p[0]
        <= 'Z'))
}

/// Whether the absolute path `p` names `dir` or something below it: it
/// starts with `dir`, followed by a separator or by nothing.
pub open spec fn under_dir(p: Seq<char>, dir: Seq<char>) -> bool {
    &&& dir.len() > 0
    &&& has_prefix(p, dir)
    &&& (p.len() == dir.len() || is_separator(p[dir.len() as int]) || is_separator(dir.last()))
}

/// Whether a path stays inside the working directory `dir` (itself an
/// absolute path): a relative path must never climb above the directory;
/// an absolute path must lie under `dir` and never climb above it from
/// there.
pub open spec fn inside_working_dir(p: Seq<char>, dir: Seq<char>) -> bool {
    if is_absolute_path(p) {
        under_dir(p, dir) && never_above(path_parts(p.skip(dir.len() as int)))
    } else {
        never_above(path_parts(p))
    }
}

/// The step of a part given by its characters.
fn step_of(part: &Vec<char>) -> (r: i8)
    ensures
        r == part_step(part@),
{
    proof {
        reveal_strlit("..");
        reveal_strlit(".");
    }
    if part.len() == 2 && part[0] == '.' && part[1] == '.' {
        assert(part@ =~= ".."@);
        -1
    } else if part.len() == 0 || (part.len() == 1 && part[0] == '.') {
        if part.len() == 1 {
            assert(part@ =~= "."@);
        }
        0
    } else {
        assert(part@ != ".."@ && part@ != "."@ && part@.len() != 0) by {
            if part@ == ".."@ {
                assert(part@[0] == '.' && part@[1] == '.');
            }
            if part@ == "."@ {
                assert(part@[0] == '.');
            }
        }
        1
    }
}

/// Whether following `text` part by part never climbs above where it
/// starts.
fn never_climbs(text: &Vec<char>) -> (r: bool)
    ensures
        r == never_above(path_parts(text@)),
{
    let mut ok = true;
    let mut depth: usize = 0;
    let mut cur: Vec<char> = Vec::new();
    let mut i: usize = 0;
    assert(text@.take(0) =~= Seq::<char>::empty());
    while i < text.len()
        invariant
            i <= text@.len(),
            path_parts(text@.take(i as int)).len() >= 1,
            cur@ == path_parts(text@.take(i as int)).last(),
            ok == never_above(path_parts(text@.take(i as int)).drop_last()),
            ok ==> depth == depth_of(path_parts(text@.take(i as int)).drop_last()),
            depth <= i,
        decreases text@.len() - i,
    {
        let ghost pre = text@.take(i as int);
        let ghost q = path_parts(pre);
        let c = text[i];
        assert(text@.take(i + 1).drop_last() =~= pre);
        if c == '/' || c == '\\' {
            assert(path_parts(text@.take(i + 1)).drop_last() =~= q);
            assert(q =~= q.drop_last().push(q.last()));
            let st = step_of(&cur);
            if ok {
                if st < 0 {
                    if depth == 0 {
                        ok = false;
                    } else {
                        depth = depth - 1;
                    }
                } else if st > 0 {
                    depth = depth + 1;
                }
            }
            cur = Vec::new();
        } else {
            cur.push(c);
            assert(path_parts(text@.take(i + 1)).drop_last() =~= q.drop_last());
        }
        i += 1;
    }
    assert(text@.take(text@.len() as int) =~= text@);
    let st = step_of(&cur);
    if !ok {
        return false;
    }
    if st < 0 && depth == 0 {
        return false;
    }
    true
}

/// Whether `path` stays inside the working directory `dir`.
pub fn stays_inside(path: &str, dir: &str) -> (r: bool)
    ensures
        r == inside_working_dir(path@, dir@),
{
    let text = chars_of(path);
    let absolute = (text.len() > 0 && (text[0] == '/' || text[0] == '\\')) || (text.len() >= 2
        && text[1] == ':' && (('a' <= text[0] && text[0] <= 'z') || ('A' <= text[0] && text[0]
        <= 'Z')));
    if !absolute {
        return never_climbs(&text);
    }
    let d = chars_of(dir);
    if d.len() == 0 || !starts_with_str(&text, dir) {
        return false;
    }
    let last = d[d.len() - 1];
    if !(text.len() == d.len() || text[d.len()] == '/' || text[d.len()] == '\\' || last == '/'
        || last == '\\') {
        return false;
    }
    let mut rest: Vec<char> = Vec::new();
    let mut i: usize = d.len();
    while i < text.len()
        invariant
            d@.len() <= i <= text@.len(),
            rest@ == text@.subrange(d@.len() as int, i as int),
        decreases text@.len() - i,
    {
        rest.push(text[i]);
        i += 1;
        assert(rest@ =~= text@.subrange(d@.len() as int, i as int));
    }
    assert(rest@ =~= text@.skip(d@.len() as int));
    never_climbs(&rest)
}

/// The error for a path that leaves the working directory.
pub fn outside_working_dir(path: &str) -> (r: ToolResult)
    ensures
        result_is(r, "Path outside the working directory: "@ + path@, true),
{
    error_of("Path outside the working directory: ", path)
}

/// Creates or overwrites a file.
pub struct WriteFile;

impl WriteFile {
    pub fn new() -> (r: Self) {
        WriteFile
    }

    pub fn missing_path() -> (r: ToolResult)
        ensures
            result_is(r, "Missing 'path' parameter"@, true),
    {
        tool_result(String::from_str("Missing 'path' parameter"), true)
    }

    pub fn missing_content() -> (r: ToolResult)
        ensures
            result_is(r, "Missing 'content' parameter"@, true),
    {
        tool_result(String::from_str("Missing 'content' parameter"), true)
    }

    /// The error for parent directories that could not be created.
    pub fn directory_error(error: &str) -> (r: ToolResult)
        ensures
            result_is(r, "Failed to create directories: "@ + error@, true),
    {
        error_of("Failed to create directories: ", error)
    }

    /// The error for a file that could not be written.
    pub fn write_error(path: &str, error: &str) -> (r: ToolResult)
        ensures
            result_is(r, "Failed to write "@ + path@ + ": "@ + error@, true),
    {
        error_of4("Failed to write ", path, ": ", error)
    }

    /// The report of a successful write: the size of `content` in bytes.
    pub fn written(path: &str, content: &str) -> (r: ToolResult)
        ensures
            result_is(
                r,
                "Successfully wrote "@ + decimal((content.spec_bytes().len() as usize) as nat) + " bytes to "@
                    + path@,
                false,
            ),
    {
        let mut m = String::from_str("Successfully wrote ");
        let n = string_of(&decimal_chars(content.len() as u64));
        m.append(n.as_str());
        m.append(" bytes to ");
        m.append(path);
        tool_result(m, false)
    }
}

impl Tool for WriteFile {
    open spec fn obeys_tool_spec(&self) -> bool {
        true
    }

    open spec fn tool_name(&self) -> Seq<char> {
        "write_file"@
    }

    open spec fn tool_description(&self) -> Seq<char> {
        "Create or overwrite a file with the given content. Creates parent directories if needed."@
    }

    fn name(&self) -> (r: &str) {
        "write_file"
    }

    fn description(&self) -> (r: &str) {
        "Create or overwrite a file with the given content. Creates parent directories if needed."
    }
}

/// The output of a process: standard output, then standard error on a new
/// line when both are present.
pub open spec fn combined(stdout: Seq<char>, stderr: Seq<char>) -> Seq<char> {
    if stderr.len() == 0 {
        stdout
    } else if stdout.len() == 0 {
        stderr
    } else {
        stdout + "\n"@ + stderr
    }
}

/// The result of a finished process: its combined output, an error when it
/// did not succeed.
pub fn process_result(stdout: &str, stderr: &str, success: bool) -> (r: ToolResult)
    ensures
        result_is(r, combined(stdout@, stderr@), !success),
{
    let mut content = String::from_str(stdout);
    if !stderr.is_empty() {
        if !stdout.is_empty() {
            content.append("\n");
        }
        content.append(stderr);
    }
    tool_result(content, !success)
}

/// Runs a shell command.
pub struct ShellExec;

impl ShellExec {
    pub fn new() -> (r: Self) {
        ShellExec
    }

    pub fn missing_command() -> (r: ToolResult)
        ensures
            result_is(r, "Missing 'command' parameter"@, true),
    {
        tool_result(String::from_str("Missing 'command' parameter"), true)
    }

    /// The error for a command that could not be started.
    pub fn spawn_error(error: &str) -> (r: ToolResult)
        ensures
            result_is(r, "Failed to execute: "@ + error@, true),
    {
        error_of("Failed to execute: ", error)
    }

    /// How many seconds a command may run: the `timeout` argument, or 30
    /// when it is absent.
    pub fn timeout_seconds(timeout: Option<u64>) -> (r: u64)
        ensures
            r == (match timeout {
                Some(t) => t,
                None => 30,
            }),
    {
        match timeout {
            Some(t) => t,
            None => 30,
        }
    }

    /// The error for a command that was stopped after running for its
    /// `seconds`.
    pub fn timed_out(seconds: u64) -> (r: ToolResult)
        ensures
            result_is(r, "Command timed out after "@ + decimal(seconds as nat) + " seconds"@, true),
    {
        let mut m = String::from_str("Command timed out after ");
        let n = string_of(&decimal_chars(seconds));
        m.append(n.as_str());
        m.append(" seconds");
        tool_result(m, true)
    }
}

impl Tool for ShellExec {
    open spec fn obeys_tool_spec(&self) -> bool {
        true
    }

    open spec fn tool_name(&self) -> Seq<char> {
        "shell_exec"@
    }

    open spec fn tool_description(&self) -> Seq<char> {
        "Execute a shell command. Returns stdout and stderr."@
    }

    fn name(&self) -> (r: &str) {
        "shell_exec"
    }

    fn description(&self) -> (r: &str) {
        "Execute a shell command. Returns stdout and stderr."
    }
}

/// The pieces of `s` between whitespace characters.
pub open spec fn white_pieces(s: Seq<char>) -> Seq<Seq<char>>
    decreases s.len(),
{
    if s.len() == 0 {
        seq![Seq::<char>::empty()]
    } else if is_white(s.last()) {
        white_pieces(s.drop_last()).push(Seq::<char>::empty())
    } else {
        let p = white_pieces(s.drop_last());
        p.update(p.len() - 1, p.last().push(s.last()))
    }
}

/// The words of `s`, as `str::split_whitespace` yields them.
pub open spec fn words_of(s: Seq<char>) -> Seq<Seq<char>> {
    select(white_pieces(s), |w: Seq<char>| w.len() > 0)
}

/// The words of `s`.
pub fn split_words(s: &str) -> (r: Vec<Vec<char>>)
    ensures
        r@.map_values(|v: Vec<char>| v@) == words_of(s@),
{
    let text = chars_of(s);
    let ghost keep = |w: Seq<char>| w.len() > 0;
    let mut done: Vec<Vec<char>> = Vec::new();
    let mut cur: Vec<char> = Vec::new();
    let mut i: usize = 0;
    assert(text@.take(0) =~= Seq::<char>::empty());
    while i < text.len()
        invariant
            i <= text@.len(),
            keep == (|w: Seq<char>| w.len() > 0),
            white_pieces(text@.take(i as int)).len() >= 1,
            done@.map_values(|v: Vec<char>| v@) == select(
                white_pieces(text@.take(i as int)).drop_last(),
                keep,
            ),
            cur@ == white_pieces(text@.take(i as int)).last(),
        decreases text@.len() - i,
    {
        let ghost pre = text@.take(i as int);
        let ghost p = white_pieces(pre);
        let c = text[i];
        assert(text@.take(i + 1).drop_last() =~= pre);
        if is_white_char(c) {
            let ghost before = done@;
            if cur.len() > 0 {
                done.push(cur);
                assert(done@.map_values(|v: Vec<char>| v@) =~= before.map_values(
                    |v: Vec<char>| v@,
                ).push(p.last()));
            }
            assert(white_pieces(text@.take(i + 1)).drop_last() =~= p);
            cur = Vec::new();
        } else {
            cur.push(c);
            assert(white_pieces(text@.take(i + 1)).drop_last() =~= p.drop_last());
        }
        i += 1;
    }
    assert(text@.take(text@.len() as int) =~= text@);
    let ghost p = white_pieces(s@);
    let ghost before = done@;
    if cur.len() > 0 {
        done.push(cur);
        assert(done@.map_values(|v: Vec<char>| v@) =~= before.map_values(|v: Vec<char>| v@).push(
            p.last(),
        ));
    }
    assert(p =~= p.drop_last().push(p.last()));
    done
}

/// Runs git.
pub struct GitOp;

impl GitOp {
    pub fn new() -> (r: Self) {
        GitOp
    }

    pub fn missing_operation() -> (r: ToolResult)
        ensures
            result_is(r, "Missing 'operation'"@, true),
    {
        tool_result(String::from_str("Missing 'operation'"), true)
    }

    /// The arguments given to git: the operation, then the words of `extra`.
    pub fn command_args(operation: &str, extra: &str) -> (r: Vec<String>)
        ensures
            r@.len() == words_of(extra@).len() + 1,
            r@[0]@ == operation@,
            forall|k: int| 0 <= k < words_of(extra@).len() ==> #[trigger] r@[k + 1]@ == words_of(
                extra@,
            )[k],
    {
        let words = split_words(extra);
        let ghost ws = words@.map_values(|v: Vec<char>| v@);
        let mut r: Vec<String> = Vec::new();
        r.push(String::from_str(operation));
        let mut i: usize = 0;
        while i < words.len()
            invariant
                i <= words@.len(),
                ws == words@.map_values(|v: Vec<char>| v@),
                r@.len() == i + 1,
                r@[0]@ == operation@,
                forall|k: int| 0 <= k < i ==> #[trigger] r@[k + 1]@ == ws[k],
            decreases words@.len() - i,
        {
            r.push(string_of(&words[i]));
            i += 1;
        }
        r
    }

    /// The error for git that could not be started.
    pub fn spawn_error(error: &str) -> (r: ToolResult)
        ensures
            result_is(r, "Git error: "@ + error@, true),
    {
        error_of("Git error: ", error)
    }
}

impl Tool for GitOp {
    open spec fn obeys_tool_spec(&self) -> bool {
        true
    }

    open spec fn tool_name(&self) -> Seq<char> {
        "git_op"@
    }

    open spec fn tool_description(&self) -> Seq<char> {
        "Execute git operations: status, diff, log, branch."@
    }

    fn name(&self) -> (r: &str) {
        "git_op"
    }

    fn description(&self) -> (r: &str) {
        "Execute git operations: status, diff, log, branch."
    }
}

/// The most matches a search collects before it stops reading files.
pub open spec fn search_cap() -> nat {
    50
}

/// The report of one matching line: path, line number from 1, the line.
pub open spec fn match_line(path: Seq<char>, number: nat, line: Seq<char>) -> Seq<char> {
    path + ":"@ + decimal(number) + ": "@ + line
}

/// The matches among the first `n` lines `ls` of a file, in order.
pub open spec fn matches_upto(path: Seq<char>, ls: Seq<Seq<char>>, pattern: Seq<char>, n: int) -> Seq<
    Seq<char>,
>
    decreases n,
{
    if n <= 0 {
        Seq::<Seq<char>>::empty()
    } else if contains_seq(ls[n - 1], pattern) {
        matches_upto(path, ls, pattern, n - 1).push(match_line(path, n as nat, ls[n - 1]))
    } else {
        matches_upto(path, ls, pattern, n - 1)
    }
}

/// The matches of `pattern` in a file's content, line by line.
pub open spec fn file_matches(path: Seq<char>, content: Seq<char>, pattern: Seq<char>) -> Seq<
    Seq<char>,
> {
    matches_upto(path, lines_of(content), pattern, lines_of(content).len() as int)
}

/// The file name filter: a pattern `*.ext` keeps the names that end in
/// `.ext`; any other pattern keeps the names that contain it, so `main`
/// keeps `main.rs` and an empty pattern keeps every name.
pub open spec fn glob_keeps(name: Seq<char>, glob: Seq<char>) -> bool {
    if has_prefix(glob, "*."@) {
        has_suffix(name, glob.drop_first())
    } else {
        contains_seq(name, glob)
    }
}

/// Searches files for a pattern.
pub struct CodeSearch;

impl CodeSearch {
    pub fn new() -> (r: Self) {
        CodeSearch
    }

    pub fn missing_pattern() -> (r: ToolResult)
        ensures
            result_is(r, "Missing 'pattern'"@, true),
    {
        tool_result(String::from_str("Missing 'pattern'"), true)
    }

    /// Whether a file called `name` passes the `glob` filter.
    pub fn glob_matches(name: &str, glob: &str) -> (r: bool)
        ensures
            r == glob_keeps(name@, glob@),
    {
        let n = chars_of(name);
        let inc = chars_of(glob);
        if !starts_with_str(&inc, "*.") {
            return contains_chars(&n, &inc);
        }
        proof {
            reveal_strlit("*.");
        }
        let mut rest: Vec<char> = Vec::new();
        let mut i: usize = 1;
        while i < inc.len()
            invariant
                1 <= i <= inc@.len(),
                rest@ == inc@.subrange(1, i as int),
            decreases inc@.len() - i,
        {
            rest.push(inc[i]);
            i += 1;
            assert(rest@ =~= inc@.subrange(1, i as int));
        }
        assert(rest@ =~= inc@.drop_first());
        ends_with_chars(&n, &rest)
    }
}

impl Tool for CodeSearch {
    open spec fn obeys_tool_spec(&self) -> bool {
        true
    }

    open spec fn tool_name(&self) -> Seq<char> {
        "code_search"@
    }

    open spec fn tool_description(&self) -> Seq<char> {
        "Search for a pattern in files under a directory."@
    }

    fn name(&self) -> (r: &str) {
        "code_search"
    }

    fn description(&self) -> (r: &str) {
        "Search for a pattern in files under a directory."
    }
}

/// The matches a search has collected, file by file.
pub struct SearchResults {
    found: Vec<String>,
}

impl SearchResults {
    pub closed spec fn found(&self) -> Seq<Seq<char>> {
        self.found@.map_values(|s: String| s@)
    }

    pub fn new() -> (r: Self)
        ensures
            r.found() == Seq::<Seq<char>>::empty(),
    {
        let r = SearchResults { found: Vec::new() };
        assert(r.found() =~= Seq::<Seq<char>>::empty());
        r
    }

    /// Adds the matches of `pattern` in the file at `path`.
    pub fn add_file(&mut self, path: &str, content: &str, pattern: &str)
        ensures
            final(self).found() == old(self).found() + file_matches(path@, content@, pattern@),
    {
        let text = chars_of(content);
        let lines = split_lines(&text);
        let ghost ls = lines_of(content@);
        let pat = chars_of(pattern);
        let head = chars_of(path);
        let colon = chars_of(":");
        let sep = chars_of(": ");
        let ghost start = self.found();
        let mut i: usize = 0;
        while i < lines.len()
            invariant
                i <= lines@.len(),
                lines@.len() == ls.len(),
                forall|j: int| 0 <= j < lines@.len() ==> #[trigger] lines@[j]@ == ls[j],
                pat@ == pattern@,
                head@ == path@,
                colon@ == ":"@,
                sep@ == ": "@,
                self.found() == start + matches_upto(path@, ls, pattern@, i as int),
            decreases lines@.len() - i,
        {
            if contains_chars_of(&lines[i], &pat) {
                let a = concat_chars(&head, &colon);
                let b = concat_chars(&a, &decimal_chars((i + 1) as u64));
                let c = concat_chars(&b, &sep);
                let d = concat_chars(&c, &lines[i]);
                let ghost before = self.found@;
                self.found.push(string_of(&d));
                assert(self.found@.map_values(|s: String| s@) =~= before.map_values(|s: String| s@).push(
                    d@,
                ));
            }
            i += 1;
        }
    }

    /// Whether enough matches have been collected to stop the search.
    pub fn is_full(&self) -> (r: bool)
        ensures
            r == (self.found().len() >= search_cap()),
    {
        self.found.len() >= 50
    }

    /// The search's result: the matches one per line, or a note that there
    /// were none.
    pub fn finish(&self, pattern: &str, search_path: &str) -> (r: ToolResult)
        ensures
            self.found().len() == 0 ==> result_is(
                r,
                "No matches for '"@ + pattern@ + "' in "@ + search_path@,
                false,
            ),
            self.found().len() > 0 ==> result_is(r, join_with(self.found(), "\n"@), false),
    {
        if self.found.len() == 0 {
            let mut m = String::from_str("No matches for '");
            m.append(pattern);
            m.append("' in ");
            m.append(search_path);
            return tool_result(m, false);
        }
        let mut parts: Vec<Vec<char>> = Vec::new();
        let mut i: usize = 0;
        while i < self.found.len()
            invariant
                i <= self.found@.len(),
                parts@.map_values(|v: Vec<char>| v@) == self.found().take(i as int),
            decreases self.found@.len() - i,
        {
            let ghost before = parts@;
            let item = chars_of(self.found[i].as_str());
            assert(item@ == self.found()[i as int]);
            parts.push(item);
            assert(parts@.map_values(|v: Vec<char>| v@) =~= before.map_values(|v: Vec<char>| v@).push(
                self.found()[i as int],
            ));
            assert(self.found().take(i + 1) =~= self.found().take(i as int).push(self.found()[i as int]));
            i += 1;
        }
        assert(self.found().take(self.found@.len() as int) =~= self.found());
        let joined = join_chars(&parts, "\n");
        tool_result(string_of(&joined), false)
    }
}

/// Whether `p` occurs in `s`.
fn contains_chars_of(s: &Vec<char>, p: &Vec<char>) -> (r: bool)
    ensures
        r == contains_seq(s@, p@),
{
    crate::text::contains_chars(s, p)
}

proof fn lemma_matches_upto(path: Seq<char>, ls: Seq<Seq<char>>, pattern: Seq<char>, n: int)
    requires
        0 <= n <= ls.len(),
    ensures
        forall|j: int|
            0 <= j < n && contains_seq(ls[j], pattern) ==> #[trigger] matches_upto(
                path,
                ls,
                pattern,
                n,
            ).contains(match_line(path, (j + 1) as nat, ls[j])),
        forall|x: Seq<char>|
            #[trigger] matches_upto(path, ls, pattern, n).contains(x) ==> exists|j: int|
                0 <= j < n && contains_seq(ls[j], pattern) && x == match_line(
                    path,
                    (j + 1) as nat,
                    ls[j],
                ),
    decreases n,
{
    if n > 0 {
        lemma_matches_upto(path, ls, pattern, n - 1);
        let prev = matches_upto(path, ls, pattern, n - 1);
        let cur = matches_upto(path, ls, pattern, n);
        if contains_seq(ls[n - 1], pattern) {
            let m = match_line(path, n as nat, ls[n - 1]);
            assert(cur == prev.push(m));
            assert(cur[prev.len() as int] == m);
            assert forall|j: int| 0 <= j < n && contains_seq(ls[j], pattern) implies #[trigger] cur.contains(
                match_line(path, (j + 1) as nat, ls[j]),
            ) by {
                if j < n - 1 {
                    let x = match_line(path, (j + 1) as nat, ls[j]);
                    assert(prev.contains(x));
                    let k = choose|k: int| 0 <= k < prev.len() && prev[k] == x;
                    assert(cur[k] == x);
                }
            }
            assert forall|x: Seq<char>| #[trigger] cur.contains(x) implies exists|j: int|
                0 <= j < n && contains_seq(ls[j], pattern) && x == match_line(
                    path,
                    (j + 1) as nat,
                    ls[j],
                ) by {
                let k = choose|k: int| 0 <= k < cur.len() && cur[k] == x;
                if k < prev.len() {
                    assert(prev[k] == x);
                    assert(prev.contains(x));
                } else {
                    assert(x == m);
                }
            }
        }
    }
}

/// A search reports every line of a file that holds the pattern anywhere,
/// as the path, the line's number counted from 1 and the line; it reports
/// nothing else.
pub proof fn law_search_reports_matching_lines(path: Seq<char>, content: Seq<char>, pattern: Seq<char>)
    ensures
        forall|j: int|
            0 <= j < lines_of(content).len() && contains_seq(lines_of(content)[j], pattern)
                ==> #[trigger] file_matches(path, content, pattern).contains(
                path + ":"@ + decimal((j + 1) as nat) + ": "@ + lines_of(content)[j],
            ),
        forall|x: Seq<char>|
            #[trigger] file_matches(path, content, pattern).contains(x) ==> exists|j: int|
                0 <= j < lines_of(content).len() && contains_seq(lines_of(content)[j], pattern) && x
                    == path + ":"@ + decimal((j + 1) as nat) + ": "@ + lines_of(content)[j],
{
    let ls = lines_of(content);
    lemma_matches_upto(path, ls, pattern, ls.len() as int);
    assert forall|j: int|
        0 <= j < ls.len() && contains_seq(ls[j], pattern) implies #[trigger] file_matches(
        path,
        content,
        pattern,
    ).contains(path + ":"@ + decimal((j + 1) as nat) + ": "@ + ls[j]) by {
        assert(matches_upto(path, ls, pattern, ls.len() as int).contains(
            match_line(path, (j + 1) as nat, ls[j]),
        ));
    }
}

/// A window never shows more than `limit` lines: it shows the lines from
/// `first` (counted from 1) on, as many as `limit` allows and the file
/// holds, each after its number.
pub proof fn law_window_respects_limit(lines: Seq<Seq<char>>, first: usize, limit: usize)
    requires
        first >= 1,
    ensures
        ({
            let start: int = if first - 1 <= lines.len() { first - 1 } else { lines.len() as int };
            let count: int = if limit <= lines.len() - start { limit as int } else { lines.len()
                - start };
            &&& 0 <= count <= limit
            &&& numbered_window(lines, first, limit) == join_with(
                Seq::new(
                    count as nat,
                    |k: int| decimal((start + k + 1) as nat) + ": "@ + lines[start + k],
                ),
                "\n"@,
            )
        }),
{
    let start: int = if first - 1 <= lines.len() { first - 1 } else { lines.len() as int };
    let count: int = if limit <= lines.len() - start { limit as int } else { lines.len() - start };
    assert(Seq::new(
        count as nat,
        |k: int| decimal((start + k + 1) as nat) + ": "@ + lines[start + k],
    ) =~= Seq::new(
        (min_int(start + limit, lines.len() as int) - window_start(lines, first)) as nat,
        |k: int| decimal((window_start(lines, first) + k + 1) as nat) + ": "@ + lines[window_start(lines, first) + k],
    ));
}


/// A search stops collecting matches once it holds fifty.
pub proof fn law_search_stops_at_fifty()
    ensures
        search_cap() == 50,
{
}

/// The file filter: a pattern `*.ext` keeps exactly the names that end in
/// `.ext`; any other pattern keeps exactly the names that contain it.
pub proof fn law_glob_filter(name: Seq<char>, glob: Seq<char>)
    ensures
        glob.len() >= 2 && glob[0] == '*' && glob[1] == '.' ==> (glob_keeps(name, glob)
            <==> has_suffix(name, glob.subrange(1, glob.len() as int))),
        !(glob.len() >= 2 && glob[0] == '*' && glob[1] == '.') ==> (glob_keeps(name, glob)
            <==> contains_seq(name, glob)),
{
    reveal_strlit("*.");
    if glob.len() >= 2 && glob[0] == '*' && glob[1] == '.' {
        assert(glob.subrange(0, 2) =~= "*."@);
        assert(glob.drop_first() =~= glob.subrange(1, glob.len() as int));
    } else if has_prefix(glob, "*."@) {
        assert(glob.subrange(0, 2)[0] == glob[0]);
        assert(glob.subrange(0, 2)[1] == glob[1]);
    }
}

/// The sandbox: an absolute path that does not start with the working
/// directory, or that only starts with its name (`/a/bc` under `/a/b`), is
/// refused, and the working directory itself is inside; a relative path without separators (a plain file
/// name) stays inside unless it is `..`; a relative path that starts with
/// `..` and a separator climbs out and is refused.
pub proof fn law_sandbox(p: Seq<char>, dir: Seq<char>)
    ensures
        is_absolute_path(p) && !has_prefix(p, dir) ==> !inside_working_dir(p, dir),
        !is_absolute_path(p) && (forall|i: int| 0 <= i < p.len() ==> !is_separator(#[trigger] p[i]))
            ==> (inside_working_dir(p, dir) <==> p != seq!['.', '.']),
        !is_absolute_path(p) && p.len() >= 3 && p[0] == '.' && p[1] == '.' && is_separator(p[2])
            ==> !inside_working_dir(p, dir),
        is_absolute_path(p) && has_prefix(p, dir) && dir.len() > 0 && p.len() > dir.len()
            && !is_separator(p[dir.len() as int]) && !is_separator(dir.last())
            ==> !inside_working_dir(p, dir),
        is_absolute_path(p) && p == dir ==> inside_working_dir(p, dir),
{
    if is_absolute_path(p) && p == dir {
        reveal_strlit("..");
        reveal_strlit(".");
        assert(Seq::<char>::empty().len() == 0);
        assert(".."@.len() == 2 && "."@.len() == 1);
        assert(p.skip(dir.len() as int) =~= Seq::<char>::empty());
        lemma_parts_no_sep(Seq::<char>::empty());
        lemma_depth_single(Seq::<char>::empty());
        assert(dir.len() > 0);
        assert(p.subrange(0, dir.len() as int) =~= dir);
        assert(part_step(Seq::<char>::empty()) == 0);
    }
    reveal_strlit("..");
    reveal_strlit(".");
    assert(".."@ =~= seq!['.', '.']);
    if !is_absolute_path(p) && (forall|i: int| 0 <= i < p.len() ==> !is_separator(#[trigger] p[i])) {
        lemma_parts_no_sep(p);
        lemma_depth_single(p);
    }
    if !is_absolute_path(p) && p.len() >= 3 && p[0] == '.' && p[1] == '.' && is_separator(p[2]) {
        let q = p.subrange(0, 2);
        assert(q =~= seq!['.', '.']);
        lemma_parts_no_sep(q);
        lemma_first_part(p, 2, q);
        lemma_depth_single(q);
        let parts = path_parts(p);
        assert(parts.take(1) =~= seq![q]);
        if never_above(parts) {
            lemma_never_above_prefixes(parts, 1);
        }
    }
}

/// The parts of a text without separators: just the text.
proof fn lemma_parts_no_sep(q: Seq<char>)
    requires
        forall|i: int| 0 <= i < q.len() ==> !is_separator(#[trigger] q[i]),
    ensures
        path_parts(q) == seq![q],
    decreases q.len(),
{
    if q.len() == 0 {
        assert(q =~= Seq::<char>::empty());
        assert(path_parts(q) =~= seq![q]);
    } else {
        let r = q.drop_last();
        assert forall|i: int| 0 <= i < r.len() implies !is_separator(#[trigger] r[i]) by {
            assert(r[i] == q[i]);
        }
        lemma_parts_no_sep(r);
        assert(r.push(q.last()) =~= q);
        assert(seq![r].update(0, r.push(q.last())) =~= seq![q]);
    }
}

/// The depth of a single part is its step.
proof fn lemma_depth_single(q: Seq<char>)
    ensures
        depth_of(seq![q]) == part_step(q),
        never_above(seq![q]) <==> part_step(q) >= 0,
{
    let s = seq![q];
    assert(s.drop_last() =~= Seq::<Seq<char>>::empty());
    assert(depth_of(s.drop_last()) == 0);
    assert(never_above(s.drop_last()));
}

/// When `p` starts with `q` (no separators in it) and then a separator,
/// the first part of `p` is `q`.
proof fn lemma_first_part(p: Seq<char>, n: int, q: Seq<char>)
    requires
        0 < n < p.len(),
        q == p.subrange(0, n),
        path_parts(q) == seq![q],
        is_separator(p[n]),
    ensures
        path_parts(p).len() >= 2,
        path_parts(p)[0] == q,
    decreases p.len(),
{
    let r = p.drop_last();
    if r.len() == n {
        assert(r =~= q);
        assert(is_separator(p.last()));
    } else {
        assert(r.subrange(0, n) =~= q);
        assert(r[n] == p[n]);
        lemma_first_part(r, n, q);
    }
}

/// A sequence of parts that never climbs above the start stays at or below
/// it after each of its first `k` parts.
proof fn lemma_never_above_prefixes(parts: Seq<Seq<char>>, k: int)
    requires
        never_above(parts),
        1 <= k <= parts.len(),
    ensures
        depth_of(parts.take(k)) >= 0,
    decreases parts.len(),
{
    if k == parts.len() {
        assert(parts.take(k) =~= parts);
    } else {
        assert(parts.drop_last().take(k) =~= parts.take(k));
        lemma_never_above_prefixes(parts.drop_last(), k);
    }
}

/// The read window starts at the given line (line 1 when the offset is
/// absent or 0) and shows at most the given number of lines (2000 when the
/// limit is absent).
pub proof fn law_window_defaults(offset: Option<u64>, limit: Option<u64>)
    ensures
        offset matches Some(o) ==> (o >= 1 ==> first_line(offset) == o as usize) && (o == 0
            ==> first_line(offset) == 1),
        offset is None ==> first_line(offset) == 1,
        limit matches Some(l) ==> line_limit(limit) == l as usize,
        limit is None ==> line_limit(limit) == 2000,
{
}


/// A process's reported output keeps all of its standard output first and
/// all of its standard error last, with one newline between them when both
/// are present.
pub proof fn law_process_output_keeps_both(stdout: Seq<char>, stderr: Seq<char>)
    ensures
        has_prefix(combined(stdout, stderr), stdout),
        has_suffix(combined(stdout, stderr), stderr),
        combined(stdout, stderr).len() == stdout.len() + stderr.len() + (if stdout.len() > 0
            && stderr.len() > 0 {
            1int
        } else {
            0int
        }),
{
    reveal_strlit("\n");
    let c = combined(stdout, stderr);
    assert(c.subrange(0, stdout.len() as int) =~= stdout);
    assert(c.subrange(c.len() - stderr.len(), c.len() as int) =~= stderr);
}

} // verus!
