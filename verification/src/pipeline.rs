//! The pipeline builder.
//!
//! A line that holds `|` becomes a chain of sub-commands. The builder first
//! takes every `>` and the path after it off the line (the last such path is
//! the file that the final stage writes to; `<` has no meaning here and
//! stays as a word), then cuts what is left at each `|`. For each stage it
//! says where the stage reads from and writes to, and whether the caller
//! waits for it. Creating the processes and the pipes is the caller's part.

use vstd::prelude::*;
use crate::syntax::{has_pipe, has_pipe_pair, pipe_misplaced, pipe_pair_at};
use crate::token::{is_output_operator, is_pipe_operator, output_operator, pipe_operator};

verus! {

/// The sub-commands of a line and the file that the last one writes to.
#[derive(Debug, PartialEq, Eq)]
pub struct Pipeline<'a> {
    /// The sub-commands, from left to right: a program name and its
    /// arguments each.
    pub commands: Vec<Vec<&'a str>>,
    /// The file that takes the output of the last stage, if the line names
    /// one.
    pub output_file: Option<&'a str>,
}

/// Where a stage reads its standard input from.
#[derive(Clone, Copy, Debug, PartialEq, Eq, Structural)]
pub enum Source {
    /// The input stream of the controller.
    Inherited,
    /// The read end of the pipe that the stage before writes to.
    Pipe,
}

/// Where a stage writes its standard output to.
#[derive(Clone, Copy, Debug, PartialEq, Eq)]
pub enum Sink<'a> {
    /// The output stream of the controller.
    Inherited,
    /// The write end of a new pipe, which the next stage reads from.
    Pipe,
    /// The named file, created or truncated.
    File(&'a str),
}

/// How one stage of a pipeline is connected.
#[derive(Clone, Copy, Debug, PartialEq, Eq)]
pub struct Wiring<'a> {
    /// Where the stage reads from.
    pub input: Source,
    /// Where the stage writes to.
    pub output: Sink<'a>,
    /// Whether the controller waits for this stage: it does for the last
    /// stage only.
    pub awaited: bool,
}

// ---------------------------------------------------------------------------
// What a line means as a pipeline
// ---------------------------------------------------------------------------

/// The contents of a vector of vectors.
pub open spec fn rows<'a>(commands: Seq<Vec<&'a str>>) -> Seq<Seq<&'a str>> {
    Seq::new(commands.len(), |i: int| commands[i]@)
}

/// The line without output redirection: every `>` is gone, together with
/// the token after it where there is one.
pub open spec fn pipeline_words<'a>(tokens: Seq<&'a str>) -> Seq<&'a str>
    decreases tokens.len(),
{
    if tokens.len() == 0 {
        Seq::empty()
    } else if !output_operator(tokens[0]) {
        seq![tokens[0]] + pipeline_words(tokens.skip(1))
    } else if tokens.len() == 1 {
        Seq::empty()
    } else {
        pipeline_words(tokens.skip(2))
    }
}

/// The second choice unless the first has a value.
pub open spec fn later_or<'a>(later: Option<&'a str>, earlier: Option<&'a str>) -> Option<
    &'a str,
> {
    if later is Some {
        later
    } else {
        earlier
    }
}

/// The output file of the line: the token after the last `>` that has a
/// token after it. The line is read from left to right, and a `>` takes the
/// next token whatever it is.
pub open spec fn pipeline_output<'a>(tokens: Seq<&'a str>) -> Option<&'a str>
    decreases tokens.len(),
{
    if tokens.len() == 0 {
        None
    } else if !output_operator(tokens[0]) {
        pipeline_output(tokens.skip(1))
    } else if tokens.len() == 1 {
        None
    } else {
        later_or(pipeline_output(tokens.skip(2)), Some(tokens[1]))
    }
}

/// The sub-commands of a line: its runs of tokens between the `|`, from
/// left to right, empty runs left out.
///
/// Read from the end of the line: a `|` adds nothing; a word extends the
/// last sub-command if the token before it is a word, and starts a new
/// sub-command otherwise.
pub open spec fn segments<'a>(words: Seq<&'a str>) -> Seq<Seq<&'a str>>
    decreases words.len(),
{
    if words.len() == 0 {
        Seq::empty()
    } else {
        let before = segments(words.drop_last());
        if pipe_operator(words.last()) {
            before
        } else if words.len() >= 2 && !pipe_operator(words[words.len() - 2]) {
            before.drop_last().push(before.last().push(words.last()))
        } else {
            before.push(seq![words.last()])
        }
    }
}

/// The finished sub-commands, followed by the one being read if it has a
/// token yet.
pub open spec fn with_open<'a>(done: Seq<Seq<&'a str>>, open: Seq<&'a str>) -> Seq<
    Seq<&'a str>,
> {
    if open.len() > 0 {
        done.push(open)
    } else {
        done
    }
}

/// How stage number `stage` of `count` stages is connected: the first reads
/// what the controller reads, every other one reads from the stage before
/// it; the last writes to the output file, or where the controller writes,
/// every other one writes to the stage after it; the last is waited for.
pub open spec fn wiring_of<'a>(count: int, output_file: Option<&'a str>, stage: int) -> Wiring<
    'a,
> {
    Wiring {
        input: if stage == 0 {
            Source::Inherited
        } else {
            Source::Pipe
        },
        output: if stage != count - 1 {
            Sink::Pipe
        } else {
            match output_file {
                Some(path) => Sink::File(path),
                None => Sink::Inherited,
            }
        },
        awaited: stage == count - 1,
    }
}

impl<'a> Pipeline<'a> {
    /// The sub-commands as sequences of tokens.
    pub open spec fn stages(self) -> Seq<Seq<&'a str>> {
        rows(self.commands@)
    }

    /// Every sub-command has a program name, and none holds a `|`.
    pub open spec fn wf(self) -> bool {
        forall|k: int|
            0 <= k < self.stages().len() ==> {
                &&& (#[trigger] self.stages()[k]).len() > 0
                &&& forall|j: int|
                    0 <= j < self.stages()[k].len() ==> !pipe_operator(
                        #[trigger] self.stages()[k][j],
                    )
            }
    }

    /// The number of stages.
    pub fn stage_count(&self) -> (count: usize)
        ensures
            count == self.stages().len(),
    {
        self.commands.len()
    }

    /// How the given stage is connected, or `None` if the pipeline has no
    /// such stage.
    pub fn wiring(&self, stage: usize) -> (wiring: Option<Wiring<'a>>)
        ensures
            stage < self.stages().len() ==> wiring == Some(
                wiring_of(self.stages().len() as int, self.output_file, stage as int),
            ),
            stage >= self.stages().len() ==> wiring is None,
    {
        let count: usize = self.commands.len();
        if stage >= count {
            return None;
        }
        let input = if stage == 0 {
            Source::Inherited
        } else {
            Source::Pipe
        };
        let last: bool = stage == count - 1;
        let output = if !last {
            Sink::Pipe
        } else {
            match self.output_file {
                Some(path) => Sink::File(path),
                None => Sink::Inherited,
            }
        };
        Some(Wiring { input, output, awaited: last })
    }
}

// ---------------------------------------------------------------------------
// Building
// ---------------------------------------------------------------------------

/// Takes output redirection off a line: hands back the line without any `>`
/// and without the token after each, and the last token so removed, which
/// names the output file.
pub fn strip_output<'a>(args: &Vec<&'a str>) -> (stripped: (Vec<&'a str>, Option<&'a str>))
    ensures
        stripped.0@ == pipeline_words(args@),
        stripped.1 == pipeline_output(args@),
{
    let n: usize = args.len();
    let mut words: Vec<&'a str> = Vec::new();
    let mut output: Option<&'a str> = None;
    let mut i: usize = 0;
    assert(args@.skip(0) =~= args@);
    while i < n
        invariant
            n == args@.len(),
            i <= n,
            pipeline_words(args@) == words@ + pipeline_words(args@.skip(i as int)),
            pipeline_output(args@) == later_or(pipeline_output(args@.skip(i as int)), output),
        decreases n - i,
    {
        let token = args[i];
        let ghost rest = args@.skip(i as int);
        assert(rest[0] == token);
        if is_output_operator(token) {
            if i + 1 < n {
                assert(rest[1] == args@[i + 1]);
                assert(rest.skip(2) =~= args@.skip(i + 2));
                output = Some(args[i + 1]);
                i += 2;
            } else {
                assert(rest.len() == 1);
                assert(args@.skip(i + 1).len() == 0);
                i += 1;
            }
        } else {
            assert(rest.skip(1) =~= args@.skip(i + 1));
            assert(words@.push(token) + pipeline_words(rest.skip(1)) =~= words@ + (seq![token]
                + pipeline_words(rest.skip(1))));
            words.push(token);
            i += 1;
        }
    }
    assert(args@.skip(n as int).len() == 0);
    (words, output)
}

/// Cuts a line at each `|` into its sub-commands, from left to right. Where
/// nothing stands between two `|`, before the first or after the last, no
/// sub-command is made.
pub fn split_at_pipes<'a>(words: &Vec<&'a str>) -> (commands: Vec<Vec<&'a str>>)
    ensures
        rows(commands@) == segments(words@),
{
    let n: usize = words.len();
    let mut commands: Vec<Vec<&'a str>> = Vec::new();
    let mut current: Vec<&'a str> = Vec::new();
    let mut i: usize = 0;
    assert(rows(commands@) =~= Seq::empty());
    while i < n
        invariant
            n == words@.len(),
            i <= n,
            with_open(rows(commands@), current@) == segments(words@.take(i as int)),
            current@.len() > 0 <==> i > 0 && !pipe_operator(words@[i - 1]),
        decreases n - i,
    {
        let word = words[i];
        let ghost seen = words@.take(i + 1);
        let ghost before = with_open(rows(commands@), current@);
        assert(seen.drop_last() =~= words@.take(i as int));
        assert(seen.last() == word);
        assert(i > 0 ==> seen[seen.len() - 2] == words@[i - 1]);
        assert(segments(seen.drop_last()) == before);
        if is_pipe_operator(word) {
            assert(segments(seen) == before);
            if current.len() > 0 {
                assert(rows(commands@.push(current)) =~= rows(commands@).push(current@));
                commands.push(current);
                current = Vec::new();
            }
        } else {
            proof {
                if current@.len() > 0 {
                    assert(before.drop_last() =~= rows(commands@));
                    assert(before.last() == current@);
                    assert(segments(seen) == rows(commands@).push(current@.push(word)));
                } else {
                    assert(current@.push(word) =~= seq![word]);
                    assert(segments(seen) == rows(commands@).push(seq![word]));
                }
            }
            current.push(word);
        }
        i += 1;
    }
    assert(words@.take(n as int) =~= words@);
    if current.len() > 0 {
        assert(rows(commands@.push(current)) =~= rows(commands@).push(current@));
        commands.push(current);
    }
    commands
}

/// Builds the pipeline of a line from which the background marker has been
/// removed.
///
/// Every `>` is taken off the line together with the token after it; the
/// last such token is the output file of the final stage. `<` is not an
/// operator here and stays as a word. What is left is cut at each `|`, and
/// empty pieces are dropped.
pub fn handle_pipeline<'a>(args: Vec<&'a str>) -> (pipeline: Pipeline<'a>)
    ensures
        pipeline.stages() == segments(pipeline_words(args@)),
        pipeline.output_file == pipeline_output(args@),
        pipeline.wf(),
{
    let (words, output_file) = strip_output(&args);
    let commands = split_at_pipes(&words);
    proof {
        lemma_segments_are_commands(words@);
    }
    Pipeline { commands, output_file }
}

// ---------------------------------------------------------------------------
// Laws
// ---------------------------------------------------------------------------

/// Every sub-command holds at least one token, and none holds a `|`.
pub proof fn lemma_segments_are_commands(words: Seq<&str>)
    ensures
        forall|k: int|
            0 <= k < segments(words).len() ==> {
                &&& (#[trigger] segments(words)[k]).len() > 0
                &&& forall|j: int|
                    0 <= j < segments(words)[k].len() ==> !pipe_operator(
                        #[trigger] segments(words)[k][j],
                    )
            },
        words.len() > 0 && !pipe_operator(words.last()) ==> segments(words).len() > 0
            && segments(words).last().last() == words.last(),
    decreases words.len(),
{
    if words.len() > 0 {
        let init = words.drop_last();
        lemma_segments_are_commands(init);
        let before = segments(init);
        let cut = segments(words);
        if pipe_operator(words.last()) {
        } else if words.len() >= 2 && !pipe_operator(words[words.len() - 2]) {
            assert(init.last() == words[words.len() - 2]);
            let grown = before.last().push(words.last());
            assert(cut == before.drop_last().push(grown));
            assert forall|k: int| 0 <= k < cut.len() implies {
                &&& (#[trigger] cut[k]).len() > 0
                &&& forall|j: int| 0 <= j < cut[k].len() ==> !pipe_operator(#[trigger] cut[k][j])
            } by {
                if k < cut.len() - 1 {
                    assert(cut[k] == before[k]);
                } else {
                    assert(cut[k] == grown);
                    assert forall|j: int| 0 <= j < grown.len() implies !pipe_operator(
                        #[trigger] grown[j],
                    ) by {
                        if j < grown.len() - 1 {
                            assert(grown[j] == before.last()[j]);
                        }
                    }
                }
            }
        } else {
            assert(cut == before.push(seq![words.last()]));
            assert forall|k: int| 0 <= k < cut.len() implies {
                &&& (#[trigger] cut[k]).len() > 0
                &&& forall|j: int| 0 <= j < cut[k].len() ==> !pipe_operator(#[trigger] cut[k][j])
            } by {
                if k < cut.len() - 1 {
                    assert(cut[k] == before[k]);
                } else {
                    assert(cut[k] == seq![words.last()]);
                }
            }
        }
    }
}

/// The line that spells out the given sub-commands: each followed by `bar`
/// but the last.
pub open spec fn joined<'a>(commands: Seq<Seq<&'a str>>, bar: &'a str) -> Seq<&'a str>
    decreases commands.len(),
{
    if commands.len() == 0 {
        Seq::empty()
    } else if commands.len() == 1 {
        commands[0]
    } else {
        joined(commands.drop_last(), bar) + seq![bar] + commands.last()
    }
}

/// The sequence is a sub-command: it has a token, and no token of it is `|`.
pub open spec fn is_command(words: Seq<&str>) -> bool {
    &&& words.len() > 0
    &&& forall|j: int| 0 <= j < words.len() ==> !pipe_operator(#[trigger] words[j])
}

/// A sub-command written after the start of a line, or after a `|`, is cut
/// off as the last sub-command, and what stands before it is cut as before.
pub proof fn lemma_segments_of_appended_command(line: Seq<&str>, command: Seq<&str>)
    requires
        line.len() == 0 || pipe_operator(line.last()),
        is_command(command),
    ensures
        segments(line + command) == segments(line).push(command),
    decreases command.len(),
{
    let whole = line + command;
    let shorter = command.drop_last();
    let word = command.last();
    assert(whole.drop_last() =~= line + shorter);
    assert(whole.last() == word);
    if shorter.len() == 0 {
        assert(line + shorter =~= line);
        assert(command =~= seq![word]);
        assert(line.len() > 0 ==> whole[whole.len() - 2] == line.last());
    } else {
        assert(is_command(shorter)) by {
            assert forall|j: int| 0 <= j < shorter.len() implies !pipe_operator(
                #[trigger] shorter[j],
            ) by {
                assert(shorter[j] == command[j]);
            }
        }
        lemma_segments_of_appended_command(line, shorter);
        assert(whole[whole.len() - 2] == shorter.last());
        assert(shorter.last() == command[command.len() - 2]);
        let before = segments(line).push(shorter);
        assert(before.drop_last() =~= segments(line));
        assert(shorter.push(word) =~= command);
    }
}

/// Writing sub-commands out with `|` between them and building the pipeline
/// of that line gives the same sub-commands back, as many and in the same
/// order. The line so written is one that the pipeline check accepts.
pub proof fn lemma_join_then_split<'a>(commands: Seq<Seq<&'a str>>, bar: &'a str)
    requires
        pipe_operator(bar),
        forall|k: int| 0 <= k < commands.len() ==> is_command(#[trigger] commands[k]),
    ensures
        segments(joined(commands, bar)) == commands,
        !pipe_misplaced(joined(commands, bar)),
        commands.len() >= 2 ==> has_pipe(joined(commands, bar)),
        commands.len() > 0 ==> joined(commands, bar).len() > 0 && joined(commands, bar).last()
            == commands.last().last(),
    decreases commands.len(),
{
    let line = joined(commands, bar);
    if commands.len() == 0 {
        assert(!has_pipe_pair(line));
    } else if commands.len() == 1 {
        let only = commands[0];
        assert(Seq::<&str>::empty() + only =~= only);
        lemma_segments_of_appended_command(Seq::empty(), only);
        assert(segments(line) =~= commands);
        assert(!has_pipe_pair(line));
    } else {
        let init = commands.drop_last();
        let last = commands.last();
        let left = joined(init, bar);
        assert forall|k: int| 0 <= k < init.len() implies is_command(#[trigger] init[k]) by {
            assert(init[k] == commands[k]);
        }
        lemma_join_then_split(init, bar);
        let cut = left + seq![bar];
        assert(cut.drop_last() =~= left);
        assert(segments(cut) == init);
        lemma_segments_of_appended_command(cut, last);
        assert(init.push(last) =~= commands);
        assert(line == cut + last);
        assert(line[left.len() as int] == bar);
        assert(!pipe_operator(left.last()));
        assert(line[0] == left[0]);
        assert forall|i: int| !pipe_pair_at(line, i) by {
            if pipe_pair_at(line, i) {
                if i + 1 < left.len() {
                    assert(line[i] == left[i]);
                    assert(line[i + 1] == left[i + 1]);
                    assert(pipe_pair_at(left, i));
                } else if i + 1 == left.len() {
                    assert(line[i] == left.last());
                } else if i == left.len() {
                    assert(line[i + 1] == last[0]);
                } else {
                    assert(line[i] == last[i - left.len() - 1]);
                }
            }
        }
    }
}

/// The number of `|` on a line.
pub open spec fn pipe_count(words: Seq<&str>) -> nat
    decreases words.len(),
{
    if words.len() == 0 {
        0
    } else if pipe_operator(words.last()) {
        pipe_count(words.drop_last()) + 1
    } else {
        pipe_count(words.drop_last())
    }
}

/// On a line that does not start with `|` and holds no two `|` in a row,
/// each `|` closes one sub-command, and a last one stands after the last
/// `|` unless the line ends there.
pub proof fn lemma_segments_counted(words: Seq<&str>)
    requires
        words.len() > 0,
        !pipe_operator(words[0]),
        !has_pipe_pair(words),
    ensures
        segments(words).len() == pipe_count(words) + if pipe_operator(words.last()) {
            0int
        } else {
            1int
        },
        has_pipe(words) <==> pipe_count(words) > 0,
    decreases words.len(),
{
    let init = words.drop_last();
    if init.len() == 0 {
        assert(segments(init).len() == 0);
        if has_pipe(words) {
            let i = choose|i: int| 0 <= i < words.len() && pipe_operator(#[trigger] words[i]);
            assert(i == 0);
        }
    } else {
        assert(init[0] == words[0]);
        assert forall|i: int| !pipe_pair_at(init, i) by {
            if pipe_pair_at(init, i) {
                assert(init[i] == words[i]);
                assert(init[i + 1] == words[i + 1]);
                assert(pipe_pair_at(words, i));
            }
        }
        lemma_segments_counted(init);
        lemma_segments_are_commands(init);
        assert(init.last() == words[words.len() - 2]);
        if pipe_operator(words.last()) {
            assert(!pipe_pair_at(words, words.len() - 2));
        }
        if has_pipe(init) {
            let i = choose|i: int| 0 <= i < init.len() && pipe_operator(#[trigger] init[i]);
            assert(pipe_operator(words[i]));
        }
        if has_pipe(words) && !pipe_operator(words.last()) {
            let i = choose|i: int| 0 <= i < words.len() && pipe_operator(#[trigger] words[i]);
            assert(pipe_operator(init[i]));
        }
    }
}

/// A line that the pipeline check accepts has one sub-command more than it
/// has `|`: two at least if it has any. This is said of a line without `>`;
/// the builder takes output redirection off the line before it cuts.
pub proof fn lemma_accepted_pipeline_stage_count(words: Seq<&str>)
    requires
        words.len() > 0,
        !pipe_misplaced(words),
    ensures
        segments(words).len() == pipe_count(words) + 1,
        has_pipe(words) ==> segments(words).len() >= 2,
{
    lemma_segments_counted(words);
}

/// On a line without `>` the builder has nothing to take off: every token
/// is a word of the pipeline, and there is no output file.
pub proof fn lemma_no_output_redirection(tokens: Seq<&str>)
    requires
        forall|i: int| 0 <= i < tokens.len() ==> !output_operator(#[trigger] tokens[i]),
    ensures
        pipeline_words(tokens) == tokens,
        pipeline_output(tokens) is None,
    decreases tokens.len(),
{
    if tokens.len() > 0 {
        let rest = tokens.skip(1);
        assert forall|i: int| 0 <= i < rest.len() implies !output_operator(#[trigger] rest[i]) by {
            assert(rest[i] == tokens[i + 1]);
        }
        lemma_no_output_redirection(rest);
        assert(seq![tokens[0]] + rest =~= tokens);
    }
}

/// The stages form a chain: the first reads what the controller reads, and
/// every other stage reads from the pipe that the stage before it writes
/// to. The last stage alone writes elsewhere, to the output file if there is
/// one, and it alone is waited for.
pub proof fn lemma_stages_are_chained(count: int, output_file: Option<&str>, stage: int)
    requires
        0 <= stage < count,
    ensures
        stage == 0 <==> wiring_of(count, output_file, stage).input == Source::Inherited,
        stage > 0 ==> wiring_of(count, output_file, stage).input == Source::Pipe && wiring_of(
            count,
            output_file,
            stage - 1,
        ).output == Sink::Pipe,
        stage < count - 1 <==> wiring_of(count, output_file, stage).output == Sink::Pipe,
        stage == count - 1 <==> wiring_of(count, output_file, stage).awaited,
        stage == count - 1 ==> wiring_of(count, output_file, stage).output == match output_file {
            Some(path) => Sink::File(path),
            None => Sink::Inherited,
        },
{
}

/// The first sub-command of a line starts with the line's first token
/// where that token is a word.
pub proof fn lemma_first_segment_starts_line(words: Seq<&str>)
    requires
        words.len() > 0,
        !pipe_operator(words[0]),
    ensures
        segments(words).len() > 0,
        segments(words)[0].len() > 0,
        segments(words)[0][0] == words[0],
    decreases words.len(),
{
    let init = words.drop_last();
    let before = segments(init);
    let cut = segments(words);
    if init.len() == 0 {
        assert(before.len() == 0);
        assert(cut == before.push(seq![words.last()]));
        assert(cut[0] == seq![words.last()]);
    } else {
        assert(init[0] == words[0]);
        assert(init.last() == words[words.len() - 2]);
        lemma_first_segment_starts_line(init);
        if pipe_operator(words.last()) {
        } else if !pipe_operator(words[words.len() - 2]) {
            let grown = before.last().push(words.last());
            assert(cut == before.drop_last().push(grown));
            if before.len() == 1 {
                assert(cut[0] == grown);
                assert(grown[0] == before[0][0]);
            } else {
                assert(cut[0] == before[0]);
            }
        } else {
            assert(cut == before.push(seq![words.last()]));
            assert(cut[0] == before[0]);
        }
    }
}

} // verus!
