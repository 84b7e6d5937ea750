//! Command construction: the exact argument lists handed to the external
//! archiver and linker, the filesystem actions the pipeline performs itself,
//! and the uniform space-joined labels under which every step is logged.

use vstd::prelude::*;
use vstd::string::StringExecFns;

verus! {

/// The words of a command line joined by single spaces.
pub open spec fn join_words(words: Seq<Seq<char>>) -> Seq<char>
    decreases words.len(),
{
    if words.len() == 0 {
        Seq::empty()
    } else if words.len() == 1 {
        words[0]
    } else {
        words[0] + seq![' '] + join_words(words.drop_first())
    }
}

/// Appending one more word to a join appends a separating space and the word.
pub proof fn lemma_join_words_push(words: Seq<Seq<char>>, w: Seq<char>)
    ensures
        join_words(words.push(w)) == if words.len() == 0 {
            w
        } else {
            join_words(words) + seq![' '] + w
        },
    decreases words.len(),
{
    let p = words.push(w);
    if words.len() == 0 {
        assert(p =~= seq![w]);
        assert(join_words(seq![w]) == w);
    } else if words.len() == 1 {
        assert(p[0] == words[0]);
        assert(p.drop_first() =~= seq![w]);
        assert(join_words(p) == p[0] + seq![' '] + join_words(p.drop_first()));
        assert(join_words(seq![w]) == w);
        assert(join_words(words) == words[0]);
    } else {
        lemma_join_words_push(words.drop_first(), w);
        assert(p[0] == words[0]);
        assert(p.drop_first() =~= words.drop_first().push(w));
        assert(join_words(p) == p[0] + seq![' '] + join_words(p.drop_first()));
        assert(join_words(p.drop_first()) == join_words(words.drop_first()) + seq![' '] + w);
        assert(words[0] + seq![' '] + (join_words(words.drop_first()) + seq![' '] + w) =~= (
        words[0] + seq![' '] + join_words(words.drop_first())) + seq![' '] + w);
    }
}

/// Joins argument strings with single spaces, for uniform command logging.
pub fn args_to_str(strs: &Vec<String>) -> (r: String)
    ensures
        r@ == join_words(strs.deep_view()),
{
    let ghost words = strs.deep_view();
    let mut r = String::new();
    let mut i: usize = 0;
    while i < strs.len()
        invariant
            i <= strs.len(),
            words == strs.deep_view(),
            r@ == join_words(words.take(i as int)),
        decreases strs.len() - i,
    {
        if i > 0 {
            r.append(" ");
            proof {
                reveal_strlit(" ");
                assert(" "@ =~= seq![' ']);
            }
        }
        r.append(strs[i].as_str());
        proof {
            lemma_join_words_push(words.take(i as int), words[i as int]);
            assert(words.take(i as int).push(words[i as int]) =~= words.take(i + 1));
            if i == 0 {
                assert(Seq::<char>::empty() + words[0] =~= words[0]);
            }
        }
        i = i + 1;
    }
    proof {
        assert(words.take(strs.len() as int) =~= words);
    }
    r
}

/// The actions the archiver may be asked to perform on a static archive.
#[derive(Clone, Copy, PartialEq, Eq, Structural, Debug)]
pub enum ArchiveAction {
    Extract,
    Replace,
}

/// The archiver's flag for an archive action.
pub open spec fn archive_flag(a: ArchiveAction) -> Seq<char> {
    match a {
        ArchiveAction::Extract => "-x"@,
        ArchiveAction::Replace => "-r"@,
    }
}

impl ArchiveAction {
    /// The archiver's flag for this action.
    pub fn to_str(&self) -> (r: &'static str)
        ensures
            r@ == archive_flag(*self),
    {
        match self {
            ArchiveAction::Extract => "-x",
            ArchiveAction::Replace => "-r",
        }
    }
}

/// One command line for an external tool: the program and its ordered
/// argument list.
pub struct CommandLine {
    pub program: String,
    pub args: Vec<String>,
}

/// Mathematical image of a command line.
pub struct CommandLineModel {
    pub program: Seq<char>,
    pub args: Seq<Seq<char>>,
}

impl View for CommandLine {
    type V = CommandLineModel;

    open spec fn view(&self) -> CommandLineModel {
        CommandLineModel { program: self.program@, args: self.args.deep_view() }
    }
}

/// What captured output one executed step reports back: its exit status and
/// the two output streams. Exit status zero is the only success signal.
pub struct ProgramOutput {
    pub status: i32,
    pub out: String,
    pub err: String,
}

/// The one external action a pipeline step performs.
pub enum StepAction {
    /// Run an external program and wait for it.
    RunProgram(CommandLine),
    /// Copy a file, creating or overwriting the destination.
    CopyFile { from: String, to: String },
    /// Set the file's permission bits to `perms::user_read_write` of its
    /// existing bits.
    MakeWriteable { path: String },
    /// Rename a file over the destination path.
    RenameFile { from: String, to: String },
}

/// Mathematical image of a step action.
pub enum StepActionModel {
    RunProgram(CommandLineModel),
    CopyFile { from: Seq<char>, to: Seq<char> },
    MakeWriteable { path: Seq<char> },
    RenameFile { from: Seq<char>, to: Seq<char> },
}

impl View for StepAction {
    type V = StepActionModel;

    open spec fn view(&self) -> StepActionModel {
        match self {
            StepAction::RunProgram(line) => StepActionModel::RunProgram(line@),
            StepAction::CopyFile { from, to } => StepActionModel::CopyFile {
                from: from@,
                to: to@,
            },
            StepAction::MakeWriteable { path } => StepActionModel::MakeWriteable { path: path@ },
            StepAction::RenameFile { from, to } => StepActionModel::RenameFile {
                from: from@,
                to: to@,
            },
        }
    }
}

/// One unit of pipeline work: the action to perform and the label under
/// which its result is logged.
pub struct PlannedStep {
    pub label: String,
    pub action: StepAction,
}

/// Mathematical image of a planned step.
pub struct PlannedStepModel {
    pub label: Seq<char>,
    pub action: StepActionModel,
}

impl View for PlannedStep {
    type V = PlannedStepModel;

    open spec fn view(&self) -> PlannedStepModel {
        PlannedStepModel { label: self.label@, action: self.action@ }
    }
}

/// The uniform log label of a program invocation: program and arguments
/// joined by single spaces.
pub fn render_line(program: &str, args: &Vec<String>) -> (r: String)
    ensures
        r@ == join_words(seq![program@] + args.deep_view()),
{
    let ghost words = seq![program@] + args.deep_view();
    let mut all: Vec<String> = Vec::new();
    all.push(String::from_str(program));
    assert(all.deep_view() =~= words.take(1));
    let mut i: usize = 0;
    while i < args.len()
        invariant
            i <= args.len(),
            words == seq![program@] + args.deep_view(),
            all.deep_view() == words.take(i + 1),
        decreases args.len() - i,
    {
        all.push(args[i].clone());
        assert(all.deep_view() =~= words.take(i + 1).push(args.deep_view()[i as int]));
        assert(words.take(i + 1).push(words[i + 1]) =~= words.take(i + 2));
        i = i + 1;
    }
    assert(words.take(args.len() + 1) =~= words);
    args_to_str(&all)
}

/// Plans the archiver invocation for one archive action:
/// `ar <action-flag> <archive> <member>`, in that order.
pub fn archive_file(what: ArchiveAction, lib_out: &str, obj_in: &str) -> (r: PlannedStep)
    ensures
        r@ == archive_step(what, lib_out@, obj_in@),
{
    let mut args: Vec<String> = Vec::new();
    args.push(String::from_str(what.to_str()));
    args.push(String::from_str(lib_out));
    args.push(String::from_str(obj_in));
    assert(args.deep_view() =~= seq![archive_flag(what), lib_out@, obj_in@]);
    let label = render_line("ar", &args);
    assert(seq!["ar"@] + args.deep_view() =~= seq![
        "ar"@,
        archive_flag(what),
        lib_out@,
        obj_in@,
    ]);
    PlannedStep {
        label,
        action: StepAction::RunProgram(CommandLine { program: String::from_str("ar"), args }),
    }
}

/// The planned archiver step for one archive action.
pub open spec fn archive_step(a: ArchiveAction, lib: Seq<char>, obj: Seq<char>) -> PlannedStepModel {
    PlannedStepModel {
        label: join_words(seq!["ar"@, archive_flag(a), lib, obj]),
        action: StepActionModel::RunProgram(
            CommandLineModel { program: "ar"@, args: seq![archive_flag(a), lib, obj] },
        ),
    }
}

/// Symbol rename pairs flattened for the linker command line: each pair
/// contributes its original name and then its new name.
pub open spec fn flatten_pairs(ps: Seq<(Seq<char>, Seq<char>)>) -> Seq<Seq<char>>
    decreases ps.len(),
{
    if ps.len() == 0 {
        Seq::empty()
    } else {
        seq![ps[0].0, ps[0].1] + flatten_pairs(ps.drop_first())
    }
}

/// Flattening one more pair appends its two names.
pub proof fn lemma_flatten_pairs_push(ps: Seq<(Seq<char>, Seq<char>)>, p: (Seq<char>, Seq<char>))
    ensures
        flatten_pairs(ps.push(p)) == flatten_pairs(ps) + seq![p.0, p.1],
    decreases ps.len(),
{
    let q = ps.push(p);
    if ps.len() == 0 {
        assert(q =~= seq![p]);
        assert(seq![p].drop_first() =~= Seq::<(Seq<char>, Seq<char>)>::empty());
        assert(flatten_pairs(seq![p]) == seq![p.0, p.1] + flatten_pairs(
            Seq::<(Seq<char>, Seq<char>)>::empty(),
        ));
        assert(seq![p.0, p.1] + Seq::<Seq<char>>::empty() =~= seq![p.0, p.1]);
        assert(Seq::<Seq<char>>::empty() + seq![p.0, p.1] =~= seq![p.0, p.1]);
    } else {
        lemma_flatten_pairs_push(ps.drop_first(), p);
        assert(q[0] == ps[0]);
        assert(q.drop_first() =~= ps.drop_first().push(p));
        assert(seq![ps[0].0, ps[0].1] + (flatten_pairs(ps.drop_first()) + seq![p.0, p.1]) =~= (
        seq![ps[0].0, ps[0].1] + flatten_pairs(ps.drop_first())) + seq![p.0, p.1]);
    }
}

/// The linker argument list for one relink: merge flag, input object, output
/// flag, output object, then the alias flag followed by the flattened rename
/// pairs, then the unexported-symbol flag followed by the hidden names. Both
/// flags are always present; an empty list simply contributes no names after
/// its flag.
pub open spec fn relink_args(
    obj_in: Seq<char>,
    obj_out: Seq<char>,
    aliases: Seq<(Seq<char>, Seq<char>)>,
    unexported: Seq<Seq<char>>,
) -> Seq<Seq<char>> {
    seq!["-r"@, obj_in, "-o"@, obj_out, "-alias"@] + flatten_pairs(aliases) + seq![
        "-unexported_symbol"@,
    ] + unexported
}

/// The planned linker step for one relink.
pub open spec fn relink_step(
    obj_in: Seq<char>,
    obj_out: Seq<char>,
    aliases: Seq<(Seq<char>, Seq<char>)>,
    unexported: Seq<Seq<char>>,
) -> PlannedStepModel {
    PlannedStepModel {
        label: join_words(seq!["ld"@] + relink_args(obj_in, obj_out, aliases, unexported)),
        action: StepActionModel::RunProgram(
            CommandLineModel {
                program: "ld"@,
                args: relink_args(obj_in, obj_out, aliases, unexported),
            },
        ),
    }
}

/// Plans the linker invocation that merges one relocatable object into a new
/// one while aliasing the renamed symbols and hiding the unexported ones:
/// `ld -r <input> -o <output> -alias <old> <new> ... -unexported_symbol
/// <name> ...`.
pub fn load_file(
    obj_in: &str,
    obj_out: &str,
    aliases: &Vec<(String, String)>,
    unexported_symbols: &Vec<String>,
) -> (r: PlannedStep)
    ensures
        r@ == relink_step(obj_in@, obj_out@, aliases.deep_view(), unexported_symbols.deep_view()),
{
    let ghost pairs = aliases.deep_view();
    let ghost hidden = unexported_symbols.deep_view();
    let mut args: Vec<String> = Vec::new();
    args.push(String::from_str("-r"));
    args.push(String::from_str(obj_in));
    args.push(String::from_str("-o"));
    args.push(String::from_str(obj_out));
    args.push(String::from_str("-alias"));
    let ghost head = seq!["-r"@, obj_in@, "-o"@, obj_out@, "-alias"@];
    assert(args.deep_view() =~= head + flatten_pairs(pairs.take(0)));
    let mut i: usize = 0;
    while i < aliases.len()
        invariant
            i <= aliases.len(),
            pairs == aliases.deep_view(),
            head == seq!["-r"@, obj_in@, "-o"@, obj_out@, "-alias"@],
            args.deep_view() == head + flatten_pairs(pairs.take(i as int)),
        decreases aliases.len() - i,
    {
        let ghost before = args.deep_view();
        let ghost pa = pairs[i as int].0;
        let ghost pb = pairs[i as int].1;
        args.push(aliases[i].0.clone());
        assert(args.deep_view() =~= before.push(pa));
        args.push(aliases[i].1.clone());
        assert(args.deep_view() =~= before.push(pa).push(pb));
        proof {
            lemma_flatten_pairs_push(pairs.take(i as int), pairs[i as int]);
            assert(pairs.take(i as int).push(pairs[i as int]) =~= pairs.take(i + 1));
            assert(flatten_pairs(pairs.take(i + 1)) == flatten_pairs(pairs.take(i as int)) + seq![
                pa,
                pb,
            ]);
            assert(before.push(pa).push(pb) =~= head + (flatten_pairs(pairs.take(i as int)) + seq![
                pa,
                pb,
            ]));
        }
        i = i + 1;
    }
    assert(pairs.take(aliases.len() as int) =~= pairs);
    args.push(String::from_str("-unexported_symbol"));
    let ghost mid = head + flatten_pairs(pairs) + seq!["-unexported_symbol"@];
    assert(args.deep_view() =~= mid + hidden.take(0));
    let mut j: usize = 0;
    while j < unexported_symbols.len()
        invariant
            j <= unexported_symbols.len(),
            hidden == unexported_symbols.deep_view(),
            mid == head + flatten_pairs(pairs) + seq!["-unexported_symbol"@],
            args.deep_view() == mid + hidden.take(j as int),
        decreases unexported_symbols.len() - j,
    {
        let ghost before = args.deep_view();
        args.push(unexported_symbols[j].clone());
        assert(args.deep_view() =~= before.push(hidden[j as int]));
        assert(before.push(hidden[j as int]) =~= mid + hidden.take(j + 1));
        j = j + 1;
    }
    assert(hidden.take(unexported_symbols.len() as int) =~= hidden);
    assert(args.deep_view() =~= relink_args(obj_in@, obj_out@, pairs, hidden));
    let label = render_line("ld", &args);
    assert(seq!["ld"@] + args.deep_view() =~= seq!["ld"@] + relink_args(
        obj_in@,
        obj_out@,
        pairs,
        hidden,
    ));
    PlannedStep {
        label,
        action: StepAction::RunProgram(CommandLine { program: String::from_str("ld"), args }),
    }
}

/// The planned copy step: the destination is created or overwritten from the
/// source, reported under a `cp`-shaped label.
pub open spec fn copy_step(from: Seq<char>, to: Seq<char>) -> PlannedStepModel {
    PlannedStepModel {
        label: join_words(seq!["cp"@, from, to]),
        action: StepActionModel::CopyFile { from, to },
    }
}

/// Plans the copy of the installed library into the build directory.
pub fn copy_file_step(from: &str, to: &str) -> (r: PlannedStep)
    ensures
        r@ == copy_step(from@, to@),
{
    let label = label3("cp", from, to);
    PlannedStep {
        label,
        action: StepAction::CopyFile { from: String::from_str(from), to: String::from_str(to) },
    }
}

/// The planned permission step: user read and write bits added to the
/// file's existing mode, reported under a `chmod`-shaped label.
pub open spec fn make_writeable_step(path: Seq<char>) -> PlannedStepModel {
    PlannedStepModel {
        label: join_words(seq!["chmod"@, "u+rw"@, path]),
        action: StepActionModel::MakeWriteable { path },
    }
}

/// Plans the permission adjustment that makes the file readable and
/// writeable by its owner while keeping every existing bit (the new bits are
/// `perms::user_read_write` of the old ones).
pub fn make_writeable_by_user(file: &str) -> (r: PlannedStep)
    ensures
        r@ == make_writeable_step(file@),
{
    let label = label3("chmod", "u+rw", file);
    PlannedStep { label, action: StepAction::MakeWriteable { path: String::from_str(file) } }
}

/// The planned rename step, reported under a `mv`-shaped label.
pub open spec fn rename_step(from: Seq<char>, to: Seq<char>) -> PlannedStepModel {
    PlannedStepModel {
        label: join_words(seq!["mv"@, from, to]),
        action: StepActionModel::RenameFile { from, to },
    }
}

/// Plans the rename of the relinked object over the extracted one.
pub fn rename_file(from: &str, to: &str) -> (r: PlannedStep)
    ensures
        r@ == rename_step(from@, to@),
{
    let label = label3("mv", from, to);
    PlannedStep {
        label,
        action: StepAction::RenameFile { from: String::from_str(from), to: String::from_str(to) },
    }
}

/// Three words joined by single spaces.
fn label3(a: &str, b: &str, c: &str) -> (r: String)
    ensures
        r@ == join_words(seq![a@, b@, c@]),
{
    let mut args: Vec<String> = Vec::new();
    args.push(String::from_str(b));
    args.push(String::from_str(c));
    assert(args.deep_view() =~= seq![b@, c@]);
    let r = render_line(a, &args);
    assert(seq![a@] + args.deep_view() =~= seq![a@, b@, c@]);
    r
}

/// A directory path extended by one component, with a single separator.
pub open spec fn path_join(dir: Seq<char>, name: Seq<char>) -> Seq<char> {
    dir + seq!['/'] + name
}

/// Extends a directory path by one component.
pub fn join_path(dir: &str, name: &str) -> (r: String)
    ensures
        r@ == path_join(dir@, name@),
{
    let mut r = String::from_str(dir);
    r.append("/");
    proof {
        reveal_strlit("/");
        assert("/"@ =~= seq!['/']);
    }
    r.append(name);
    r
}

/// Logging seam: yields the line to emit for one debug message; the caller
/// prints it on whatever channel it logs to.
pub fn say(s: &str) -> (r: String)
    ensures
        r@ == s@,
{
    String::from_str(s)
}

} // verus!
